//! What the native camera back ends have in common: identities and structured errors.

use vstd::prelude::*;
use vstd::string::*;

use crate::error::{ErrorCategory, HalError, HalErrorView, HalResult};
use crate::resource::ResourceId;
use crate::text;
use crate::text::push_unreserved_encoded;

verus! {

/// A native camera interface.
#[derive(Clone, Copy, Debug, PartialEq, Eq, Structural)]
pub enum CameraBackend {
    V4l2,
    MediaFoundation,
    AvFoundation,
}

impl CameraBackend {
    /// The name of the adapter.
    pub open spec fn name(self) -> Seq<char> {
        match self {
            CameraBackend::V4l2 => "v4l2"@,
            CameraBackend::MediaFoundation => "mediafoundation"@,
            CameraBackend::AvFoundation => "avfoundation"@,
        }
    }

    /// The name of the adapter.
    pub fn adapter_name(self) -> (name: &'static str)
        ensures
            name@ == self.name(),
    {
        match self {
            CameraBackend::V4l2 => "v4l2",
            CameraBackend::MediaFoundation => "mediafoundation",
            CameraBackend::AvFoundation => "avfoundation",
        }
    }
}

/// The prefix of the identities of a back end.
pub open spec fn identity_prefix(backend: CameraBackend) -> Seq<char> {
    match backend {
        CameraBackend::V4l2 => "camera:v4l2:"@,
        CameraBackend::MediaFoundation => "camera:mediafoundation:"@,
        CameraBackend::AvFoundation => "camera:avfoundation:"@,
    }
}

/// The text of the identity that evidence gives.
pub open spec fn identity_text(backend: CameraBackend, evidence: Seq<char>) -> Seq<char> {
    identity_prefix(backend) + text::percent_encoded(
        vstd::utf8::encode_utf8(evidence),
        |byte: u8| text::unreserved(byte),
    )
}

/// Why there is no identity without evidence.
pub open spec fn no_evidence(backend: CameraBackend) -> Seq<char> {
    match backend {
        CameraBackend::V4l2 => "V4L2 identity evidence must not be empty"@,
        CameraBackend::MediaFoundation => "Media Foundation symbolic link must not be empty"@,
        CameraBackend::AvFoundation => "AVFoundation unique ID must not be empty"@,
    }
}

/// The error of a camera without evidence of its identity.
pub open spec fn no_evidence_error(backend: CameraBackend) -> HalErrorView {
    HalErrorView::new(
        "runtime.resource.invalid"@,
        ErrorCategory::InvalidArgument,
        "camera.identity"@,
        false,
        no_evidence(backend),
    )
}

/// The identity that evidence gives.
pub fn encode_resource_id(backend: CameraBackend, evidence: &str) -> (result: HalResult<ResourceId>)
    ensures
        match result {
            Ok(id) => evidence@.len() > 0 && id@ == identity_text(backend, evidence@),
            Err(error) => evidence@.len() == 0 && error@ == no_evidence_error(backend),
        },
{
    if evidence.is_empty() {
        let message = match backend {
            CameraBackend::V4l2 => "V4L2 identity evidence must not be empty",
            CameraBackend::MediaFoundation => "Media Foundation symbolic link must not be empty",
            CameraBackend::AvFoundation => "AVFoundation unique ID must not be empty",
        };
        return Err(
            HalError::fixed(
                "runtime.resource.invalid",
                ErrorCategory::InvalidArgument,
                "camera.identity",
                false,
                message,
            ),
        );
    }
    let mut id = match backend {
        CameraBackend::V4l2 => "camera:v4l2:",
        CameraBackend::MediaFoundation => "camera:mediafoundation:",
        CameraBackend::AvFoundation => "camera:avfoundation:",
    }.to_owned();
    push_unreserved_encoded(&mut id, evidence);
    Ok(ResourceId::new(id))
}

/// Cameras with different evidence have different identities.
pub proof fn law_identities_are_distinct(backend: CameraBackend, a: Seq<char>, b: Seq<char>)
    requires
        identity_text(backend, a) == identity_text(backend, b),
    ensures
        a == b,
{
    let prefix = identity_prefix(backend);
    let plain = |byte: u8| text::unreserved(byte);
    let encoded_a = text::percent_encoded(vstd::utf8::encode_utf8(a), plain);
    let encoded_b = text::percent_encoded(vstd::utf8::encode_utf8(b), plain);
    assert(encoded_a =~= (prefix + encoded_a).skip(prefix.len() as int));
    assert(encoded_b =~= (prefix + encoded_b).skip(prefix.len() as int));
    text::law_encodings_are_distinct(a, b);
}

/// The error of a system without the back end.
pub open spec fn unavailable_error(backend: CameraBackend, operation: Seq<char>) -> HalErrorView {
    HalErrorView::new(
        "runtime.adapter.unavailable"@,
        ErrorCategory::Unavailable,
        operation,
        false,
        match backend {
            CameraBackend::V4l2 => "native V4L2 camera support is unavailable on this platform"@,
            CameraBackend::MediaFoundation => {
                "Windows Media Foundation camera support is unavailable on this platform"@
            },
            CameraBackend::AvFoundation => {
                "AVFoundation camera support is unavailable on this platform"@
            },
        },
    )
}

/// The error of a system without the back end.
pub fn unavailable(backend: CameraBackend, operation: &'static str) -> (error: HalError)
    ensures
        error@ == unavailable_error(backend, operation@),
{
    let message = match backend {
        CameraBackend::V4l2 => "native V4L2 camera support is unavailable on this platform",
        CameraBackend::MediaFoundation => {
            "Windows Media Foundation camera support is unavailable on this platform"
        },
        CameraBackend::AvFoundation => {
            "AVFoundation camera support is unavailable on this platform"
        },
    };
    HalError::fixed(
        "runtime.adapter.unavailable",
        ErrorCategory::Unavailable,
        operation,
        false,
        message,
    )
}

/// The error of a failure of the platform.
pub open spec fn platform_failure(
    backend: CameraBackend,
    operation: Seq<char>,
    reason: Seq<char>,
) -> HalErrorView {
    HalErrorView::new(
        "runtime.transport.unavailable"@,
        ErrorCategory::Unavailable,
        operation,
        true,
        match backend {
            CameraBackend::V4l2 => "V4L2 error: "@,
            CameraBackend::MediaFoundation => "Media Foundation error: "@,
            CameraBackend::AvFoundation => "AVFoundation error: "@,
        } + reason,
    )
}

/// The error of a failure of the platform.
pub fn platform_error(backend: CameraBackend, operation: &'static str, reason: &str) -> (error: HalError)
    ensures
        error@ == platform_failure(backend, operation@, reason@),
{
    let mut message = match backend {
        CameraBackend::V4l2 => "V4L2 error: ",
        CameraBackend::MediaFoundation => "Media Foundation error: ",
        CameraBackend::AvFoundation => "AVFoundation error: ",
    }.to_owned();
    message.append(reason);
    HalError::new(
        "runtime.transport.unavailable",
        ErrorCategory::Unavailable,
        operation,
        true,
        message,
    )
}

/// The error of a worker that did not finish.
pub open spec fn worker_failure(
    backend: CameraBackend,
    operation: Seq<char>,
    reason: Seq<char>,
) -> HalErrorView {
    HalErrorView::new(
        "runtime.internal.worker_failed"@,
        ErrorCategory::Internal,
        operation,
        false,
        match backend {
            CameraBackend::V4l2 => "V4L2 worker failed: "@,
            CameraBackend::MediaFoundation => "Media Foundation worker failed: "@,
            CameraBackend::AvFoundation => "AVFoundation enumeration worker failed: "@,
        } + reason,
    )
}

/// The error of a worker that did not finish.
pub fn worker_failed(backend: CameraBackend, operation: &'static str, reason: &str) -> (error: HalError)
    ensures
        error@ == worker_failure(backend, operation@, reason@),
{
    let mut message = match backend {
        CameraBackend::V4l2 => "V4L2 worker failed: ",
        CameraBackend::MediaFoundation => "Media Foundation worker failed: ",
        CameraBackend::AvFoundation => "AVFoundation enumeration worker failed: ",
    }.to_owned();
    message.append(reason);
    HalError::new(
        "runtime.internal.worker_failed",
        ErrorCategory::Internal,
        operation,
        false,
        message,
    )
}

/// The error of a frame that is not what was negotiated.
pub open spec fn invalid_error(operation: Seq<char>, message: Seq<char>) -> HalErrorView {
    HalErrorView::new(
        "camera.frame.invalid"@,
        ErrorCategory::InvalidArgument,
        operation,
        false,
        message,
    )
}

/// The error of a frame that is not what was negotiated.
pub fn invalid(operation: &'static str, message: &'static str) -> (error: HalError)
    ensures
        error@ == invalid_error(operation@, message@),
{
    HalError::fixed(
        "camera.frame.invalid",
        ErrorCategory::InvalidArgument,
        operation,
        false,
        message,
    )
}

/// The error of an operation on a closed session.
pub open spec fn closed_error(
    backend: CameraBackend,
    operation: Seq<char>,
    id: Seq<char>,
) -> HalErrorView {
    HalErrorView::new(
        "runtime.session.closed"@,
        ErrorCategory::Conflict,
        operation,
        false,
        match backend {
            CameraBackend::V4l2 => "V4L2 camera session is closed"@,
            CameraBackend::MediaFoundation => "Media Foundation camera session is closed"@,
            CameraBackend::AvFoundation => "AVFoundation camera session is closed"@,
        },
    ).about(id)
}

/// The error of an operation on a closed session.
pub fn closed(backend: CameraBackend, operation: &'static str, id: &ResourceId) -> (error: HalError)
    ensures
        error@ == closed_error(backend, operation@, id@),
{
    let message = match backend {
        CameraBackend::V4l2 => "V4L2 camera session is closed",
        CameraBackend::MediaFoundation => "Media Foundation camera session is closed",
        CameraBackend::AvFoundation => "AVFoundation camera session is closed",
    };
    HalError::fixed(
        "runtime.session.closed",
        ErrorCategory::Conflict,
        operation,
        false,
        message,
    ).with_resource_id(id.copy())
}

/// The error of a camera that is already in use.
pub open spec fn conflict_error(backend: CameraBackend, id: Seq<char>) -> HalErrorView {
    HalErrorView::new(
        "runtime.adapter.conflict"@,
        ErrorCategory::Conflict,
        "camera.open"@,
        backend == CameraBackend::AvFoundation,
        match backend {
            CameraBackend::V4l2 => "V4L2 camera is already claimed by an active session"@,
            CameraBackend::MediaFoundation => {
                "Media Foundation camera is already claimed by an active session"@
            },
            CameraBackend::AvFoundation => {
                "AVFoundation camera is already claimed by an active session"@
            },
        },
    ).about(id)
}

/// The error of a camera that is already in use.
pub fn conflict(backend: CameraBackend, id: &ResourceId) -> (error: HalError)
    ensures
        error@ == conflict_error(backend, id@),
{
    let message = match backend {
        CameraBackend::V4l2 => "V4L2 camera is already claimed by an active session",
        CameraBackend::MediaFoundation => {
            "Media Foundation camera is already claimed by an active session"
        },
        CameraBackend::AvFoundation => {
            "AVFoundation camera is already claimed by an active session"
        },
    };
    HalError::fixed(
        "runtime.adapter.conflict",
        ErrorCategory::Conflict,
        "camera.open",
        backend == CameraBackend::AvFoundation,
        message,
    ).with_resource_id(id.copy())
}

/// The error of a camera that does not deliver the requested format.
pub open spec fn format_error(
    backend: CameraBackend,
    operation: Seq<char>,
    id: Seq<char>,
) -> HalErrorView {
    HalErrorView::new(
        "camera.format.unsupported"@,
        ErrorCategory::InvalidArgument,
        operation,
        false,
        match backend {
            CameraBackend::V4l2 => "V4L2 did not negotiate the requested exact camera format"@,
            CameraBackend::MediaFoundation => {
                "Media Foundation did not negotiate the requested exact camera format"@
            },
            CameraBackend::AvFoundation => {
                "AVFoundation did not deliver the requested verified camera format"@
            },
        },
    ).about(id)
}

/// The error of a camera that does not deliver the requested format.
pub fn format_unsupported(
    backend: CameraBackend,
    operation: &'static str,
    id: &ResourceId,
) -> (error: HalError)
    ensures
        error@ == format_error(backend, operation@, id@),
{
    let message = match backend {
        CameraBackend::V4l2 => "V4L2 did not negotiate the requested exact camera format",
        CameraBackend::MediaFoundation => {
            "Media Foundation did not negotiate the requested exact camera format"
        },
        CameraBackend::AvFoundation => {
            "AVFoundation did not deliver the requested verified camera format"
        },
    };
    HalError::fixed(
        "camera.format.unsupported",
        ErrorCategory::InvalidArgument,
        operation,
        false,
        message,
    ).with_resource_id(id.copy())
}

/// The error of a control that no camera of the back end offers.
pub open spec fn control_error(
    backend: CameraBackend,
    operation: Seq<char>,
    id: Seq<char>,
) -> HalErrorView {
    HalErrorView::new(
        "camera.control.unsupported"@,
        if backend == CameraBackend::AvFoundation {
            ErrorCategory::Conflict
        } else {
            ErrorCategory::InvalidArgument
        },
        operation,
        false,
        match backend {
            CameraBackend::V4l2 => "V4L2 camera controls are not advertised by this adapter slice"@,
            CameraBackend::MediaFoundation => {
                "Media Foundation camera controls are not advertised by this adapter slice"@
            },
            CameraBackend::AvFoundation => {
                "AVFoundation camera controls are not advertised by this adapter slice"@
            },
        },
    ).about(id)
}

/// The error of a control that no camera of the back end offers.
pub fn control_unsupported(
    backend: CameraBackend,
    operation: &'static str,
    id: &ResourceId,
) -> (error: HalError)
    ensures
        error@ == control_error(backend, operation@, id@),
{
    let message = match backend {
        CameraBackend::V4l2 => "V4L2 camera controls are not advertised by this adapter slice",
        CameraBackend::MediaFoundation => {
            "Media Foundation camera controls are not advertised by this adapter slice"
        },
        CameraBackend::AvFoundation => {
            "AVFoundation camera controls are not advertised by this adapter slice"
        },
    };
    let category = if backend == CameraBackend::AvFoundation {
        ErrorCategory::Conflict
    } else {
        ErrorCategory::InvalidArgument
    };
    HalError::fixed(
        "camera.control.unsupported",
        category,
        operation,
        false,
        message,
    ).with_resource_id(id.copy())
}

/// The error of a wait that was too long.
pub open spec fn timeout_failure(
    backend: CameraBackend,
    operation: Seq<char>,
    id: Seq<char>,
) -> HalErrorView {
    HalErrorView::new(
        "runtime.transport.timeout"@,
        ErrorCategory::Unavailable,
        operation,
        true,
        match backend {
            CameraBackend::V4l2 => "timed out waiting for a V4L2 video frame"@,
            CameraBackend::MediaFoundation => {
                "timed out waiting for a Media Foundation video frame"@
            },
            CameraBackend::AvFoundation => "timed out waiting for an AVFoundation video frame"@,
        },
    ).about(id)
}

/// The error of a wait that was too long.
pub fn timeout_error(
    backend: CameraBackend,
    operation: &'static str,
    id: &ResourceId,
) -> (error: HalError)
    ensures
        error@ == timeout_failure(backend, operation@, id@),
{
    let message = match backend {
        CameraBackend::V4l2 => "timed out waiting for a V4L2 video frame",
        CameraBackend::MediaFoundation => "timed out waiting for a Media Foundation video frame",
        CameraBackend::AvFoundation => "timed out waiting for an AVFoundation video frame",
    };
    HalError::fixed(
        "runtime.transport.timeout",
        ErrorCategory::Unavailable,
        operation,
        true,
        message,
    ).with_resource_id(id.copy())
}

/// An identity begins with the name of its back end, and keeps letters, digits and four marks of the
/// evidence as they are.
pub proof fn law_identities_name_their_back_end(evidence: Seq<char>, byte: u8)
    ensures
        ({
            let encoded = text::percent_encoded(
                vstd::utf8::encode_utf8(evidence),
                |byte: u8| text::unreserved(byte),
            );
            &&& identity_text(CameraBackend::V4l2, evidence) == "camera:v4l2:"@ + encoded
            &&& identity_text(CameraBackend::MediaFoundation, evidence)
                == "camera:mediafoundation:"@ + encoded
            &&& identity_text(CameraBackend::AvFoundation, evidence) == "camera:avfoundation:"@
                + encoded
        }),
        text::unreserved(byte) <==> {
            ||| 'a' as u8 <= byte <= 'z' as u8
            ||| 'A' as u8 <= byte <= 'Z' as u8
            ||| '0' as u8 <= byte <= '9' as u8
            ||| byte == 0x2d || byte == 0x2e || byte == 0x5f || byte == 0x7e
        },
{
}

/// What the errors of a camera mean: a camera without evidence, a system without cameras, a failure of
/// the system, a closed session, a camera in use, a format or a control that it does not have, and a
/// time that is over.
pub proof fn law_camera_errors_are_told_apart(
    backend: CameraBackend,
    operation: Seq<char>,
    reason: Seq<char>,
    id: Seq<char>,
)
    ensures
        no_evidence_error(backend).name == "runtime.resource.invalid"@,
        !no_evidence_error(backend).retryable,
        unavailable_error(backend, operation).category == ErrorCategory::Unavailable,
        !unavailable_error(backend, operation).retryable,
        platform_failure(backend, operation, reason).category == ErrorCategory::Unavailable,
        platform_failure(backend, operation, reason).operation == operation,
        closed_error(backend, operation, id).name == "runtime.session.closed"@,
        closed_error(backend, operation, id).category == ErrorCategory::Conflict,
        closed_error(backend, operation, id).resource_id == Some(id),
        conflict_error(backend, id).category == ErrorCategory::Conflict,
        conflict_error(backend, id).resource_id == Some(id),
        format_error(backend, operation, id).resource_id == Some(id),
        !format_error(backend, operation, id).retryable,
        control_error(backend, operation, id).name == "camera.control.unsupported"@,
        control_error(backend, operation, id).resource_id == Some(id),
        control_error(backend, operation, id).category == match backend {
            CameraBackend::V4l2 => ErrorCategory::InvalidArgument,
            CameraBackend::MediaFoundation => ErrorCategory::InvalidArgument,
            CameraBackend::AvFoundation => ErrorCategory::Conflict,
        },
        timeout_failure(backend, operation, id).name == "runtime.transport.timeout"@,
        timeout_failure(backend, operation, id).category == ErrorCategory::Unavailable,
        timeout_failure(backend, operation, id).retryable,
        timeout_failure(backend, operation, id).resource_id == Some(id),
{
}

} // verus!
