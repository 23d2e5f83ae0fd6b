//! Failures of sockets and netlink requests, and the structured errors that they become.

use vstd::prelude::*;
use vstd::string::*;

use crate::error::{ErrorCategory, HalError, HalErrorView, IoError, IoErrorKind};
use crate::resource::ResourceId;
use crate::text;
use crate::text::{push_signed, signed_decimal};

verus! {

pub const EPERM: i32 = 1;

pub const ENOENT: i32 = 2;

pub const ENXIO: i32 = 6;

pub const EACCES: i32 = 13;

pub const EBUSY: i32 = 16;

pub const ENODEV: i32 = 19;

pub const EINVAL: i32 = 22;

pub const EPIPE: i32 = 32;

pub const ERANGE: i32 = 34;

pub const EMSGSIZE: i32 = 90;

pub const EOPNOTSUPP: i32 = 95;

pub const ENETDOWN: i32 = 100;

pub const ENETUNREACH: i32 = 101;

pub const ECONNABORTED: i32 = 103;

pub const ECONNRESET: i32 = 104;

pub const ENOBUFS: i32 = 105;

pub const ENOTCONN: i32 = 107;

/// A failed netlink request, as plain values.
#[derive(Clone, Debug, PartialEq, Eq)]
pub enum NetlinkFault {
    /// The kernel refused the request; it reports the negated code.
    Refused { error: i32, message: String },
    /// The request could not be exchanged.
    Io { raw_os_error: Option<i32>, message: String },
    /// Anything else.
    Other { message: String },
}

/// The mathematical content of a [`NetlinkFault`].
#[verifier::ext_equal]
pub enum NetlinkFaultView {
    Refused { error: i32, message: Seq<char> },
    Io { raw_os_error: Option<i32>, message: Seq<char> },
    Other { message: Seq<char> },
}

impl View for NetlinkFault {
    type V = NetlinkFaultView;

    open spec fn view(&self) -> NetlinkFaultView {
        match self {
            NetlinkFault::Refused { error, message } => NetlinkFaultView::Refused {
                error: *error,
                message: message@,
            },
            NetlinkFault::Io { raw_os_error, message } => NetlinkFaultView::Io {
                raw_os_error: *raw_os_error,
                message: message@,
            },
            NetlinkFault::Other { message } => NetlinkFaultView::Other { message: message@ },
        }
    }
}

/// The name, the category and the retry advice of a code that the operating system gives for a
/// link.
pub open spec fn link_code_meaning(code: i32) -> (Seq<char>, ErrorCategory, bool) {
    if code == EPERM || code == EACCES {
        ("runtime.transport.permission_denied"@, ErrorCategory::Conflict, false)
    } else if code == EINVAL || code == EOPNOTSUPP || code == ERANGE {
        ("runtime.transport.unsupported_configuration"@, ErrorCategory::InvalidArgument, false)
    } else if code == ENODEV || code == ENOENT {
        ("runtime.resource.not_found"@, ErrorCategory::NotFound, false)
    } else if code == EBUSY {
        ("runtime.transport.busy"@, ErrorCategory::Conflict, true)
    } else {
        ("runtime.transport.unavailable"@, ErrorCategory::Unavailable, true)
    }
}

/// The error of a link request that failed with a code of the operating system.
pub open spec fn os_link_failure(operation: Seq<char>, code: i32, message: Seq<char>) -> HalErrorView {
    let (name, category, retryable) = link_code_meaning(code);
    HalErrorView {
        platform_code: Some(text::signed_digits(code as int)),
        ..HalErrorView::new(
            name,
            category,
            operation,
            retryable,
            "SocketCAN netlink failed raw_os_error="@ + text::signed_digits(code as int) + ": "@
                + message,
        )
    }
}

/// The error of a link request that failed without a code.
pub open spec fn generic_link_failure(operation: Seq<char>, message: Seq<char>) -> HalErrorView {
    HalErrorView::new(
        "runtime.transport.unavailable"@,
        ErrorCategory::Unavailable,
        operation,
        true,
        "SocketCAN netlink operation failed: "@ + message,
    )
}

/// A number negated; the smallest becomes the largest.
pub open spec fn negated(value: i32) -> i32 {
    if value == i32::MIN {
        i32::MAX
    } else {
        (-value) as i32
    }
}

/// The error of a failed netlink request.
pub open spec fn netlink_error(operation: Seq<char>, fault: NetlinkFaultView) -> HalErrorView {
    match fault {
        NetlinkFaultView::Refused { error, message } => os_link_failure(
            operation,
            negated(error),
            message,
        ),
        NetlinkFaultView::Io { raw_os_error, message } => match raw_os_error {
            Some(code) => os_link_failure(operation, code, message),
            None => generic_link_failure(operation, message),
        },
        NetlinkFaultView::Other { message } => generic_link_failure(operation, message),
    }
}

/// The error of a link request that failed with a code of the operating system.
pub fn os_link_error(operation: &'static str, code: i32, message: &str) -> (error: HalError)
    ensures
        error@ == os_link_failure(operation@, code, message@),
{
    let (name, category, retryable) = if code == EPERM || code == EACCES {
        ("runtime.transport.permission_denied", ErrorCategory::Conflict, false)
    } else if code == EINVAL || code == EOPNOTSUPP || code == ERANGE {
        ("runtime.transport.unsupported_configuration", ErrorCategory::InvalidArgument, false)
    } else if code == ENODEV || code == ENOENT {
        ("runtime.resource.not_found", ErrorCategory::NotFound, false)
    } else if code == EBUSY {
        ("runtime.transport.busy", ErrorCategory::Conflict, true)
    } else {
        ("runtime.transport.unavailable", ErrorCategory::Unavailable, true)
    };
    let mut text = "SocketCAN netlink failed raw_os_error=".to_owned();
    push_signed(&mut text, code);
    text.append(": ");
    text.append(message);
    HalError::new(name, category, operation, retryable, text).with_platform_code(
        signed_decimal(code),
    )
}

/// The error of a link request that failed without a code.
pub fn generic_link_error(operation: &'static str, message: &str) -> (error: HalError)
    ensures
        error@ == generic_link_failure(operation@, message@),
{
    let mut text = "SocketCAN netlink operation failed: ".to_owned();
    text.append(message);
    HalError::new(
        "runtime.transport.unavailable",
        ErrorCategory::Unavailable,
        operation,
        true,
        text,
    )
}

/// The error of a failed netlink request about a resource.
pub fn map_netlink_error(
    operation: &'static str,
    fault: &NetlinkFault,
    id: &ResourceId,
) -> (error: HalError)
    ensures
        error@ == netlink_error(operation@, fault@).about(id@),
{
    let error = match fault {
        NetlinkFault::Refused { error, message } => {
            let code: i32 = if *error == i32::MIN {
                i32::MAX
            } else {
                -*error
            };
            os_link_error(operation, code, message.as_str())
        },
        NetlinkFault::Io { raw_os_error, message } => match raw_os_error {
            Some(code) => os_link_error(operation, *code, message.as_str()),
            None => generic_link_error(operation, message.as_str()),
        },
        NetlinkFault::Other { message } => generic_link_error(operation, message.as_str()),
    };
    error.with_resource_id(id.copy())
}

/// What a code of the operating system means for a socket, if it alone decides.
pub open spec fn socket_code_meaning(code: i32) -> Option<(Seq<char>, ErrorCategory, bool)> {
    if code == ENODEV || code == ENOENT || code == ENXIO {
        Some(("runtime.resource.not_found"@, ErrorCategory::NotFound, false))
    } else if code == EPERM || code == EACCES {
        Some(("runtime.transport.permission_denied"@, ErrorCategory::Conflict, false))
    } else if code == EINVAL || code == EOPNOTSUPP || code == ERANGE || code == EMSGSIZE {
        Some(
            (
                "runtime.transport.unsupported_configuration"@,
                ErrorCategory::InvalidArgument,
                false,
            ),
        )
    } else if code == ENETDOWN || code == ENETUNREACH || code == ENOTCONN || code == EPIPE || code
        == ECONNABORTED || code == ECONNRESET {
        Some(("runtime.transport.disconnected"@, ErrorCategory::Unavailable, true))
    } else {
        None
    }
}

/// What the kind of a socket failure means.
pub open spec fn socket_kind_meaning(kind: IoErrorKind) -> (Seq<char>, ErrorCategory, bool) {
    match kind {
        IoErrorKind::NotFound => ("runtime.resource.not_found"@, ErrorCategory::NotFound, false),
        IoErrorKind::PermissionDenied => (
            "runtime.transport.permission_denied"@,
            ErrorCategory::Conflict,
            false,
        ),
        IoErrorKind::WouldBlock | IoErrorKind::TimedOut => (
            "runtime.transport.timeout"@,
            ErrorCategory::Unavailable,
            true,
        ),
        IoErrorKind::InvalidInput | IoErrorKind::InvalidData => (
            "runtime.transport.unsupported_configuration"@,
            ErrorCategory::InvalidArgument,
            false,
        ),
        IoErrorKind::BrokenPipe
        | IoErrorKind::ConnectionAborted
        | IoErrorKind::ConnectionReset
        | IoErrorKind::NotConnected
        | IoErrorKind::UnexpectedEof => (
            "runtime.transport.disconnected"@,
            ErrorCategory::Unavailable,
            true,
        ),
        _ => ("runtime.transport.unavailable"@, ErrorCategory::Unavailable, true),
    }
}

/// What a socket failure means: the code decides, and the kind where the code does not.
pub open spec fn socket_meaning(error: IoError) -> (Seq<char>, ErrorCategory, bool) {
    match error.raw_os_error {
        Some(code) => match socket_code_meaning(code) {
            Some(meaning) => meaning,
            None => socket_kind_meaning(error.kind),
        },
        None => socket_kind_meaning(error.kind),
    }
}

/// The text of an optional code.
pub open spec fn code_text(code: Option<i32>) -> Seq<char> {
    match code {
        Some(code) => text::signed_digits(code as int),
        None => "none"@,
    }
}

/// The error of a socket failure; `kind_name` is the name of the failure's kind.
pub open spec fn socket_error(
    operation: Seq<char>,
    error: IoError,
    kind_name: Seq<char>,
) -> HalErrorView {
    let (name, category, retryable) = socket_meaning(error);
    HalErrorView {
        platform_code: match error.raw_os_error {
            Some(code) => Some(text::signed_digits(code as int)),
            None => None,
        },
        ..HalErrorView::new(
            name,
            category,
            operation,
            retryable,
            "SocketCAN I/O failed kind="@ + kind_name + " raw_os_error="@ + code_text(
                error.raw_os_error,
            ) + ": "@ + error.message@,
        )
    }
}

fn kind_decision(kind: IoErrorKind) -> (decision: (&'static str, ErrorCategory, bool))
    ensures
        (decision.0@, decision.1, decision.2) == socket_kind_meaning(kind),
{
    match kind {
        IoErrorKind::NotFound => ("runtime.resource.not_found", ErrorCategory::NotFound, false),
        IoErrorKind::PermissionDenied => (
            "runtime.transport.permission_denied",
            ErrorCategory::Conflict,
            false,
        ),
        IoErrorKind::WouldBlock | IoErrorKind::TimedOut => (
            "runtime.transport.timeout",
            ErrorCategory::Unavailable,
            true,
        ),
        IoErrorKind::InvalidInput | IoErrorKind::InvalidData => (
            "runtime.transport.unsupported_configuration",
            ErrorCategory::InvalidArgument,
            false,
        ),
        IoErrorKind::BrokenPipe
        | IoErrorKind::ConnectionAborted
        | IoErrorKind::ConnectionReset
        | IoErrorKind::NotConnected
        | IoErrorKind::UnexpectedEof => (
            "runtime.transport.disconnected",
            ErrorCategory::Unavailable,
            true,
        ),
        _ => ("runtime.transport.unavailable", ErrorCategory::Unavailable, true),
    }
}

fn socket_decision(error: &IoError) -> (decision: (&'static str, ErrorCategory, bool))
    ensures
        (decision.0@, decision.1, decision.2) == socket_meaning(*error),
{
    if let Some(code) = error.raw_os_error {
        if code == ENODEV || code == ENOENT || code == ENXIO {
            return ("runtime.resource.not_found", ErrorCategory::NotFound, false);
        }
        if code == EPERM || code == EACCES {
            return ("runtime.transport.permission_denied", ErrorCategory::Conflict, false);
        }
        if code == EINVAL || code == EOPNOTSUPP || code == ERANGE || code == EMSGSIZE {
            return (
                "runtime.transport.unsupported_configuration",
                ErrorCategory::InvalidArgument,
                false,
            );
        }
        if code == ENETDOWN || code == ENETUNREACH || code == ENOTCONN || code == EPIPE || code
            == ECONNABORTED || code == ECONNRESET {
            return ("runtime.transport.disconnected", ErrorCategory::Unavailable, true);
        }
    }
    kind_decision(error.kind)
}

/// The error of a socket failure; `kind_name` is the name of the failure's kind.
pub fn map_io_error(operation: &'static str, error: &IoError, kind_name: &str) -> (mapped: HalError)
    ensures
        mapped@ == socket_error(operation@, *error, kind_name@),
{
    let (name, category, retryable) = socket_decision(error);
    let mut message = "SocketCAN I/O failed kind=".to_owned();
    message.append(kind_name);
    message.append(" raw_os_error=");
    match error.raw_os_error {
        Some(code) => push_signed(&mut message, code),
        None => message.append("none"),
    }
    message.append(": ");
    message.append(error.message.as_str());
    let mapped = HalError::new(name, category, operation, retryable, message);
    match error.raw_os_error {
        Some(code) => mapped.with_platform_code(signed_decimal(code)),
        None => mapped,
    }
}

/// The error of a full transmit queue.
pub open spec fn queue_full_error(code: Option<i32>, id: Seq<char>) -> HalErrorView {
    HalErrorView {
        platform_code: match code {
            Some(code) => Some(text::signed_digits(code as int)),
            None => None,
        },
        ..HalErrorView::new(
            "runtime.queue.full"@,
            ErrorCategory::Unavailable,
            "can.send"@,
            true,
            "SocketCAN transmit queue is full"@,
        ).about(id)
    }
}

/// The error of a full transmit queue.
pub fn queue_full(code: Option<i32>, id: &ResourceId) -> (error: HalError)
    ensures
        error@ == queue_full_error(code, id@),
{
    let error = HalError::fixed(
        "runtime.queue.full",
        ErrorCategory::Unavailable,
        "can.send",
        true,
        "SocketCAN transmit queue is full",
    ).with_resource_id(id.copy());
    match code {
        Some(code) => error.with_platform_code(signed_decimal(code)),
        None => error,
    }
}

/// A failed send that says that the queue is full.
pub open spec fn means_queue_full(error: IoError) -> bool {
    error.kind == IoErrorKind::WouldBlock || error.raw_os_error == Some(ENOBUFS)
}

/// The error of a failed send.
pub open spec fn send_error(error: IoError, kind_name: Seq<char>, id: Seq<char>) -> HalErrorView {
    if means_queue_full(error) {
        queue_full_error(error.raw_os_error, id)
    } else {
        socket_error("can.send"@, error, kind_name).about(id)
    }
}

/// The error of a failed send.
pub fn map_send_io_error(error: &IoError, kind_name: &str, id: &ResourceId) -> (mapped: HalError)
    ensures
        mapped@ == send_error(*error, kind_name@, id@),
{
    let no_buffers = match error.raw_os_error {
        Some(code) => code == ENOBUFS,
        None => false,
    };
    if error.kind == IoErrorKind::WouldBlock || no_buffers {
        return queue_full(error.raw_os_error, id);
    }
    map_io_error("can.send", error, kind_name).with_resource_id(id.copy())
}

/// A failure of the channel library, as plain values.
#[derive(Clone, Debug, PartialEq, Eq)]
pub enum BackendFault {
    Io { error: IoError, kind_name: String },
    InvalidFrame(String),
    InvalidInterface(String),
    Unknown,
}

/// The error of a failure of the channel library.
pub open spec fn backend_error(
    operation: Seq<char>,
    fault: BackendFault,
    id: Seq<char>,
) -> HalErrorView {
    let plain = match fault {
        BackendFault::Io { error, kind_name } => socket_error(operation, error, kind_name@),
        BackendFault::InvalidFrame(message) => HalErrorView::new(
            "can.frame.invalid"@,
            ErrorCategory::InvalidArgument,
            operation,
            false,
            message@,
        ),
        BackendFault::InvalidInterface(message) => HalErrorView::new(
            "runtime.resource.not_found"@,
            ErrorCategory::NotFound,
            operation,
            false,
            "SocketCAN interface is unavailable: "@ + message@,
        ),
        BackendFault::Unknown => HalErrorView::new(
            "runtime.transport.unavailable"@,
            ErrorCategory::Unavailable,
            operation,
            true,
            "SocketCAN backend returned an unknown error"@,
        ),
    };
    plain.about(id)
}

/// The error of a failure of the channel library.
pub fn map_backend_error(
    operation: &'static str,
    fault: &BackendFault,
    id: &ResourceId,
) -> (mapped: HalError)
    ensures
        mapped@ == backend_error(operation@, *fault, id@),
{
    let plain = match fault {
        BackendFault::Io { error, kind_name } => map_io_error(
            operation,
            error,
            kind_name.as_str(),
        ),
        BackendFault::InvalidFrame(message) => HalError::new(
            "can.frame.invalid",
            ErrorCategory::InvalidArgument,
            operation,
            false,
            message.clone(),
        ),
        BackendFault::InvalidInterface(message) => {
            let mut text = "SocketCAN interface is unavailable: ".to_owned();
            text.append(message.as_str());
            HalError::new(
                "runtime.resource.not_found",
                ErrorCategory::NotFound,
                operation,
                false,
                text,
            )
        },
        BackendFault::Unknown => HalError::fixed(
            "runtime.transport.unavailable",
            ErrorCategory::Unavailable,
            operation,
            true,
            "SocketCAN backend returned an unknown error",
        ),
    };
    plain.with_resource_id(id.copy())
}

/// The error of a send that the channel library failed.
pub fn map_send_backend_error(fault: &BackendFault, id: &ResourceId) -> (mapped: HalError)
    ensures
        mapped@ == match *fault {
            BackendFault::Io { error, kind_name } => send_error(error, kind_name@, id@),
            _ => backend_error("can.send"@, *fault, id@),
        },
{
    match fault {
        BackendFault::Io { error, kind_name } => map_send_io_error(error, kind_name.as_str(), id),
        _ => map_backend_error("can.send", fault, id),
    }
}

/// What the codes of the operating system mean for a link. Only a link that is busy, or that fails in
/// no known way, is worth another try.
pub proof fn law_link_codes_are_told_apart(operation: Seq<char>, code: i32, message: Seq<char>)
    ensures
        ({
            let error = os_link_failure(operation, code, message);
            &&& error.operation == operation
            &&& error.platform_code == Some(text::signed_digits(code as int))
            &&& code == 1 || code == 13 ==> error.name == "runtime.transport.permission_denied"@
                && error.category == ErrorCategory::Conflict && !error.retryable
            &&& code == 22 || code == 95 || code == 34 ==> error.name
                == "runtime.transport.unsupported_configuration"@ && error.category
                == ErrorCategory::InvalidArgument && !error.retryable
            &&& code == 19 || code == 2 ==> error.name == "runtime.resource.not_found"@
                && error.category == ErrorCategory::NotFound && !error.retryable
            &&& code == 16 ==> error.name == "runtime.transport.busy"@ && error.category
                == ErrorCategory::Conflict && error.retryable
            &&& code != 1 && code != 13 && code != 22 && code != 95 && code != 34 && code != 19
                && code != 2 && code != 16 ==> error.name == "runtime.transport.unavailable"@
                && error.category == ErrorCategory::Unavailable && error.retryable
        }),
{
}

/// A refusal of the kernel has the code with its sign turned; one of the exchange has its code as it
/// is. Both are told as the code says.
pub proof fn law_refusals_have_positive_codes(
    operation: Seq<char>,
    error: i32,
    code: i32,
    message: Seq<char>,
)
    requires
        error == -code,
    ensures
        netlink_error(operation, NetlinkFaultView::Refused { error, message }) == os_link_failure(
            operation,
            code,
            message,
        ),
        netlink_error(operation, NetlinkFaultView::Io { raw_os_error: Some(code), message })
            == os_link_failure(operation, code, message),
        netlink_error(operation, NetlinkFaultView::Other { message }).name
            == "runtime.transport.unavailable"@,
        netlink_error(operation, NetlinkFaultView::Other { message }).retryable,
{
}

/// What the failures of a socket mean: the code decides where it is a known one, and else the kind.
pub proof fn law_socket_failures_are_told_apart(
    operation: Seq<char>,
    error: IoError,
    kind_name: Seq<char>,
)
    ensures
        ({
            let mapped = socket_error(operation, error, kind_name);
            let known = error.raw_os_error is Some && {
                let code = error.raw_os_error->0;
                ||| code == 19 || code == 2 || code == 6 || code == 1 || code == 13
                ||| code == 22 || code == 95 || code == 34 || code == 90
                ||| code == 100 || code == 101 || code == 107 || code == 32 || code == 103
                ||| code == 104
            };
            let code = error.raw_os_error->0;
            &&& mapped.operation == operation
            &&& error.raw_os_error is Some ==> mapped.platform_code == Some(
                text::signed_digits(code as int),
            )
            &&& error.raw_os_error is None ==> mapped.platform_code is None
            &&& known && (code == 19 || code == 2 || code == 6) ==> mapped.name
                == "runtime.resource.not_found"@ && mapped.category == ErrorCategory::NotFound
                && !mapped.retryable
            &&& known && (code == 1 || code == 13) ==> mapped.name
                == "runtime.transport.permission_denied"@ && mapped.category
                == ErrorCategory::Conflict && !mapped.retryable
            &&& known && (code == 22 || code == 95 || code == 34 || code == 90) ==> mapped.name
                == "runtime.transport.unsupported_configuration"@ && mapped.category
                == ErrorCategory::InvalidArgument && !mapped.retryable
            &&& known && (code == 100 || code == 101 || code == 107 || code == 32 || code == 103
                || code == 104) ==> mapped.name == "runtime.transport.disconnected"@
                && mapped.category == ErrorCategory::Unavailable && mapped.retryable
            &&& !known && error.kind == IoErrorKind::NotFound ==> mapped.name
                == "runtime.resource.not_found"@ && !mapped.retryable
            &&& !known && error.kind == IoErrorKind::PermissionDenied ==> mapped.name
                == "runtime.transport.permission_denied"@ && !mapped.retryable
            &&& !known && (error.kind == IoErrorKind::WouldBlock || error.kind
                == IoErrorKind::TimedOut) ==> mapped.name == "runtime.transport.timeout"@
                && mapped.retryable
            &&& !known && (error.kind == IoErrorKind::InvalidInput || error.kind
                == IoErrorKind::InvalidData) ==> mapped.name
                == "runtime.transport.unsupported_configuration"@ && !mapped.retryable
            &&& !known && (error.kind == IoErrorKind::BrokenPipe || error.kind
                == IoErrorKind::ConnectionAborted || error.kind == IoErrorKind::ConnectionReset
                || error.kind == IoErrorKind::NotConnected || error.kind
                == IoErrorKind::UnexpectedEof) ==> mapped.name == "runtime.transport.disconnected"@
                && mapped.retryable
        }),
{
}

/// A send that finds no room in the queue is told so, and can be tried again: where the socket would
/// block or the system has no buffers, and in no other case.
pub proof fn law_full_queue_is_told(error: IoError, kind_name: Seq<char>, id: Seq<char>)
    ensures
        ({
            let mapped = send_error(error, kind_name, id);
            let full = error.kind == IoErrorKind::WouldBlock || error.raw_os_error == Some(105i32);
            &&& mapped.resource_id == Some(id)
            &&& mapped.operation == "can.send"@
            &&& full ==> mapped.name == "runtime.queue.full"@ && mapped.retryable
                && mapped.category == ErrorCategory::Unavailable
            &&& !full ==> mapped == socket_error("can.send"@, error, kind_name).about(id)
        }),
{
}

/// A code of the kernel becomes positive, as large as it was below zero; only the smallest one, which
/// has no counterpart, becomes the largest number instead.
pub proof fn law_codes_are_negated(value: i32)
    ensures
        value != i32::MIN ==> negated(value) + value == 0,
        value == i32::MIN ==> negated(value) == i32::MAX,
{
}

} // verus!
