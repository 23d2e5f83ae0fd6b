//! Cameras of the Media Foundation interface.

use vstd::prelude::*;
use vstd::slice::*;

use crate::camera::backend;
use crate::camera::backend::{
    closed, encode_resource_id, format_unsupported, invalid, platform_error, timeout_error,
    unavailable, CameraBackend,
};
use crate::camera::claims::ClaimSet;
use crate::camera::frame;
use crate::camera::frame::{
    clamp_time, planar_bytes, CameraFrame, CameraPlaneLayout, FrameContent,
};
use crate::camera::frame_format::{CameraFormat, CameraLimits, CameraPixelFormat};
use crate::camera::session;
use crate::camera::session::{open_camera, CameraSession};
use crate::camera::wait::{bounded_wait, WaitStep};
use crate::error::{HalError, HalErrorView, HalResult};
use crate::resource;
use crate::resource::{
    Capability, DescriptorView, IdentityQuality, ResourceDescriptor, ResourceId,
    ResourceProperties, TransportKind,
};
use crate::text::same_text;

verus! {

/// The clock of the frames' times.
pub const CLOCK_DOMAIN: &'static str = "mediafoundation.receipt.monotonic";

/// The type of video media.
pub const VIDEO_MEDIA_TYPE: u128 = 0x73646976_0000_0010_8000_00aa00389b71;

const NV12_SUBTYPE: u128 = 0x3231564e_0000_0010_8000_00aa00389b71;

const YUY2_SUBTYPE: u128 = 0x32595559_0000_0010_8000_00aa00389b71;

const MJPG_SUBTYPE: u128 = 0x47504a4d_0000_0010_8000_00aa00389b71;

/// The adapter.
#[derive(Clone, Copy, Debug)]
pub struct MediaFoundationAdapter;

impl MediaFoundationAdapter {
    /// The adapter.
    pub fn new() -> (adapter: Self)
        ensures
            adapter == MediaFoundationAdapter,
    {
        MediaFoundationAdapter
    }

    /// The name of the adapter.
    pub fn adapter_name(&self) -> (name: &'static str)
        ensures
            name@ == "mediafoundation"@,
    {
        CameraBackend::MediaFoundation.adapter_name()
    }

    /// The cameras with the discovered symbolic links; without Windows nothing is discovered.
    pub fn enumerate(&self, links: Option<Vec<String>>) -> (result: HalResult<
        Vec<ResourceDescriptor>,
    >)
        ensures
            match links {
                None => result is Err && result->Err_0@ == backend::unavailable_error(
                    CameraBackend::MediaFoundation,
                    "camera.enumerate"@,
                ),
                Some(links) => match result {
                    Ok(descriptors) => {
                        &&& forall|i: int| 0 <= i < links@.len() ==> (#[trigger] links@[i])@.len() > 0
                        &&& resource::descriptor_views(descriptors@) == cameras_of(links@)
                    },
                    Err(error) => {
                        &&& exists|i: int|
                            0 <= i < links@.len() && (#[trigger] links@[i])@.len() == 0
                        &&& error@ == empty_link_error()
                    },
                },
            },
    {
        match links {
            Some(links) => camera_descriptors(&links),
            None => Err(unavailable(CameraBackend::MediaFoundation, "camera.enumerate")),
        }
    }

    /// Selects a camera among discovered ones and takes it into use.
    pub fn open(
        &self,
        claims: &mut ClaimSet,
        discovered: Option<HalResult<Vec<ResourceDescriptor>>>,
        id: &ResourceId,
        format: CameraFormat,
        limits: &CameraLimits,
    ) -> (result: HalResult<(ResourceDescriptor, CameraSession)>)
        requires
            old(claims).wf(),
        ensures
            final(claims).wf(),
            session::opens(
                CameraBackend::MediaFoundation,
                old(claims)@,
                final(claims)@,
                discovered,
                id@,
                format,
                *limits,
                result,
            ),
    {
        open_camera(CameraBackend::MediaFoundation, claims, discovered, id, format, limits)
    }
}

/// The error of a camera with an empty symbolic link.
pub open spec fn empty_link_error() -> HalErrorView {
    backend::invalid_error(
        "camera.identity"@,
        "Media Foundation camera symbolic link must not be empty"@,
    )
}

/// The descriptor of the camera with a symbolic link.
pub open spec fn descriptor_of(link: Seq<char>) -> DescriptorView {
    DescriptorView {
        id: backend::identity_text(CameraBackend::MediaFoundation, link),
        endpoint: link,
        quality: IdentityQuality::Medium,
        transport: TransportKind::Camera,
        properties: Map::<Seq<char>, Seq<char>>::empty().insert(
            "adapter"@,
            "mediafoundation"@,
        ).insert("endpoint"@, link).insert(
            "camera.identity_source"@,
            "mf.video_capture.symbolic_link"@,
        ),
        capabilities: seq![Capability::CameraCapture, Capability::CameraFramesShm],
    }
}

/// The descriptors of the cameras with symbolic links, in order.
pub open spec fn cameras_of(links: Seq<String>) -> Seq<DescriptorView> {
    links.map(|i: int, link: String| descriptor_of(link@))
}

/// The descriptor of the camera with a symbolic link.
pub fn descriptor_from_link(link: &str) -> (result: HalResult<ResourceDescriptor>)
    ensures
        match result {
            Ok(descriptor) => {
                &&& link@.len() > 0
                &&& descriptor@ == descriptor_of(link@)
            },
            Err(error) => link@.len() == 0 && error@ == empty_link_error(),
        },
{
    if link.is_empty() {
        return Err(
            invalid("camera.identity", "Media Foundation camera symbolic link must not be empty"),
        );
    }
    let id = encode_resource_id(CameraBackend::MediaFoundation, link)?;
    let mut properties = ResourceProperties::new();
    properties.insert_text("adapter", "mediafoundation");
    properties.insert_text("endpoint", link);
    properties.insert_text("camera.identity_source", "mf.video_capture.symbolic_link");
    let mut capabilities: Vec<Capability> = Vec::new();
    capabilities.push(Capability::CameraCapture);
    capabilities.push(Capability::CameraFramesShm);
    proof {
        assert(capabilities@ =~= descriptor_of(link@).capabilities);
    }
    Ok(
        ResourceDescriptor {
            id,
            endpoint: link.to_owned(),
            quality: IdentityQuality::Medium,
            transport: TransportKind::Camera,
            properties,
            capabilities,
        },
    )
}

fn camera_descriptors(links: &Vec<String>) -> (result: HalResult<Vec<ResourceDescriptor>>)
    ensures
        match result {
            Ok(descriptors) => {
                &&& forall|i: int| 0 <= i < links@.len() ==> (#[trigger] links@[i])@.len() > 0
                &&& resource::descriptor_views(descriptors@) == cameras_of(links@)
            },
            Err(error) => {
                &&& exists|i: int| 0 <= i < links@.len() && (#[trigger] links@[i])@.len() == 0
                &&& error@ == empty_link_error()
            },
        },
{
    let mut descriptors: Vec<ResourceDescriptor> = Vec::new();
    let mut index: usize = 0;
    while index < links.len()
        invariant
            index <= links@.len(),
            descriptors@.len() == index,
            forall|i: int| 0 <= i < index ==> (#[trigger] links@[i])@.len() > 0,
            forall|i: int|
                0 <= i < index ==> (#[trigger] descriptors@[i])@ == descriptor_of(links@[i]@),
        decreases links@.len() - index,
    {
        let descriptor = descriptor_from_link(links[index].as_str())?;
        descriptors.push(descriptor);
        index += 1;
    }
    proof {
        assert(resource::descriptor_views(descriptors@) =~= cameras_of(links@));
    }
    Ok(descriptors)
}

/// The type of the media of a pixel format.
pub open spec fn subtype_of(pixel_format: CameraPixelFormat) -> u128 {
    match pixel_format {
        CameraPixelFormat::Nv12 => 0x3231564e_0000_0010_8000_00aa00389b71u128,
        CameraPixelFormat::Yuyv => 0x32595559_0000_0010_8000_00aa00389b71u128,
        CameraPixelFormat::Mjpeg => 0x47504a4d_0000_0010_8000_00aa00389b71u128,
    }
}

/// The type of the media of a pixel format.
pub fn mf_subtype(pixel_format: CameraPixelFormat) -> (subtype: u128)
    ensures
        subtype == subtype_of(pixel_format),
{
    match pixel_format {
        CameraPixelFormat::Nv12 => NV12_SUBTYPE,
        CameraPixelFormat::Yuyv => YUY2_SUBTYPE,
        CameraPixelFormat::Mjpeg => MJPG_SUBTYPE,
    }
}

/// The width and the height of a frame as one number: the width in the upper half.
pub open spec fn packed_size(width: u32, height: u32) -> int {
    width * 0x1_0000_0000 + height
}

/// The width and the height of a frame as one number.
pub fn frame_size(width: u32, height: u32) -> (size: u64)
    ensures
        size == packed_size(width, height),
{
    width as u64 * 0x1_0000_0000 + height as u64
}

/// What a reader reports of its current media; an attribute that it lacks is absent.
#[derive(Clone, Copy, Debug, PartialEq, Eq)]
pub struct MediaType {
    pub major: Option<u128>,
    pub subtype: Option<u128>,
    pub dimensions: Option<u64>,
    pub stride: Option<u32>,
}

/// A length of rows that the format can have.
pub open spec fn stride_fits(format: CameraFormat, stride: int) -> bool {
    match format.pixel_format {
        CameraPixelFormat::Nv12 => stride >= format.width,
        CameraPixelFormat::Yuyv => stride >= format.width * 2,
        CameraPixelFormat::Mjpeg => stride > 0,
    }
}

/// Whether a length of rows is one that the format can have.
pub fn valid_stride(format: &CameraFormat, stride: usize) -> (valid: bool)
    ensures
        valid == stride_fits(*format, stride as int),
{
    match format.pixel_format {
        CameraPixelFormat::Nv12 => stride as u64 >= format.width as u64,
        CameraPixelFormat::Yuyv => stride as u64 >= format.width as u64 * 2,
        CameraPixelFormat::Mjpeg => stride > 0,
    }
}

/// The media is exactly what was requested.
pub open spec fn is_exact(actual: MediaType, requested: CameraFormat) -> bool {
    &&& actual.major == Some(VIDEO_MEDIA_TYPE)
    &&& actual.subtype == Some(subtype_of(requested.pixel_format))
    &&& actual.dimensions is Some
    &&& actual.dimensions->0 == packed_size(requested.width, requested.height)
    &&& actual.stride is Some
    &&& stride_fits(requested, actual.stride->0 as int)
}

/// Checks that the media is exactly what was requested, and gives the length of its rows.
pub fn ensure_exact_media_type(
    actual: &MediaType,
    requested: &CameraFormat,
    id: &ResourceId,
) -> (result: HalResult<usize>)
    ensures
        match result {
            Ok(stride) => is_exact(*actual, *requested) && stride == actual.stride->0,
            Err(error) => {
                &&& !is_exact(*actual, *requested)
                &&& error@ == backend::format_error(
                    CameraBackend::MediaFoundation,
                    "camera.open"@,
                    id@,
                )
            },
        },
{
    if let (Some(major), Some(subtype), Some(dimensions), Some(stride)) = (
        actual.major,
        actual.subtype,
        actual.dimensions,
        actual.stride,
    ) {
        if major == VIDEO_MEDIA_TYPE && subtype == mf_subtype(requested.pixel_format) && dimensions
            == frame_size(requested.width, requested.height) && valid_stride(
            requested,
            stride as usize,
        ) {
            return Ok(stride as usize);
        }
    }
    Err(format_unsupported(CameraBackend::MediaFoundation, "camera.open", id))
}

/// A frame size is taken apart as it was put together.
pub proof fn law_frame_size_is_read_back(width: u32, height: u32)
    ensures
        0 <= packed_size(width, height) <= u64::MAX,
        packed_size(width, height) / 0x1_0000_0000 == width,
        packed_size(width, height) % 0x1_0000_0000 == height,
{
}

/// The length of the rows that the reader was brought to, given how describing the requested media
/// ended, how asking the reader for it ended, and what the reader reports then. Once the media could
/// be described, every failure is one of the format.
pub fn configure_exact(
    described: Result<(), String>,
    asked: Result<(), String>,
    actual: Option<MediaType>,
    requested: &CameraFormat,
    id: &ResourceId,
) -> (result: HalResult<usize>)
    ensures
        match result {
            Ok(stride) => {
                &&& described is Ok
                &&& asked is Ok
                &&& actual is Some
                &&& is_exact(actual->0, *requested)
                &&& stride == actual->0.stride->0
            },
            Err(error) => match described {
                Err(reason) => error@ == backend::platform_failure(
                    CameraBackend::MediaFoundation,
                    "camera.open"@,
                    reason@,
                ),
                Ok(()) => {
                    &&& asked is Err || actual is None || !is_exact(actual->0, *requested)
                    &&& error@ == backend::format_error(
                        CameraBackend::MediaFoundation,
                        "camera.open"@,
                        id@,
                    )
                },
            },
        },
{
    if let Err(reason) = described {
        return Err(
            platform_error(CameraBackend::MediaFoundation, "camera.open", reason.as_str()),
        );
    }
    if let (Ok(()), Some(actual)) = (asked, actual) {
        return ensure_exact_media_type(&actual, requested, id);
    }
    Err(format_unsupported(CameraBackend::MediaFoundation, "camera.open", id))
}

/// The position of the camera with a symbolic link among the ones that are there when a worker
/// starts.
pub fn activation(links: &Vec<String>, link: &str) -> (result: HalResult<usize>)
    ensures
        match result {
            Ok(position) => {
                &&& position < links@.len()
                &&& links@[position as int]@ == link@
                &&& forall|i: int| 0 <= i < position ==> (#[trigger] links@[i])@ != link@
            },
            Err(error) => {
                &&& forall|i: int| 0 <= i < links@.len() ==> (#[trigger] links@[i])@ != link@
                &&& error@ == backend::platform_failure(
                    CameraBackend::MediaFoundation,
                    "camera.open"@,
                    "camera disappeared before activation"@,
                )
            },
        },
{
    let mut index: usize = 0;
    while index < links.len()
        invariant
            index <= links@.len(),
            forall|i: int| 0 <= i < index ==> (#[trigger] links@[i])@ != link@,
        decreases links@.len() - index,
    {
        if same_text(links[index].as_str(), link) {
            return Ok(index);
        }
        index += 1;
    }
    Err(
        platform_error(
            CameraBackend::MediaFoundation,
            "camera.open",
            "camera disappeared before activation",
        ),
    )
}

/// What a worker gets when it waits for a command.
#[derive(Clone, Copy, Debug, PartialEq, Eq, Structural)]
pub enum Received {
    /// A frame is asked for.
    Capture,
    /// The worker has to stop.
    Close,
    /// Nothing, in time.
    Nothing,
    /// Nobody will ask again.
    Disconnected,
}

/// What a worker does next.
#[derive(Clone, Copy, Debug, PartialEq, Eq, Structural)]
pub enum WorkerStep {
    /// Captures a frame.
    Capture,
    /// Waits for a command.
    Wait,
    /// Takes back what it asked of the reader, and ends.
    Stop,
}

/// What a worker does next. A shutdown comes before every command.
pub fn worker_step(shutdown: bool, received: Received) -> (step: WorkerStep)
    ensures
        step == if shutdown || received == Received::Close || received == Received::Disconnected {
            WorkerStep::Stop
        } else if received == Received::Capture {
            WorkerStep::Capture
        } else {
            WorkerStep::Wait
        },
{
    if shutdown {
        return WorkerStep::Stop;
    }
    match received {
        Received::Capture => WorkerStep::Capture,
        Received::Nothing => WorkerStep::Wait,
        Received::Close => WorkerStep::Stop,
        Received::Disconnected => WorkerStep::Stop,
    }
}

/// What a worker that has a sample asked for does next.
pub enum CaptureStep {
    /// Waits for a notification, for at most so many nanoseconds.
    Wait(u64),
    /// Takes the request for the sample back.
    Flush,
    /// Gives up.
    Fail(HalError),
}

/// What a worker that has a sample asked for does next, given how many nanoseconds remain until the
/// deadline.
pub fn capture_step(shutdown: bool, remaining: u64, id: &ResourceId) -> (step: CaptureStep)
    ensures
        if shutdown {
            step is Fail && step->Fail_0@ == backend::closed_error(
                CameraBackend::MediaFoundation,
                "camera.capture"@,
                id@,
            )
        } else if remaining == 0 {
            step is Flush
        } else {
            step == CaptureStep::Wait(
                if remaining < session::WAIT_QUANTUM_NANOSECONDS {
                    remaining
                } else {
                    session::WAIT_QUANTUM_NANOSECONDS
                },
            )
        },
{
    match bounded_wait(shutdown, remaining, session::WAIT_QUANTUM_NANOSECONDS) {
        WaitStep::Shutdown => CaptureStep::Fail(
            closed(CameraBackend::MediaFoundation, "camera.capture", id),
        ),
        WaitStep::TimedOut => CaptureStep::Flush,
        WaitStep::Wait(time) => CaptureStep::Wait(time),
    }
}

/// What the reader tells of a requested sample.
pub enum SampleNotification {
    /// A sample, which may be empty.
    Sample { present: bool },
    /// A failure.
    Failed(String),
    /// Nothing yet.
    Nothing,
    /// The reader is gone.
    Disconnected,
}

/// What to do after a notification.
pub enum SampleStep {
    /// Turn the sample into a frame.
    Convert,
    /// Wait on.
    Wait,
    /// Give up.
    Fail(HalError),
}

/// What to do after a notification.
pub fn on_notification(notification: SampleNotification, id: &ResourceId) -> (step: SampleStep)
    ensures
        match notification {
            SampleNotification::Sample { present } => if present {
                step is Convert
            } else {
                step is Fail && step->Fail_0@ == backend::platform_failure(
                    CameraBackend::MediaFoundation,
                    "camera.capture"@,
                    "Media Foundation returned an empty sample"@,
                ).about(id@)
            },
            SampleNotification::Failed(reason) => step is Fail && step->Fail_0@
                == backend::platform_failure(
                CameraBackend::MediaFoundation,
                "camera.capture"@,
                reason@,
            ).about(id@),
            SampleNotification::Nothing => step is Wait,
            SampleNotification::Disconnected => step is Fail && step->Fail_0@
                == backend::closed_error(
                CameraBackend::MediaFoundation,
                "camera.capture"@,
                id@,
            ),
        },
{
    match notification {
        SampleNotification::Sample { present } => {
            if present {
                SampleStep::Convert
            } else {
                SampleStep::Fail(
                    platform_error(
                        CameraBackend::MediaFoundation,
                        "camera.capture",
                        "Media Foundation returned an empty sample",
                    ).with_resource_id(id.copy()),
                )
            }
        },
        SampleNotification::Failed(reason) => SampleStep::Fail(
            platform_error(
                CameraBackend::MediaFoundation,
                "camera.capture",
                reason.as_str(),
            ).with_resource_id(id.copy()),
        ),
        SampleNotification::Nothing => SampleStep::Wait,
        SampleNotification::Disconnected => SampleStep::Fail(
            closed(CameraBackend::MediaFoundation, "camera.capture", id),
        ),
    }
}

/// The error of a capture whose deadline has passed, once its request was taken back.
pub fn after_flush(flushed: Result<(), String>, id: &ResourceId) -> (error: HalError)
    ensures
        error@ == match flushed {
            Ok(()) => backend::timeout_failure(
                CameraBackend::MediaFoundation,
                "camera.capture"@,
                id@,
            ),
            Err(reason) => backend::platform_failure(
                CameraBackend::MediaFoundation,
                "camera.capture"@,
                reason@,
            ).about(id@),
        },
{
    match flushed {
        Ok(()) => timeout_error(CameraBackend::MediaFoundation, "camera.capture", id),
        Err(reason) => platform_error(
            CameraBackend::MediaFoundation,
            "camera.capture",
            reason.as_str(),
        ).with_resource_id(id.copy()),
    }
}

/// The least bytes of a sample.
pub open spec fn required_bytes(format: CameraFormat, stride: int) -> int {
    match format.pixel_format {
        CameraPixelFormat::Nv12 => frame::luma_bytes(format, stride) + frame::chroma_bytes(
            format,
            stride,
        ),
        CameraPixelFormat::Yuyv => stride * format.height,
        CameraPixelFormat::Mjpeg => 1,
    }
}

/// Why a sample is not of its format.
pub open spec fn layout_refusal(
    format: CameraFormat,
    stride: int,
    used: int,
    id: Seq<char>,
) -> Option<HalErrorView> {
    if required_bytes(format, stride) > usize::MAX {
        Some(
            backend::invalid_error(
                "camera.capture"@,
                "Media Foundation plane arithmetic overflows"@,
            ),
        )
    } else if !stride_fits(format, stride) || used < required_bytes(format, stride) {
        Some(
            backend::invalid_error(
                "camera.capture"@,
                "Media Foundation sample is shorter than negotiated layout"@,
            ).about(id),
        )
    } else {
        None
    }
}

/// Checks that a sample is long enough for its format.
pub fn validate_layout(
    format: &CameraFormat,
    stride: usize,
    used: usize,
    id: &ResourceId,
) -> (result: HalResult<()>)
    ensures
        match result {
            Ok(()) => layout_refusal(*format, stride as int, used as int, id@) is None,
            Err(error) => layout_refusal(*format, stride as int, used as int, id@) == Some(error@),
        },
{
    let required: Option<usize> = match format.pixel_format {
        CameraPixelFormat::Nv12 => match planar_bytes(format, stride) {
            Some((luma, chroma)) => Some(luma + chroma),
            None => None,
        },
        CameraPixelFormat::Yuyv => stride.checked_mul(format.height as usize),
        CameraPixelFormat::Mjpeg => Some(1),
    };
    match required {
        None => Err(
            invalid("camera.capture", "Media Foundation plane arithmetic overflows"),
        ),
        Some(required) => {
            if !valid_stride(format, stride) || used < required {
                return Err(
                    invalid(
                        "camera.capture",
                        "Media Foundation sample is shorter than negotiated layout",
                    ).with_resource_id(id.copy()),
                );
            }
            Ok(())
        },
    }
}

/// The planes of a sample, or why it has none.
pub open spec fn planes_of(
    format: CameraFormat,
    stride: int,
    payload: int,
    id: Seq<char>,
) -> Result<Seq<CameraPlaneLayout>, HalErrorView> {
    let luma = frame::luma_bytes(format, stride);
    let chroma = frame::chroma_bytes(format, stride);
    if format.pixel_format == CameraPixelFormat::Nv12 {
        if luma > usize::MAX {
            Err(
                backend::invalid_error(
                    "camera.capture"@,
                    "Media Foundation NV12 Y plane overflows"@,
                ),
            )
        } else if chroma > usize::MAX {
            Err(
                backend::invalid_error(
                    "camera.capture"@,
                    "Media Foundation NV12 UV plane overflows"@,
                ),
            )
        } else if luma + chroma > payload {
            Err(
                backend::invalid_error(
                    "camera.capture"@,
                    "Media Foundation NV12 planes exceed payload"@,
                ).about(id),
            )
        } else {
            Ok(
                seq![
                    CameraPlaneLayout {
                        offset: 0,
                        length: luma as usize,
                        stride: stride as usize,
                    },
                    CameraPlaneLayout {
                        offset: luma as usize,
                        length: chroma as usize,
                        stride: stride as usize,
                    },
                ],
            )
        }
    } else {
        Ok(
            seq![
                CameraPlaneLayout {
                    offset: 0,
                    length: payload as usize,
                    stride: stride as usize,
                },
            ],
        )
    }
}

/// The planes of a sample.
pub fn planes(
    format: &CameraFormat,
    stride: usize,
    payload: usize,
    id: &ResourceId,
) -> (result: HalResult<Vec<CameraPlaneLayout>>)
    ensures
        match result {
            Ok(planes) => planes_of(*format, stride as int, payload as int, id@) == Ok::<
                Seq<CameraPlaneLayout>,
                HalErrorView,
            >(planes@),
            Err(error) => planes_of(*format, stride as int, payload as int, id@) == Err::<
                Seq<CameraPlaneLayout>,
                HalErrorView,
            >(error@),
        },
{
    let mut planes: Vec<CameraPlaneLayout> = Vec::new();
    if format.pixel_format == CameraPixelFormat::Nv12 {
        let height: usize = format.height as usize;
        let half: usize = height / 2 + height % 2;
        proof {
            assert(half == frame::half_rows(format.height as int));
        }
        let luma: usize = match stride.checked_mul(height) {
            Some(luma) => luma,
            None => {
                return Err(invalid("camera.capture", "Media Foundation NV12 Y plane overflows"));
            },
        };
        let chroma: usize = match stride.checked_mul(half) {
            Some(chroma) => chroma,
            None => {
                return Err(invalid("camera.capture", "Media Foundation NV12 UV plane overflows"));
            },
        };
        let fits = match luma.checked_add(chroma) {
            Some(end) => end <= payload,
            None => false,
        };
        if !fits {
            return Err(
                invalid(
                    "camera.capture",
                    "Media Foundation NV12 planes exceed payload",
                ).with_resource_id(id.copy()),
            );
        }
        planes.push(CameraPlaneLayout { offset: 0, length: luma, stride });
        planes.push(CameraPlaneLayout { offset: luma, length: chroma, stride });
    } else {
        planes.push(CameraPlaneLayout { offset: 0, length: payload, stride });
    }
    proof {
        assert(planes@ =~= planes_of(*format, stride as int, payload as int, id@)->Ok_0);
    }
    Ok(planes)
}

/// Planes that are laid out within a sample do not overlap and stay in it.
pub proof fn law_planes_fit_the_sample(
    format: CameraFormat,
    stride: int,
    payload: int,
    id: Seq<char>,
)
    requires
        0 <= stride <= usize::MAX,
        0 <= payload <= usize::MAX,
        planes_of(format, stride, payload, id) is Ok,
    ensures
        frame::planes_fit(planes_of(format, stride, payload, id)->Ok_0, payload),
{
    frame::lemma_plane_bytes(format, stride);
}

/// The bytes of a locked sample are within the bounds of frames and of the sample's buffer.
pub open spec fn sample_fits(bytes: Option<Seq<u8>>, maximum: int, limits: CameraLimits) -> bool {
    &&& bytes is Some
    &&& 0 < bytes->0.len() <= maximum
    &&& bytes->0.len() <= limits.max_frame_bytes
}

/// The content of optional bytes.
pub open spec fn bytes_view(bytes: Option<&[u8]>) -> Option<Seq<u8>> {
    match bytes {
        Some(bytes) => Some(bytes@),
        None => None,
    }
}

/// The frame of a sample, or why it is none. A sample that could not be unlocked is no frame; what
/// is wrong with the sample itself comes first.
pub open spec fn sample_frame(
    bytes: Option<Seq<u8>>,
    maximum: u32,
    unlocked: Result<(), Seq<char>>,
    format: CameraFormat,
    limits: CameraLimits,
    stride: usize,
    sequence: u64,
    elapsed_ns: u128,
    id: Seq<char>,
) -> Result<FrameContent, HalErrorView> {
    if !sample_fits(bytes, maximum as int, limits) {
        Err(
            backend::invalid_error(
                "camera.capture"@,
                "Media Foundation sample payload is outside the public bound"@,
            ).about(id),
        )
    } else {
        let used = bytes->0.len() as int;
        match layout_refusal(format, stride as int, used, id) {
            Some(error) => Err(error),
            None => match planes_of(format, stride as int, used, id) {
                Err(error) => Err(error),
                Ok(planes) => match unlocked {
                    Err(reason) => Err(
                        backend::platform_failure(
                            CameraBackend::MediaFoundation,
                            "camera.capture"@,
                            reason,
                        ).about(id),
                    ),
                    Ok(()) => Ok(
                        FrameContent {
                            format,
                            planes,
                            sequence,
                            timestamp_ns: frame::clamped_time(elapsed_ns),
                            clock_domain: CLOCK_DOMAIN@,
                            dropped_count: 0,
                            payload: bytes->0,
                        },
                    ),
                },
            },
        }
    }
}

/// The view of how unlocking a sample ended.
pub open spec fn unlock_view(unlocked: Result<(), String>) -> Result<(), Seq<char>> {
    match unlocked {
        Ok(()) => Ok(()),
        Err(reason) => Err(reason@),
    }
}

/// The frame of a sample, given the bytes of its locked buffer, how many that buffer can hold, and
/// how unlocking it ended.
pub fn frame_from_sample(
    bytes: Option<&[u8]>,
    maximum: u32,
    unlocked: Result<(), String>,
    format: &CameraFormat,
    limits: &CameraLimits,
    stride: usize,
    sequence: u64,
    elapsed_ns: u128,
    id: &ResourceId,
) -> (result: HalResult<CameraFrame>)
    ensures
        ({
            let expected = sample_frame(
                bytes_view(bytes),
                maximum,
                unlock_view(unlocked),
                *format,
                *limits,
                stride,
                sequence,
                elapsed_ns,
                id@,
            );
            match result {
                Ok(captured) => expected == Ok::<FrameContent, HalErrorView>(captured@),
                Err(error) => expected == Err::<FrameContent, HalErrorView>(error@),
            }
        }),
        result matches Ok(captured) ==> {
            &&& bytes is Some
            &&& unlocked is Ok
            &&& captured.payload@.len() == bytes->0@.len()
            &&& 0 < captured.payload@.len() <= maximum
            &&& captured.payload@.len() <= limits.max_frame_bytes
            &&& forall|i: int|
                0 <= i < captured.payload@.len() ==> (#[trigger] captured.payload@[i])
                    == bytes->0@[i]
            &&& captured.format == *format
            &&& captured.sequence == sequence
            &&& captured.dropped_count == 0
            &&& elapsed_ns <= u64::MAX ==> captured.timestamp_ns == elapsed_ns
            &&& elapsed_ns > u64::MAX ==> captured.timestamp_ns == u64::MAX
        },
{
    let outside = match bytes {
        Some(bytes) => bytes.len() == 0 || bytes.len() as u64 > maximum as u64 || bytes.len()
            > limits.max_frame_bytes,
        None => true,
    };
    let bytes = match bytes {
        Some(bytes) if !outside => bytes,
        _ => {
            return Err(
                invalid(
                    "camera.capture",
                    "Media Foundation sample payload is outside the public bound",
                ).with_resource_id(id.copy()),
            );
        },
    };
    validate_layout(format, stride, bytes.len(), id)?;
    let planes = planes(format, stride, bytes.len(), id)?;
    if let Err(reason) = unlocked {
        return Err(
            platform_error(
                CameraBackend::MediaFoundation,
                "camera.capture",
                reason.as_str(),
            ).with_resource_id(id.copy()),
        );
    }
    Ok(
        CameraFrame {
            format: *format,
            planes,
            sequence,
            timestamp_ns: clamp_time(elapsed_ns),
            clock_domain: CLOCK_DOMAIN,
            dropped_count: 0,
            payload: slice_to_vec(bytes),
        },
    )
}

/// The bytes of a frame are those of the sample, each in its place, and its planes cover it: one plane
/// from the first byte to the last, or the rows of the luma plane followed by half as many rows of
/// the chroma plane. Its format, number and time are those given.
pub proof fn law_frame_bytes_are_those_of_the_sample(
    bytes: Option<Seq<u8>>,
    maximum: u32,
    unlocked: Result<(), Seq<char>>,
    format: CameraFormat,
    limits: CameraLimits,
    stride: usize,
    sequence: u64,
    elapsed_ns: u128,
    id: Seq<char>,
)
    requires
        bytes is Some ==> bytes->0.len() <= usize::MAX,
    ensures
        sample_frame(
            bytes,
            maximum,
            unlocked,
            format,
            limits,
            stride,
            sequence,
            elapsed_ns,
            id,
        ) matches Ok(captured) ==> {
            &&& captured.payload.len() == bytes->0.len()
            &&& forall|i: int|
                0 <= i < captured.payload.len() ==> (#[trigger] captured.payload[i]) == bytes->0[i]
            &&& captured.format == format
            &&& captured.sequence == sequence
            &&& captured.dropped_count == 0
            &&& captured.timestamp_ns <= elapsed_ns
            &&& captured.timestamp_ns == elapsed_ns || captured.timestamp_ns == u64::MAX
            &&& captured.planes[0].offset == 0
            &&& captured.planes[0].stride == stride
            &&& format.pixel_format != CameraPixelFormat::Nv12 ==> captured.planes.len() == 1
                && captured.planes[0].length == bytes->0.len()
            &&& format.pixel_format == CameraPixelFormat::Nv12 ==> {
                &&& captured.planes.len() == 2
                &&& captured.planes[0].length == stride * format.height
                &&& captured.planes[1].offset == captured.planes[0].length
                &&& captured.planes[1].length == stride * ((format.height + 1) / 2)
                &&& captured.planes[1].stride == stride
            }
        },
{
    frame::lemma_plane_bytes(format, stride as int);
}

/// A sample is a frame exactly where it has bytes, no more than its buffer and the bounds hold, where
/// these hold all rows of the format, each long enough, and where the sample could be unlocked.
pub proof fn law_whole_samples_are_frames(
    bytes: Option<Seq<u8>>,
    maximum: u32,
    unlocked: Result<(), Seq<char>>,
    format: CameraFormat,
    limits: CameraLimits,
    stride: usize,
    sequence: u64,
    elapsed_ns: u128,
    id: Seq<char>,
)
    requires
        bytes is Some ==> bytes->0.len() <= usize::MAX,
    ensures
        sample_frame(
            bytes,
            maximum,
            unlocked,
            format,
            limits,
            stride,
            sequence,
            elapsed_ns,
            id,
        ) is Ok <==> {
            let used = bytes->0.len();
            &&& bytes is Some
            &&& 0 < used <= maximum
            &&& used <= limits.max_frame_bytes
            &&& format.pixel_format == CameraPixelFormat::Nv12 ==> stride >= format.width && used
                >= stride * format.height + stride * ((format.height + 1) / 2)
            &&& format.pixel_format == CameraPixelFormat::Yuyv ==> stride >= 2 * format.width
                && used >= stride * format.height
            &&& format.pixel_format == CameraPixelFormat::Mjpeg ==> stride > 0
            &&& unlocked is Ok
        },
{
    frame::lemma_plane_bytes(format, stride as int);
}

/// The media of a reader is taken exactly where it is video of the requested format and size, with
/// rows that hold one byte for each pixel of a row, or two, or any.
pub proof fn law_only_the_requested_media_is_taken(actual: MediaType, requested: CameraFormat)
    ensures
        is_exact(actual, requested) <==> {
            &&& actual.major == Some(0x73646976_0000_0010_8000_00aa00389b71u128)
            &&& actual.dimensions is Some
            &&& actual.dimensions->0 as int / 0x1_0000_0000 == requested.width
            &&& actual.dimensions->0 as int % 0x1_0000_0000 == requested.height
            &&& actual.stride is Some
            &&& requested.pixel_format == CameraPixelFormat::Nv12 ==> actual.subtype == Some(
                0x3231564e_0000_0010_8000_00aa00389b71u128,
            ) && actual.stride->0 >= requested.width
            &&& requested.pixel_format == CameraPixelFormat::Yuyv ==> actual.subtype == Some(
                0x32595559_0000_0010_8000_00aa00389b71u128,
            ) && actual.stride->0 >= 2 * requested.width
            &&& requested.pixel_format == CameraPixelFormat::Mjpeg ==> actual.subtype == Some(
                0x47504a4d_0000_0010_8000_00aa00389b71u128,
            ) && actual.stride->0 > 0
        },
{
}

/// A camera is offered under its symbolic link, which is medium evidence of which camera it is.
pub proof fn law_camera_is_offered_as_it_is(link: Seq<char>)
    ensures
        ({
            let offered = descriptor_of(link);
            &&& offered.id == backend::identity_text(CameraBackend::MediaFoundation, link)
            &&& offered.quality == IdentityQuality::Medium
            &&& offered.endpoint == link
            &&& offered.transport == TransportKind::Camera
            &&& offered.capabilities.contains(Capability::CameraCapture)
            &&& offered.capabilities.contains(Capability::CameraFramesShm)
            &&& offered.properties["adapter"@] == "mediafoundation"@
            &&& offered.properties["endpoint"@] == link
            &&& offered.properties["camera.identity_source"@] == "mf.video_capture.symbolic_link"@
        }),
{
    reveal_strlit("adapter");
    reveal_strlit("endpoint");
    reveal_strlit("camera.identity_source");
    assert("adapter"@.len() == 7);
    assert("endpoint"@.len() == 8);
    assert("camera.identity_source"@.len() == 22);
    let offered = descriptor_of(link).capabilities;
    assert(offered[0] == Capability::CameraCapture);
    assert(offered[1] == Capability::CameraFramesShm);
}

/// A sample is of its format exactly where its rows are long enough and it has every byte of every
/// plane.
pub proof fn law_samples_hold_every_row(
    format: CameraFormat,
    stride: usize,
    used: usize,
    id: Seq<char>,
)
    ensures
        layout_refusal(format, stride as int, used as int, id) is None <==> match format.pixel_format {
            CameraPixelFormat::Nv12 => stride >= format.width && used >= stride * format.height
                + stride * ((format.height as int + 1) / 2),
            CameraPixelFormat::Yuyv => stride >= 2 * format.width && used >= stride * format.height,
            CameraPixelFormat::Mjpeg => stride > 0 && used >= 1,
        },
{
}

/// A sample has planes exactly where it holds every byte of them: the planes of brightness and of
/// colour one after the other, or one plane that is the whole sample.
pub proof fn law_planes_fill_the_sample(
    format: CameraFormat,
    stride: usize,
    payload: usize,
    id: Seq<char>,
)
    ensures
        ({
            let found = planes_of(format, stride as int, payload as int, id);
            let luma = stride * format.height;
            let chroma = stride * ((format.height as int + 1) / 2);
            if format.pixel_format == CameraPixelFormat::Nv12 {
                &&& found is Ok <==> luma + chroma <= payload
                &&& found matches Ok(planes) ==> planes.len() == 2 && planes[0].offset == 0
                    && planes[0].length == luma && planes[0].stride == stride && planes[1].offset
                    == luma && planes[1].length == chroma && planes[1].stride == stride
            } else {
                found matches Ok(planes) && planes.len() == 1 && planes[0].offset == 0
                    && planes[0].length == payload && planes[0].stride == stride
            }
        }),
{
    frame::lemma_plane_bytes(format, stride as int);
}

} // verus!
