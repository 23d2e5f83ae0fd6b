//! Cameras of the Video for Linux interface.

use vstd::prelude::*;
use vstd::slice::*;
use vstd::string::*;

use crate::camera::backend;
use crate::camera::backend::{
    encode_resource_id, format_unsupported, invalid, platform_error, timeout_error, unavailable,
    CameraBackend,
};
use crate::camera::frame;
use crate::camera::frame::{
    clamp_time, planar_bytes, CameraFrame, CameraPlaneLayout, FrameContent,
};
use crate::camera::frame_format;
use crate::camera::frame_format::{CameraFormat, CameraLimits, CameraPixelFormat};
use crate::camera::claims::ClaimSet;
use crate::camera::session;
use crate::camera::session::{open_camera, CameraSession};
use crate::error::{HalError, HalErrorView, HalResult, IoError, IoErrorKind};
use crate::resource;
use crate::resource::{
    Capability, DescriptorView, IdentityQuality, ResourceDescriptor, ResourceId,
    ResourceProperties, TransportKind,
};
use crate::text;
use crate::text::{same_text, trim};

verus! {

/// The clock of the frames' times.
pub const CLOCK_DOMAIN: &'static str = "v4l2.receipt.monotonic";

/// How many buffers the device fills.
pub const BUFFER_COUNT: u32 = 4;

/// How far up from the device the search for a serial number goes.
pub const MAX_IDENTITY_LEVELS: usize = 16;

/// The adapter.
#[derive(Clone, Copy, Debug)]
pub struct V4l2Adapter;

impl V4l2Adapter {
    /// The adapter.
    pub fn new() -> (adapter: Self)
        ensures
            adapter == V4l2Adapter,
    {
        V4l2Adapter
    }

    /// The cameras among the discovered devices; without a Linux system nothing is discovered.
    pub fn enumerate(&self, devices: Option<Vec<DeviceReport>>) -> (result: HalResult<
        Vec<ResourceDescriptor>,
    >)
        ensures
            match devices {
                None => result is Err && result->Err_0@ == backend::unavailable_error(
                    CameraBackend::V4l2,
                    "camera.enumerate"@,
                ),
                Some(devices) => match result {
                    Ok(descriptors) => {
                        &&& forall|i: int|
                            0 <= i < devices@.len() && captures(#[trigger] devices@[i])
                                ==> devices@[i].evidence.value@.len() > 0
                        &&& resource::descriptor_views(descriptors@) == cameras_of(devices@)
                    },
                    Err(error) => {
                        &&& error@ == backend::no_evidence_error(CameraBackend::V4l2)
                        &&& exists|i: int|
                            0 <= i < devices@.len() && captures(#[trigger] devices@[i])
                                && devices@[i].evidence.value@.len() == 0
                    },
                },
            },
    {
        match devices {
            Some(devices) => camera_descriptors(&devices),
            None => Err(unavailable(CameraBackend::V4l2, "camera.enumerate")),
        }
    }

    /// The name of the adapter.
    pub fn adapter_name(&self) -> (name: &'static str)
        ensures
            name@ == "v4l2"@,
    {
        CameraBackend::V4l2.adapter_name()
    }

    /// Selects a camera among discovered ones and takes it into use.
    pub fn open(
        &self,
        claims: &mut ClaimSet,
        discovered: Option<HalResult<Vec<ResourceDescriptor>>>,
        id: &ResourceId,
        format: CameraFormat,
        limits: &CameraLimits,
    ) -> (result: HalResult<(ResourceDescriptor, CameraSession)>)
        requires
            old(claims).wf(),
        ensures
            final(claims).wf(),
            session::opens(
                CameraBackend::V4l2,
                old(claims)@,
                final(claims)@,
                discovered,
                id@,
                format,
                *limits,
                result,
            ),
    {
        open_camera(CameraBackend::V4l2, claims, discovered, id, format, limits)
    }
}

fn camera_descriptors(devices: &Vec<DeviceReport>) -> (result: HalResult<Vec<ResourceDescriptor>>)
    ensures
        match result {
            Ok(descriptors) => {
                &&& forall|i: int|
                    0 <= i < devices@.len() && captures(#[trigger] devices@[i])
                        ==> devices@[i].evidence.value@.len() > 0
                &&& resource::descriptor_views(descriptors@) == cameras_of(devices@)
            },
            Err(error) => {
                &&& error@ == backend::no_evidence_error(CameraBackend::V4l2)
                &&& exists|i: int|
                    0 <= i < devices@.len() && captures(#[trigger] devices@[i])
                        && devices@[i].evidence.value@.len() == 0
            },
        },
{
    let mut descriptors: Vec<ResourceDescriptor> = Vec::new();
    let mut index: usize = 0;
    proof {
        assert(resource::descriptor_views(descriptors@) =~= cameras_of(
            devices@.take(0),
        ));
    }
    while index < devices.len()
        invariant
            index <= devices@.len(),
            forall|i: int|
                0 <= i < index && captures(#[trigger] devices@[i])
                    ==> devices@[i].evidence.value@.len() > 0,
            resource::descriptor_views(descriptors@) == cameras_of(
                devices@.take(index as int),
            ),
        decreases devices@.len() - index,
    {
        proof {
            assert(devices@.take(index + 1).drop_last() =~= devices@.take(index as int));
        }
        let ghost before = descriptors@;
        match descriptor_from_device(&devices[index])? {
            Some(descriptor) => {
                descriptors.push(descriptor);
                proof {
                    assert(resource::descriptor_views(descriptors@)
                        =~= resource::descriptor_views(before).push(descriptor@));
                }
            },
            None => {},
        }
        index += 1;
    }
    proof {
        assert(devices@.take(index as int) =~= devices@);
    }
    Ok(descriptors)
}

/// The name of a camera's device node: `video` and digits.
pub open spec fn video_name(name: Seq<char>) -> bool {
    &&& name.len() >= 5
    &&& name.take(5) == "video"@
    &&& forall|i: int| 5 <= i < name.len() ==> text::is_digit(name[i])
}

/// Whether a name in the device directory is that of a camera.
pub fn is_video_endpoint(name: &str) -> (is_video: bool)
    ensures
        is_video == video_name(name@),
{
    let length = name.unicode_len();
    if length < 5 {
        return false;
    }
    let start = name.substring_char(0, 5);
    proof {
        assert(name@.subrange(0, 5) =~= name@.take(5));
    }
    if !same_text(start, "video") {
        return false;
    }
    let mut index: usize = 5;
    while index < length
        invariant
            5 <= index <= length,
            length == name@.len(),
            name@.take(5) == "video"@,
            forall|i: int| 5 <= i < index ==> text::is_digit(name@[i]),
        decreases length - index,
    {
        let c = name.get_char(index);
        if c < '0' || c > '9' {
            proof {
                assert(!text::is_digit(name@[index as int]));
            }
            return false;
        }
        index += 1;
    }
    true
}

/// Evidence of which camera a device is.
#[derive(Clone, Debug, PartialEq, Eq)]
pub struct IdentityEvidence {
    pub value: String,
    pub source: &'static str,
    pub quality: IdentityQuality,
}

/// The mathematical content of [`IdentityEvidence`].
#[verifier::ext_equal]
pub struct EvidenceView {
    pub value: Seq<char>,
    pub source: Seq<char>,
    pub quality: IdentityQuality,
}

impl View for IdentityEvidence {
    type V = EvidenceView;

    open spec fn view(&self) -> EvidenceView {
        EvidenceView { value: self.value@, source: self.source@, quality: self.quality }
    }
}

/// The evidence that a serial number or the path of a device gives.
pub open spec fn evidence_of(serial: Seq<char>, path: Seq<char>) -> Option<EvidenceView> {
    if serial.len() > 0 {
        Some(
            EvidenceView {
                value: "serial:"@ + serial,
                source: "sysfs.serial"@,
                quality: IdentityQuality::Strong,
            },
        )
    } else if path.len() > 0 {
        Some(
            EvidenceView {
                value: "sysfs:"@ + path,
                source: "sysfs.canonical_device_path"@,
                quality: IdentityQuality::Medium,
            },
        )
    } else {
        None
    }
}

/// The content of optional evidence.
pub open spec fn evidence_view(evidence: Option<IdentityEvidence>) -> Option<EvidenceView> {
    match evidence {
        Some(evidence) => Some(evidence@),
        None => None,
    }
}

/// The evidence that a serial number or the path of a device gives.
pub fn identity_from_serial_or_sysfs_path(serial: &str, path: &str) -> (evidence: Option<
    IdentityEvidence,
>)
    ensures
        evidence_view(evidence) == evidence_of(serial@, path@),
{
    if !serial.is_empty() {
        let mut value = "serial:".to_owned();
        value.append(serial);
        return Some(
            IdentityEvidence {
                value,
                source: "sysfs.serial",
                quality: IdentityQuality::Strong,
            },
        );
    }
    if path.is_empty() {
        return None;
    }
    let mut value = "sysfs:".to_owned();
    value.append(path);
    Some(
        IdentityEvidence {
            value,
            source: "sysfs.canonical_device_path",
            quality: IdentityQuality::Medium,
        },
    )
}

/// A directory on the way up from a device: its path, and its serial number where it has one.
#[derive(Clone, Debug, PartialEq, Eq)]
pub struct SysfsLevel {
    pub path: String,
    pub serial: Option<String>,
}

/// The evidence of the first directory with a serial number file, within the limit.
pub open spec fn level_evidence(levels: Seq<SysfsLevel>, from: int) -> Option<EvidenceView>
    decreases levels.len() - from,
{
    if from < 0 || from >= levels.len() || from >= MAX_IDENTITY_LEVELS {
        None
    } else {
        let found = match levels[from].serial {
            Some(serial) => evidence_of(text::trimmed(serial@), levels[from].path@),
            None => None,
        };
        match found {
            Some(evidence) => Some(evidence),
            None => level_evidence(levels, from + 1),
        }
    }
}

/// The evidence of a device: that of the directories above it, else its own path.
pub open spec fn device_evidence(levels: Seq<SysfsLevel>, canonical: Seq<char>) -> Option<
    EvidenceView,
> {
    match level_evidence(levels, 0) {
        Some(evidence) => Some(evidence),
        None => evidence_of(Seq::empty(), canonical),
    }
}

/// The evidence of a device, given the directories from it upwards and its canonical path.
pub fn identity_evidence(levels: &Vec<SysfsLevel>, canonical: &str) -> (result: HalResult<
    IdentityEvidence,
>)
    ensures
        match result {
            Ok(evidence) => device_evidence(levels@, canonical@) == Some(evidence@),
            Err(error) => {
                &&& device_evidence(levels@, canonical@) is None
                &&& error@ == backend::invalid_error(
                    "camera.identity"@,
                    "V4L2 sysfs device path must not be empty"@,
                )
            },
        },
{
    let mut index: usize = 0;
    while index < levels.len() && index < MAX_IDENTITY_LEVELS
        invariant
            index <= levels@.len(),
            level_evidence(levels@, 0) == level_evidence(levels@, index as int),
        decreases levels@.len() - index,
    {
        if let Some(serial) = &levels[index].serial {
            if let Some(evidence) = identity_from_serial_or_sysfs_path(
                trim(serial.as_str()),
                levels[index].path.as_str(),
            ) {
                return Ok(evidence);
            }
        }
        index += 1;
    }
    proof {
        reveal_strlit("");
        assert(""@ =~= Seq::<char>::empty());
    }
    match identity_from_serial_or_sysfs_path("", canonical) {
        Some(evidence) => Ok(evidence),
        None => Err(invalid("camera.identity", "V4L2 sysfs device path must not be empty")),
    }
}

/// What a device reports.
#[derive(Clone, Debug, PartialEq, Eq)]
pub struct DeviceReport {
    pub endpoint: String,
    pub video_capture: bool,
    pub streaming: bool,
    pub driver: String,
    pub card: String,
    pub bus: String,
    pub evidence: IdentityEvidence,
}

/// A device that is a camera.
pub open spec fn captures(device: DeviceReport) -> bool {
    device.video_capture && device.streaming
}

/// The descriptor of a camera.
pub open spec fn descriptor_of(device: DeviceReport) -> DescriptorView {
    DescriptorView {
        id: backend::identity_text(CameraBackend::V4l2, device.evidence.value@),
        endpoint: device.endpoint@,
        quality: device.evidence.quality,
        transport: TransportKind::Camera,
        properties: Map::<Seq<char>, Seq<char>>::empty().insert("adapter"@, "v4l2"@).insert(
            "endpoint"@,
            device.endpoint@,
        ).insert("camera.driver"@, device.driver@).insert("camera.card"@, device.card@).insert(
            "camera.bus"@,
            device.bus@,
        ).insert("camera.identity_evidence"@, device.evidence.value@).insert(
            "camera.identity_source"@,
            device.evidence.source@,
        ),
        capabilities: seq![Capability::CameraCapture, Capability::CameraFramesShm],
    }
}

/// The descriptors of the cameras among devices, in order.
pub open spec fn cameras_of(devices: Seq<DeviceReport>) -> Seq<DescriptorView>
    decreases devices.len(),
{
    if devices.len() == 0 {
        Seq::empty()
    } else if captures(devices.last()) {
        cameras_of(devices.drop_last()).push(descriptor_of(devices.last()))
    } else {
        cameras_of(devices.drop_last())
    }
}

/// The descriptor of a device, if it is a camera.
pub fn descriptor_from_device(device: &DeviceReport) -> (result: HalResult<
    Option<ResourceDescriptor>,
>)
    ensures
        match result {
            Ok(None) => !captures(*device),
            Ok(Some(descriptor)) => {
                &&& captures(*device)
                &&& device.evidence.value@.len() > 0
                &&& descriptor@ == descriptor_of(*device)
            },
            Err(error) => {
                &&& captures(*device)
                &&& device.evidence.value@.len() == 0
                &&& error@ == backend::no_evidence_error(CameraBackend::V4l2)
            },
        },
{
    if !device.video_capture || !device.streaming {
        return Ok(None);
    }
    let id = encode_resource_id(CameraBackend::V4l2, device.evidence.value.as_str())?;
    let mut properties = ResourceProperties::new();
    properties.insert_text("adapter", "v4l2");
    properties.insert_text("endpoint", device.endpoint.as_str());
    properties.insert_text("camera.driver", device.driver.as_str());
    properties.insert_text("camera.card", device.card.as_str());
    properties.insert_text("camera.bus", device.bus.as_str());
    properties.insert_text("camera.identity_evidence", device.evidence.value.as_str());
    properties.insert_text("camera.identity_source", device.evidence.source);
    let mut capabilities: Vec<Capability> = Vec::new();
    capabilities.push(Capability::CameraCapture);
    capabilities.push(Capability::CameraFramesShm);
    proof {
        assert(capabilities@ =~= descriptor_of(*device).capabilities);
    }
    Ok(
        Some(
            ResourceDescriptor {
                id,
                endpoint: device.endpoint.clone(),
                quality: device.evidence.quality,
                transport: TransportKind::Camera,
                properties,
                capabilities,
            },
        ),
    )
}

/// The four bytes by which the device names a pixel format.
pub open spec fn fourcc_of(pixel_format: CameraPixelFormat) -> Seq<u8> {
    match pixel_format {
        CameraPixelFormat::Nv12 => seq![0x4eu8, 0x56u8, 0x31u8, 0x32u8],
        CameraPixelFormat::Yuyv => seq![0x59u8, 0x55u8, 0x59u8, 0x56u8],
        CameraPixelFormat::Mjpeg => seq![0x4du8, 0x4au8, 0x50u8, 0x47u8],
    }
}

/// The four bytes by which the device names a pixel format.
pub fn fourcc(pixel_format: CameraPixelFormat) -> (code: [u8; 4])
    ensures
        code@ == fourcc_of(pixel_format),
{
    let code: [u8; 4] = match pixel_format {
        CameraPixelFormat::Nv12 => [0x4e, 0x56, 0x31, 0x32],
        CameraPixelFormat::Yuyv => [0x59, 0x55, 0x59, 0x56],
        CameraPixelFormat::Mjpeg => [0x4d, 0x4a, 0x50, 0x47],
    };
    proof {
        assert(code@ =~= fourcc_of(pixel_format));
    }
    code
}

/// The format that a device has set.
#[derive(Clone, Copy, Debug, PartialEq, Eq)]
pub struct DeviceFormat {
    pub width: u32,
    pub height: u32,
    pub fourcc: [u8; 4],
    pub stride: u32,
    pub size: u32,
}

/// The format that a device has set is exactly the requested one, with rows that are long enough.
pub open spec fn is_exact(
    requested: CameraFormat,
    actual: DeviceFormat,
    limits: CameraLimits,
) -> bool {
    &&& actual.width == requested.width
    &&& actual.height == requested.height
    &&& actual.fourcc@ == fourcc_of(requested.pixel_format)
    &&& actual.size <= limits.max_frame_bytes
    &&& match requested.pixel_format {
        CameraPixelFormat::Nv12 => actual.stride >= requested.width,
        CameraPixelFormat::Yuyv => actual.stride >= requested.width * 2,
        CameraPixelFormat::Mjpeg => actual.size > 0,
    }
}

/// Checks that the format that a device has set is exactly the requested one.
pub fn ensure_exact_format(
    requested: &CameraFormat,
    actual: &DeviceFormat,
    limits: &CameraLimits,
    id: &ResourceId,
) -> (result: HalResult<()>)
    ensures
        match result {
            Ok(()) => is_exact(*requested, *actual, *limits),
            Err(error) => {
                &&& !is_exact(*requested, *actual, *limits)
                &&& error@ == backend::format_error(CameraBackend::V4l2, "camera.open"@, id@)
            },
        },
{
    let wanted = fourcc(requested.pixel_format);
    let same_code = actual.fourcc[0] == wanted[0] && actual.fourcc[1] == wanted[1]
        && actual.fourcc[2] == wanted[2] && actual.fourcc[3] == wanted[3];
    proof {
        if same_code {
            assert(actual.fourcc@ =~= wanted@);
        }
    }
    let long_rows = match requested.pixel_format {
        CameraPixelFormat::Nv12 => actual.stride >= requested.width,
        CameraPixelFormat::Yuyv => actual.stride as u64 >= requested.width as u64 * 2,
        CameraPixelFormat::Mjpeg => actual.size > 0,
    };
    if actual.width != requested.width || actual.height != requested.height || !same_code
        || actual.size as u64 > limits.max_frame_bytes as u64 || !long_rows {
        return Err(format_unsupported(CameraBackend::V4l2, "camera.open", id));
    }
    Ok(())
}

/// The bytes of the planes of a format with a given length of rows.
pub open spec fn layout_bytes(format: CameraFormat, stride: int) -> int {
    match format.pixel_format {
        CameraPixelFormat::Nv12 => frame::luma_bytes(format, stride) + frame::chroma_bytes(
            format,
            stride,
        ),
        CameraPixelFormat::Yuyv => stride * format.height,
        CameraPixelFormat::Mjpeg => 0,
    }
}

/// Why a payload is not of its format.
pub open spec fn payload_refusal(
    format: CameraFormat,
    stride: int,
    mapped: int,
    used: int,
    id: Seq<char>,
) -> Option<HalErrorView> {
    let needed = layout_bytes(format, stride);
    match format.pixel_format {
        CameraPixelFormat::Nv12 => if needed > usize::MAX {
            Some(backend::invalid_error("camera.capture"@, "NV12 layout arithmetic overflows"@))
        } else if stride < format.width || used < needed || mapped < needed {
            Some(
                backend::invalid_error(
                    "camera.capture"@,
                    "V4L2 NV12 payload is shorter than its format"@,
                ).about(id),
            )
        } else {
            None
        },
        CameraPixelFormat::Yuyv => if format.width * 2 > usize::MAX {
            Some(backend::invalid_error("camera.capture"@, "YUYV stride overflows"@))
        } else if needed > usize::MAX {
            Some(backend::invalid_error("camera.capture"@, "YUYV layout arithmetic overflows"@))
        } else if stride < format.width * 2 || used < needed || mapped < needed {
            Some(
                backend::invalid_error(
                    "camera.capture"@,
                    "V4L2 YUYV payload is shorter than its format"@,
                ).about(id),
            )
        } else {
            None
        },
        CameraPixelFormat::Mjpeg => None,
    }
}

/// Checks that a payload is long enough for its format.
pub fn validate_payload_layout(
    format: &CameraFormat,
    stride: usize,
    mapped: usize,
    used: usize,
    id: &ResourceId,
) -> (result: HalResult<()>)
    ensures
        match result {
            Ok(()) => payload_refusal(
                *format,
                stride as int,
                mapped as int,
                used as int,
                id@,
            ) is None,
            Err(error) => payload_refusal(
                *format,
                stride as int,
                mapped as int,
                used as int,
                id@,
            ) == Some(error@),
        },
{
    match format.pixel_format {
        CameraPixelFormat::Nv12 => {
            let needed: usize = match planar_bytes(format, stride) {
                Some((luma, chroma)) => luma + chroma,
                None => {
                    return Err(invalid("camera.capture", "NV12 layout arithmetic overflows"));
                },
            };
            if stride < format.width as usize || used < needed || mapped < needed {
                return Err(
                    invalid(
                        "camera.capture",
                        "V4L2 NV12 payload is shorter than its format",
                    ).with_resource_id(id.copy()),
                );
            }
            Ok(())
        },
        CameraPixelFormat::Yuyv => {
            let row: usize = match (format.width as usize).checked_mul(2) {
                Some(row) => row,
                None => {
                    return Err(invalid("camera.capture", "YUYV stride overflows"));
                },
            };
            let needed: usize = match stride.checked_mul(format.height as usize) {
                Some(needed) => needed,
                None => {
                    return Err(invalid("camera.capture", "YUYV layout arithmetic overflows"));
                },
            };
            if stride < row || used < needed || mapped < needed {
                return Err(
                    invalid(
                        "camera.capture",
                        "V4L2 YUYV payload is shorter than its format",
                    ).with_resource_id(id.copy()),
                );
            }
            Ok(())
        },
        CameraPixelFormat::Mjpeg => Ok(()),
    }
}

/// The planes of a payload, or why it has none.
pub open spec fn planes_of(
    format: CameraFormat,
    stride: int,
    payload: int,
    id: Seq<char>,
) -> Result<Seq<CameraPlaneLayout>, HalErrorView> {
    let luma = frame::luma_bytes(format, stride);
    let chroma = frame::chroma_bytes(format, stride);
    if format.pixel_format == CameraPixelFormat::Nv12 {
        if luma > usize::MAX {
            Err(backend::invalid_error("camera.capture"@, "V4L2 NV12 Y layout overflows"@))
        } else if luma + chroma > usize::MAX {
            Err(backend::invalid_error("camera.capture"@, "V4L2 NV12 layout overflows"@))
        } else if luma + chroma > payload {
            Err(
                backend::invalid_error(
                    "camera.capture"@,
                    "V4L2 NV12 planes exceed payload"@,
                ).about(id),
            )
        } else {
            Ok(
                seq![
                    CameraPlaneLayout {
                        offset: 0,
                        length: luma as usize,
                        stride: stride as usize,
                    },
                    CameraPlaneLayout {
                        offset: luma as usize,
                        length: chroma as usize,
                        stride: stride as usize,
                    },
                ],
            )
        }
    } else {
        Ok(
            seq![
                CameraPlaneLayout {
                    offset: 0,
                    length: payload as usize,
                    stride: stride as usize,
                },
            ],
        )
    }
}

/// The planes of a payload.
pub fn plane_layout(
    format: &CameraFormat,
    stride: usize,
    payload: usize,
    id: &ResourceId,
) -> (result: HalResult<Vec<CameraPlaneLayout>>)
    ensures
        match result {
            Ok(planes) => planes_of(*format, stride as int, payload as int, id@) == Ok::<
                Seq<CameraPlaneLayout>,
                HalErrorView,
            >(planes@),
            Err(error) => planes_of(*format, stride as int, payload as int, id@) == Err::<
                Seq<CameraPlaneLayout>,
                HalErrorView,
            >(error@),
        },
{
    let mut planes: Vec<CameraPlaneLayout> = Vec::new();
    if format.pixel_format == CameraPixelFormat::Nv12 {
        if stride.checked_mul(format.height as usize).is_none() {
            return Err(invalid("camera.capture", "V4L2 NV12 Y layout overflows"));
        }
        let (luma, chroma) = match planar_bytes(format, stride) {
            Some(bytes) => bytes,
            None => {
                return Err(invalid("camera.capture", "V4L2 NV12 layout overflows"));
            },
        };
        if luma + chroma > payload {
            return Err(
                invalid("camera.capture", "V4L2 NV12 planes exceed payload").with_resource_id(
                    id.copy(),
                ),
            );
        }
        planes.push(CameraPlaneLayout { offset: 0, length: luma, stride });
        planes.push(CameraPlaneLayout { offset: luma, length: chroma, stride });
    } else {
        planes.push(CameraPlaneLayout { offset: 0, length: payload, stride });
    }
    proof {
        assert(planes@ =~= planes_of(*format, stride as int, payload as int, id@)->Ok_0);
    }
    Ok(planes)
}

/// Planes that are laid out within a payload do not overlap and stay in it.
pub proof fn law_planes_fit_the_payload(
    format: CameraFormat,
    stride: int,
    payload: int,
    id: Seq<char>,
)
    requires
        0 <= stride <= usize::MAX,
        0 <= payload <= usize::MAX,
        planes_of(format, stride, payload, id) is Ok,
    ensures
        frame::planes_fit(planes_of(format, stride, payload, id)->Ok_0, payload),
{
    frame::lemma_plane_bytes(format, stride);
}

/// The error of a read that failed.
pub fn read_failure(failure: &IoError, id: &ResourceId) -> (error: HalError)
    ensures
        error@ == if failure.kind == IoErrorKind::TimedOut {
            backend::timeout_failure(CameraBackend::V4l2, "camera.capture"@, id@)
        } else {
            backend::platform_failure(
                CameraBackend::V4l2,
                "camera.capture"@,
                failure.message@,
            ).about(id@)
        },
{
    if failure.kind == IoErrorKind::TimedOut {
        timeout_error(CameraBackend::V4l2, "camera.capture", id)
    } else {
        platform_error(
            CameraBackend::V4l2,
            "camera.capture",
            failure.message.as_str(),
        ).with_resource_id(id.copy())
    }
}

/// Whether an error says that a wait was too long.
pub fn is_timeout(error: &HalError) -> (timeout: bool)
    ensures
        timeout == (error@.name == "runtime.transport.timeout"@),
{
    same_text(error.name(), "runtime.transport.timeout")
}

/// What a wait gave, once the stream was stopped after a wait that was too long. Where the stream
/// could not be stopped, that is the error.
pub fn after_stop(
    result: HalResult<CameraFrame>,
    stopped: Result<(), String>,
    id: &ResourceId,
) -> (outcome: HalResult<CameraFrame>)
    ensures
        match (result, stopped) {
            (Err(error), Err(reason)) => if error@.name == "runtime.transport.timeout"@ {
                outcome is Err && outcome->Err_0@ == backend::platform_failure(
                    CameraBackend::V4l2,
                    "camera.capture"@,
                    reason@,
                ).about(id@)
            } else {
                outcome == result
            },
            _ => outcome == result,
        },
{
    match result {
        Ok(captured) => Ok(captured),
        Err(error) => {
            if is_timeout(&error) {
                if let Err(reason) = stopped {
                    return Err(
                        platform_error(
                            CameraBackend::V4l2,
                            "camera.capture",
                            reason.as_str(),
                        ).with_resource_id(id.copy()),
                    );
                }
            }
            Err(error)
        },
    }
}

/// What a device hands out: its mapped buffer, how much of it is used, and whether it is corrupt.
pub struct NativeBuffer<'a> {
    pub mapped: &'a [u8],
    pub bytes_used: u32,
    pub corrupt: bool,
}

/// A payload of the number of bytes that a device says it used is possible.
pub open spec fn used_fits(used: int, mapped: int, most: int, limits: CameraLimits) -> bool {
    0 < used <= mapped && used <= most && used <= limits.max_frame_bytes
}

/// The frame of a buffer, or why it is none.
pub open spec fn captured_frame(
    format: CameraFormat,
    limits: CameraLimits,
    stride: usize,
    mapped: Seq<u8>,
    bytes_used: u32,
    corrupt: bool,
    sequence: u64,
    elapsed_ns: u128,
    id: Seq<char>,
) -> Result<FrameContent, HalErrorView> {
    let used = bytes_used as int;
    if corrupt {
        Err(
            backend::platform_failure(
                CameraBackend::V4l2,
                "camera.capture"@,
                "V4L2 returned a corrupt frame"@,
            ).about(id),
        )
    } else if format.worst_case(limits) > usize::MAX {
        Err(frame_format::format_error("camera frame size overflows"@))
    } else if !used_fits(used, mapped.len() as int, format.worst_case(limits), limits) {
        Err(
            backend::invalid_error(
                "camera.capture"@,
                "V4L2 frame payload exceeds negotiated or mapped bounds"@,
            ).about(id),
        )
    } else {
        match payload_refusal(format, stride as int, mapped.len() as int, used, id) {
            Some(error) => Err(error),
            None => match planes_of(format, stride as int, used, id) {
                Err(error) => Err(error),
                Ok(planes) => Ok(
                    FrameContent {
                        format,
                        planes,
                        sequence,
                        timestamp_ns: frame::clamped_time(elapsed_ns),
                        clock_domain: CLOCK_DOMAIN@,
                        dropped_count: 0,
                        payload: mapped.take(used),
                    },
                ),
            },
        }
    }
}

/// The bytes of a captured frame are the first bytes of the mapped buffer, as many as the device
/// says it used, each in its place; its format, number and time are those given, and its planes cover
/// it: one plane from the first byte to the last, or the rows of the luma plane followed by half as
/// many rows of the chroma plane.
pub proof fn law_captured_bytes_are_those_of_the_device(
    format: CameraFormat,
    limits: CameraLimits,
    stride: usize,
    mapped: Seq<u8>,
    bytes_used: u32,
    corrupt: bool,
    sequence: u64,
    elapsed_ns: u128,
    id: Seq<char>,
)
    requires
        captured_frame(
            format,
            limits,
            stride,
            mapped,
            bytes_used,
            corrupt,
            sequence,
            elapsed_ns,
            id,
        ) is Ok,
    ensures
        ({
            let captured = captured_frame(
                format,
                limits,
                stride,
                mapped,
                bytes_used,
                corrupt,
                sequence,
                elapsed_ns,
                id,
            )->Ok_0;
            &&& !corrupt
            &&& 0 < bytes_used <= mapped.len()
            &&& captured.payload.len() == bytes_used
            &&& forall|i: int|
                0 <= i < bytes_used ==> (#[trigger] captured.payload[i]) == mapped[i]
            &&& captured.format == format
            &&& captured.sequence == sequence
            &&& captured.timestamp_ns <= elapsed_ns
            &&& captured.timestamp_ns == elapsed_ns || captured.timestamp_ns == u64::MAX
            &&& captured.planes[0].offset == 0
            &&& captured.planes[0].stride == stride
            &&& format.pixel_format != CameraPixelFormat::Nv12 ==> captured.planes.len() == 1
                && captured.planes[0].length == bytes_used
            &&& format.pixel_format == CameraPixelFormat::Nv12 ==> {
                &&& captured.planes.len() == 2
                &&& captured.planes[0].length == stride * format.height
                &&& captured.planes[1].offset == captured.planes[0].length
                &&& captured.planes[1].length == stride * ((format.height + 1) / 2)
                &&& captured.planes[1].stride == stride
                &&& captured.planes[1].offset + captured.planes[1].length <= bytes_used
            }
        }),
{
    frame::lemma_plane_bytes(format, stride as int);
}

/// The frame of a buffer.
pub fn capture_one(
    buffer: &NativeBuffer<'_>,
    format: &CameraFormat,
    limits: &CameraLimits,
    stride: usize,
    sequence: u64,
    elapsed_ns: u128,
    id: &ResourceId,
) -> (result: HalResult<CameraFrame>)
    ensures
        ({
            let expected = captured_frame(
                *format,
                *limits,
                stride,
                buffer.mapped@,
                buffer.bytes_used,
                buffer.corrupt,
                sequence,
                elapsed_ns,
                id@,
            );
            match result {
                Ok(captured) => expected == Ok::<FrameContent, HalErrorView>(captured@),
                Err(error) => expected == Err::<FrameContent, HalErrorView>(error@),
            }
        }),
        match result {
            Ok(captured) => {
                &&& !buffer.corrupt
                &&& captured.payload@.len() == buffer.bytes_used
                &&& 0 < buffer.bytes_used <= buffer.mapped@.len()
                &&& forall|i: int|
                    0 <= i < buffer.bytes_used ==> (#[trigger] captured.payload@[i])
                        == buffer.mapped@[i]
                &&& captured.format == *format
                &&& captured.sequence == sequence
                &&& captured.dropped_count == 0
                &&& elapsed_ns <= u64::MAX ==> captured.timestamp_ns == elapsed_ns
                &&& elapsed_ns > u64::MAX ==> captured.timestamp_ns == u64::MAX
            },
            Err(error) => error@.operation == "camera.capture"@ || error@.operation
                == "camera.format"@,
        },
{
    if buffer.corrupt {
        return Err(
            platform_error(
                CameraBackend::V4l2,
                "camera.capture",
                "V4L2 returned a corrupt frame",
            ).with_resource_id(id.copy()),
        );
    }
    let used: usize = buffer.bytes_used as usize;
    let most: usize = format.worst_case_frame_bytes(limits)?;
    if used == 0 || used > buffer.mapped.len() || used > most || used > limits.max_frame_bytes {
        return Err(
            invalid(
                "camera.capture",
                "V4L2 frame payload exceeds negotiated or mapped bounds",
            ).with_resource_id(id.copy()),
        );
    }
    validate_payload_layout(format, stride, buffer.mapped.len(), used, id)?;
    let planes = plane_layout(format, stride, used, id)?;
    let payload = slice_to_vec(slice_subrange(buffer.mapped, 0, used));
    proof {
        assert(payload@ =~= buffer.mapped@.take(used as int));
    }
    Ok(
        CameraFrame {
            format: *format,
            planes,
            sequence,
            timestamp_ns: clamp_time(elapsed_ns),
            clock_domain: CLOCK_DOMAIN,
            dropped_count: 0,
            payload,
        },
    )
}

/// A buffer is a frame exactly where the device does not call it corrupt, the number of bytes that it
/// says it used is positive and within the mapped buffer, the format and the bounds, and the bytes
/// hold all rows of the format, each long enough.
pub proof fn law_whole_buffers_are_frames(
    format: CameraFormat,
    limits: CameraLimits,
    stride: usize,
    mapped: Seq<u8>,
    bytes_used: u32,
    corrupt: bool,
    sequence: u64,
    elapsed_ns: u128,
    id: Seq<char>,
)
    requires
        format.worst_case(limits) <= usize::MAX,
    ensures
        captured_frame(
            format,
            limits,
            stride,
            mapped,
            bytes_used,
            corrupt,
            sequence,
            elapsed_ns,
            id,
        ) is Ok <==> {
            &&& !corrupt
            &&& 0 < bytes_used <= mapped.len()
            &&& bytes_used <= format.worst_case(limits)
            &&& bytes_used <= limits.max_frame_bytes
            &&& format.pixel_format == CameraPixelFormat::Nv12 ==> stride >= format.width
                && bytes_used >= stride * format.height + stride * ((format.height + 1) / 2)
            &&& format.pixel_format == CameraPixelFormat::Yuyv ==> stride >= 2 * format.width
                && bytes_used >= stride * format.height
        },
{
    frame::lemma_plane_bytes(format, stride as int);
}

/// The format that a device has set is taken exactly where it is the requested one, by its dimensions
/// and its four-letter name, within the bounds, with rows that hold one byte for each pixel of a row,
/// or two, or with a size at all.
pub proof fn law_only_the_requested_format_is_taken(
    requested: CameraFormat,
    actual: DeviceFormat,
    limits: CameraLimits,
)
    ensures
        is_exact(requested, actual, limits) <==> {
            &&& actual.width == requested.width
            &&& actual.height == requested.height
            &&& actual.size <= limits.max_frame_bytes
            &&& requested.pixel_format == CameraPixelFormat::Nv12 ==> actual.fourcc@
                == seq!['N' as u8, 'V' as u8, '1' as u8, '2' as u8] && actual.stride
                >= requested.width
            &&& requested.pixel_format == CameraPixelFormat::Yuyv ==> actual.fourcc@
                == seq!['Y' as u8, 'U' as u8, 'Y' as u8, 'V' as u8] && actual.stride >= 2
                * requested.width
            &&& requested.pixel_format == CameraPixelFormat::Mjpeg ==> actual.fourcc@
                == seq!['M' as u8, 'J' as u8, 'P' as u8, 'G' as u8] && actual.size > 0
        },
{
}

/// A serial number is strong evidence of which camera a device is, the path of the device medium
/// evidence, and nothing else is any.
pub proof fn law_serial_numbers_come_before_paths(serial: Seq<char>, path: Seq<char>)
    ensures
        evidence_of(serial, path) is None <==> serial.len() == 0 && path.len() == 0,
        serial.len() > 0 ==> evidence_of(serial, path)->0.value == "serial:"@ + serial
            && evidence_of(serial, path)->0.quality == IdentityQuality::Strong && evidence_of(
            serial,
            path,
        )->0.source == "sysfs.serial"@,
        serial.len() == 0 && path.len() > 0 ==> evidence_of(serial, path)->0.value == "sysfs:"@
            + path && evidence_of(serial, path)->0.quality == IdentityQuality::Medium
            && evidence_of(serial, path)->0.source == "sysfs.canonical_device_path"@,
{
}

/// The evidence of a device is that of the nearest directory with a serial number file, among the
/// first ones, and else its own path.
pub proof fn law_nearest_serial_number_counts(
    levels: Seq<SysfsLevel>,
    canonical: Seq<char>,
    nearest: int,
)
    requires
        0 <= nearest < levels.len(),
        nearest < MAX_IDENTITY_LEVELS,
        levels[nearest].serial is Some,
        levels[nearest].path@.len() > 0,
        forall|i: int| 0 <= i < nearest ==> (#[trigger] levels[i]).serial is None,
    ensures
        device_evidence(levels, canonical) == evidence_of(
            text::trimmed(levels[nearest].serial->0@),
            levels[nearest].path@,
        ),
{
    lemma_levels_without_serial(levels, 0, nearest);
}

/// A device below no directory with a serial number file is told by its own path.
pub proof fn law_device_without_serial_number_has_its_path(
    levels: Seq<SysfsLevel>,
    canonical: Seq<char>,
)
    requires
        forall|i: int| 0 <= i < levels.len() ==> (#[trigger] levels[i]).serial is None,
    ensures
        device_evidence(levels, canonical) is Some <==> canonical.len() > 0,
        canonical.len() > 0 ==> device_evidence(levels, canonical)->0.value == "sysfs:"@ + canonical
            && device_evidence(levels, canonical)->0.quality == IdentityQuality::Medium,
{
    lemma_levels_without_serial(levels, 0, levels.len() as int);
}

proof fn lemma_levels_without_serial(levels: Seq<SysfsLevel>, from: int, to: int)
    requires
        0 <= from <= to <= levels.len(),
        forall|i: int| from <= i < to ==> (#[trigger] levels[i]).serial is None,
    ensures
        to <= MAX_IDENTITY_LEVELS || to == levels.len() ==> level_evidence(levels, from)
            == level_evidence(levels, to),
    decreases to - from,
{
    if from < to {
        lemma_levels_without_serial(levels, from + 1, to);
        if from < MAX_IDENTITY_LEVELS {
            assert(levels[from].serial is None);
        }
    }
}

/// A camera is offered under its identity and its device node, with the evidence for its identity and
/// what the driver tells about it.
pub proof fn law_camera_is_offered_as_it_is(device: DeviceReport)
    ensures
        ({
            let offered = descriptor_of(device);
            &&& offered.id == backend::identity_text(CameraBackend::V4l2, device.evidence.value@)
            &&& offered.quality == device.evidence.quality
            &&& offered.endpoint == device.endpoint@
            &&& offered.transport == TransportKind::Camera
            &&& offered.capabilities.contains(Capability::CameraCapture)
            &&& offered.capabilities.contains(Capability::CameraFramesShm)
            &&& offered.properties["adapter"@] == "v4l2"@
            &&& offered.properties["endpoint"@] == device.endpoint@
            &&& offered.properties["camera.driver"@] == device.driver@
            &&& offered.properties["camera.card"@] == device.card@
            &&& offered.properties["camera.bus"@] == device.bus@
            &&& offered.properties["camera.identity_evidence"@] == device.evidence.value@
            &&& offered.properties["camera.identity_source"@] == device.evidence.source@
        }),
        captures(device) <==> device.video_capture && device.streaming,
{
    reveal_strlit("adapter");
    reveal_strlit("endpoint");
    reveal_strlit("camera.driver");
    reveal_strlit("camera.card");
    reveal_strlit("camera.bus");
    reveal_strlit("camera.identity_evidence");
    reveal_strlit("camera.identity_source");
    assert("adapter"@.len() == 7);
    assert("endpoint"@.len() == 8);
    assert("camera.driver"@.len() == 13);
    assert("camera.card"@.len() == 11);
    assert("camera.bus"@.len() == 10);
    assert("camera.identity_evidence"@.len() == 24);
    assert("camera.identity_source"@.len() == 22);
    let offered = descriptor_of(device).capabilities;
    assert(offered[0] == Capability::CameraCapture);
    assert(offered[1] == Capability::CameraFramesShm);
}

/// Every device that captures and streams is offered, in order, and no other is.
pub proof fn law_cameras_are_those_that_capture(devices: Seq<DeviceReport>)
    ensures
        forall|i: int|
            0 <= i < devices.len() && (#[trigger] devices[i]).video_capture && devices[i].streaming
                ==> cameras_of(devices).contains(descriptor_of(devices[i])),
        forall|k: int|
            0 <= k < cameras_of(devices).len() ==> offers_camera(
                devices,
                #[trigger] cameras_of(devices)[k],
            ),
    decreases devices.len(),
{
    if devices.len() > 0 {
        let front = devices.drop_last();
        let before = cameras_of(front);
        let found = cameras_of(devices);
        law_cameras_are_those_that_capture(front);
        assert forall|i: int|
            0 <= i < devices.len() && (#[trigger] devices[i]).video_capture
                && devices[i].streaming implies found.contains(descriptor_of(devices[i])) by {
            if i < front.len() {
                assert(front[i] == devices[i]);
                let k = choose|k: int|
                    0 <= k < before.len() && before[k] == descriptor_of(front[i]);
                assert(found[k] == descriptor_of(devices[i]));
            } else {
                assert(found[before.len() as int] == descriptor_of(devices[i]));
            }
        }
        assert forall|k: int| 0 <= k < found.len() implies offers_camera(
            devices,
            #[trigger] found[k],
        ) by {
            if k < before.len() {
                assert(found[k] == before[k]);
                assert(offers_camera(front, before[k]));
                let i = choose|i: int|
                    0 <= i < front.len() && (#[trigger] front[i]).video_capture
                        && front[i].streaming && before[k] == descriptor_of(front[i]);
                assert(devices[i] == front[i]);
            } else {
                assert(found[k] == descriptor_of(devices[devices.len() - 1]));
            }
        }
    }
}

/// A descriptor is that of a device that captures and streams.
pub open spec fn offers_camera(devices: Seq<DeviceReport>, descriptor: DescriptorView) -> bool {
    exists|i: int|
        0 <= i < devices.len() && (#[trigger] devices[i]).video_capture && devices[i].streaming
            && descriptor == descriptor_of(devices[i])
}

/// A payload has planes exactly where it holds every byte of them: the planes of brightness and of
/// colour one after the other, or one plane that is the whole payload.
pub proof fn law_planes_fill_the_payload(
    format: CameraFormat,
    stride: usize,
    payload: usize,
    id: Seq<char>,
)
    ensures
        ({
            let found = planes_of(format, stride as int, payload as int, id);
            let luma = stride * format.height;
            let chroma = stride * ((format.height as int + 1) / 2);
            if format.pixel_format == CameraPixelFormat::Nv12 {
                &&& found is Ok <==> luma + chroma <= payload
                &&& found matches Ok(planes) ==> planes.len() == 2 && planes[0].offset == 0
                    && planes[0].length == luma && planes[0].stride == stride && planes[1].offset
                    == luma && planes[1].length == chroma && planes[1].stride == stride
            } else {
                found matches Ok(planes) && planes.len() == 1 && planes[0].offset == 0
                    && planes[0].length == payload && planes[0].stride == stride
            }
        }),
{
    frame::lemma_plane_bytes(format, stride as int);
}

} // verus!
