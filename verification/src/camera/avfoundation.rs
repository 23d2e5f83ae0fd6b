//! Cameras of the AVFoundation interface.

use vstd::prelude::*;
use vstd::string::*;

use crate::camera::backend;
use crate::camera::backend::{
    closed, conflict, control_unsupported, encode_resource_id, format_unsupported, platform_error,
    timeout_error, unavailable, CameraBackend,
};
use crate::camera::claims::ClaimSet;
use crate::camera::frame;
use crate::camera::frame::{next_number, CameraFrame, CameraPlaneLayout, FrameContent};
use crate::camera::frame_format::{CameraFormat, CameraLimits, CameraPixelFormat};
use crate::camera::session;
use crate::camera::session::select_camera;
use crate::error::{ErrorCategory, HalError, HalErrorView, HalResult};
use crate::resource;
use crate::resource::{
    Capability, DescriptorView, IdentityQuality, ResourceDescriptor, ResourceId,
    ResourceProperties, TransportKind,
};
use crate::text::same_text;

verus! {

/// The clock of the frames' times.
pub const CLOCK_DOMAIN: &'static str = "avfoundation";

/// How long a capture sleeps between two looks, in nanoseconds.
pub const POLL_NANOSECONDS: u64 = 1_000_000;

/// Two planes, video range: `420v`.
pub const BI_PLANAR_VIDEO_RANGE: u32 = 0x3432_3076;

/// Two planes, full range: `420f`.
pub const BI_PLANAR_FULL_RANGE: u32 = 0x3432_3066;

/// One plane of packed pixels: `yuvs`.
pub const PACKED_YUVS: u32 = 0x7975_7673;

/// The adapter.
#[derive(Clone, Copy, Debug)]
pub struct AvFoundationAdapter;

/// What the system reports of a camera.
#[derive(Clone, Debug, PartialEq, Eq)]
pub struct DeviceReport {
    pub unique_id: String,
    pub name: String,
    pub model_id: String,
}

/// The endpoint of a camera.
pub open spec fn endpoint_of(unique_id: Seq<char>) -> Seq<char> {
    "avfoundation://device/"@ + unique_id
}

/// The descriptor of a camera.
pub open spec fn descriptor_of(device: DeviceReport) -> DescriptorView {
    DescriptorView {
        id: backend::identity_text(CameraBackend::AvFoundation, device.unique_id@),
        endpoint: endpoint_of(device.unique_id@),
        quality: IdentityQuality::Strong,
        transport: TransportKind::Camera,
        properties: Map::<Seq<char>, Seq<char>>::empty().insert(
            "adapter"@,
            "avfoundation"@,
        ).insert("endpoint"@, endpoint_of(device.unique_id@)).insert(
            "camera.unique_id"@,
            device.unique_id@,
        ).insert("camera.name"@, device.name@).insert("camera.model_id"@, device.model_id@),
        capabilities: seq![Capability::CameraCapture, Capability::CameraFramesShm],
    }
}

/// The descriptors of cameras, in order.
pub open spec fn cameras_of(devices: Seq<DeviceReport>) -> Seq<DescriptorView> {
    devices.map(|i: int, device: DeviceReport| descriptor_of(device))
}

/// The descriptor of a camera.
pub fn descriptor_from_device(device: &DeviceReport) -> (result: HalResult<ResourceDescriptor>)
    ensures
        match result {
            Ok(descriptor) => {
                &&& device.unique_id@.len() > 0
                &&& descriptor@ == descriptor_of(*device)
            },
            Err(error) => {
                &&& device.unique_id@.len() == 0
                &&& error@ == backend::no_evidence_error(CameraBackend::AvFoundation)
            },
        },
{
    let id = encode_resource_id(CameraBackend::AvFoundation, device.unique_id.as_str())?;
    let mut endpoint = "avfoundation://device/".to_owned();
    endpoint.append(device.unique_id.as_str());
    let mut properties = ResourceProperties::new();
    properties.insert_text("adapter", "avfoundation");
    properties.insert_text("endpoint", endpoint.as_str());
    properties.insert_text("camera.unique_id", device.unique_id.as_str());
    properties.insert_text("camera.name", device.name.as_str());
    properties.insert_text("camera.model_id", device.model_id.as_str());
    let mut capabilities: Vec<Capability> = Vec::new();
    capabilities.push(Capability::CameraCapture);
    capabilities.push(Capability::CameraFramesShm);
    proof {
        assert(capabilities@ =~= descriptor_of(*device).capabilities);
    }
    Ok(
        ResourceDescriptor {
            id,
            endpoint,
            quality: IdentityQuality::Strong,
            transport: TransportKind::Camera,
            properties,
            capabilities,
        },
    )
}

fn camera_descriptors(devices: &Vec<DeviceReport>) -> (result: HalResult<Vec<ResourceDescriptor>>)
    ensures
        match result {
            Ok(descriptors) => {
                &&& forall|i: int|
                    0 <= i < devices@.len() ==> (#[trigger] devices@[i]).unique_id@.len() > 0
                &&& resource::descriptor_views(descriptors@) == cameras_of(devices@)
            },
            Err(error) => {
                &&& exists|i: int|
                    0 <= i < devices@.len() && (#[trigger] devices@[i]).unique_id@.len() == 0
                &&& error@ == backend::no_evidence_error(CameraBackend::AvFoundation)
            },
        },
{
    let mut descriptors: Vec<ResourceDescriptor> = Vec::new();
    let mut index: usize = 0;
    while index < devices.len()
        invariant
            index <= devices@.len(),
            descriptors@.len() == index,
            forall|i: int| 0 <= i < index ==> (#[trigger] devices@[i]).unique_id@.len() > 0,
            forall|i: int|
                0 <= i < index ==> (#[trigger] descriptors@[i])@ == descriptor_of(devices@[i]),
        decreases devices@.len() - index,
    {
        let descriptor = descriptor_from_device(&devices[index])?;
        descriptors.push(descriptor);
        index += 1;
    }
    proof {
        assert(resource::descriptor_views(descriptors@) =~= cameras_of(devices@));
    }
    Ok(descriptors)
}

/// What the system reports of the camera that was selected, and of the capture graph for it.
#[derive(Clone, Debug, PartialEq, Eq)]
pub struct SelectedDevice {
    /// The camera was found again.
    pub present: bool,
    pub connected: bool,
    pub unique_id: String,
    /// The system knows video media.
    pub video_media: bool,
    pub authorized: bool,
    pub active: ActiveFormat,
}

/// The active format of a camera.
#[derive(Clone, Copy, Debug, PartialEq, Eq, Structural)]
pub struct ActiveFormat {
    pub subtype: u32,
    pub width: i32,
    pub height: i32,
}

/// A dimension as the system counts it; one that is too large is nothing.
pub open spec fn native_dimension(dimension: u32) -> int {
    if dimension <= i32::MAX {
        dimension as int
    } else {
        0
    }
}

/// The active format is exactly what was requested.
pub open spec fn is_exact(active: ActiveFormat, requested: CameraFormat) -> bool {
    &&& match requested.pixel_format {
        CameraPixelFormat::Nv12 => active.subtype == BI_PLANAR_VIDEO_RANGE || active.subtype
            == BI_PLANAR_FULL_RANGE,
        CameraPixelFormat::Yuyv => active.subtype == PACKED_YUVS,
        CameraPixelFormat::Mjpeg => false,
    }
    &&& active.width == native_dimension(requested.width)
    &&& active.height == native_dimension(requested.height)
}

/// Checks that the active format is exactly what was requested.
pub fn ensure_active_format(
    active: &ActiveFormat,
    requested: &CameraFormat,
    id: &ResourceId,
) -> (result: HalResult<()>)
    ensures
        match result {
            Ok(()) => is_exact(*active, *requested),
            Err(error) => {
                &&& !is_exact(*active, *requested)
                &&& error@ == backend::format_error(
                    CameraBackend::AvFoundation,
                    "camera.open"@,
                    id@,
                )
            },
        },
{
    let same_pixels = match requested.pixel_format {
        CameraPixelFormat::Nv12 => active.subtype == BI_PLANAR_VIDEO_RANGE || active.subtype
            == BI_PLANAR_FULL_RANGE,
        CameraPixelFormat::Yuyv => active.subtype == PACKED_YUVS,
        CameraPixelFormat::Mjpeg => false,
    };
    let width: i32 = if requested.width <= 0x7fff_ffff {
        requested.width as i32
    } else {
        0
    };
    let height: i32 = if requested.height <= 0x7fff_ffff {
        requested.height as i32
    } else {
        0
    };
    if !same_pixels || active.width != width || active.height != height {
        return Err(format_unsupported(CameraBackend::AvFoundation, "camera.open", id));
    }
    Ok(())
}

/// The error of a camera that may not be used.
pub open spec fn permission_error(id: Seq<char>) -> HalErrorView {
    HalErrorView::new(
        "runtime.adapter.unavailable"@,
        ErrorCategory::Unavailable,
        "camera.open"@,
        false,
        "camera permission is not authorized"@,
    ).about(id)
}

/// Why a selected camera cannot be opened.
pub open spec fn device_refusal(
    expected: Option<Seq<char>>,
    device: SelectedDevice,
    requested: CameraFormat,
    id: Seq<char>,
) -> Option<HalErrorView> {
    let failure = |reason: Seq<char>|
        backend::platform_failure(CameraBackend::AvFoundation, "camera.open"@, reason);
    if expected is None {
        Some(failure("camera identity is missing"@))
    } else if !device.present {
        Some(failure("selected camera disappeared"@))
    } else if !device.connected || device.unique_id@ != expected->0 {
        Some(failure("selected camera identity changed"@).about(id))
    } else if !device.video_media {
        Some(failure("AVMediaTypeVideo is absent"@))
    } else if !device.authorized {
        Some(permission_error(id))
    } else if !is_exact(device.active, requested) {
        Some(backend::format_error(CameraBackend::AvFoundation, "camera.open"@, id))
    } else {
        None
    }
}

/// The value of a property.
pub open spec fn property(descriptor: DescriptorView, key: Seq<char>) -> Option<Seq<char>> {
    if descriptor.properties.contains_key(key) {
        Some(descriptor.properties[key])
    } else {
        None
    }
}

/// Checks that a selected camera can be opened.
pub fn check_device(
    descriptor: &ResourceDescriptor,
    device: &SelectedDevice,
    requested: &CameraFormat,
) -> (result: HalResult<()>)
    ensures
        ({
            let refusal = device_refusal(
                property(descriptor@, "camera.unique_id"@),
                *device,
                *requested,
                descriptor@.id,
            );
            match result {
                Ok(()) => refusal is None,
                Err(error) => refusal == Some(error@),
            }
        }),
{
    let unique_id = match descriptor.properties.get("camera.unique_id") {
        Some(unique_id) => unique_id,
        None => {
            return Err(
                platform_error(
                    CameraBackend::AvFoundation,
                    "camera.open",
                    "camera identity is missing",
                ),
            );
        },
    };
    if !device.present {
        return Err(
            platform_error(
                CameraBackend::AvFoundation,
                "camera.open",
                "selected camera disappeared",
            ),
        );
    }
    if !device.connected || !same_text(device.unique_id.as_str(), unique_id) {
        return Err(
            platform_error(
                CameraBackend::AvFoundation,
                "camera.open",
                "selected camera identity changed",
            ).with_resource_id(descriptor.id.copy()),
        );
    }
    if !device.video_media {
        return Err(
            platform_error(
                CameraBackend::AvFoundation,
                "camera.open",
                "AVMediaTypeVideo is absent",
            ),
        );
    }
    if !device.authorized {
        return Err(
            HalError::fixed(
                "runtime.adapter.unavailable",
                ErrorCategory::Unavailable,
                "camera.open",
                false,
                "camera permission is not authorized",
            ).with_resource_id(descriptor.id.copy()),
        );
    }
    ensure_active_format(&device.active, requested, &descriptor.id)
}

/// Why no capture graph can be built.
pub open spec fn graph_refusal(
    input: Result<(), Seq<char>>,
    can_add: bool,
    format: CameraFormat,
    id: Seq<char>,
) -> Option<HalErrorView> {
    match input {
        Err(reason) => Some(
            backend::platform_failure(CameraBackend::AvFoundation, "camera.open"@, reason),
        ),
        Ok(()) => if format.pixel_format == CameraPixelFormat::Mjpeg {
            Some(backend::format_error(CameraBackend::AvFoundation, "camera.open"@, id))
        } else if !can_add {
            Some(
                backend::platform_failure(
                    CameraBackend::AvFoundation,
                    "camera.open"@,
                    "AVFoundation cannot add selected camera input or video output"@,
                ).about(id),
            )
        } else {
            None
        },
    }
}

/// How making the input of a capture graph ended.
pub open spec fn input_view(input: Result<(), String>) -> Result<(), Seq<char>> {
    match input {
        Ok(()) => Ok(()),
        Err(reason) => Err(reason@),
    }
}

impl AvFoundationAdapter {
    /// The adapter.
    pub fn new() -> (adapter: Self)
        ensures
            adapter == AvFoundationAdapter,
    {
        AvFoundationAdapter
    }

    /// The name of the adapter.
    pub fn adapter_name(&self) -> (name: &'static str)
        ensures
            name@ == "avfoundation"@,
    {
        CameraBackend::AvFoundation.adapter_name()
    }

    /// The discovered cameras; without macOS nothing is discovered.
    pub fn enumerate(&self, devices: Option<Vec<DeviceReport>>) -> (result: HalResult<
        Vec<ResourceDescriptor>,
    >)
        ensures
            match devices {
                None => result is Err && result->Err_0@ == backend::unavailable_error(
                    CameraBackend::AvFoundation,
                    "camera.enumerate"@,
                ),
                Some(devices) => match result {
                    Ok(descriptors) => {
                        &&& forall|i: int|
                            0 <= i < devices@.len() ==> (#[trigger] devices@[i]).unique_id@.len()
                                > 0
                        &&& resource::descriptor_views(descriptors@) == cameras_of(devices@)
                    },
                    Err(error) => {
                        &&& exists|i: int|
                            0 <= i < devices@.len() && (#[trigger] devices@[i]).unique_id@.len()
                                == 0
                        &&& error@ == backend::no_evidence_error(CameraBackend::AvFoundation)
                    },
                },
            },
    {
        match devices {
            Some(devices) => camera_descriptors(&devices),
            None => Err(unavailable(CameraBackend::AvFoundation, "camera.enumerate")),
        }
    }

    /// Selects a camera among discovered ones.
    pub fn select(
        &self,
        discovered: Option<HalResult<Vec<ResourceDescriptor>>>,
        id: &ResourceId,
        format: &CameraFormat,
        limits: &CameraLimits,
    ) -> (result: HalResult<ResourceDescriptor>)
        ensures
            match result {
                Ok(descriptor) => {
                    &&& session::selection_refusal(
                        CameraBackend::AvFoundation,
                        discovered,
                        id@,
                        *format,
                        *limits,
                    ) is None
                    &&& exists|i: int|
                        #[trigger] session::first_camera(discovered->0->Ok_0@, i, id@)
                            && descriptor == discovered->0->Ok_0@[i]
                },
                Err(error) => session::selection_refusal(
                    CameraBackend::AvFoundation,
                    discovered,
                    id@,
                    *format,
                    *limits,
                ) == Some(error@),
            },
    {
        select_camera(CameraBackend::AvFoundation, discovered, id, format, limits)
    }
}

/// One plane of a native frame.
#[derive(Clone, Debug, PartialEq, Eq)]
pub struct NativePlane {
    pub bytes: Vec<u8>,
    pub stride: usize,
}

/// A frame as the system delivered it.
#[derive(Clone, Debug, PartialEq, Eq)]
pub struct NativeFrame {
    pub pixel_format: u32,
    pub width: usize,
    pub height: usize,
    pub planes: Vec<NativePlane>,
    pub timestamp_ns: u64,
}

/// How many bytes a plane has, unless that is nothing or too many.
pub fn plane_extent(stride: usize, rows: usize) -> (length: Option<usize>)
    ensures
        length == if 0 < stride * rows <= usize::MAX {
            Some((stride * rows) as usize)
        } else {
            None
        },
{
    proof {
        assert(stride * rows >= 0) by (nonlinear_arith)
            requires
                stride >= 0,
                rows >= 0,
        ;
    }
    match stride.checked_mul(rows) {
        Some(length) => {
            if length == 0 {
                None
            } else {
                Some(length)
            }
        },
        None => None,
    }
}

/// The frames that wait to be taken: the latest, and how many were lost.
#[derive(Clone, Debug, PartialEq, Eq)]
pub struct FrameState {
    pub frame: Option<NativeFrame>,
    pub dropped_count: u64,
}

impl FrameState {
    /// No frame waits.
    pub fn new() -> (state: FrameState)
        ensures
            state.frame is None,
            state.dropped_count == 0,
    {
        FrameState { frame: None, dropped_count: 0 }
    }

    /// Takes a delivered frame. One that still waits is lost.
    pub fn deliver(&mut self, delivered: NativeFrame)
        ensures
            final(self).frame == Some(delivered),
            final(self).dropped_count == if old(self).frame is Some {
                frame::number_after(old(self).dropped_count)
            } else {
                old(self).dropped_count
            },
    {
        if self.frame.is_some() {
            self.dropped_count = next_number(self.dropped_count);
        }
        self.frame = Some(delivered);
    }

    /// Takes that the system lost a frame.
    pub fn lose(&mut self)
        ensures
            final(self).frame == old(self).frame,
            final(self).dropped_count == frame::number_after(old(self).dropped_count),
    {
        self.dropped_count = next_number(self.dropped_count);
    }
}

/// The pixel format of a native frame, if it is one that can be published.
pub open spec fn published_format(native: NativeFrame) -> Option<CameraPixelFormat> {
    if (native.pixel_format == BI_PLANAR_VIDEO_RANGE || native.pixel_format
        == BI_PLANAR_FULL_RANGE) && native.planes@.len() == 2 {
        Some(CameraPixelFormat::Nv12)
    } else if native.pixel_format == PACKED_YUVS && native.planes@.len() == 1 {
        Some(CameraPixelFormat::Yuyv)
    } else {
        None
    }
}

/// A native frame is exactly what was requested.
pub open spec fn frame_is_exact(native: NativeFrame, requested: CameraFormat) -> bool {
    &&& published_format(native) == Some(requested.pixel_format)
    &&& native.width == requested.width
    &&& native.height == requested.height
}

/// The bytes of planes, one after the other.
pub open spec fn joined_bytes(planes: Seq<NativePlane>) -> Seq<u8>
    decreases planes.len(),
{
    if planes.len() == 0 {
        Seq::empty()
    } else {
        joined_bytes(planes.drop_last()) + planes.last().bytes@
    }
}

/// Where planes lie when their bytes stand one after the other.
pub open spec fn joined_layout(planes: Seq<NativePlane>) -> Seq<CameraPlaneLayout>
    decreases planes.len(),
{
    if planes.len() == 0 {
        Seq::empty()
    } else {
        joined_layout(planes.drop_last()).push(
            CameraPlaneLayout {
                offset: joined_bytes(planes.drop_last()).len() as usize,
                length: planes.last().bytes@.len() as usize,
                stride: planes.last().stride,
            },
        )
    }
}

/// The frame that is published of a native one.
pub open spec fn published(
    native: NativeFrame,
    requested: CameraFormat,
    sequence: u64,
    dropped_count: u64,
) -> FrameContent {
    FrameContent {
        format: requested,
        planes: joined_layout(native.planes@),
        sequence,
        timestamp_ns: native.timestamp_ns,
        clock_domain: CLOCK_DOMAIN@,
        dropped_count,
        payload: joined_bytes(native.planes@),
    }
}

/// The frame that is published of a native one. A native frame that is not exactly what was
/// requested is refused.
pub fn publish_frame(
    native: &NativeFrame,
    requested: &CameraFormat,
    sequence: u64,
    dropped_count: u64,
    id: &ResourceId,
) -> (result: HalResult<CameraFrame>)
    ensures
        match result {
            Ok(frame) => {
                &&& frame_is_exact(*native, *requested)
                &&& frame@ == published(*native, *requested, sequence, dropped_count)
                &&& native.width == requested.width && native.height == requested.height
                &&& frame.format == *requested
                &&& frame.sequence == sequence
                &&& frame.dropped_count == dropped_count
                &&& frame.timestamp_ns == native.timestamp_ns
                &&& frame.planes@.len() == native.planes@.len()
                &&& forall|p: int, k: int|
                    #![trigger native.planes@[p].bytes@[k]]
                    0 <= p < native.planes@.len() && 0 <= k < native.planes@[p].bytes@.len()
                        ==> frame.payload@[frame.planes@[p].offset + k]
                        == native.planes@[p].bytes@[k]
            },
            Err(error) => {
                &&& !frame_is_exact(*native, *requested)
                &&& error@ == backend::format_error(
                    CameraBackend::AvFoundation,
                    "camera.capture"@,
                    id@,
                )
            },
        },
{
    let two_planes = (native.pixel_format == BI_PLANAR_VIDEO_RANGE || native.pixel_format
        == BI_PLANAR_FULL_RANGE) && native.planes.len() == 2;
    let one_plane = native.pixel_format == PACKED_YUVS && native.planes.len() == 1;
    let same_pixels = match requested.pixel_format {
        CameraPixelFormat::Nv12 => two_planes,
        CameraPixelFormat::Yuyv => !two_planes && one_plane,
        CameraPixelFormat::Mjpeg => false,
    };
    if !same_pixels || native.width as u64 != requested.width as u64 || native.height as u64
        != requested.height as u64 {
        return Err(format_unsupported(CameraBackend::AvFoundation, "camera.capture", id));
    }
    let mut payload: Vec<u8> = Vec::new();
    let mut planes: Vec<CameraPlaneLayout> = Vec::new();
    let mut index: usize = 0;
    proof {
        assert(native.planes@.take(0) =~= Seq::<NativePlane>::empty());
    }
    while index < native.planes.len()
        invariant
            index <= native.planes@.len(),
            payload@ == joined_bytes(native.planes@.take(index as int)),
            planes@ == joined_layout(native.planes@.take(index as int)),
        decreases native.planes@.len() - index,
    {
        proof {
            assert(native.planes@.take(index + 1).drop_last() =~= native.planes@.take(
                index as int,
            ));
        }
        let offset: usize = payload.len();
        payload.extend_from_slice(native.planes[index].bytes.as_slice());
        planes.push(
            CameraPlaneLayout {
                offset,
                length: native.planes[index].bytes.len(),
                stride: native.planes[index].stride,
            },
        );
        proof {
            assert(payload@ =~= joined_bytes(native.planes@.take(index + 1)));
        }
        index += 1;
    }
    proof {
        assert(native.planes@.take(index as int) =~= native.planes@);
        assert(payload.len() <= usize::MAX);
        lemma_joined_planes(native.planes@);
        assert forall|p: int, k: int|
            #![trigger native.planes@[p].bytes@[k]]
            0 <= p < native.planes@.len() && 0 <= k
                < native.planes@[p].bytes@.len() implies payload@[planes@[p].offset + k]
            == native.planes@[p].bytes@[k] by {
            assert(holds_plane(native.planes@, p));
        }
    }
    Ok(
        CameraFrame {
            format: *requested,
            planes,
            sequence,
            timestamp_ns: native.timestamp_ns,
            clock_domain: CLOCK_DOMAIN,
            dropped_count,
            payload,
        },
    )
}

/// A plane of joined planes has its own length and length of rows, and its bytes stand in order from
/// its offset on.
pub open spec fn holds_plane(planes: Seq<NativePlane>, p: int) -> bool {
    let layout = joined_layout(planes)[p];
    &&& layout.length == planes[p].bytes@.len()
    &&& layout.stride == planes[p].stride
    &&& layout.offset + layout.length <= joined_bytes(planes).len()
    &&& forall|k: int|
        0 <= k < planes[p].bytes@.len() ==> joined_bytes(planes)[layout.offset + k] == (
        #[trigger] planes[p].bytes@[k])
}

proof fn lemma_joined_planes(planes: Seq<NativePlane>)
    requires
        joined_bytes(planes).len() <= usize::MAX,
    ensures
        joined_layout(planes).len() == planes.len(),
        forall|p: int| 0 <= p < planes.len() ==> #[trigger] holds_plane(planes, p),
    decreases planes.len(),
{
    if planes.len() > 0 {
        let front = planes.drop_last();
        lemma_joined_planes(front);
        assert forall|p: int| 0 <= p < planes.len() implies #[trigger] holds_plane(planes, p) by {
            let layout = joined_layout(planes)[p];
            if p < front.len() {
                assert(holds_plane(front, p));
                assert(front[p] == planes[p]);
                assert(layout == joined_layout(front)[p]);
                assert forall|k: int| 0 <= k < planes[p].bytes@.len() implies joined_bytes(
                    planes,
                )[layout.offset + k] == (#[trigger] planes[p].bytes@[k]) by {
                    assert(joined_bytes(front)[layout.offset + k] == front[p].bytes@[k]);
                }
            }
        }
    }
}

proof fn lemma_joined_layout(planes: Seq<NativePlane>, bound: int)
    requires
        joined_bytes(planes).len() <= bound <= usize::MAX,
    ensures
        joined_layout(planes).len() == planes.len(),
        frame::planes_fit(joined_layout(planes), joined_bytes(planes).len() as int),
    decreases planes.len(),
{
    if planes.len() > 0 {
        lemma_joined_layout(planes.drop_last(), bound);
    }
}

/// The planes of a published frame do not overlap and stay in its payload.
pub proof fn law_published_planes_fit_the_payload(
    native: NativeFrame,
    requested: CameraFormat,
    sequence: u64,
    dropped_count: u64,
)
    requires
        joined_bytes(native.planes@).len() <= usize::MAX,
    ensures
        ({
            let frame = published(native, requested, sequence, dropped_count);
            &&& frame.planes.len() == native.planes@.len()
            &&& frame::planes_fit(frame.planes, frame.payload.len() as int)
        }),
{
    lemma_joined_layout(native.planes@, usize::MAX as int);
}

/// What a capture does next.
pub enum CaptureStep {
    /// Publishes a frame.
    Publish(CameraFrame),
    /// Gives up.
    Fail(HalError),
    /// Sleeps for so many nanoseconds before it looks again.
    Sleep(u64),
}

/// A session on a camera of this interface.
pub struct AvFoundationSession {
    id: ResourceId,
    format: CameraFormat,
    next_sequence: u64,
    closed: bool,
    unplugged: bool,
}

/// The mathematical content of an [`AvFoundationSession`].
pub struct AvSessionView {
    pub id: Seq<char>,
    pub format: CameraFormat,
    pub next_sequence: u64,
    pub closed: bool,
    pub unplugged: bool,
}

impl View for AvFoundationSession {
    type V = AvSessionView;

    closed spec fn view(&self) -> AvSessionView {
        AvSessionView {
            id: self.id@,
            format: self.format,
            next_sequence: self.next_sequence,
            closed: self.closed,
            unplugged: self.unplugged,
        }
    }
}

/// The error of a camera that was disconnected while a session was on it.
pub open spec fn unplugged_error(id: Seq<char>) -> HalErrorView {
    HalErrorView::new(
        "camera.session.unplugged"@,
        ErrorCategory::Unavailable,
        "camera.capture"@,
        false,
        "AVFoundation camera was disconnected"@,
    ).about(id)
}

/// What a capture does next, given the session, the waiting frames, whether the camera is still
/// connected, and how long the capture has taken and may take.
pub open spec fn capture_result(
    session: AvSessionView,
    frames: FrameState,
    connected: bool,
    elapsed: u64,
    timeout: u64,
    step: CaptureStep,
) -> bool {
    if session.closed {
        step is Fail && step->Fail_0@ == backend::closed_error(
            CameraBackend::AvFoundation,
            "camera.capture"@,
            session.id,
        )
    } else if session.unplugged {
        step is Fail && step->Fail_0@ == unplugged_error(session.id)
    } else if frames.frame is Some {
        if frame_is_exact(frames.frame->0, session.format) {
            step is Publish && step->Publish_0@ == published(
                frames.frame->0,
                session.format,
                session.next_sequence,
                frames.dropped_count,
            )
        } else {
            step is Fail && step->Fail_0@ == backend::format_error(
                CameraBackend::AvFoundation,
                "camera.capture"@,
                session.id,
            )
        }
    } else if !connected {
        step is Fail && step->Fail_0@ == unplugged_error(session.id)
    } else if elapsed >= timeout {
        step is Fail && step->Fail_0@ == backend::timeout_failure(
            CameraBackend::AvFoundation,
            "camera.capture"@,
            session.id,
        )
    } else {
        step == CaptureStep::Sleep(POLL_NANOSECONDS)
    }
}

/// A session after a step of a capture.
pub open spec fn after_capture(
    session: AvSessionView,
    frames: FrameState,
    connected: bool,
) -> AvSessionView {
    if session.closed || session.unplugged {
        session
    } else if frames.frame is Some {
        if frame_is_exact(frames.frame->0, session.format) {
            AvSessionView { next_sequence: frame::number_after(session.next_sequence), ..session }
        } else {
            session
        }
    } else if !connected {
        AvSessionView { unplugged: true, ..session }
    } else {
        session
    }
}

impl AvFoundationSession {
    /// Takes a camera into use for a session and builds its capture graph, given how making the
    /// graph's input ended and whether both ends can be added to it. Where the graph cannot be
    /// built, the camera is given back.
    pub fn open(
        claims: &mut ClaimSet,
        id: &ResourceId,
        format: CameraFormat,
        input: Result<(), String>,
        can_add: bool,
    ) -> (result: HalResult<AvFoundationSession>)
        requires
            old(claims).wf(),
        ensures
            final(claims).wf(),
            if old(claims)@.contains(id@) {
                &&& final(claims)@ == old(claims)@
                &&& result is Err
                &&& result->Err_0@ == backend::conflict_error(CameraBackend::AvFoundation, id@)
            } else {
                match graph_refusal(input_view(input), can_add, format, id@) {
                    Some(refusal) => {
                        &&& final(claims)@ == old(claims)@
                        &&& result is Err
                        &&& result->Err_0@ == refusal
                    },
                    None => {
                        &&& final(claims)@ == old(claims)@.insert(id@)
                        &&& result is Ok
                        &&& result->Ok_0@ == (AvSessionView {
                            id: id@,
                            format,
                            next_sequence: 1,
                            closed: false,
                            unplugged: false,
                        })
                    },
                }
            },
    {
        proof {
            assert(old(claims)@.contains(id@) ==> old(claims)@.insert(id@) =~= old(claims)@);
            assert(!old(claims)@.contains(id@) ==> old(claims)@.insert(id@).remove(id@)
                =~= old(claims)@);
        }
        if !claims.claim(id) {
            return Err(conflict(CameraBackend::AvFoundation, id));
        }
        let refusal: Option<HalError> = match input {
            Err(reason) => Some(
                platform_error(CameraBackend::AvFoundation, "camera.open", reason.as_str()),
            ),
            Ok(()) => {
                if format.pixel_format == CameraPixelFormat::Mjpeg {
                    Some(format_unsupported(CameraBackend::AvFoundation, "camera.open", id))
                } else if !can_add {
                    Some(
                        platform_error(
                            CameraBackend::AvFoundation,
                            "camera.open",
                            "AVFoundation cannot add selected camera input or video output",
                        ).with_resource_id(id.copy()),
                    )
                } else {
                    None
                }
            },
        };
        match refusal {
            Some(error) => {
                claims.release(id);
                Err(error)
            },
            None => Ok(
                AvFoundationSession {
                    id: id.copy(),
                    format,
                    next_sequence: 1,
                    closed: false,
                    unplugged: false,
                },
            ),
        }
    }

    /// The format of the frames.
    pub fn format(&self) -> (format: CameraFormat)
        ensures
            format == self@.format,
    {
        self.format
    }

    /// Refuses to hand out the bytes of a frame: frames are published into a sink.
    pub fn capture(&self) -> (error: HalError)
        ensures
            error@ == if self@.closed {
                backend::closed_error(CameraBackend::AvFoundation, "camera.capture"@, self@.id)
            } else {
                backend::platform_failure(
                    CameraBackend::AvFoundation,
                    "camera.capture"@,
                    "frames are published into a capture sink"@,
                ).about(self@.id)
            },
    {
        if self.closed {
            return closed(CameraBackend::AvFoundation, "camera.capture", &self.id);
        }
        platform_error(
            CameraBackend::AvFoundation,
            "camera.capture",
            "frames are published into a capture sink",
        ).with_resource_id(self.id.copy())
    }

    /// One step of a capture into a sink. A waiting frame is taken; a session whose camera was
    /// disconnected stays without frames.
    pub fn capture_into(
        &mut self,
        frames: &mut FrameState,
        connected: bool,
        elapsed: u64,
        timeout: u64,
    ) -> (step: CaptureStep)
        ensures
            capture_result(old(self)@, *old(frames), connected, elapsed, timeout, step),
            final(self)@ == after_capture(old(self)@, *old(frames), connected),
            final(frames).dropped_count == old(frames).dropped_count,
            final(frames).frame == if old(self)@.closed || old(self)@.unplugged {
                old(frames).frame
            } else {
                None
            },
    {
        if self.closed {
            return CaptureStep::Fail(
                closed(CameraBackend::AvFoundation, "camera.capture", &self.id),
            );
        }
        if self.unplugged {
            return CaptureStep::Fail(self.disconnected());
        }
        match frames.frame.take() {
            Some(native) => match publish_frame(
                &native,
                &self.format,
                self.next_sequence,
                frames.dropped_count,
                &self.id,
            ) {
                Ok(published) => {
                    self.next_sequence = next_number(self.next_sequence);
                    CaptureStep::Publish(published)
                },
                Err(error) => CaptureStep::Fail(error),
            },
            None => {
                if !connected {
                    self.unplugged = true;
                    return CaptureStep::Fail(self.disconnected());
                }
                if elapsed >= timeout {
                    return CaptureStep::Fail(
                        timeout_error(CameraBackend::AvFoundation, "camera.capture", &self.id),
                    );
                }
                CaptureStep::Sleep(POLL_NANOSECONDS)
            },
        }
    }

    fn disconnected(&self) -> (error: HalError)
        ensures
            error@ == unplugged_error(self@.id),
    {
        HalError::fixed(
            "camera.session.unplugged",
            ErrorCategory::Unavailable,
            "camera.capture",
            false,
            "AVFoundation camera was disconnected",
        ).with_resource_id(self.id.copy())
    }

    /// Refuses every operation on a control.
    pub fn control(&self, operation: &'static str) -> (error: HalError)
        ensures
            error@ == if self@.closed {
                backend::closed_error(CameraBackend::AvFoundation, operation@, self@.id)
            } else {
                backend::control_error(CameraBackend::AvFoundation, operation@, self@.id)
            },
    {
        if self.closed {
            return closed(CameraBackend::AvFoundation, operation, &self.id);
        }
        control_unsupported(CameraBackend::AvFoundation, operation, &self.id)
    }

    /// Closes the session: the capture graph has to be stopped, unless it was already, no frame
    /// waits any more, and the camera is given back.
    pub fn close(&mut self, frames: &mut FrameState, claims: &mut ClaimSet) -> (stop: bool)
        requires
            old(claims).wf(),
        ensures
            final(claims).wf(),
            final(claims)@ == old(claims)@.remove(old(self)@.id),
            stop == !old(self)@.closed,
            final(self)@ == (AvSessionView { closed: true, ..old(self)@ }),
            final(frames).dropped_count == old(frames).dropped_count,
            final(frames).frame == if stop {
                None
            } else {
                old(frames).frame
            },
    {
        let stop = !self.closed;
        if stop {
            self.closed = true;
            frames.frame = None;
        }
        claims.release(&self.id);
        stop
    }

    /// Gives the camera of a dropped session back: the capture graph has to be stopped, unless it
    /// was already.
    pub fn dropped(self, claims: &mut ClaimSet) -> (stop: bool)
        requires
            old(claims).wf(),
        ensures
            final(claims).wf(),
            final(claims)@ == old(claims)@.remove(self@.id),
            stop == !self@.closed,
    {
        claims.release(&self.id);
        !self.closed
    }
}

/// A session whose camera was disconnected never publishes a frame again.
pub proof fn law_unplugged_is_final(
    session: AvSessionView,
    frames: FrameState,
    connected: bool,
    elapsed: u64,
    timeout: u64,
    step: CaptureStep,
)
    requires
        session.unplugged,
        capture_result(session, frames, connected, elapsed, timeout, step),
    ensures
        step is Fail,
        after_capture(session, frames, connected) == session,
        !session.closed ==> step->Fail_0@ == unplugged_error(session.id),
{
}

/// A published frame holds the planes of the native one: as many, one after the other without a gap
/// from the first byte on, each with its bytes in order and its own length of rows. Its number, its
/// time and the count of lost frames are those given.
pub proof fn law_published_bytes_are_those_of_the_camera(
    native: NativeFrame,
    requested: CameraFormat,
    sequence: u64,
    dropped_count: u64,
)
    requires
        joined_bytes(native.planes@).len() <= usize::MAX,
    ensures
        ({
            let frame = published(native, requested, sequence, dropped_count);
            let planes = native.planes@;
            &&& frame.format == requested
            &&& frame.sequence == sequence
            &&& frame.dropped_count == dropped_count
            &&& frame.timestamp_ns == native.timestamp_ns
            &&& frame.planes.len() == planes.len()
            &&& forall|p: int|
                0 <= p < planes.len() ==> (#[trigger] frame.planes[p]).length
                    == planes[p].bytes@.len() && frame.planes[p].stride == planes[p].stride
            &&& forall|p: int, k: int|
                #![trigger planes[p].bytes@[k]]
                0 <= p < planes.len() && 0 <= k < planes[p].bytes@.len()
                    ==> frame.payload[frame.planes[p].offset + k] == planes[p].bytes@[k]
            &&& planes.len() == 1 ==> frame.planes[0].offset == 0 && frame.payload.len()
                == planes[0].bytes@.len()
            &&& planes.len() == 2 ==> frame.planes[0].offset == 0 && frame.planes[1].offset
                == planes[0].bytes@.len() && frame.payload.len() == planes[0].bytes@.len()
                + planes[1].bytes@.len()
        }),
{
    let planes = native.planes@;
    lemma_joined_planes(planes);
    assert forall|p: int| 0 <= p < planes.len() implies (#[trigger] joined_layout(planes)[p]).length
        == planes[p].bytes@.len() && joined_layout(planes)[p].stride == planes[p].stride by {
        assert(holds_plane(planes, p));
    }
    assert forall|p: int, k: int|
        #![trigger planes[p].bytes@[k]]
        0 <= p < planes.len() && 0 <= k < planes[p].bytes@.len() implies joined_bytes(
        planes,
    )[joined_layout(planes)[p].offset + k] == planes[p].bytes@[k] by {
        assert(holds_plane(planes, p));
    }
    reveal_with_fuel(joined_bytes, 3);
    reveal_with_fuel(joined_layout, 3);
    if planes.len() == 1 || planes.len() == 2 {
        let first = planes.take(1);
        assert(first.drop_last() =~= Seq::<NativePlane>::empty());
        assert(planes.len() == 1 ==> planes =~= first);
        assert(planes.len() == 2 ==> planes.drop_last() =~= first);
        assert(joined_bytes(first.drop_last()).len() == 0);
        assert(joined_bytes(first).len() == planes[0].bytes@.len());
    }
}

/// A native frame is published exactly where it has the requested dimensions and the planes of the
/// requested format: two of one of the two planar kinds, or one of the packed kind.
pub proof fn law_only_the_requested_frames_are_published(
    native: NativeFrame,
    requested: CameraFormat,
)
    ensures
        frame_is_exact(native, requested) <==> {
            &&& native.width == requested.width
            &&& native.height == requested.height
            &&& requested.pixel_format == CameraPixelFormat::Nv12 ==> (native.pixel_format
                == 0x3432_3076 || native.pixel_format == 0x3432_3066) && native.planes@.len() == 2
            &&& requested.pixel_format == CameraPixelFormat::Yuyv ==> native.pixel_format
                == 0x7975_7673 && native.planes@.len() == 1
            &&& requested.pixel_format != CameraPixelFormat::Mjpeg
        },
{
}

/// The active format of a camera is taken exactly where it is the requested one; compressed frames
/// are not offered.
pub proof fn law_only_the_requested_format_is_taken(active: ActiveFormat, requested: CameraFormat)
    requires
        requested.width <= i32::MAX,
        requested.height <= i32::MAX,
    ensures
        is_exact(active, requested) <==> {
            &&& active.width == requested.width
            &&& active.height == requested.height
            &&& requested.pixel_format == CameraPixelFormat::Nv12 ==> active.subtype == 0x3432_3076
                || active.subtype == 0x3432_3066
            &&& requested.pixel_format == CameraPixelFormat::Yuyv ==> active.subtype == 0x7975_7673
            &&& requested.pixel_format != CameraPixelFormat::Mjpeg
        },
{
}

/// A selected camera is opened exactly where it is there, connected, still the selected one, allowed
/// to be used and set to the requested format.
pub proof fn law_only_the_selected_camera_is_opened(
    expected: Option<Seq<char>>,
    device: SelectedDevice,
    requested: CameraFormat,
    id: Seq<char>,
    input: Result<(), Seq<char>>,
    can_add: bool,
)
    ensures
        device_refusal(expected, device, requested, id) is None <==> {
            &&& expected is Some
            &&& device.present
            &&& device.connected
            &&& device.unique_id@ == expected->0
            &&& device.video_media
            &&& device.authorized
            &&& is_exact(device.active, requested)
        },
        graph_refusal(input, can_add, requested, id) is None <==> input is Ok && can_add
            && requested.pixel_format != CameraPixelFormat::Mjpeg,
{
}

/// A capture publishes the waiting frame of an open session whose camera was not disconnected, with
/// the next number; without one it fails where the camera is gone or the time is over, and waits
/// else. Only a published frame takes a number.
pub proof fn law_waiting_frames_are_published_in_turn(
    session: AvSessionView,
    frames: FrameState,
    connected: bool,
    elapsed: u64,
    timeout: u64,
    step: CaptureStep,
)
    requires
        capture_result(session, frames, connected, elapsed, timeout, step),
    ensures
        step is Publish <==> !session.closed && !session.unplugged && frames.frame is Some
            && frame_is_exact(frames.frame->0, session.format),
        step is Publish ==> step->Publish_0.sequence == session.next_sequence
            && step->Publish_0.timestamp_ns == frames.frame->0.timestamp_ns
            && step->Publish_0.dropped_count == frames.dropped_count && step->Publish_0.format
            == session.format,
        step is Publish && session.next_sequence < u64::MAX ==> after_capture(
            session,
            frames,
            connected,
        ).next_sequence == session.next_sequence + 1,
        !(step is Publish) ==> after_capture(session, frames, connected).next_sequence
            == session.next_sequence,
        step is Sleep <==> !session.closed && !session.unplugged && frames.frame is None
            && connected && elapsed < timeout,
        after_capture(session, frames, connected).unplugged <==> session.unplugged || (
        !session.closed && frames.frame is None && !connected),
        after_capture(session, frames, connected).closed == session.closed,
        after_capture(session, frames, connected).format == session.format,
        after_capture(session, frames, connected).id == session.id,
{
}

/// A camera is offered under its unique identifier, which is strong evidence, with its name and model.
pub proof fn law_camera_is_offered_as_it_is(device: DeviceReport)
    ensures
        ({
            let offered = descriptor_of(device);
            let endpoint = "avfoundation://device/"@ + device.unique_id@;
            &&& offered.id == backend::identity_text(
                CameraBackend::AvFoundation,
                device.unique_id@,
            )
            &&& offered.quality == IdentityQuality::Strong
            &&& offered.endpoint == endpoint
            &&& offered.transport == TransportKind::Camera
            &&& offered.capabilities.contains(Capability::CameraCapture)
            &&& offered.capabilities.contains(Capability::CameraFramesShm)
            &&& offered.properties["adapter"@] == "avfoundation"@
            &&& offered.properties["endpoint"@] == endpoint
            &&& offered.properties["camera.unique_id"@] == device.unique_id@
            &&& offered.properties["camera.name"@] == device.name@
            &&& offered.properties["camera.model_id"@] == device.model_id@
        }),
{
    reveal_strlit("adapter");
    reveal_strlit("endpoint");
    reveal_strlit("camera.unique_id");
    reveal_strlit("camera.name");
    reveal_strlit("camera.model_id");
    assert("adapter"@.len() == 7);
    assert("endpoint"@.len() == 8);
    assert("camera.unique_id"@.len() == 16);
    assert("camera.name"@.len() == 11);
    assert("camera.model_id"@.len() == 15);
    let offered = descriptor_of(device).capabilities;
    assert(offered[0] == Capability::CameraCapture);
    assert(offered[1] == Capability::CameraFramesShm);
}

} // verus!
