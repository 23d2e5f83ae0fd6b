//! The fixed layout of the region: planes, frame metadata, slot states and the ring geometry.

use vstd::prelude::*;

use crate::camera::frame_format;
use crate::camera::frame_format::{CameraLimits, CameraPixelFormat};
use crate::error::{ErrorCategory, HalError, HalErrorView, HalResult};

verus! {

pub const MAX_MAPPING_BYTES: usize = 268435456;

pub const HEADER_BYTES: usize = 192;

pub const SLOT_HEADER_BYTES: usize = 128;

pub const SLOT_ALIGNMENT: usize = 64;

pub const LAYOUT_MAJOR: u16 = 1;

pub const LAYOUT_MINOR: u16 = 0;

pub const MAX_PLANES: usize = 3;

/// The error of a value that the layout does not admit.
pub open spec fn invalid_error(operation: Seq<char>, message: Seq<char>) -> HalErrorView {
    HalErrorView::new(
        "shared_memory.invalid"@,
        ErrorCategory::InvalidArgument,
        operation,
        false,
        message,
    )
}

/// The error of a value that the layout does not admit.
pub fn invalid(operation: &'static str, message: &'static str) -> (error: HalError)
    ensures
        error@ == invalid_error(operation@, message@),
{
    HalError::fixed(
        "shared_memory.invalid",
        ErrorCategory::InvalidArgument,
        operation,
        false,
        message,
    )
}

/// The error of a region that cannot be had.
pub open spec fn unavailable_error(operation: Seq<char>, message: Seq<char>) -> HalErrorView {
    HalErrorView::new(
        "shared_memory.unavailable"@,
        ErrorCategory::Unavailable,
        operation,
        false,
        message,
    )
}

/// The error of a region that cannot be had.
pub fn unavailable(operation: &'static str, message: String) -> (error: HalError)
    ensures
        error@ == unavailable_error(operation@, message@),
{
    HalError::new(
        "shared_memory.unavailable",
        ErrorCategory::Unavailable,
        operation,
        false,
        message,
    )
}

/// The error of a random source that failed.
pub open spec fn internal_error(operation: Seq<char>, message: Seq<char>) -> HalErrorView {
    HalErrorView::new(
        "shared_memory.internal"@,
        ErrorCategory::Internal,
        operation,
        false,
        message,
    )
}

/// The error of a random source that failed.
pub fn internal(operation: &'static str, message: String) -> (error: HalError)
    ensures
        error@ == internal_error(operation@, message@),
{
    HalError::new("shared_memory.internal", ErrorCategory::Internal, operation, false, message)
}

/// The pixel format as the region names it.
#[derive(Clone, Copy, Debug, PartialEq, Eq, Structural)]
pub enum PixelFormat {
    Nv12,
    Yuyv,
    Mjpeg,
}

impl PixelFormat {
    /// The number that stands for the format.
    pub open spec fn code(self) -> u32 {
        match self {
            PixelFormat::Nv12 => 1,
            PixelFormat::Yuyv => 2,
            PixelFormat::Mjpeg => 3,
        }
    }

    /// The format of the camera interface.
    pub open spec fn as_camera(self) -> CameraPixelFormat {
        match self {
            PixelFormat::Nv12 => CameraPixelFormat::Nv12,
            PixelFormat::Yuyv => CameraPixelFormat::Yuyv,
            PixelFormat::Mjpeg => CameraPixelFormat::Mjpeg,
        }
    }

    /// The number that stands for the format.
    pub fn raw(self) -> (code: u32)
        ensures
            code == self.code(),
    {
        match self {
            PixelFormat::Nv12 => 1,
            PixelFormat::Yuyv => 2,
            PixelFormat::Mjpeg => 3,
        }
    }

    /// The format that a number stands for.
    pub fn from_raw(value: u32) -> (result: HalResult<PixelFormat>)
        ensures
            match result {
                Ok(format) => format.code() == value,
                Err(error) => {
                    &&& !(1 <= value <= 3)
                    &&& error@ == invalid_error(
                        "shared_memory.layout"@,
                        "unknown pixel format"@,
                    )
                },
            },
    {
        match value {
            1 => Ok(PixelFormat::Nv12),
            2 => Ok(PixelFormat::Yuyv),
            3 => Ok(PixelFormat::Mjpeg),
            _ => Err(invalid("shared_memory.layout", "unknown pixel format")),
        }
    }

    /// The format of the camera interface.
    pub fn to_camera(self) -> (format: CameraPixelFormat)
        ensures
            format == self.as_camera(),
    {
        match self {
            PixelFormat::Nv12 => CameraPixelFormat::Nv12,
            PixelFormat::Yuyv => CameraPixelFormat::Yuyv,
            PixelFormat::Mjpeg => CameraPixelFormat::Mjpeg,
        }
    }
}

/// The region's name of a camera format.
pub open spec fn pixel_format_of(value: CameraPixelFormat) -> PixelFormat {
    match value {
        CameraPixelFormat::Nv12 => PixelFormat::Nv12,
        CameraPixelFormat::Yuyv => PixelFormat::Yuyv,
        CameraPixelFormat::Mjpeg => PixelFormat::Mjpeg,
    }
}

impl From<CameraPixelFormat> for PixelFormat {
    fn from(value: CameraPixelFormat) -> (format: Self) {
        match value {
            CameraPixelFormat::Nv12 => PixelFormat::Nv12,
            CameraPixelFormat::Yuyv => PixelFormat::Yuyv,
            CameraPixelFormat::Mjpeg => PixelFormat::Mjpeg,
        }
    }
}

impl vstd::std_specs::convert::FromSpecImpl<CameraPixelFormat> for PixelFormat {
    open spec fn obeys_from_spec() -> bool {
        true
    }

    open spec fn from_spec(value: CameraPixelFormat) -> Self {
        pixel_format_of(value)
    }
}

/// One plane of a frame: a byte range of the payload and the length of a row in it.
#[derive(Clone, Copy, Debug, PartialEq, Eq, Structural)]
pub struct PlaneLayout {
    offset: u32,
    length: u32,
    stride: u32,
}

/// The mathematical content of a [`PlaneLayout`].
pub struct PlaneView {
    pub offset: u32,
    pub length: u32,
    pub stride: u32,
}

impl PlaneView {
    /// Where the plane's range ends.
    pub open spec fn end(self) -> int {
        self.offset + self.length
    }

    /// A plane that holds bytes, within the range of the layout.
    pub open spec fn wf(self) -> bool {
        &&& self.length > 0
        &&& self.stride > 0
        &&& self.end() <= u32::MAX
    }
}

impl View for PlaneLayout {
    type V = PlaneView;

    closed spec fn view(&self) -> PlaneView {
        PlaneView { offset: self.offset, length: self.length, stride: self.stride }
    }
}

/// The first reason, if any, why the three numbers are no plane.
pub open spec fn plane_refusal(offset: usize, length: usize, stride: usize) -> Option<Seq<char>> {
    if offset > u32::MAX {
        Some("plane offset exceeds layout range"@)
    } else if length > u32::MAX {
        Some("plane length exceeds layout range"@)
    } else if stride > u32::MAX {
        Some("plane stride exceeds layout range"@)
    } else if length == 0 || stride == 0 {
        Some("plane length and stride must be non-zero"@)
    } else if offset + length > u32::MAX {
        Some("plane range overflows"@)
    } else {
        None
    }
}

impl PlaneLayout {
    /// A plane within the range of the layout.
    pub fn new(offset: usize, length: usize, stride: usize) -> (result: HalResult<PlaneLayout>)
        ensures
            match result {
                Ok(plane) => {
                    &&& plane_refusal(offset, length, stride) is None
                    &&& plane@ == (PlaneView {
                        offset: offset as u32,
                        length: length as u32,
                        stride: stride as u32,
                    })
                    &&& plane@.wf()
                },
                Err(error) => {
                    &&& plane_refusal(offset, length, stride) is Some
                    &&& error@ == invalid_error(
                        "shared_memory.plane"@,
                        plane_refusal(offset, length, stride)->0,
                    )
                },
            },
    {
        let limit: usize = u32::MAX as usize;
        if offset > limit {
            return Err(invalid("shared_memory.plane", "plane offset exceeds layout range"));
        }
        if length > limit {
            return Err(invalid("shared_memory.plane", "plane length exceeds layout range"));
        }
        if stride > limit {
            return Err(invalid("shared_memory.plane", "plane stride exceeds layout range"));
        }
        if length == 0 || stride == 0 {
            return Err(invalid("shared_memory.plane", "plane length and stride must be non-zero"));
        }
        let plane = PlaneLayout {
            offset: offset as u32,
            length: length as u32,
            stride: stride as u32,
        };
        match plane.offset.checked_add(plane.length) {
            Some(_) => Ok(plane),
            None => Err(invalid("shared_memory.plane", "plane range overflows")),
        }
    }

    /// Where the plane starts in the payload.
    pub fn offset(self) -> (offset: usize)
        ensures
            offset == self@.offset,
    {
        self.offset as usize
    }

    /// How many bytes the plane holds.
    pub fn length(self) -> (length: usize)
        ensures
            length == self@.length,
    {
        self.length as usize
    }

    /// How many bytes a row of the plane takes.
    pub fn stride(self) -> (stride: usize)
        ensures
            stride == self@.stride,
    {
        self.stride as usize
    }
}

/// The views of planes.
pub open spec fn plane_views(planes: Seq<PlaneLayout>) -> Seq<PlaneView> {
    Seq::new(planes.len(), |i: int| planes[i]@)
}

/// How many planes a format has.
pub open spec fn plane_count(format: PixelFormat) -> int {
    if format == PixelFormat::Nv12 {
        2
    } else {
        1
    }
}

/// The shortest row that plane `index` can have.
pub open spec fn minimum_stride(format: PixelFormat, width: u32, index: int) -> int {
    match format {
        PixelFormat::Nv12 => width as int,
        PixelFormat::Yuyv => if width * 2 <= usize::MAX {
            width * 2
        } else {
            usize::MAX as int
        },
        PixelFormat::Mjpeg => 0,
    }
}

/// How many rows plane `index` has.
pub open spec fn plane_rows(format: PixelFormat, height: u32, index: int) -> int {
    match format {
        PixelFormat::Nv12 => if index == 0 {
            height as int
        } else {
            height as int / 2
        },
        PixelFormat::Yuyv => height as int,
        PixelFormat::Mjpeg => 0,
    }
}

/// Why the range of a plane is outside a payload.
pub open spec fn range_refusal(plane: PlaneView, payload_length: int) -> Option<Seq<char>> {
    if plane.end() > usize::MAX {
        Some("plane range overflows"@)
    } else if plane.end() > payload_length {
        Some("plane range escapes the frame payload"@)
    } else {
        None
    }
}

/// Why the rows of a plane do not cover the frame.
pub open spec fn cover_refusal(
    format: PixelFormat,
    width: u32,
    height: u32,
    plane: PlaneView,
    index: int,
) -> Option<Seq<char>> {
    if plane.stride < minimum_stride(format, width, index) {
        Some("plane dimensions do not cover the negotiated frame"@)
    } else if plane.stride * plane_rows(format, height, index) > usize::MAX {
        Some("plane size overflows"@)
    } else if plane.length < plane.stride * plane_rows(format, height, index) {
        Some("plane dimensions do not cover the negotiated frame"@)
    } else {
        None
    }
}

/// Whether the ranges of two planes share a byte: the one that starts first ends behind the
/// start of the other.
pub open spec fn planes_overlap(first: PlaneView, second: PlaneView) -> bool {
    if first.offset <= second.offset {
        first.end() > second.offset
    } else {
        second.end() > first.offset
    }
}

/// The first reason, if any, why the planes do not describe a frame of the format in a payload of
/// `payload_length` bytes.
pub open spec fn planes_refusal(
    format: PixelFormat,
    width: u32,
    height: u32,
    planes: Seq<PlaneView>,
    payload_length: int,
) -> Option<Seq<char>> {
    if planes.len() != plane_count(format) {
        Some("plane count does not match the pixel format"@)
    } else if range_refusal(planes[0], payload_length) is Some {
        range_refusal(planes[0], payload_length)
    } else if planes.len() == 2 && range_refusal(planes[1], payload_length) is Some {
        range_refusal(planes[1], payload_length)
    } else if cover_refusal(format, width, height, planes[0], 0) is Some {
        cover_refusal(format, width, height, planes[0], 0)
    } else if planes.len() == 2 && cover_refusal(format, width, height, planes[1], 1) is Some {
        cover_refusal(format, width, height, planes[1], 1)
    } else if planes.len() == 2 && planes_overlap(planes[0], planes[1]) {
        Some("plane ranges overlap"@)
    } else {
        None
    }
}

fn check_range(plane: PlaneLayout, payload_length: usize) -> (result: HalResult<()>)
    ensures
        match result {
            Ok(()) => range_refusal(plane@, payload_length as int) is None,
            Err(error) => {
                &&& range_refusal(plane@, payload_length as int) is Some
                &&& error@ == invalid_error(
                    "shared_memory.layout"@,
                    range_refusal(plane@, payload_length as int)->0,
                )
            },
        },
{
    match plane.offset().checked_add(plane.length()) {
        None => Err(invalid("shared_memory.layout", "plane range overflows")),
        Some(end) => if end > payload_length {
            Err(invalid("shared_memory.layout", "plane range escapes the frame payload"))
        } else {
            Ok(())
        },
    }
}

fn check_cover(
    plane: PlaneLayout,
    minimum: usize,
    rows: usize,
    Ghost(refusal): Ghost<Option<Seq<char>>>,
) -> (result: HalResult<()>)
    requires
        refusal == (if plane@.stride < minimum {
            Some("plane dimensions do not cover the negotiated frame"@)
        } else if plane@.stride * rows > usize::MAX {
            Some("plane size overflows"@)
        } else if plane@.length < plane@.stride * rows {
            Some("plane dimensions do not cover the negotiated frame"@)
        } else {
            None
        }),
    ensures
        match result {
            Ok(()) => refusal is None,
            Err(error) => {
                &&& refusal is Some
                &&& error@ == invalid_error("shared_memory.layout"@, refusal->0)
            },
        },
{
    if plane.stride() < minimum {
        return Err(
            invalid("shared_memory.layout", "plane dimensions do not cover the negotiated frame"),
        );
    }
    match plane.stride().checked_mul(rows) {
        None => Err(invalid("shared_memory.layout", "plane size overflows")),
        Some(needed) => if plane.length() < needed {
            Err(
                invalid(
                    "shared_memory.layout",
                    "plane dimensions do not cover the negotiated frame",
                ),
            )
        } else {
            Ok(())
        },
    }
}

/// Checks that the planes describe a frame of the format in a payload of `payload_length` bytes.
pub fn validate_planes(
    format: PixelFormat,
    width: u32,
    height: u32,
    planes: &Vec<PlaneLayout>,
    payload_length: usize,
) -> (result: HalResult<()>)
    ensures
        match result {
            Ok(()) => planes_refusal(
                format,
                width,
                height,
                plane_views(planes@),
                payload_length as int,
            ) is None,
            Err(error) => {
                let refusal = planes_refusal(
                    format,
                    width,
                    height,
                    plane_views(planes@),
                    payload_length as int,
                );
                &&& refusal is Some
                &&& error@ == invalid_error("shared_memory.layout"@, refusal->0)
            },
        },
{
    let expected: usize = if format == PixelFormat::Nv12 {
        2
    } else {
        1
    };
    if planes.len() != expected {
        return Err(
            invalid("shared_memory.layout", "plane count does not match the pixel format"),
        );
    }
    let mut index: usize = 0;
    while index < planes.len()
        invariant
            index <= planes@.len(),
            planes@.len() == plane_count(format),
            planes@.len() <= 2,
            forall|i: int|
                0 <= i < index ==> range_refusal(
                    #[trigger] planes@[i]@,
                    payload_length as int,
                ) is None,
        decreases planes@.len() - index,
    {
        check_range(planes[index], payload_length)?;
        index += 1;
    }
    let stride: usize = match format {
        PixelFormat::Nv12 => width as usize,
        PixelFormat::Yuyv => match (width as usize).checked_mul(2) {
            Some(value) => value,
            None => usize::MAX,
        },
        PixelFormat::Mjpeg => 0,
    };
    let rows: usize = match format {
        PixelFormat::Nv12 => height as usize,
        PixelFormat::Yuyv => height as usize,
        PixelFormat::Mjpeg => 0,
    };
    check_cover(
        planes[0],
        stride,
        rows,
        Ghost(cover_refusal(format, width, height, planes@[0]@, 0)),
    )?;
    if planes.len() == 2 {
        check_cover(
            planes[1],
            stride,
            height as usize / 2,
            Ghost(cover_refusal(format, width, height, planes@[1]@, 1)),
        )?;
        let first = planes[0];
        let second = planes[1];
        let overlap = if first.offset() <= second.offset() {
            first.offset() + first.length() > second.offset()
        } else {
            second.offset() + second.length() > first.offset()
        };
        if overlap {
            return Err(invalid("shared_memory.layout", "plane ranges overlap"));
        }
    }
    Ok(())
}

/// The first reason, if any, why no frame has these dimensions.
pub open spec fn dimensions_refusal(
    limits: CameraLimits,
    format: PixelFormat,
    width: u32,
    height: u32,
) -> Option<Seq<char>> {
    if width == 0 || height == 0 || width > limits.max_width || height > limits.max_height {
        Some("frame dimensions are outside the negotiated bounds"@)
    } else if format == PixelFormat::Nv12 && (width % 2 != 0 || height % 2 != 0) {
        Some("NV12 dimensions must be even"@)
    } else {
        None
    }
}

/// Checks that a frame can have these dimensions.
pub fn validate_dimensions(
    limits: &CameraLimits,
    format: PixelFormat,
    width: u32,
    height: u32,
) -> (result: HalResult<()>)
    ensures
        match result {
            Ok(()) => {
                &&& dimensions_refusal(*limits, format, width, height) is None
                &&& frame_format::valid_dimensions(*limits, format.as_camera(), width, height)
            },
            Err(error) => {
                &&& dimensions_refusal(*limits, format, width, height) is Some
                &&& error@ == invalid_error(
                    "shared_memory.layout"@,
                    dimensions_refusal(*limits, format, width, height)->0,
                )
            },
        },
{
    if width == 0 || height == 0 || width > limits.max_width || height > limits.max_height {
        return Err(
            invalid("shared_memory.layout", "frame dimensions are outside the negotiated bounds"),
        );
    }
    if format == PixelFormat::Nv12 && (width % 2 != 0 || height % 2 != 0) {
        return Err(invalid("shared_memory.layout", "NV12 dimensions must be even"));
    }
    Ok(())
}

/// What is known about one frame beside its bytes.
#[derive(Clone, Debug, PartialEq, Eq)]
pub struct FrameMetadata {
    format: PixelFormat,
    width: u32,
    height: u32,
    sequence: u64,
    generation: u64,
    monotonic_timestamp_ns: u64,
    dropped_count: u64,
    planes: Vec<PlaneLayout>,
}

/// The mathematical content of a [`FrameMetadata`].
#[verifier::ext_equal]
pub struct MetadataView {
    pub format: PixelFormat,
    pub width: u32,
    pub height: u32,
    pub sequence: u64,
    pub generation: u64,
    pub monotonic_timestamp_ns: u64,
    pub dropped_count: u64,
    pub planes: Seq<PlaneView>,
}

impl View for FrameMetadata {
    type V = MetadataView;

    closed spec fn view(&self) -> MetadataView {
        MetadataView {
            format: self.format,
            width: self.width,
            height: self.height,
            sequence: self.sequence,
            generation: self.generation,
            monotonic_timestamp_ns: self.monotonic_timestamp_ns,
            dropped_count: self.dropped_count,
            planes: plane_views(self.planes@),
        }
    }
}

/// The first reason, if any, why no frame has this metadata.
pub open spec fn metadata_refusal(limits: CameraLimits, metadata: MetadataView) -> Option<
    Seq<char>,
> {
    let dimensions = dimensions_refusal(limits, metadata.format, metadata.width, metadata.height);
    if dimensions is Some {
        dimensions
    } else {
        planes_refusal(
            metadata.format,
            metadata.width,
            metadata.height,
            metadata.planes,
            limits.max_frame_bytes as int,
        )
    }
}

impl FrameMetadata {
    /// Metadata that a frame can have.
    pub fn new(
        limits: &CameraLimits,
        format: PixelFormat,
        width: u32,
        height: u32,
        sequence: u64,
        generation: u64,
        monotonic_timestamp_ns: u64,
        dropped_count: u64,
        planes: Vec<PlaneLayout>,
    ) -> (result: HalResult<FrameMetadata>)
        ensures
            ({
                let view = MetadataView {
                    format,
                    width,
                    height,
                    sequence,
                    generation,
                    monotonic_timestamp_ns,
                    dropped_count,
                    planes: plane_views(planes@),
                };
                match result {
                    Ok(metadata) => metadata_refusal(*limits, view) is None && metadata@ == view,
                    Err(error) => {
                        &&& metadata_refusal(*limits, view) is Some
                        &&& error@ == invalid_error(
                            "shared_memory.layout"@,
                            metadata_refusal(*limits, view)->0,
                        )
                    },
                }
            }),
    {
        validate_dimensions(limits, format, width, height)?;
        validate_planes(format, width, height, &planes, limits.max_frame_bytes)?;
        Ok(
            FrameMetadata {
                format,
                width,
                height,
                sequence,
                generation,
                monotonic_timestamp_ns,
                dropped_count,
                planes,
            },
        )
    }

    /// The pixel format.
    pub fn format(&self) -> (format: PixelFormat)
        ensures
            format == self@.format,
    {
        self.format
    }

    /// The width in pixels.
    pub fn width(&self) -> (width: u32)
        ensures
            width == self@.width,
    {
        self.width
    }

    /// The height in pixels.
    pub fn height(&self) -> (height: u32)
        ensures
            height == self@.height,
    {
        self.height
    }

    /// The position of the frame in its stream.
    pub fn sequence(&self) -> (sequence: u64)
        ensures
            sequence == self@.sequence,
    {
        self.sequence
    }

    /// The generation of the slot's content.
    pub fn generation(&self) -> (generation: u64)
        ensures
            generation == self@.generation,
    {
        self.generation
    }

    /// When the frame was received, in nanoseconds of a monotonic clock.
    pub fn monotonic_timestamp_ns(&self) -> (timestamp: u64)
        ensures
            timestamp == self@.monotonic_timestamp_ns,
    {
        self.monotonic_timestamp_ns
    }

    /// How many frames had been dropped.
    pub fn dropped_count(&self) -> (count: u64)
        ensures
            count == self@.dropped_count,
    {
        self.dropped_count
    }

    /// The planes.
    pub fn planes(&self) -> (planes: &Vec<PlaneLayout>)
        ensures
            plane_views(planes@) == self@.planes,
    {
        &self.planes
    }
}

/// Who may touch a slot.
#[derive(Clone, Copy, Debug, PartialEq, Eq, Structural)]
pub enum SlotState {
    /// Nobody uses it.
    Free,
    /// The broker is writing a frame.
    Writing,
    /// It holds a complete frame.
    Ready,
    /// A lease on its frame is out.
    Pinned,
}

impl SlotState {
    /// The number that stands for the state.
    pub open spec fn code(self) -> u64 {
        match self {
            SlotState::Free => 0,
            SlotState::Writing => 1,
            SlotState::Ready => 2,
            SlotState::Pinned => 3,
        }
    }

    /// The number that stands for the state.
    pub fn raw(self) -> (code: u64)
        ensures
            code == self.code(),
    {
        match self {
            SlotState::Free => 0,
            SlotState::Writing => 1,
            SlotState::Ready => 2,
            SlotState::Pinned => 3,
        }
    }

    /// The state that a number stands for.
    pub fn from_raw(value: u64) -> (result: HalResult<SlotState>)
        ensures
            match result {
                Ok(state) => state.code() == value,
                Err(error) => {
                    &&& value > 3
                    &&& error@ == invalid_error("shared_memory.slot"@, "slot state is invalid"@)
                },
            },
    {
        match value {
            0 => Ok(SlotState::Free),
            1 => Ok(SlotState::Writing),
            2 => Ok(SlotState::Ready),
            3 => Ok(SlotState::Pinned),
            _ => Err(invalid("shared_memory.slot", "slot state is invalid")),
        }
    }
}

/// `value` rounded up to a multiple of `alignment`.
pub open spec fn aligned(value: int, alignment: int) -> int {
    (value + alignment - 1) / alignment * alignment
}

/// Rounds `value` up to a multiple of `alignment`.
pub fn align_up(value: usize, alignment: usize) -> (result: HalResult<usize>)
    requires
        alignment > 0,
    ensures
        match result {
            Ok(rounded) => {
                &&& value + alignment - 1 <= usize::MAX
                &&& rounded == aligned(value as int, alignment as int)
            },
            Err(error) => {
                &&& value + alignment - 1 > usize::MAX
                &&& error@ == invalid_error("shared_memory.layout"@, "alignment overflows"@)
            },
        },
{
    match value.checked_add(alignment - 1) {
        Some(sum) => {
            proof {
                assert((sum as int / alignment as int) * alignment as int <= sum as int)
                    by (nonlinear_arith)
                    requires
                        alignment > 0,
                        sum >= 0,
                ;
            }
            Ok(sum / alignment * alignment)
        },
        None => Err(invalid("shared_memory.layout", "alignment overflows")),
    }
}

/// The rounded value is a multiple of the alignment, not below the value and less than one
/// alignment above it.
pub proof fn lemma_aligned(value: int, alignment: int)
    requires
        alignment > 0,
        value >= 0,
    ensures
        aligned(value, alignment) % alignment == 0,
        value <= aligned(value, alignment) < value + alignment,
{
    let sum = value + alignment - 1;
    vstd::arithmetic::div_mod::lemma_fundamental_div_mod(sum, alignment);
    vstd::arithmetic::div_mod::lemma_mod_bound(sum, alignment);
    assert(sum / alignment * alignment == alignment * (sum / alignment)) by (nonlinear_arith);
    vstd::arithmetic::div_mod::lemma_mod_multiples_basic(sum / alignment, alignment);
}

} // verus!
