//! Frames and the layout of their planes.

use vstd::prelude::*;

use crate::camera::frame_format::CameraFormat;

verus! {

/// Where a plane lies in the payload of a frame. Which layouts the runtime around the library refuses
/// is not known here; it is assumed to take those that the cameras of this library make.
#[derive(Clone, Copy, Debug, PartialEq, Eq, Structural)]
pub struct CameraPlaneLayout {
    pub offset: usize,
    pub length: usize,
    pub stride: usize,
}

/// A captured frame. Which frames the runtime around the library refuses is not known here; it is
/// assumed to take those that the cameras of this library make.
#[derive(Clone, Debug, PartialEq, Eq)]
pub struct CameraFrame {
    pub format: CameraFormat,
    pub planes: Vec<CameraPlaneLayout>,
    pub sequence: u64,
    pub timestamp_ns: u64,
    pub clock_domain: &'static str,
    pub dropped_count: u64,
    pub payload: Vec<u8>,
}

/// The mathematical content of a [`CameraFrame`].
#[verifier::ext_equal]
pub struct FrameContent {
    pub format: CameraFormat,
    pub planes: Seq<CameraPlaneLayout>,
    pub sequence: u64,
    pub timestamp_ns: u64,
    pub clock_domain: Seq<char>,
    pub dropped_count: u64,
    pub payload: Seq<u8>,
}

impl View for CameraFrame {
    type V = FrameContent;

    open spec fn view(&self) -> FrameContent {
        FrameContent {
            format: self.format,
            planes: self.planes@,
            sequence: self.sequence,
            timestamp_ns: self.timestamp_ns,
            clock_domain: self.clock_domain@,
            dropped_count: self.dropped_count,
            payload: self.payload@,
        }
    }
}

/// Every plane lies within the payload, and no two overlap.
pub open spec fn planes_fit(planes: Seq<CameraPlaneLayout>, payload: int) -> bool {
    &&& forall|i: int|
        0 <= i < planes.len() ==> (#[trigger] planes[i]).offset + planes[i].length <= payload
    &&& forall|i: int, j: int|
        0 <= i < j < planes.len() ==> (#[trigger] planes[i]).offset + planes[i].length <= (
        #[trigger] planes[j]).offset
}

/// Half of a number of rows, rounded up.
pub open spec fn half_rows(rows: int) -> int {
    (rows + 1) / 2
}

/// The bytes of the luma plane.
pub open spec fn luma_bytes(format: CameraFormat, stride: int) -> int {
    stride * format.height
}

/// The bytes of the chroma plane.
pub open spec fn chroma_bytes(format: CameraFormat, stride: int) -> int {
    stride * half_rows(format.height as int)
}

/// No plane has a negative number of bytes.
pub proof fn lemma_plane_bytes(format: CameraFormat, stride: int)
    requires
        stride >= 0,
    ensures
        luma_bytes(format, stride) >= 0,
        chroma_bytes(format, stride) >= 0,
{
    let height = format.height as int;
    let half = half_rows(height);
    assert(stride * height >= 0 && stride * half >= 0) by (nonlinear_arith)
        requires
            stride >= 0,
            height >= 0,
            half >= 0,
    ;
}

/// The luma and the chroma bytes of a frame, where both and their sum fit.
pub fn planar_bytes(format: &CameraFormat, stride: usize) -> (bytes: Option<(usize, usize)>)
    ensures
        match bytes {
            Some((luma, chroma)) => {
                &&& luma == luma_bytes(*format, stride as int)
                &&& chroma == chroma_bytes(*format, stride as int)
                &&& luma + chroma <= usize::MAX
            },
            None => luma_bytes(*format, stride as int) + chroma_bytes(
                *format,
                stride as int,
            ) > usize::MAX,
        },
{
    let height: usize = format.height as usize;
    let half: usize = height / 2 + height % 2;
    proof {
        lemma_plane_bytes(*format, stride as int);
    }
    let luma: usize = match stride.checked_mul(height) {
        Some(luma) => luma,
        None => {
            return None;
        },
    };
    let chroma: usize = match stride.checked_mul(half) {
        Some(chroma) => chroma,
        None => {
            return None;
        },
    };
    match luma.checked_add(chroma) {
        Some(_) => Some((luma, chroma)),
        None => None,
    }
}

/// A time in nanoseconds, at most the largest that fits.
pub open spec fn clamped_time(nanoseconds: u128) -> u64 {
    if nanoseconds > u64::MAX {
        u64::MAX
    } else {
        nanoseconds as u64
    }
}

/// A time in nanoseconds, at most the largest that fits.
pub fn clamp_time(nanoseconds: u128) -> (time: u64)
    ensures
        time == clamped_time(nanoseconds),
{
    if nanoseconds > u64::MAX as u128 {
        u64::MAX
    } else {
        nanoseconds as u64
    }
}

/// The number after a number; the largest stays.
pub open spec fn number_after(number: u64) -> u64 {
    if number == u64::MAX {
        number
    } else {
        (number + 1) as u64
    }
}

/// The number after a number; the largest stays.
pub fn next_number(number: u64) -> (next: u64)
    ensures
        next == number_after(number),
{
    if number == u64::MAX {
        number
    } else {
        number + 1
    }
}

/// Numbers go up by one until the largest, and times are kept as they are as far as they fit.
pub proof fn law_numbers_go_up(number: u64, nanoseconds: u128)
    ensures
        number < u64::MAX ==> number_after(number) == number + 1,
        number_after(u64::MAX) == u64::MAX,
        nanoseconds <= u64::MAX ==> clamped_time(nanoseconds) == nanoseconds,
        nanoseconds > u64::MAX ==> clamped_time(nanoseconds) == u64::MAX,
{
}

/// The content of a frame is what its fields hold.
pub proof fn law_frames_are_what_they_hold(frame: CameraFrame)
    ensures
        frame@.format == frame.format,
        frame@.planes == frame.planes@,
        frame@.sequence == frame.sequence,
        frame@.timestamp_ns == frame.timestamp_ns,
        frame@.clock_domain == frame.clock_domain@,
        frame@.dropped_count == frame.dropped_count,
        frame@.payload == frame.payload@,
{
}

} // verus!
