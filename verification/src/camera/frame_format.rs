//! Camera formats and the bounds that every frame keeps.

use vstd::prelude::*;

use crate::error::{ErrorCategory, HalError, HalErrorView, HalResult};

verus! {

/// How the bytes of a frame encode its pixels.
#[derive(Clone, Copy, Debug, PartialEq, Eq, Structural)]
pub enum CameraPixelFormat {
    /// One plane of luma and one of interleaved chroma at half the height.
    Nv12,
    /// One plane with two bytes for each pixel.
    Yuyv,
    /// One compressed plane.
    Mjpeg,
}

/// The public bounds of camera frames. Their values belong to the runtime around the library and are
/// not known here, so that they are given with each use.
#[derive(Clone, Copy, Debug, PartialEq, Eq, Structural)]
pub struct CameraLimits {
    pub max_width: u32,
    pub max_height: u32,
    pub max_frame_bytes: usize,
    pub min_slot_count: usize,
    pub max_slot_count: usize,
}

/// A pixel format with its dimensions. Which formats the runtime around the library refuses, and how
/// it reckons the largest frame of one, is not known here. Assumed are the bounds of
/// [`valid_dimensions`] with one error for all of them, and the sizes of
/// [`CameraFormat::worst_case`].
#[derive(Clone, Copy, Debug, PartialEq, Eq, Structural)]
pub struct CameraFormat {
    pub pixel_format: CameraPixelFormat,
    pub width: u32,
    pub height: u32,
}

/// Dimensions that a frame can have.
pub open spec fn valid_dimensions(
    limits: CameraLimits,
    pixel_format: CameraPixelFormat,
    width: u32,
    height: u32,
) -> bool {
    &&& 0 < width <= limits.max_width
    &&& 0 < height <= limits.max_height
    &&& pixel_format == CameraPixelFormat::Nv12 ==> width % 2 == 0 && height % 2 == 0
}

/// The error of a format that no frame can have.
pub open spec fn format_error(message: Seq<char>) -> HalErrorView {
    HalErrorView::new(
        "camera.format.invalid"@,
        ErrorCategory::InvalidArgument,
        "camera.format"@,
        false,
        message,
    )
}

impl CameraFormat {
    /// Whether a frame can have this format.
    pub open spec fn valid(self, limits: CameraLimits) -> bool {
        valid_dimensions(limits, self.pixel_format, self.width, self.height)
    }

    /// The most bytes that a frame of this format holds.
    pub open spec fn worst_case(self, limits: CameraLimits) -> int {
        match self.pixel_format {
            CameraPixelFormat::Nv12 => self.width * self.height + (self.width * self.height) / 2,
            CameraPixelFormat::Yuyv => self.width * self.height * 2,
            CameraPixelFormat::Mjpeg => limits.max_frame_bytes as int,
        }
    }

    /// A format that a frame can have.
    pub fn new(
        limits: &CameraLimits,
        pixel_format: CameraPixelFormat,
        width: u32,
        height: u32,
    ) -> (result: HalResult<CameraFormat>)
        ensures
            match result {
                Ok(format) => {
                    &&& valid_dimensions(*limits, pixel_format, width, height)
                    &&& format == (CameraFormat { pixel_format, width, height })
                },
                Err(error) => {
                    &&& !valid_dimensions(*limits, pixel_format, width, height)
                    &&& error@ == format_error("camera dimensions are outside the public bounds"@)
                },
            },
    {
        let format = CameraFormat { pixel_format, width, height };
        match format.validate(limits) {
            Ok(()) => Ok(format),
            Err(error) => Err(error),
        }
    }

    /// Checks that a frame can have this format.
    pub fn validate(&self, limits: &CameraLimits) -> (result: HalResult<()>)
        ensures
            match result {
                Ok(()) => self.valid(*limits),
                Err(error) => {
                    &&& !self.valid(*limits)
                    &&& error@ == format_error("camera dimensions are outside the public bounds"@)
                },
            },
    {
        let odd = self.pixel_format == CameraPixelFormat::Nv12 && (self.width % 2 != 0
            || self.height % 2 != 0);
        if self.width == 0 || self.height == 0 || self.width > limits.max_width || self.height
            > limits.max_height || odd {
            return Err(
                HalError::fixed(
                    "camera.format.invalid",
                    ErrorCategory::InvalidArgument,
                    "camera.format",
                    false,
                    "camera dimensions are outside the public bounds",
                ),
            );
        }
        Ok(())
    }

    /// The most bytes that a frame of this format holds.
    pub fn worst_case_frame_bytes(&self, limits: &CameraLimits) -> (result: HalResult<usize>)
        ensures
            match result {
                Ok(bytes) => bytes == self.worst_case(*limits),
                Err(error) => {
                    &&& self.worst_case(*limits) > usize::MAX
                    &&& error@ == format_error("camera frame size overflows"@)
                },
            },
    {
        proof {
            assert(self.width as int * self.height as int <= 0xffff_ffff * 0xffff_ffff)
                by (nonlinear_arith)
                requires
                    0 <= self.width <= 0xffff_ffff,
                    0 <= self.height <= 0xffff_ffff,
            ;
        }
        let area: u128 = self.width as u128 * self.height as u128;
        let bytes: u128 = match self.pixel_format {
            CameraPixelFormat::Nv12 => area + area / 2,
            CameraPixelFormat::Yuyv => area * 2,
            CameraPixelFormat::Mjpeg => limits.max_frame_bytes as u128,
        };
        if bytes > usize::MAX as u128 {
            return Err(
                HalError::fixed(
                    "camera.format.invalid",
                    ErrorCategory::InvalidArgument,
                    "camera.format",
                    false,
                    "camera frame size overflows",
                ),
            );
        }
        Ok(bytes as usize)
    }
}

/// A frame has dimensions within the bounds, both even with half-sized chroma. It holds three bytes
/// for every two pixels, or two for each, or as many as the bounds allow.
pub proof fn law_frames_have_these_sizes(format: CameraFormat, limits: CameraLimits)
    ensures
        format.valid(limits) <==> {
            &&& 1 <= format.width <= limits.max_width
            &&& 1 <= format.height <= limits.max_height
            &&& format.pixel_format == CameraPixelFormat::Nv12 ==> format.width % 2 == 0
                && format.height % 2 == 0
        },
        format.pixel_format == CameraPixelFormat::Nv12 && format.width % 2 == 0 ==> 2
            * format.worst_case(limits) == 3 * (format.width * format.height),
        format.pixel_format == CameraPixelFormat::Yuyv ==> format.worst_case(limits) == 2 * (
        format.width * format.height),
        format.pixel_format == CameraPixelFormat::Mjpeg ==> format.worst_case(limits)
            == limits.max_frame_bytes,
{
    let area = format.width * format.height;
    if format.width % 2 == 0 {
        let half = format.width as int / 2;
        assert(area == 2 * (half * format.height)) by (nonlinear_arith)
            requires
                area == format.width * format.height,
                format.width == 2 * half,
        ;
    }
}

} // verus!
