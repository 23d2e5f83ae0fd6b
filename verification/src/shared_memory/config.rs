//! The geometry of a ring.

use vstd::prelude::*;

use crate::camera::frame_format;
use crate::camera::frame_format::{CameraFormat, CameraLimits};
use crate::error::{HalErrorView, HalResult};
use crate::shared_memory::layout;
use crate::shared_memory::layout::{
    align_up, invalid, HEADER_BYTES, MAX_MAPPING_BYTES, SLOT_ALIGNMENT, SLOT_HEADER_BYTES,
};
use crate::shared_memory::mapping::MappingIdentity;

verus! {

/// The negotiated format and the sizes that follow from it.
#[derive(Clone, Copy, Debug, PartialEq, Eq, Structural)]
pub struct RingConfig {
    format: CameraFormat,
    slot_count: usize,
    payload_capacity: usize,
    slot_stride: usize,
    total_length: usize,
}

/// The mathematical content of a [`RingConfig`].
pub struct RingGeometry {
    pub format: CameraFormat,
    pub slot_count: int,
    pub payload_capacity: int,
}

impl RingGeometry {
    /// How far apart the slots are.
    pub open spec fn slot_stride(self) -> int {
        layout::aligned(SLOT_HEADER_BYTES + self.payload_capacity, SLOT_ALIGNMENT as int)
    }

    /// How long the region is.
    pub open spec fn total_length(self) -> int {
        HEADER_BYTES + self.slot_stride() * self.slot_count
    }

    /// Where a slot starts.
    pub open spec fn slot_base(self, index: int) -> int {
        HEADER_BYTES + index * self.slot_stride()
    }

    /// A geometry within every bound.
    pub open spec fn wf(self, limits: CameraLimits) -> bool {
        &&& self.format.valid(limits)
        &&& limits.min_slot_count <= self.slot_count <= limits.max_slot_count
        &&& self.format.worst_case(limits) <= self.payload_capacity <= limits.max_frame_bytes
        &&& self.total_length() <= MAX_MAPPING_BYTES
    }

    /// The first reason, if any, why there is no such ring.
    pub open spec fn refusal(self, limits: CameraLimits) -> Option<HalErrorView> {
        let config = "shared_memory.config"@;
        if !self.format.valid(limits) {
            Some(
                frame_format::format_error("camera dimensions are outside the public bounds"@),
            )
        } else if !(limits.min_slot_count <= self.slot_count <= limits.max_slot_count) {
            Some(
                layout::invalid_error(
                    config,
                    "slot count must be within the inclusive public range"@,
                ),
            )
        } else if self.payload_capacity <= limits.max_frame_bytes && self.format.worst_case(limits)
            > usize::MAX {
            Some(frame_format::format_error("camera frame size overflows"@))
        } else if self.payload_capacity > limits.max_frame_bytes || self.payload_capacity
            < self.format.worst_case(limits) {
            Some(
                layout::invalid_error(
                    config,
                    "payload capacity must cover the negotiated format within the frame bound"@,
                ),
            )
        } else if SLOT_HEADER_BYTES + self.payload_capacity > usize::MAX {
            Some(layout::invalid_error(config, "slot stride overflows"@))
        } else if SLOT_HEADER_BYTES + self.payload_capacity + SLOT_ALIGNMENT - 1 > usize::MAX {
            Some(layout::invalid_error("shared_memory.layout"@, "alignment overflows"@))
        } else if self.total_length() > usize::MAX {
            Some(layout::invalid_error(config, "mapping length overflows"@))
        } else if self.total_length() > MAX_MAPPING_BYTES {
            Some(
                layout::invalid_error(
                    config,
                    "mapping length exceeds the bounded shared-memory limit"@,
                ),
            )
        } else {
            None
        }
    }
}

impl View for RingConfig {
    type V = RingGeometry;

    closed spec fn view(&self) -> RingGeometry {
        RingGeometry {
            format: self.format,
            slot_count: self.slot_count as int,
            payload_capacity: self.payload_capacity as int,
        }
    }
}

impl RingConfig {
    /// The sizes are those of the geometry and fit in memory.
    #[verifier::type_invariant]
    closed spec fn sized(self) -> bool {
        &&& self.slot_stride == self@.slot_stride()
        &&& self.total_length == self@.total_length()
        &&& self.total_length <= MAX_MAPPING_BYTES
    }

    /// What holds of the geometry of every configuration.
    pub(crate) fn facts(&self)
        ensures
            self@.slot_count >= 0,
            self@.payload_capacity >= 0,
            self@.total_length() <= MAX_MAPPING_BYTES,
            self@.slot_stride() >= SLOT_HEADER_BYTES + self@.payload_capacity,
            self@.slot_stride() % SLOT_ALIGNMENT as int == 0,
    {
        proof {
            use_type_invariant(self);
            layout::lemma_aligned(
                SLOT_HEADER_BYTES + self@.payload_capacity,
                SLOT_ALIGNMENT as int,
            );
        }
    }

    /// The ring for a format, if the public bounds admit it.
    pub fn new(
        limits: &CameraLimits,
        format: CameraFormat,
        slot_count: usize,
        payload_capacity: usize,
    ) -> (result: HalResult<RingConfig>)
        ensures
            ({
                let geometry = RingGeometry {
                    format,
                    slot_count: slot_count as int,
                    payload_capacity: payload_capacity as int,
                };
                match result {
                    Ok(config) => {
                        &&& geometry.refusal(*limits) is None
                        &&& geometry.wf(*limits)
                        &&& config@ == geometry
                    },
                    Err(error) => geometry.refusal(*limits) == Some(error@),
                }
            }),
    {
        let ghost geometry = RingGeometry {
            format,
            slot_count: slot_count as int,
            payload_capacity: payload_capacity as int,
        };
        format.validate(limits)?;
        if slot_count < limits.min_slot_count || slot_count > limits.max_slot_count {
            return Err(
                invalid(
                    "shared_memory.config",
                    "slot count must be within the inclusive public range",
                ),
            );
        }
        if payload_capacity > limits.max_frame_bytes {
            return Err(
                invalid(
                    "shared_memory.config",
                    "payload capacity must cover the negotiated format within the frame bound",
                ),
            );
        }
        let worst_case: usize = format.worst_case_frame_bytes(limits)?;
        if payload_capacity < worst_case {
            return Err(
                invalid(
                    "shared_memory.config",
                    "payload capacity must cover the negotiated format within the frame bound",
                ),
            );
        }
        let unaligned: usize = match SLOT_HEADER_BYTES.checked_add(payload_capacity) {
            Some(length) => length,
            None => return Err(invalid("shared_memory.config", "slot stride overflows")),
        };
        let slot_stride: usize = align_up(unaligned, SLOT_ALIGNMENT)?;
        let slots: usize = match slot_stride.checked_mul(slot_count) {
            Some(length) => length,
            None => return Err(invalid("shared_memory.config", "mapping length overflows")),
        };
        let total_length: usize = match HEADER_BYTES.checked_add(slots) {
            Some(length) => length,
            None => return Err(invalid("shared_memory.config", "mapping length overflows")),
        };
        if total_length > MAX_MAPPING_BYTES {
            return Err(
                invalid(
                    "shared_memory.config",
                    "mapping length exceeds the bounded shared-memory limit",
                ),
            );
        }
        Ok(RingConfig { format, slot_count, payload_capacity, slot_stride, total_length })
    }

    /// How many slots there are.
    pub fn slot_count(&self) -> (count: usize)
        ensures
            count == self@.slot_count,
    {
        self.slot_count
    }

    /// How many payload bytes a slot holds.
    pub fn payload_capacity(&self) -> (capacity: usize)
        ensures
            capacity == self@.payload_capacity,
    {
        self.payload_capacity
    }

    /// How far apart the slots are.
    pub fn slot_stride(&self) -> (stride: usize)
        ensures
            stride == self@.slot_stride(),
    {
        proof {
            use_type_invariant(self);
        }
        self.slot_stride
    }

    /// How long the region is.
    pub fn total_length(&self) -> (length: usize)
        ensures
            length == self@.total_length(),
    {
        proof {
            use_type_invariant(self);
        }
        self.total_length
    }

    /// The negotiated format.
    pub fn format(&self) -> (format: CameraFormat)
        ensures
            format == self@.format,
    {
        self.format
    }

    /// Where a slot starts. Its header and its payload lie behind that, inside the region.
    pub fn slot_base(&self, index: usize) -> (base: usize)
        requires
            index < self@.slot_count,
        ensures
            base == self@.slot_base(index as int),
            base >= HEADER_BYTES,
            base + SLOT_HEADER_BYTES + self@.payload_capacity <= base + self@.slot_stride(),
            base + self@.slot_stride() <= self@.total_length() <= MAX_MAPPING_BYTES,
    {
        proof {
            use_type_invariant(self);
            lemma_slot_range(self@, index as int);
        }
        HEADER_BYTES + index * self.slot_stride
    }
}

/// Every slot lies in the region, behind the header.
pub proof fn lemma_slot_range(geometry: RingGeometry, index: int)
    requires
        0 <= index < geometry.slot_count,
        geometry.payload_capacity >= 0,
    ensures
        HEADER_BYTES <= geometry.slot_base(index),
        geometry.slot_base(index) + geometry.slot_stride() <= geometry.total_length(),
        geometry.slot_stride() >= SLOT_HEADER_BYTES + geometry.payload_capacity,
        index * geometry.slot_stride() >= 0,
        geometry.slot_base(index + 1) == geometry.slot_base(index) + geometry.slot_stride(),
{
    layout::lemma_aligned(SLOT_HEADER_BYTES + geometry.payload_capacity, SLOT_ALIGNMENT as int);
    let stride = geometry.slot_stride();
    let count = geometry.slot_count;
    assert(index * stride >= 0 && index * stride + stride <= stride * count) by (nonlinear_arith)
        requires
            0 <= index < count,
            stride >= 0,
    ;
    assert((index + 1) * stride == index * stride + stride) by (nonlinear_arith);
}

/// Two slots share no byte.
pub proof fn lemma_slots_disjoint(geometry: RingGeometry, first: int, second: int)
    requires
        0 <= first < second < geometry.slot_count,
        geometry.payload_capacity >= 0,
    ensures
        geometry.slot_base(first) + geometry.slot_stride() <= geometry.slot_base(second),
{
    lemma_slot_range(geometry, first);
    let stride = geometry.slot_stride();
    assert(first * stride + stride <= second * stride) by (nonlinear_arith)
        requires
            first < second,
            stride >= 0,
    ;
}

/// A header that was found to describe the mapping.
#[derive(Clone, Copy, Debug, PartialEq, Eq)]
pub struct ValidatedHeader {
    config: RingConfig,
    identity: MappingIdentity,
}

impl ValidatedHeader {
    /// The geometry that the header describes.
    pub closed spec fn geometry(self) -> RingGeometry {
        self.config@
    }

    /// The session identity that the header holds.
    pub closed spec fn session(self) -> Seq<u8> {
        self.identity@
    }

    /// The header with the given parts.
    pub fn new(config: RingConfig, identity: MappingIdentity) -> (header: ValidatedHeader)
        ensures
            header.geometry() == config@,
            header.session() == identity@,
    {
        ValidatedHeader { config, identity }
    }

    /// The configuration.
    pub fn config(&self) -> (config: &RingConfig)
        ensures
            config@ == self.geometry(),
    {
        &self.config
    }

    /// The session identity.
    pub fn identity(&self) -> (identity: &MappingIdentity)
        ensures
            identity@ == self.session(),
    {
        &self.identity
    }
}

} // verus!
