//! The reader's side of the ring.

use vstd::prelude::*;
use vstd::slice::*;

use crate::camera::frame_format::CameraLimits;
use crate::error::{HalErrorView, HalResult};
use crate::shared_memory::bytes::{read_u32, read_u64};
use crate::shared_memory::config::{RingConfig, RingGeometry, ValidatedHeader};
use crate::shared_memory::header;
use crate::shared_memory::header::validate_header;
use crate::shared_memory::layout;
use crate::shared_memory::layout::{
    invalid, unavailable, validate_planes, FrameMetadata, MetadataView, PixelFormat, PlaneLayout,
    PlaneView, SlotState, HEADER_BYTES, MAX_PLANES, SLOT_HEADER_BYTES,
};
use crate::shared_memory::mapping::MappingDescriptor;
use crate::shared_memory::ring::{BrokerMapping, FrameLease, LeaseView};
use crate::shared_memory::ring;
use crate::shared_memory::slots;
use crate::shared_memory::slots::{
    load_field, RingView, SlotField, SlotView, HEADER_CLOSED, HEADER_DROPPED_COUNT, PLANE_BYTES,
    SLOT_PLANES,
};

verus! {

/// The first reason, if any, why one of the first `count` planes is none.
pub open spec fn stored_plane_refusal(planes: Seq<PlaneView>, count: int) -> Option<Seq<char>>
    decreases count,
{
    if count <= 0 {
        None
    } else {
        let earlier = stored_plane_refusal(planes, count - 1);
        if earlier is Some {
            earlier
        } else {
            let plane = planes[count - 1];
            layout::plane_refusal(
                plane.offset as usize,
                plane.length as usize,
                plane.stride as usize,
            )
        }
    }
}

/// The metadata that a slot stores for a frame of the ring's format.
pub open spec fn stored_metadata(geometry: RingGeometry, slot: SlotView) -> MetadataView {
    MetadataView {
        format: layout::pixel_format_of(geometry.format.pixel_format),
        width: geometry.format.width,
        height: geometry.format.height,
        sequence: slot.sequence,
        generation: slot.generation,
        monotonic_timestamp_ns: slot.timestamp,
        dropped_count: slot.dropped,
        planes: slot.planes.take(slot.plane_count as int),
    }
}

/// The first reason, if any, why a slot does not hold a frame of the ring.
pub open spec fn slot_refusal(
    limits: CameraLimits,
    geometry: RingGeometry,
    slot: SlotView,
) -> Option<HalErrorView> {
    let metadata = stored_metadata(geometry, slot);
    let fit = layout::planes_refusal(
        metadata.format,
        metadata.width,
        metadata.height,
        metadata.planes,
        slot.payload_length as int,
    );
    if slot.payload_length > geometry.payload_capacity || slot.plane_count > MAX_PLANES {
        Some(
            layout::invalid_error(
                "shared_memory.read"@,
                "slot payload or plane count exceeds the validated layout"@,
            ),
        )
    } else if stored_plane_refusal(slot.planes, slot.plane_count as int) is Some {
        Some(
            layout::invalid_error(
                "shared_memory.plane"@,
                stored_plane_refusal(slot.planes, slot.plane_count as int)->0,
            ),
        )
    } else if fit is Some {
        Some(layout::invalid_error("shared_memory.layout"@, fit->0))
    } else if layout::metadata_refusal(limits, metadata) is Some {
        Some(
            layout::invalid_error(
                "shared_memory.layout"@,
                layout::metadata_refusal(limits, metadata)->0,
            ),
        )
    } else {
        None
    }
}

/// Whether a lease still stands: the mapping is open, and its slot is pinned for that very frame.
pub open spec fn lease_stands(
    geometry: RingGeometry,
    ring: RingView,
    expected_generation: Option<u64>,
    lease: LeaseView,
) -> bool {
    &&& ring.closed == 0
    &&& 0 <= lease.slot < geometry.slot_count
    &&& ring.slots[lease.slot].state == SlotState::Pinned.code()
    &&& ring.slots[lease.slot].generation == lease.generation
    &&& ring.slots[lease.slot].sequence == lease.sequence
    &&& expected_generation is None || expected_generation == Some(lease.generation)
}

/// A frame that is still in the region.
pub struct FrameView<'a> {
    metadata: FrameMetadata,
    payload: &'a [u8],
}

impl<'a> FrameView<'a> {
    /// What is known about the frame.
    pub closed spec fn described(self) -> MetadataView {
        self.metadata@
    }

    /// The bytes of the frame.
    pub closed spec fn content(self) -> Seq<u8> {
        self.payload@
    }

    /// What is known about the frame.
    pub fn metadata(&self) -> (metadata: &FrameMetadata)
        ensures
            metadata@ == self.described(),
    {
        &self.metadata
    }

    /// The bytes of the frame.
    pub fn payload(&self) -> (payload: &[u8])
        ensures
            payload@ == self.content(),
    {
        self.payload
    }
}

/// A frame that was copied out of the region.
pub struct CopiedFrame {
    metadata: FrameMetadata,
    payload: Vec<u8>,
}

impl CopiedFrame {
    /// What is known about the frame.
    pub closed spec fn described(self) -> MetadataView {
        self.metadata@
    }

    /// The bytes of the frame.
    pub closed spec fn content(self) -> Seq<u8> {
        self.payload@
    }

    /// What is known about the frame.
    pub fn metadata(&self) -> (metadata: &FrameMetadata)
        ensures
            metadata@ == self.described(),
    {
        &self.metadata
    }

    /// The bytes of the frame.
    pub fn payload(&self) -> (payload: &[u8])
        ensures
            payload@ == self.content(),
    {
        self.payload.as_slice()
    }
}

/// Reads the metadata that a slot stores.
fn read_metadata(
    limits: &CameraLimits,
    config: &RingConfig,
    region: &[u8],
    index: usize,
) -> (result: HalResult<FrameMetadata>)
    requires
        index < config@.slot_count,
        region.len() >= config@.total_length(),
    ensures
        ({
            let slot = slots::ring_of(config@, region@).slots[index as int];
            match result {
                Ok(metadata) => {
                    &&& slot_refusal(*limits, config@, slot) is None
                    &&& metadata@ == stored_metadata(config@, slot)
                },
                Err(error) => slot_refusal(*limits, config@, slot) == Some(error@),
            }
        }),
{
    config.facts();
    let base: usize = config.slot_base(index);
    let ghost slot = slots::ring_of(config@, region@).slots[index as int];
    let sequence: u64 = load_field(config, region, index, SlotField::Sequence);
    let generation: u64 = load_field(config, region, index, SlotField::Generation);
    let timestamp: u64 = load_field(config, region, index, SlotField::Timestamp);
    let dropped: u64 = load_field(config, region, index, SlotField::Dropped);
    let payload_length: u64 = load_field(config, region, index, SlotField::PayloadLength);
    let plane_count: u64 = load_field(config, region, index, SlotField::PlaneCount);
    if payload_length > config.payload_capacity() as u64 || plane_count > MAX_PLANES as u64 {
        return Err(
            invalid(
                "shared_memory.read",
                "slot payload or plane count exceeds the validated layout",
            ),
        );
    }
    let count: usize = plane_count as usize;
    let mut planes: Vec<PlaneLayout> = Vec::new();
    let mut position: usize = 0;
    while position < count
        invariant
            position <= count <= MAX_PLANES,
            count == slot.plane_count,
            slot == slots::ring_of(config@, region@).slots[index as int],
            index < config@.slot_count,
            base == config@.slot_base(index as int),
            base + SLOT_HEADER_BYTES <= region.len(),
            base + SLOT_HEADER_BYTES <= layout::MAX_MAPPING_BYTES,
            slot.payload_length <= config@.payload_capacity,
            planes@.len() == position,
            forall|k: int| 0 <= k < position ==> #[trigger] planes@[k]@ == slot.planes[k],
            stored_plane_refusal(slot.planes, position as int) is None,
        decreases count - position,
    {
        let offset: usize = base + SLOT_PLANES + position * PLANE_BYTES;
        let ghost stored = slot.planes[position as int];
        proof {
            assert(stored == slots::plane_at(region@, offset as int));
        }
        let plane = PlaneLayout::new(
            read_u32(region, offset) as usize,
            read_u32(region, offset + 4) as usize,
            read_u32(region, offset + 8) as usize,
        );
        match plane {
            Ok(plane) => {
                planes.push(plane);
            },
            Err(error) => {
                proof {
                    lemma_refusal_kept(slot.planes, position as int + 1, count as int);
                }
                return Err(error);
            },
        }
        position += 1;
    }
    let format = config.format();
    let pixel_format = PixelFormat::from(format.pixel_format);
    proof {
        assert(layout::plane_views(planes@) =~= slot.planes.take(slot.plane_count as int));
    }
    validate_planes(
        pixel_format,
        format.width,
        format.height,
        &planes,
        payload_length as usize,
    )?;
    FrameMetadata::new(
        limits,
        pixel_format,
        format.width,
        format.height,
        sequence,
        generation,
        timestamp,
        dropped,
        planes,
    )
}

/// A plane that is none stays the first reason for a larger count.
proof fn lemma_refusal_kept(planes: Seq<PlaneView>, from: int, to: int)
    requires
        0 <= from <= to,
        stored_plane_refusal(planes, from) is Some,
    ensures
        stored_plane_refusal(planes, to) == stored_plane_refusal(planes, from),
    decreases to - from,
{
    if from < to {
        lemma_refusal_kept(planes, from, to - 1);
    }
}

/// Reads the frame of a slot.
fn read_slot<'a>(
    limits: &CameraLimits,
    config: &RingConfig,
    region: &'a [u8],
    index: usize,
) -> (result: HalResult<FrameView<'a>>)
    requires
        index < config@.slot_count,
        region.len() >= config@.total_length(),
    ensures
        ({
            let slot = slots::ring_of(config@, region@).slots[index as int];
            match result {
                Ok(frame) => {
                    &&& slot_refusal(*limits, config@, slot) is None
                    &&& frame.described() == stored_metadata(config@, slot)
                    &&& frame.content() == slot.payload.take(slot.payload_length as int)
                },
                Err(error) => slot_refusal(*limits, config@, slot) == Some(error@),
            }
        }),
{
    config.facts();
    let metadata = read_metadata(limits, config, region, index)?;
    let base: usize = config.slot_base(index);
    let length: usize = load_field(config, region, index, SlotField::PayloadLength) as usize;
    let start: usize = base + SLOT_HEADER_BYTES;
    let payload = slice_subrange(region, start, start + length);
    proof {
        let slot = slots::ring_of(config@, region@).slots[index as int];
        assert(payload@ =~= slot.payload.take(length as int));
    }
    Ok(FrameView { metadata, payload })
}

/// A reader of a mapping.
pub struct ReadOnlyMapping {
    limits: CameraLimits,
    header: ValidatedHeader,
    expected_generation: Option<u64>,
}

impl ReadOnlyMapping {
    /// The geometry of the ring.
    pub closed spec fn geometry(self) -> RingGeometry {
        self.header.geometry()
    }

    /// The session identity of the mapping.
    pub closed spec fn session(self) -> Seq<u8> {
        self.header.session()
    }

    /// The public bounds.
    pub closed spec fn bounds(self) -> CameraLimits {
        self.limits
    }

    /// The only generation that the reader takes, if there is such a restriction.
    pub closed spec fn expected(self) -> Option<u64> {
        self.expected_generation
    }

    /// Opens a region whose header describes the mapping. A closed mapping cannot be opened.
    pub fn open(
        limits: CameraLimits,
        region: &[u8],
        descriptor: &MappingDescriptor,
    ) -> (result: HalResult<ReadOnlyMapping>)
        requires
            region.len() >= HEADER_BYTES,
        ensures
            ({
                let checked = header::checked_header(
                    limits,
                    header::header_of(region@.subrange(0, HEADER_DROPPED_COUNT as int)),
                    region.len() as int,
                    descriptor@,
                );
                let closed = crate::shared_memory::bytes::u64_at(region@, HEADER_CLOSED as int);
                match result {
                    Ok(reader) => {
                        &&& closed == 0
                        &&& checked == Ok::<RingGeometry, HalErrorView>(reader.geometry())
                        &&& reader.session() == descriptor@.identity
                        &&& region.len() >= reader.geometry().total_length()
                        &&& reader.bounds() == limits
                        &&& reader.expected() is None
                    },
                    Err(error) => if closed != 0 {
                        error@ == layout::unavailable_error(
                            "shared_memory.open"@,
                            "shared-memory mapping is closed"@,
                        )
                    } else {
                        checked == Err::<RingGeometry, HalErrorView>(error@)
                    },
                }
            }),
    {
        if read_u64(region, HEADER_CLOSED) != 0 {
            return Err(
                unavailable("shared_memory.open", "shared-memory mapping is closed".to_owned()),
            );
        }
        let header = validate_header(&limits, region, descriptor)?;
        Ok(ReadOnlyMapping { limits, header, expected_generation: None })
    }

    /// The header that was found to describe the mapping.
    pub fn header(&self) -> (header: &ValidatedHeader)
        ensures
            header.geometry() == self.geometry(),
            header.session() == self.session(),
    {
        &self.header
    }

    /// Takes frames of one generation only.
    pub fn expect_generation(&mut self, generation: u64)
        ensures
            final(self).expected() == Some(generation),
            final(self).geometry() == old(self).geometry(),
            final(self).session() == old(self).session(),
            final(self).bounds() == old(self).bounds(),
    {
        self.expected_generation = Some(generation);
    }

    /// Whether a lease still stands in the region.
    pub fn lease_is_current(&self, region: &[u8], lease: FrameLease) -> (current: bool)
        requires
            region.len() >= self.geometry().total_length(),
            region.len() >= HEADER_BYTES,
        ensures
            current == lease_stands(
                self.geometry(),
                slots::ring_of(self.geometry(), region@),
                self.expected(),
                lease@,
            ),
    {
        let config = self.header.config();
        if read_u64(region, HEADER_CLOSED) != 0 {
            return false;
        }
        if lease.slot_index() >= config.slot_count() {
            return false;
        }
        let index: usize = lease.slot_index();
        if load_field(config, region, index, SlotField::State) != SlotState::Pinned.raw() {
            return false;
        }
        let generation: u64 = load_field(config, region, index, SlotField::Generation);
        let wanted = match self.expected_generation {
            Some(expected) => expected == generation,
            None => true,
        };
        wanted && generation == lease.generation() && load_field(
            config,
            region,
            index,
            SlotField::Sequence,
        ) == lease.sequence()
    }

    /// The frame of a lease, in place. There is none where the lease no longer stands.
    pub fn read<'a>(&self, region: &'a [u8], lease: FrameLease) -> (result: HalResult<
        Option<FrameView<'a>>,
    >)
        requires
            region.len() >= self.geometry().total_length(),
            region.len() >= HEADER_BYTES,
        ensures
            ({
                let ring = slots::ring_of(self.geometry(), region@);
                let slot = ring.slots[lease@.slot];
                let stands = lease_stands(self.geometry(), ring, self.expected(), lease@);
                match result {
                    Ok(Some(frame)) => {
                        &&& stands
                        &&& slot_refusal(self.bounds(), self.geometry(), slot) is None
                        &&& frame.described() == stored_metadata(self.geometry(), slot)
                        &&& frame.content() == slot.payload.take(slot.payload_length as int)
                    },
                    Ok(None) => !stands,
                    Err(error) => {
                        &&& stands
                        &&& slot_refusal(self.bounds(), self.geometry(), slot) == Some(error@)
                    },
                }
            }),
    {
        if !self.lease_is_current(region, lease) {
            return Ok(None);
        }
        match read_slot(&self.limits, self.header.config(), region, lease.slot_index()) {
            Ok(frame) => Ok(Some(frame)),
            Err(error) => Err(error),
        }
    }

    /// The frame of a lease, copied. There is none where the lease no longer stands.
    pub fn copy(&self, region: &[u8], lease: FrameLease) -> (result: HalResult<
        Option<CopiedFrame>,
    >)
        requires
            region.len() >= self.geometry().total_length(),
            region.len() >= HEADER_BYTES,
        ensures
            ({
                let ring = slots::ring_of(self.geometry(), region@);
                let slot = ring.slots[lease@.slot];
                let stands = lease_stands(self.geometry(), ring, self.expected(), lease@);
                match result {
                    Ok(Some(frame)) => {
                        &&& stands
                        &&& slot_refusal(self.bounds(), self.geometry(), slot) is None
                        &&& frame.described() == stored_metadata(self.geometry(), slot)
                        &&& frame.content() == slot.payload.take(slot.payload_length as int)
                    },
                    Ok(None) => !stands,
                    Err(error) => {
                        &&& stands
                        &&& slot_refusal(self.bounds(), self.geometry(), slot) == Some(error@)
                    },
                }
            }),
    {
        match self.read(region, lease)? {
            Some(frame) => Ok(
                Some(
                    CopiedFrame { payload: slice_to_vec(frame.payload), metadata: frame.metadata },
                ),
            ),
            None => Ok(None),
        }
    }
}

impl BrokerMapping {
    /// Releases the previous pin, pins the newest complete frame and gives it in place.
    pub fn acquire<'a>(&mut self, region: &'a mut [u8]) -> (result: HalResult<
        Option<FrameView<'a>>,
    >)
        requires
            old(region).len() == old(self).geometry().total_length(),
        ensures
            final(region).len() == old(region).len(),
            final(self).geometry() == old(self).geometry(),
            final(self).bounds() == old(self).bounds(),
            final(self).mapping() == old(self).mapping(),
            final(self).is_closed() == old(self).is_closed(),
            ({
                let released = ring::ring_without_pin(
                    old(self).ring(old(region)@),
                    old(self).pin(),
                );
                match ring::newest_slot(released.slots) {
                    Some(index) => {
                        let slot = SlotView {
                            state: SlotState::Pinned.code(),
                            ..released.slots[index]
                        };
                        &&& final(self).pin() == Some(ring::lease_on(released, index))
                        &&& final(self).ring(final(region)@) == slots::with_slot(
                            released,
                            index,
                            slot,
                        )
                        &&& match result {
                            Ok(Some(frame)) => {
                                &&& slot_refusal(
                                    old(self).bounds(),
                                    old(self).geometry(),
                                    slot,
                                ) is None
                                &&& frame.described() == stored_metadata(
                                    old(self).geometry(),
                                    slot,
                                )
                                &&& frame.content() == slot.payload.take(
                                    slot.payload_length as int,
                                )
                            },
                            Ok(None) => false,
                            Err(error) => slot_refusal(
                                old(self).bounds(),
                                old(self).geometry(),
                                slot,
                            ) == Some(error@),
                        }
                    },
                    None => {
                        &&& final(self).pin() is None
                        &&& final(self).ring(final(region)@) == released
                        &&& result == Ok::<Option<FrameView<'a>>, crate::error::HalError>(None)
                    },
                }
            }),
    {
        match self.next_frame_lease(region)? {
            None => Ok(None),
            Some(lease) => match read_slot(
                self.limits(),
                self.config(),
                region,
                lease.slot_index(),
            ) {
                Ok(frame) => Ok(Some(frame)),
                Err(error) => Err(error),
            },
        }
    }
}

} // verus!
