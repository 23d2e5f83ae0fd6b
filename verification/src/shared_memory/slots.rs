//! The slots of a region as mathematical values, and the writes that change them.

use vstd::bytes::*;
use vstd::prelude::*;

use crate::shared_memory::bytes;
use crate::shared_memory::bytes::{write_bytes, write_u32, write_u64};
use crate::shared_memory::config;
use crate::shared_memory::config::{RingConfig, RingGeometry};
use crate::shared_memory::layout;
use crate::shared_memory::layout::{
    FrameMetadata, MetadataView, PlaneLayout, PlaneView, SlotState, HEADER_BYTES, MAX_PLANES, SLOT_HEADER_BYTES,
};

verus! {

pub const HEADER_DROPPED_COUNT: usize = 128;

pub const HEADER_CLOSED: usize = 136;

pub const SLOT_STATE: usize = 0;

pub const SLOT_SEQUENCE: usize = 8;

pub const SLOT_GENERATION: usize = 16;

pub const SLOT_TIMESTAMP: usize = 24;

pub const SLOT_DROPPED: usize = 32;

pub const SLOT_PAYLOAD_LENGTH: usize = 40;

pub const SLOT_PLANE_COUNT: usize = 48;

pub const SLOT_PLANES: usize = 56;

pub const PLANE_BYTES: usize = 12;

/// One slot: its header fields and the bytes of its payload area.
#[verifier::ext_equal]
pub struct SlotView {
    pub state: u64,
    pub sequence: u64,
    pub generation: u64,
    pub timestamp: u64,
    pub dropped: u64,
    pub payload_length: u64,
    pub plane_count: u64,
    pub planes: Seq<PlaneView>,
    pub payload: Seq<u8>,
}

/// A region: the bytes of its header that never change, the count of dropped frames, the mark of
/// a closed mapping and the slots.
#[verifier::ext_equal]
pub struct RingView {
    pub header: Seq<u8>,
    pub dropped: u64,
    pub closed: u64,
    pub slots: Seq<SlotView>,
}

/// The plane at `offset`.
pub open spec fn plane_at(region: Seq<u8>, offset: int) -> PlaneView {
    PlaneView {
        offset: bytes::u32_at(region, offset),
        length: bytes::u32_at(region, offset + 4),
        stride: bytes::u32_at(region, offset + 8),
    }
}

/// The slot that starts at `base`.
pub open spec fn slot_from(region: Seq<u8>, base: int, capacity: int) -> SlotView {
    SlotView {
        state: bytes::u64_at(region, base + SLOT_STATE),
        sequence: bytes::u64_at(region, base + SLOT_SEQUENCE),
        generation: bytes::u64_at(region, base + SLOT_GENERATION),
        timestamp: bytes::u64_at(region, base + SLOT_TIMESTAMP),
        dropped: bytes::u64_at(region, base + SLOT_DROPPED),
        payload_length: bytes::u64_at(region, base + SLOT_PAYLOAD_LENGTH),
        plane_count: bytes::u64_at(region, base + SLOT_PLANE_COUNT),
        planes: Seq::new(
            MAX_PLANES as nat,
            |k: int| plane_at(region, base + SLOT_PLANES + k * PLANE_BYTES),
        ),
        payload: region.subrange(
            base + SLOT_HEADER_BYTES,
            base + SLOT_HEADER_BYTES + capacity,
        ),
    }
}

/// The slot with the given index.
pub open spec fn slot_at(geometry: RingGeometry, region: Seq<u8>, index: int) -> SlotView {
    slot_from(region, geometry.slot_base(index), geometry.payload_capacity)
}

/// What a region holds.
pub open spec fn ring_of(geometry: RingGeometry, region: Seq<u8>) -> RingView {
    RingView {
        header: region.subrange(0, HEADER_DROPPED_COUNT as int),
        dropped: bytes::u64_at(region, HEADER_DROPPED_COUNT as int),
        closed: bytes::u64_at(region, HEADER_CLOSED as int),
        slots: Seq::new(geometry.slot_count as nat, |i: int| slot_at(geometry, region, i)),
    }
}

/// A write leaves the fields that it does not touch.
pub proof fn lemma_patch_fields(region: Seq<u8>, offset: int, written: Seq<u8>)
    requires
        0 <= offset,
        offset + written.len() <= region.len(),
    ensures
        forall|o: int|
            0 <= o && o + 8 <= region.len() && (o + 8 <= offset || offset + written.len() <= o)
                ==> #[trigger] bytes::u64_at(bytes::patched(region, offset, written), o)
                == bytes::u64_at(region, o),
        forall|o: int|
            0 <= o && o + 4 <= region.len() && (o + 4 <= offset || offset + written.len() <= o)
                ==> #[trigger] bytes::u32_at(bytes::patched(region, offset, written), o)
                == bytes::u32_at(region, o),
        forall|o: int|
            0 <= o && o + 2 <= region.len() && (o + 2 <= offset || offset + written.len() <= o)
                ==> #[trigger] bytes::u16_at(bytes::patched(region, offset, written), o)
                == bytes::u16_at(region, o),
        forall|from: int, to: int|
            0 <= from <= to <= region.len() && (to <= offset || offset + written.len() <= from)
                ==> #[trigger] bytes::patched(region, offset, written).subrange(from, to)
                == region.subrange(from, to),
{
    assert forall|o: int|
        0 <= o && o + 8 <= region.len() && (o + 8 <= offset || offset + written.len()
            <= o) implies #[trigger] bytes::u64_at(bytes::patched(region, offset, written), o)
        == bytes::u64_at(region, o) by {
        bytes::lemma_patch_elsewhere(region, offset, written, o, o + 8);
    }
    assert forall|o: int|
        0 <= o && o + 4 <= region.len() && (o + 4 <= offset || offset + written.len()
            <= o) implies #[trigger] bytes::u32_at(bytes::patched(region, offset, written), o)
        == bytes::u32_at(region, o) by {
        bytes::lemma_patch_elsewhere(region, offset, written, o, o + 4);
    }
    assert forall|o: int|
        0 <= o && o + 2 <= region.len() && (o + 2 <= offset || offset + written.len()
            <= o) implies #[trigger] bytes::u16_at(bytes::patched(region, offset, written), o)
        == bytes::u16_at(region, o) by {
        bytes::lemma_patch_elsewhere(region, offset, written, o, o + 2);
    }
    assert forall|from: int, to: int|
        0 <= from <= to <= region.len() && (to <= offset || offset + written.len()
            <= from) implies #[trigger] bytes::patched(region, offset, written).subrange(from, to)
        == region.subrange(from, to) by {
        bytes::lemma_patch_elsewhere(region, offset, written, from, to);
    }
}

/// A 64-bit field that was written is read back.
pub proof fn lemma_patch_u64(region: Seq<u8>, offset: int, value: u64)
    requires
        0 <= offset,
        offset + 8 <= region.len(),
    ensures
        bytes::u64_at(bytes::patched(region, offset, spec_u64_to_le_bytes(value)), offset)
            == value,
{
    lemma_auto_spec_u64_to_from_le_bytes();
    bytes::lemma_patch_here(region, offset, spec_u64_to_le_bytes(value));
}

/// The bytes of a plane in a slot header.
pub open spec fn plane_bytes(plane: PlaneView) -> Seq<u8> {
    spec_u32_to_le_bytes(plane.offset) + spec_u32_to_le_bytes(plane.length)
        + spec_u32_to_le_bytes(plane.stride)
}

/// A plane that was written is read back.
pub proof fn lemma_patch_plane(region: Seq<u8>, offset: int, plane: PlaneView)
    requires
        0 <= offset,
        offset + PLANE_BYTES <= region.len(),
    ensures
        plane_bytes(plane).len() == PLANE_BYTES,
        plane_at(bytes::patched(region, offset, plane_bytes(plane)), offset) == plane,
{
    lemma_auto_spec_u32_to_from_le_bytes();
    let a = spec_u32_to_le_bytes(plane.offset);
    let b = spec_u32_to_le_bytes(plane.length);
    let c = spec_u32_to_le_bytes(plane.stride);
    assert(a.len() == 4 && b.len() == 4 && c.len() == 4);
    let after = bytes::patched(region, offset, plane_bytes(plane));
    assert(after.subrange(offset, offset + 4) =~= a);
    assert(after.subrange(offset + 4, offset + 8) =~= b);
    assert(after.subrange(offset + 8, offset + 12) =~= c);
}

/// A write inside one slot leaves the header and the other slots.
pub proof fn lemma_patch_in_slot(
    geometry: RingGeometry,
    region: Seq<u8>,
    index: int,
    offset: int,
    written: Seq<u8>,
)
    requires
        0 <= index < geometry.slot_count,
        geometry.payload_capacity >= 0,
        region.len() == geometry.total_length(),
        geometry.slot_base(index) <= offset,
        offset + written.len() <= geometry.slot_base(index) + geometry.slot_stride(),
    ensures
        ring_of(geometry, bytes::patched(region, offset, written)) == (RingView {
            slots: ring_of(geometry, region).slots.update(
                index,
                slot_at(geometry, bytes::patched(region, offset, written), index),
            ),
            ..ring_of(geometry, region)
        }),
{
    let after = bytes::patched(region, offset, written);
    config::lemma_slot_range(geometry, index);
    lemma_patch_fields(region, offset, written);
    assert forall|j: int| 0 <= j < geometry.slot_count && j != index implies slot_at(
        geometry,
        after,
        j,
    ) == slot_at(geometry, region, j) by {
        config::lemma_slot_range(geometry, j);
        if j < index {
            config::lemma_slots_disjoint(geometry, j, index);
        } else {
            config::lemma_slots_disjoint(geometry, index, j);
        }
        let base = geometry.slot_base(j);
        assert(slot_at(geometry, after, j).planes =~= slot_at(geometry, region, j).planes);
    }
    assert(ring_of(geometry, after).slots =~= ring_of(geometry, region).slots.update(
        index,
        slot_at(geometry, after, index),
    ));
    assert(ring_of(geometry, after).header =~= ring_of(geometry, region).header);
}

/// A write of the dropped-frames count leaves everything else.
pub proof fn lemma_patch_header_field(
    geometry: RingGeometry,
    region: Seq<u8>,
    offset: int,
    value: u64,
)
    requires
        geometry.payload_capacity >= 0,
        geometry.slot_count >= 0,
        region.len() == geometry.total_length(),
        offset == HEADER_DROPPED_COUNT || offset == HEADER_CLOSED,
        HEADER_BYTES <= region.len(),
    ensures
        ring_of(geometry, bytes::patched(region, offset, spec_u64_to_le_bytes(value))) == (
        if offset == HEADER_DROPPED_COUNT {
            RingView { dropped: value, ..ring_of(geometry, region) }
        } else {
            RingView { closed: value, ..ring_of(geometry, region) }
        }),
{
    let written = spec_u64_to_le_bytes(value);
    let after = bytes::patched(region, offset, written);
    lemma_auto_spec_u64_to_from_le_bytes();
    assert(written.len() == 8);
    lemma_patch_fields(region, offset, written);
    lemma_patch_u64(region, offset, value);
    assert forall|j: int| 0 <= j < geometry.slot_count implies slot_at(geometry, after, j)
        == slot_at(geometry, region, j) by {
        config::lemma_slot_range(geometry, j);
        assert(slot_at(geometry, after, j).planes =~= slot_at(geometry, region, j).planes);
    }
    assert(ring_of(geometry, after).slots =~= ring_of(geometry, region).slots);
    assert(ring_of(geometry, after).header =~= ring_of(geometry, region).header);
}

/// A 64-bit field of a slot header.
#[derive(Clone, Copy, Debug, PartialEq, Eq, Structural)]
pub enum SlotField {
    State,
    Sequence,
    Generation,
    Timestamp,
    Dropped,
    PayloadLength,
    PlaneCount,
}

impl SlotField {
    /// Where the field stands in the slot.
    pub open spec fn at(self) -> int {
        match self {
            SlotField::State => SLOT_STATE as int,
            SlotField::Sequence => SLOT_SEQUENCE as int,
            SlotField::Generation => SLOT_GENERATION as int,
            SlotField::Timestamp => SLOT_TIMESTAMP as int,
            SlotField::Dropped => SLOT_DROPPED as int,
            SlotField::PayloadLength => SLOT_PAYLOAD_LENGTH as int,
            SlotField::PlaneCount => SLOT_PLANE_COUNT as int,
        }
    }

    /// The value of the field.
    pub open spec fn of(self, slot: SlotView) -> u64 {
        match self {
            SlotField::State => slot.state,
            SlotField::Sequence => slot.sequence,
            SlotField::Generation => slot.generation,
            SlotField::Timestamp => slot.timestamp,
            SlotField::Dropped => slot.dropped,
            SlotField::PayloadLength => slot.payload_length,
            SlotField::PlaneCount => slot.plane_count,
        }
    }

    /// The slot with another value of the field.
    pub open spec fn set(self, slot: SlotView, value: u64) -> SlotView {
        match self {
            SlotField::State => SlotView { state: value, ..slot },
            SlotField::Sequence => SlotView { sequence: value, ..slot },
            SlotField::Generation => SlotView { generation: value, ..slot },
            SlotField::Timestamp => SlotView { timestamp: value, ..slot },
            SlotField::Dropped => SlotView { dropped: value, ..slot },
            SlotField::PayloadLength => SlotView { payload_length: value, ..slot },
            SlotField::PlaneCount => SlotView { plane_count: value, ..slot },
        }
    }

    fn offset(self) -> (offset: usize)
        ensures
            offset == self.at(),
            offset <= SLOT_PLANE_COUNT,
    {
        match self {
            SlotField::State => SLOT_STATE,
            SlotField::Sequence => SLOT_SEQUENCE,
            SlotField::Generation => SLOT_GENERATION,
            SlotField::Timestamp => SLOT_TIMESTAMP,
            SlotField::Dropped => SLOT_DROPPED,
            SlotField::PayloadLength => SLOT_PAYLOAD_LENGTH,
            SlotField::PlaneCount => SLOT_PLANE_COUNT,
        }
    }
}

/// The ring with another slot at `index`.
pub open spec fn with_slot(ring: RingView, index: int, slot: SlotView) -> RingView {
    RingView { slots: ring.slots.update(index, slot), ..ring }
}

/// Reads a field of a slot header.
pub fn load_field(config: &RingConfig, region: &[u8], index: usize, field: SlotField) -> (value:
    u64)
    requires
        index < config@.slot_count,
        region.len() >= config@.total_length(),
    ensures
        value == field.of(ring_of(config@, region@).slots[index as int]),
{
    config.facts();
    let base: usize = config.slot_base(index);
    bytes::read_u64(region, base + field.offset())
}

/// Writes a field of a slot header.
pub fn store_field(
    config: &RingConfig,
    region: &mut [u8],
    index: usize,
    field: SlotField,
    value: u64,
)
    requires
        index < config@.slot_count,
        old(region).len() == config@.total_length(),
    ensures
        final(region).len() == old(region).len(),
        ring_of(config@, final(region)@) == ({
            let before = ring_of(config@, old(region)@);
            with_slot(before, index as int, field.set(before.slots[index as int], value))
        }),
{
    config.facts();
    let base: usize = config.slot_base(index);
    let offset: usize = base + field.offset();
    let ghost before = region@;
    write_u64(region, offset, value);
    proof {
        lemma_auto_spec_u64_to_from_le_bytes();
        let written = spec_u64_to_le_bytes(value);
        assert(written.len() == 8);
        lemma_patch_fields(before, offset as int, written);
        lemma_patch_u64(before, offset as int, value);
        lemma_patch_in_slot(config@, before, index as int, offset as int, written);
        let old_slot = slot_at(config@, before, index as int);
        let new_slot = slot_at(config@, region@, index as int);
        assert(new_slot.planes =~= old_slot.planes);
        assert(new_slot =~= field.set(old_slot, value));
    }
}

/// Writes a plane of a slot header.
fn store_plane(
    config: &RingConfig,
    region: &mut [u8],
    index: usize,
    position: usize,
    plane: PlaneLayout,
)
    requires
        index < config@.slot_count,
        position < MAX_PLANES,
        old(region).len() == config@.total_length(),
    ensures
        final(region).len() == old(region).len(),
        ring_of(config@, final(region)@) == ({
            let before = ring_of(config@, old(region)@);
            let slot = before.slots[index as int];
            with_slot(
                before,
                index as int,
                SlotView { planes: slot.planes.update(position as int, plane@), ..slot },
            )
        }),
{
    config.facts();
    let base: usize = config.slot_base(index);
    let offset: usize = base + SLOT_PLANES + position * PLANE_BYTES;
    let ghost before = region@;
    write_u32(region, offset, plane.offset() as u32);
    write_u32(region, offset + 4, plane.length() as u32);
    write_u32(region, offset + 8, plane.stride() as u32);
    proof {
        lemma_auto_spec_u32_to_from_le_bytes();
        let a = spec_u32_to_le_bytes(plane@.offset);
        let b = spec_u32_to_le_bytes(plane@.length);
        let c = spec_u32_to_le_bytes(plane@.stride);
        assert(a.len() == 4 && b.len() == 4 && c.len() == 4);
        let written = plane_bytes(plane@);
        assert(region@ =~= bytes::patched(before, offset as int, written));
        lemma_patch_plane(before, offset as int, plane@);
        lemma_patch_fields(before, offset as int, written);
        lemma_patch_in_slot(config@, before, index as int, offset as int, written);
        let old_slot = slot_at(config@, before, index as int);
        let new_slot = slot_at(config@, region@, index as int);
        assert(new_slot.planes =~= old_slot.planes.update(position as int, plane@));
        assert(new_slot =~= (SlotView {
            planes: old_slot.planes.update(position as int, plane@),
            ..old_slot
        }));
    }
}

/// Writes the first bytes of a slot's payload area.
fn store_payload(config: &RingConfig, region: &mut [u8], index: usize, payload: &[u8])
    requires
        index < config@.slot_count,
        payload.len() <= config@.payload_capacity,
        old(region).len() == config@.total_length(),
    ensures
        final(region).len() == old(region).len(),
        ring_of(config@, final(region)@) == ({
            let before = ring_of(config@, old(region)@);
            let slot = before.slots[index as int];
            with_slot(
                before,
                index as int,
                SlotView { payload: bytes::patched(slot.payload, 0, payload@), ..slot },
            )
        }),
{
    config.facts();
    let base: usize = config.slot_base(index);
    let offset: usize = base + SLOT_HEADER_BYTES;
    let ghost before = region@;
    write_bytes(region, offset, payload);
    proof {
        lemma_patch_fields(before, offset as int, payload@);
        lemma_patch_in_slot(config@, before, index as int, offset as int, payload@);
        let old_slot = slot_at(config@, before, index as int);
        let new_slot = slot_at(config@, region@, index as int);
        assert(new_slot.planes =~= old_slot.planes);
        assert(new_slot.payload =~= bytes::patched(old_slot.payload, 0, payload@));
        assert(new_slot =~= (SlotView {
            payload: bytes::patched(old_slot.payload, 0, payload@),
            ..old_slot
        }));
    }
}

/// The count after one more, starting over behind the largest.
pub open spec fn next_count(count: u64) -> u64 {
    if count == u64::MAX {
        0
    } else {
        (count + 1) as u64
    }
}

spec fn plane_views_len(planes: Seq<PlaneLayout>) -> bool {
    layout::plane_views(planes).len() == planes.len()
}

/// What a slot holds once a frame has been written to it.
pub open spec fn written_slot(
    before: SlotView,
    metadata: MetadataView,
    dropped: u64,
    payload: Seq<u8>,
) -> SlotView {
    SlotView {
        state: SlotState::Ready.code(),
        sequence: metadata.sequence,
        generation: metadata.generation,
        timestamp: metadata.monotonic_timestamp_ns,
        dropped,
        payload_length: payload.len() as u64,
        plane_count: metadata.planes.len() as u64,
        planes: Seq::new(
            MAX_PLANES as nat,
            |k: int|
                if k < metadata.planes.len() {
                    metadata.planes[k]
                } else {
                    before.planes[k]
                },
        ),
        payload: bytes::patched(before.payload, 0, payload),
    }
}

/// Writes a frame to a slot: first its state shows that it is being written, at last that it is
/// ready.
pub fn store_frame(
    config: &RingConfig,
    region: &mut [u8],
    index: usize,
    metadata: &FrameMetadata,
    dropped: u64,
    payload: &[u8],
)
    requires
        index < config@.slot_count,
        old(region).len() == config@.total_length(),
        payload.len() <= config@.payload_capacity,
        1 <= metadata@.planes.len() <= 2,
    ensures
        final(region).len() == old(region).len(),
        ring_of(config@, final(region)@) == ({
            let before = ring_of(config@, old(region)@);
            with_slot(
                before,
                index as int,
                written_slot(before.slots[index as int], metadata@, dropped, payload@),
            )
        }),
{
    let ghost before = ring_of(config@, region@);
    let planes = metadata.planes();
    proof {
        assert(plane_views_len(planes@));
    }
    store_field(config, region, index, SlotField::State, SlotState::Writing.raw());
    store_field(config, region, index, SlotField::Generation, metadata.generation());
    store_field(config, region, index, SlotField::Timestamp, metadata.monotonic_timestamp_ns());
    store_field(config, region, index, SlotField::Dropped, dropped);
    store_field(config, region, index, SlotField::PayloadLength, payload.len() as u64);
    store_field(config, region, index, SlotField::PlaneCount, planes.len() as u64);
    store_plane(config, region, index, 0, planes[0]);
    if planes.len() == 2 {
        store_plane(config, region, index, 1, planes[1]);
    }
    store_payload(config, region, index, payload);
    store_field(config, region, index, SlotField::Sequence, metadata.sequence());
    store_field(config, region, index, SlotField::State, SlotState::Ready.raw());
    proof {
        let i = index as int;
        let expected = written_slot(before.slots[i], metadata@, dropped, payload@);
        let after = ring_of(config@, region@);
        assert(after.slots[i].planes =~= expected.planes);
        assert(after.slots[i] =~= expected);
        assert(after.slots =~= before.slots.update(i, expected));
    }
}

/// Counts one more dropped frame and gives the new count.
pub fn count_dropped(config: &RingConfig, region: &mut [u8]) -> (count: u64)
    requires
        old(region).len() == config@.total_length(),
        old(region).len() >= HEADER_BYTES,
    ensures
        final(region).len() == old(region).len(),
        count == next_count(ring_of(config@, old(region)@).dropped),
        ring_of(config@, final(region)@) == (RingView {
            dropped: count,
            ..ring_of(config@, old(region)@)
        }),
{
    config.facts();
    let ghost before = region@;
    let count: u64 = bytes::read_u64(region, HEADER_DROPPED_COUNT).wrapping_add(1);
    write_u64(region, HEADER_DROPPED_COUNT, count);
    proof {
        lemma_patch_header_field(config@, before, HEADER_DROPPED_COUNT as int, count);
        lemma_auto_spec_u64_to_from_le_bytes();
    }
    count
}

} // verus!
