//! What holds of the ring as a whole.

use vstd::prelude::*;

use crate::camera::frame_format::{CameraFormat, CameraLimits, CameraPixelFormat};
use crate::error::{ErrorCategory, HalErrorView};
use crate::shared_memory::bytes;
use crate::shared_memory::config;
use crate::shared_memory::config::RingGeometry;
use crate::shared_memory::header;
use crate::shared_memory::header::HeaderView;
use crate::shared_memory::layout;
use crate::shared_memory::layout::{
    MetadataView, PixelFormat, PlaneView, SlotState, HEADER_BYTES, MAX_PLANES, SLOT_ALIGNMENT,
    SLOT_HEADER_BYTES,
};
use crate::shared_memory::mapping;
use crate::shared_memory::mapping::MappingView;
use crate::shared_memory::reader;
use crate::shared_memory::ring;
use crate::shared_memory::ring::LeaseView;
use crate::shared_memory::slots;
use crate::shared_memory::slots::{RingView, SlotView};

verus! {

/// The header that a broker writes is accepted by whoever holds the descriptor, and names the
/// broker's geometry.
pub proof fn law_written_header_is_accepted(
    limits: CameraLimits,
    geometry: RingGeometry,
    mapping: MappingView,
)
    requires
        geometry.refusal(limits) is None,
        geometry.slot_count >= 0,
        geometry.payload_capacity >= 0,
        mapping.total_length == geometry.total_length(),
    ensures
        header::checked_header(
            limits,
            header::header_for(geometry, mapping),
            geometry.total_length(),
            mapping,
        ) == Ok::<RingGeometry, HalErrorView>(geometry),
{
    layout::lemma_aligned(SLOT_HEADER_BYTES + geometry.payload_capacity, SLOT_ALIGNMENT as int);
    let stride = geometry.slot_stride();
    let count = geometry.slot_count;
    assert(count <= stride * count) by (nonlinear_arith)
        requires
            stride >= 1,
            count >= 0,
    ;
    if count > 0 {
        assert(stride <= stride * count) by (nonlinear_arith)
            requires
                stride >= 1,
                count >= 1,
        ;
    }
}

/// An accepted header describes a ring inside the mapping: every slot of it lies there, behind the
/// header.
pub proof fn law_accepted_ring_lies_in_the_mapping(
    limits: CameraLimits,
    header: HeaderView,
    mapped_length: int,
    mapping: MappingView,
    index: int,
)
    requires
        header::checked_header(limits, header, mapped_length, mapping) is Ok,
        0 <= index < header::checked_header(limits, header, mapped_length, mapping)->Ok_0.slot_count,
    ensures
        ({
            let geometry = header::checked_header(limits, header, mapped_length, mapping)->Ok_0;
            &&& geometry.total_length() <= mapped_length
            &&& HEADER_BYTES <= geometry.slot_base(index)
            &&& geometry.slot_base(index) + geometry.slot_stride() <= mapped_length
            &&& SLOT_HEADER_BYTES + geometry.payload_capacity <= geometry.slot_stride()
        }),
{
    let geometry = header::checked_header(limits, header, mapped_length, mapping)->Ok_0;
    config::lemma_slot_range(geometry, index);
}

/// A descriptor of another session, or with a capability of another hash, opens nothing.
pub proof fn law_foreign_descriptor_is_rejected(
    limits: CameraLimits,
    geometry: RingGeometry,
    mapping: MappingView,
    other: MappingView,
    mapped_length: int,
)
    requires
        other.identity != mapping.identity || mapping::sha256(other.token) != mapping::sha256(
            mapping.token,
        ),
    ensures
        header::checked_header(
            limits,
            header::header_for(geometry, mapping),
            mapped_length,
            other,
        ) is Err,
{
}

/// Planes that describe a frame lie inside the payload and share no byte.
pub proof fn law_valid_planes_are_disjoint(
    format: PixelFormat,
    width: u32,
    height: u32,
    planes: Seq<PlaneView>,
    payload_length: int,
    first: int,
    second: int,
    byte: int,
)
    requires
        layout::planes_refusal(format, width, height, planes, payload_length) is None,
        0 <= first < second < planes.len(),
        planes[first].offset <= byte < planes[first].end(),
    ensures
        0 <= byte < payload_length,
        !(planes[second].offset <= byte < planes[second].end()),
{
}

/// A published frame never touches a slot that is pinned or being written.
pub proof fn law_publish_spares_pinned_frames(
    before: RingView,
    metadata: MetadataView,
    payload: Seq<u8>,
    index: int,
)
    requires
        0 <= index < before.slots.len(),
        before.slots[index].state == SlotState::Pinned.code() || before.slots[index].state
            == SlotState::Writing.code(),
    ensures
        ring::ring_after_publish(before, metadata, payload).slots[index] == before.slots[index],
{
    if ring::writable_slot(before.slots) is Some {
        lemma_writable(before.slots);
    }
}

/// The slot for the next frame is free or ready.
proof fn lemma_writable(all: Seq<SlotView>)
    requires
        ring::writable_slot(all) is Some,
    ensures
        0 <= ring::writable_slot(all)->0 < all.len(),
        all[ring::writable_slot(all)->0].state == SlotState::Free.code()
            || all[ring::writable_slot(all)->0].state == SlotState::Ready.code(),
{
    if exists|i: int| ring::decisive(all, i) {
        let first = choose|i: int| ring::decisive(all, i);
        assert(ring::decisive(all, first));
    } else {
        let oldest = choose|i: int| ring::oldest_ready(all, i);
        assert(ring::oldest_ready(all, oldest));
    }
}

/// A published frame is dropped only where no slot is free; then one frame is counted, the new one
/// where every slot is in use, else the oldest ready one.
pub proof fn law_publish_counts_dropped_frames(
    before: RingView,
    metadata: MetadataView,
    payload: Seq<u8>,
)
    requires
        forall|i: int| 0 <= i < before.slots.len() ==> (#[trigger] before.slots[i]).state <= 3,
    ensures
        ({
            let free = exists|i: int|
                0 <= i < before.slots.len() && (#[trigger] before.slots[i]).state
                    == SlotState::Free.code();
            ring::ring_after_publish(before, metadata, payload).dropped == if free {
                before.dropped
            } else {
                slots::next_count(before.dropped)
            }
        }),
{
    let all = before.slots;
    if exists|i: int|
        0 <= i < all.len() && (#[trigger] all[i]).state == SlotState::Free.code() {
        let free = choose|i: int|
            0 <= i < all.len() && (#[trigger] all[i]).state == SlotState::Free.code();
        lemma_first_free(all, free);
        let first = choose|i: int| ring::decisive(all, i);
        assert(ring::decisive(all, first));
    } else {
        if ring::writable_slot(all) is Some {
            lemma_writable(all);
        }
    }
}

/// Where a slot is free and all states are known, the first free slot is decisive.
proof fn lemma_first_free(all: Seq<SlotView>, free: int)
    requires
        0 <= free < all.len(),
        all[free].state == SlotState::Free.code(),
        forall|i: int| 0 <= i < all.len() ==> (#[trigger] all[i]).state <= 3,
    ensures
        exists|i: int| ring::decisive(all, i),
    decreases free,
{
    if exists|j: int| 0 <= j < free && (#[trigger] all[j]).state == SlotState::Free.code() {
        let j = choose|j: int|
            0 <= j < free && (#[trigger] all[j]).state == SlotState::Free.code();
        lemma_first_free(all, j);
    } else {
        assert(ring::decisive(all, free));
    }
}

/// A frame that finds a free slot goes there and leaves every other slot as it is: where every slot is
/// in a known state, to the first free one. The slot then holds the frame, and nothing is lost.
pub proof fn law_free_slot_takes_the_frame(
    before: RingView,
    metadata: MetadataView,
    payload: Seq<u8>,
    free: int,
)
    requires
        forall|i: int| 0 <= i < before.slots.len() ==> (#[trigger] before.slots[i]).state <= 3,
        0 <= free < before.slots.len(),
        before.slots[free].state == 0,
        forall|j: int| 0 <= j < free ==> (#[trigger] before.slots[j]).state != 0,
        payload.len() <= u64::MAX,
        metadata.planes.len() <= u64::MAX,
        before.slots[free].planes.len() == MAX_PLANES,
        metadata.planes.len() <= MAX_PLANES,
        before.slots[free].payload.len() >= payload.len(),
    ensures
        ({
            let after = ring::ring_after_publish(before, metadata, payload);
            &&& after.slots.len() == before.slots.len()
            &&& after.dropped == before.dropped
            &&& after.closed == before.closed
            &&& forall|j: int|
                0 <= j < before.slots.len() && j != free ==> (#[trigger] after.slots[j])
                    == before.slots[j]
            &&& holds_frame(after.slots[free], metadata, payload)
            &&& after.slots[free].dropped == before.dropped
        }),
{
    assert(ring::decisive(before.slots, free));
    ring::lemma_choices_unique(
        before.slots,
        free,
        choose|i: int| ring::decisive(before.slots, i),
    );
}

/// A slot holds a complete frame: its number, generation, time, planes and bytes, in order.
pub open spec fn holds_frame(slot: SlotView, metadata: MetadataView, payload: Seq<u8>) -> bool {
    &&& slot.state == 2
    &&& slot.sequence == metadata.sequence
    &&& slot.generation == metadata.generation
    &&& slot.timestamp == metadata.monotonic_timestamp_ns
    &&& slot.payload_length == payload.len()
    &&& forall|i: int| 0 <= i < payload.len() ==> (#[trigger] slot.payload[i]) == payload[i]
    &&& slot.plane_count == metadata.planes.len()
    &&& forall|k: int|
        0 <= k < metadata.planes.len() ==> (#[trigger] slot.planes[k]) == metadata.planes[k]
}

/// Where every slot is in a known state and none is free, a published frame goes over the oldest
/// ready one: every ready frame with a higher number than another ready one stays as it is, and the
/// one frame that is lost has a number not above that of any ready frame. Where none is ready, every
/// slot stays as it is. Either way one more frame is counted as dropped.
pub proof fn law_oldest_ready_frame_is_lost(
    before: RingView,
    metadata: MetadataView,
    payload: Seq<u8>,
)
    requires
        forall|i: int|
            0 <= i < before.slots.len() ==> 1 <= (#[trigger] before.slots[i]).state <= 3,
        payload.len() <= u64::MAX,
        metadata.planes.len() <= MAX_PLANES,
        forall|i: int|
            0 <= i < before.slots.len() ==> (#[trigger] before.slots[i]).planes.len()
                == MAX_PLANES && before.slots[i].payload.len() >= payload.len(),
    ensures
        ({
            let after = ring::ring_after_publish(before, metadata, payload);
            &&& after.slots.len() == before.slots.len()
            &&& after.closed == before.closed
            &&& before.dropped < u64::MAX ==> after.dropped == before.dropped + 1
            &&& forall|i: int, j: int|
                #![trigger after.slots[i], before.slots[j]]
                0 <= i < before.slots.len() && 0 <= j < before.slots.len()
                    && before.slots[i].state == 2 && before.slots[j].state == 2
                    && before.slots[i].sequence > before.slots[j].sequence ==> after.slots[i]
                    == before.slots[i]
            &&& (forall|i: int|
                0 <= i < before.slots.len() ==> (#[trigger] before.slots[i]).state != 2)
                ==> after.slots == before.slots
            &&& (exists|i: int|
                0 <= i < before.slots.len() && (#[trigger] before.slots[i]).state == 2)
                ==> exists|lost: int|
                #![trigger before.slots[lost]]
                {
                    &&& 0 <= lost < before.slots.len()
                    &&& before.slots[lost].state == 2
                    &&& forall|j: int|
                        0 <= j < before.slots.len() && before.slots[j].state == 2
                            ==> before.slots[lost].sequence <= (#[trigger] before.slots[j]).sequence
                    &&& forall|j: int|
                        0 <= j < before.slots.len() && j != lost ==> (#[trigger] after.slots[j])
                            == before.slots[j]
                    &&& holds_frame(after.slots[lost], metadata, payload)
                    &&& after.slots[lost].dropped == after.dropped
                }
        }),
{
    let all = before.slots;
    let after = ring::ring_after_publish(before, metadata, payload);
    assert(!exists|i: int| ring::decisive(all, i));
    if exists|i: int| 0 <= i < all.len() && (#[trigger] all[i]).state == 2 {
        let ready = choose|i: int| 0 <= i < all.len() && (#[trigger] all[i]).state == 2;
        lemma_oldest_exists(all, ready, all.len() as int);
        let lost = choose|i: int| ring::oldest_ready(all, i);
        assert(ring::oldest_ready(all, lost));
        assert(all[lost].state == 2);
        assert(holds_frame(after.slots[lost], metadata, payload));
    } else {
        assert(!exists|i: int| ring::oldest_ready(all, i));
    }
}

/// A ring into which frames are published one after the other.
pub open spec fn ring_after_all(
    before: RingView,
    frames: Seq<(MetadataView, Seq<u8>)>,
) -> RingView
    decreases frames.len(),
{
    if frames.len() == 0 {
        before
    } else {
        ring::ring_after_publish(
            ring_after_all(before, frames.drop_last()),
            frames.last().0,
            frames.last().1,
        )
    }
}

/// The frame in slot `i` of a ring with `n` slots after `count` frames, by its position; negative
/// where there is none yet.
spec fn frame_in(i: int, n: int, count: int) -> int {
    let turn = count % n;
    if i < turn {
        count - turn + i
    } else {
        count - turn - n + i
    }
}

/// The slots are taken in turn.
proof fn lemma_slots_in_turn(
    before: RingView,
    frames: Seq<(MetadataView, Seq<u8>)>,
)
    requires
        before.slots.len() > 0,
        forall|i: int| 0 <= i < before.slots.len() ==> (#[trigger] before.slots[i]).state == 0,
        forall|a: int, b: int|
            0 <= a < b < frames.len() ==> (#[trigger] frames[a]).0.sequence < (
            #[trigger] frames[b]).0.sequence,
    ensures
        ({
            let n = before.slots.len() as int;
            let after = ring_after_all(before, frames);
            &&& after.slots.len() == n
            &&& forall|i: int|
                #![trigger after.slots[i]]
                0 <= i < n ==> {
                    let m = frame_in(i, n, frames.len() as int);
                    &&& m < frames.len()
                    &&& m < 0 ==> after.slots[i].state == 0
                    &&& m >= 0 ==> after.slots[i].state == 2 && after.slots[i].sequence
                        == frames[m].0.sequence
                }
        }),
    decreases frames.len(),
{
    let n = before.slots.len() as int;
    let count = frames.len() as int;
    if count == 0 {
        vstd::arithmetic::div_mod::lemma_small_mod(0, n as nat);
    } else {
        let shorter = frames.drop_last();
        lemma_slots_in_turn(before, shorter);
        let middle = ring_after_all(before, shorter);
        let after = ring_after_all(before, frames);
        let all = middle.slots;
        let last = count - 1;
        let turn = last % n;
        lemma_next_turn(last, n);
        assert(0 <= turn < n);
        if last < n {
            vstd::arithmetic::div_mod::lemma_small_mod(last as nat, n as nat);
            assert(turn == last);
            assert(ring::decisive(all, turn)) by {
                assert forall|j: int| 0 <= j < turn implies 1 <= #[trigger] all[j].state <= 3 by {
                    assert(frame_in(j, n, last) == j);
                }
            }
            ring::lemma_choices_unique(all, turn, choose|i: int| ring::decisive(all, i));
        } else {
            assert(!exists|i: int| ring::decisive(all, i)) by {
                assert forall|i: int| 0 <= i < n implies (#[trigger] all[i]).state == 2 by {
                    assert(frame_in(i, n, last) >= 0);
                }
            }
            assert(ring::oldest_ready(all, turn)) by {
                assert(frame_in(turn, n, last) == last - n);
                assert forall|j: int|
                    0 <= j < all.len() && all[j].state
                        == SlotState::Ready.code() implies all[turn].sequence
                    <= #[trigger] all[j].sequence by {
                    let m = frame_in(j, n, last);
                    assert(all[j].sequence == shorter[m].0.sequence);
                    if m != last - n {
                        assert(shorter[last - n] == frames[last - n]);
                        assert(shorter[m] == frames[m]);
                    }
                }
                assert forall|j: int|
                    0 <= j < turn && all[j].state
                        == SlotState::Ready.code() implies all[turn].sequence
                    < #[trigger] all[j].sequence by {
                    let m = frame_in(j, n, last);
                    assert(all[j].sequence == shorter[m].0.sequence);
                    assert(shorter[last - n] == frames[last - n]);
                    assert(shorter[m] == frames[m]);
                }
            }
            ring::lemma_choices_unique(all, turn, choose|i: int| ring::oldest_ready(all, i));
        }
        assert(ring::writable_slot(all) == Some(turn));
        assert forall|i: int|
            #![trigger after.slots[i]]
            0 <= i < n implies {
            let m = frame_in(i, n, count);
            &&& m < count
            &&& m < 0 ==> after.slots[i].state == 0
            &&& m >= 0 ==> after.slots[i].state == 2 && after.slots[i].sequence
                == frames[m].0.sequence
        } by {
            if i == turn {
                assert(frame_in(i, n, count) == last);
            } else {
                assert(frame_in(i, n, count) == frame_in(i, n, last));
                assert(after.slots[i] == all[i]);
                let m = frame_in(i, n, last);
                if m >= 0 {
                    assert(shorter[m] == frames[m]);
                }
            }
        }
    }
}

/// The turn after a turn.
proof fn lemma_next_turn(count: int, n: int)
    requires
        n > 0,
        count >= 0,
    ensures
        (count + 1) % n == if count % n == n - 1 {
            0
        } else {
            count % n + 1
        },
        0 <= count % n < n,
        count >= n ==> count - count % n >= n,
{
    vstd::arithmetic::div_mod::lemma_fundamental_div_mod(count, n);
    let quotient = count / n;
    let turn = count % n;
    if turn == n - 1 {
        assert(count + 1 == (quotient + 1) * n) by (nonlinear_arith)
            requires
                count == n * quotient + turn,
                turn == n - 1,
        ;
        vstd::arithmetic::div_mod::lemma_fundamental_div_mod_converse(
            count + 1,
            n,
            quotient + 1,
            0,
        );
    } else {
        assert(count + 1 == quotient * n + (turn + 1)) by (nonlinear_arith)
            requires
                count == n * quotient + turn,
        ;
        vstd::arithmetic::div_mod::lemma_fundamental_div_mod_converse(
            count + 1,
            n,
            quotient,
            turn + 1,
        );
    }
    if count >= n {
        assert(n * quotient >= n) by (nonlinear_arith)
            requires
                count == n * quotient + turn,
                0 <= turn < n,
                count >= n,
                n > 0,
        ;
    }
}

/// Frames with ascending numbers that are published into a ring of free slots, with no lease held,
/// leave exactly the last of them ready, as many as there are slots: each of these is in a slot, and
/// every ready slot holds one of these.
pub proof fn law_last_frames_stay_ready(before: RingView, frames: Seq<(MetadataView, Seq<u8>)>)
    requires
        before.slots.len() > 0,
        forall|i: int| 0 <= i < before.slots.len() ==> (#[trigger] before.slots[i]).state == 0,
        forall|a: int, b: int|
            0 <= a < b < frames.len() ==> (#[trigger] frames[a]).0.sequence < (
            #[trigger] frames[b]).0.sequence,
    ensures
        ({
            let n = before.slots.len() as int;
            let after = ring_after_all(before, frames);
            &&& after.slots.len() == n
            &&& forall|m: int|
                0 <= m < frames.len() && m >= frames.len() - n ==> exists|i: int|
                    0 <= i < n && (#[trigger] after.slots[i]).state == 2
                        && after.slots[i].sequence == (#[trigger] frames[m]).0.sequence
            &&& forall|i: int|
                0 <= i < n && (#[trigger] after.slots[i]).state == 2 ==> exists|m: int|
                    0 <= m < frames.len() && m >= frames.len() - n && after.slots[i].sequence == (
                    #[trigger] frames[m]).0.sequence
            &&& forall|i: int|
                0 <= i < n ==> (#[trigger] after.slots[i]).state == 2 || after.slots[i].state == 0
            &&& frames.len() >= n ==> forall|i: int|
                0 <= i < n ==> (#[trigger] after.slots[i]).state == 2
        }),
{
    let n = before.slots.len() as int;
    let count = frames.len() as int;
    let after = ring_after_all(before, frames);
    lemma_slots_in_turn(before, frames);
    lemma_next_turn(count, n);
    assert forall|m: int| 0 <= m < count && m >= count - n implies exists|i: int|
        0 <= i < n && (#[trigger] after.slots[i]).state == 2 && after.slots[i].sequence == (
        #[trigger] frames[m]).0.sequence by {
        let turn = count % n;
        let i = if m >= count - turn {
            m - (count - turn)
        } else {
            m - (count - turn) + n
        };
        assert(frame_in(i, n, count) == m);
        assert(after.slots[i].state == 2);
    }
    assert forall|i: int| 0 <= i < n && (#[trigger] after.slots[i]).state == 2 implies exists|m: int|
        0 <= m < count && m >= count - n && after.slots[i].sequence == (
        #[trigger] frames[m]).0.sequence by {
        let m = frame_in(i, n, count);
        assert(after.slots[i].sequence == frames[m].0.sequence);
    }
}

/// Among the first `count` slots there is an oldest ready one, if any is ready.
proof fn lemma_oldest_exists(all: Seq<SlotView>, ready: int, count: int)
    requires
        0 <= ready < count <= all.len(),
        all[ready].state == SlotState::Ready.code(),
    ensures
        exists|i: int| ring::oldest_ready(all.take(count), i),
        count == all.len() ==> exists|i: int| ring::oldest_ready(all, i),
    decreases count,
{
    let part = all.take(count);
    let last = count - 1;
    if exists|i: int|
        0 <= i < last && (#[trigger] all[i]).state == SlotState::Ready.code() {
        let other = choose|i: int|
            0 <= i < last && (#[trigger] all[i]).state == SlotState::Ready.code();
        lemma_oldest_exists(all, other, last);
        let shorter = all.take(last);
        let best = choose|i: int| ring::oldest_ready(shorter, i);
        assert(ring::oldest_ready(shorter, best));
        assert(forall|j: int| 0 <= j < last ==> #[trigger] part[j] == shorter[j]);
        if all[last].state == SlotState::Ready.code() && all[last].sequence
            < all[best].sequence {
            assert(ring::oldest_ready(part, last)) by {
                assert forall|j: int|
                    0 <= j < part.len() && part[j].state
                        == SlotState::Ready.code() implies part[last].sequence
                    <= #[trigger] part[j].sequence by {
                    if j < last {
                        assert(shorter[best].sequence <= shorter[j].sequence);
                    }
                }
                assert forall|j: int|
                    0 <= j < last && part[j].state
                        == SlotState::Ready.code() implies part[last].sequence
                    < #[trigger] part[j].sequence by {
                    assert(shorter[best].sequence <= shorter[j].sequence);
                }
            }
        } else {
            assert(ring::oldest_ready(part, best)) by {
                assert forall|j: int|
                    0 <= j < part.len() && part[j].state
                        == SlotState::Ready.code() implies part[best].sequence
                    <= #[trigger] part[j].sequence by {
                    if j < last {
                        assert(shorter[best].sequence <= shorter[j].sequence);
                    }
                }
                assert forall|j: int|
                    0 <= j < best && part[j].state
                        == SlotState::Ready.code() implies part[best].sequence
                    < #[trigger] part[j].sequence by {
                    assert(shorter[best].sequence < shorter[j].sequence);
                }
            }
        }
    } else {
        assert(ready == last);
        assert(ring::oldest_ready(part, last));
    }
    if count == all.len() {
        assert(part =~= all);
    }
}

/// The slot that is leased holds a complete frame: one that is being written never is.
pub proof fn law_only_complete_frames_are_leased(all: Seq<SlotView>)
    ensures
        match ring::newest_slot(all) {
            Some(index) => 0 <= index < all.len() && all[index].state == SlotState::Ready.code(),
            None => forall|i: int|
                0 <= i < all.len() ==> (#[trigger] all[i]).state != SlotState::Ready.code(),
        },
{
    if exists|i: int| ring::latest_ready(all, i) {
        let latest = choose|i: int| ring::latest_ready(all, i);
        assert(ring::latest_ready(all, latest));
    } else if exists|i: int|
        0 <= i < all.len() && (#[trigger] all[i]).state == SlotState::Ready.code() {
        let ready = choose|i: int|
            0 <= i < all.len() && (#[trigger] all[i]).state == SlotState::Ready.code();
        lemma_latest_exists(all, ready, all.len() as int);
    }
}

/// Among the first `count` slots there is a newest ready one, if any is ready.
proof fn lemma_latest_exists(all: Seq<SlotView>, ready: int, count: int)
    requires
        0 <= ready < count <= all.len(),
        all[ready].state == SlotState::Ready.code(),
    ensures
        exists|i: int| ring::latest_ready(all.take(count), i),
        count == all.len() ==> exists|i: int| ring::latest_ready(all, i),
    decreases count,
{
    let part = all.take(count);
    let last = count - 1;
    if exists|i: int|
        0 <= i < last && (#[trigger] all[i]).state == SlotState::Ready.code() {
        let other = choose|i: int|
            0 <= i < last && (#[trigger] all[i]).state == SlotState::Ready.code();
        lemma_latest_exists(all, other, last);
        let shorter = all.take(last);
        let best = choose|i: int| ring::latest_ready(shorter, i);
        assert(ring::latest_ready(shorter, best));
        assert(forall|j: int| 0 <= j < last ==> #[trigger] part[j] == shorter[j]);
        if all[last].state == SlotState::Ready.code() && all[last].sequence
            > all[best].sequence {
            assert(ring::latest_ready(part, last)) by {
                assert forall|j: int|
                    0 <= j < part.len() && part[j].state
                        == SlotState::Ready.code() implies #[trigger] part[j].sequence
                    <= part[last].sequence by {
                    if j < last {
                        assert(shorter[j].sequence <= shorter[best].sequence);
                    }
                }
                assert forall|j: int|
                    0 <= j < last && part[j].state
                        == SlotState::Ready.code() implies #[trigger] part[j].sequence
                    < part[last].sequence by {
                    assert(shorter[j].sequence <= shorter[best].sequence);
                }
            }
        } else {
            assert(ring::latest_ready(part, best)) by {
                assert forall|j: int|
                    0 <= j < part.len() && part[j].state
                        == SlotState::Ready.code() implies #[trigger] part[j].sequence
                    <= part[best].sequence by {
                    if j < last {
                        assert(shorter[j].sequence <= shorter[best].sequence);
                    }
                }
                assert forall|j: int|
                    0 <= j < best && part[j].state
                        == SlotState::Ready.code() implies #[trigger] part[j].sequence
                    < part[best].sequence by {
                    assert(shorter[j].sequence < shorter[best].sequence);
                }
            }
        }
    } else {
        assert(ready == last);
        assert(ring::latest_ready(part, last));
    }
    if count == all.len() {
        assert(part =~= all);
    }
}

/// The broker's pin, if there is one, is on a slot that is pinned for that very frame.
pub open spec fn pin_is_held(state: RingView, pin: Option<LeaseView>) -> bool {
    match pin {
        Some(lease) => {
            &&& 0 <= lease.slot < state.slots.len()
            &&& state.slots[lease.slot].state == SlotState::Pinned.code()
            &&& state.slots[lease.slot].sequence == lease.sequence
            &&& state.slots[lease.slot].generation == lease.generation
        },
        None => true,
    }
}

/// Publishing and leasing keep the broker's pin on its frame.
pub proof fn law_pin_stays_held(
    before: RingView,
    pin: Option<LeaseView>,
    metadata: MetadataView,
    payload: Seq<u8>,
)
    requires
        pin_is_held(before, pin),
    ensures
        pin_is_held(ring::ring_after_publish(before, metadata, payload), pin),
        ({
            let released = ring::ring_without_pin(before, pin);
            match ring::newest_slot(released.slots) {
                Some(index) => pin_is_held(
                    slots::with_slot(
                        released,
                        index,
                        SlotView { state: SlotState::Pinned.code(), ..released.slots[index] },
                    ),
                    Some(ring::lease_on(released, index)),
                ),
                None => pin_is_held(released, None),
            }
        }),
{
    if let Some(lease) = pin {
        law_publish_spares_pinned_frames(before, metadata, payload, lease.slot);
    }
    law_only_complete_frames_are_leased(ring::ring_without_pin(before, pin).slots);
}

/// The ring that the next lease leaves behind, with that lease.
pub open spec fn ring_after_lease(before: RingView, pin: Option<LeaseView>) -> (
    RingView,
    Option<LeaseView>,
) {
    let released = ring::ring_without_pin(before, pin);
    match ring::newest_slot(released.slots) {
        Some(index) => (
            slots::with_slot(
                released,
                index,
                SlotView { state: SlotState::Pinned.code(), ..released.slots[index] },
            ),
            Some(ring::lease_on(released, index)),
        ),
        None => (released, None),
    }
}

/// A frame that found a slot, newer than every ready one, is the one that the next lease is on,
/// and a reader gets back its bytes and its metadata with the broker's count of dropped frames.
pub proof fn law_published_frame_is_read_back(
    limits: CameraLimits,
    geometry: RingGeometry,
    before: RingView,
    pin: Option<LeaseView>,
    metadata: MetadataView,
    payload: Seq<u8>,
)
    requires
        before.closed == 0,
        before.slots.len() == geometry.slot_count,
        forall|i: int|
            0 <= i < before.slots.len() ==> (#[trigger] before.slots[i]).planes.len()
                == MAX_PLANES && before.slots[i].payload.len() == geometry.payload_capacity,
        pin_is_held(before, pin),
        payload.len() <= u64::MAX,
        metadata.format == layout::pixel_format_of(geometry.format.pixel_format),
        metadata.width == geometry.format.width,
        metadata.height == geometry.format.height,
        layout::metadata_refusal(limits, metadata) is None,
        forall|k: int| 0 <= k < metadata.planes.len() ==> (#[trigger] metadata.planes[k]).wf(),
        ring::publish_refusal(limits, geometry, metadata, payload.len() as int) is None,
        ring::writable_slot(before.slots) is Some,
        forall|i: int|
            0 <= i < before.slots.len() && before.slots[i].state == SlotState::Ready.code()
                ==> (#[trigger] before.slots[i]).sequence < metadata.sequence,
    ensures
        ({
            let published = ring::ring_after_publish(before, metadata, payload);
            let (leased, lease) = ring_after_lease(published, pin);
            let slot = leased.slots[lease->0.slot];
            &&& lease is Some
            &&& Some(lease->0.slot) == ring::writable_slot(before.slots)
            &&& reader::lease_stands(geometry, leased, None, lease->0)
            &&& reader::slot_refusal(limits, geometry, slot) is None
            &&& slot.payload.take(slot.payload_length as int) == payload
            &&& reader::stored_metadata(geometry, slot) == (MetadataView {
                dropped_count: published.dropped,
                ..metadata
            })
        }),
{
    let index = ring::writable_slot(before.slots)->0;
    lemma_writable(before.slots);
    let published = ring::ring_after_publish(before, metadata, payload);
    let released = ring::ring_without_pin(published, pin);
    if let Some(lease) = pin {
        law_publish_spares_pinned_frames(before, metadata, payload, lease.slot);
    }
    assert(ring::latest_ready(released.slots, index)) by {
        assert forall|j: int|
            0 <= j < released.slots.len() && released.slots[j].state
                == SlotState::Ready.code() implies #[trigger] released.slots[j].sequence
            <= released.slots[index].sequence by {
            if j != index {
                assert(before.slots[j].state == SlotState::Ready.code());
                assert(before.slots[j].sequence < metadata.sequence);
            }
        }
        assert forall|j: int|
            0 <= j < index && released.slots[j].state
                == SlotState::Ready.code() implies #[trigger] released.slots[j].sequence
            < released.slots[index].sequence by {
            assert(before.slots[j].state == SlotState::Ready.code());
            assert(before.slots[j].sequence < metadata.sequence);
        }
    }
    ring::lemma_choices_unique(
        released.slots,
        index,
        choose|i: int| ring::latest_ready(released.slots, i),
    );
    let (leased, lease) = ring_after_lease(published, pin);
    let slot = leased.slots[index];
    assert(slot.payload.take(slot.payload_length as int) =~= payload);
    assert(slot.planes.take(slot.plane_count as int) =~= metadata.planes);
    reveal_with_fuel(reader::stored_plane_refusal, 3);
    assert(metadata.planes[0].wf());
    if metadata.planes.len() == 2 {
        assert(metadata.planes[1].wf());
    }
    assert(reader::stored_plane_refusal(slot.planes, slot.plane_count as int) is None);
    assert(reader::stored_metadata(geometry, slot) =~= (MetadataView {
        dropped_count: published.dropped,
        ..metadata
    }));
}

/// Once the mapping is closed, no lease stands.
pub proof fn law_closed_mapping_has_no_frames(
    geometry: RingGeometry,
    before: RingView,
    expected: Option<u64>,
    lease: LeaseView,
)
    ensures
        !reader::lease_stands(geometry, RingView { closed: 1, ..before }, expected, lease),
{
}

/// A lease is on the ready frame with the highest number, which is pinned and otherwise stays as it
/// is; the frame of the previous lease is gone, and its slot is free. Every other slot stays as it is.
/// There is no lease only where no frame is ready.
pub proof fn law_lease_is_on_the_newest_frame(before: RingView, pin: Option<LeaseView>)
    requires
        pin_is_held(before, pin),
    ensures
        ({
            let (after, lease) = ring_after_lease(before, pin);
            &&& after.slots.len() == before.slots.len()
            &&& after.dropped == before.dropped
            &&& after.closed == before.closed
            &&& after.header == before.header
            &&& pin is Some ==> after.slots[pin->0.slot].state == 0
            &&& forall|j: int|
                0 <= j < before.slots.len() && (pin is None || j != pin->0.slot) && (lease is None
                    || j != lease->0.slot) ==> (#[trigger] after.slots[j]) == before.slots[j]
            &&& lease is None <==> forall|j: int|
                0 <= j < before.slots.len() ==> (#[trigger] before.slots[j]).state != 2
            &&& lease matches Some(lease) ==> {
                &&& 0 <= lease.slot < before.slots.len()
                &&& before.slots[lease.slot].state == 2
                &&& lease.sequence == before.slots[lease.slot].sequence
                &&& lease.generation == before.slots[lease.slot].generation
                &&& forall|j: int|
                    0 <= j < before.slots.len() && before.slots[j].state == 2 ==> (
                    #[trigger] before.slots[j]).sequence <= lease.sequence
                &&& after.slots[lease.slot].state == 3
                &&& after.slots[lease.slot].sequence == lease.sequence
                &&& after.slots[lease.slot].generation == lease.generation
                &&& after.slots[lease.slot].payload == before.slots[lease.slot].payload
                &&& after.slots[lease.slot].payload_length
                    == before.slots[lease.slot].payload_length
                &&& after.slots[lease.slot].planes == before.slots[lease.slot].planes
                &&& after.slots[lease.slot].plane_count == before.slots[lease.slot].plane_count
                &&& after.slots[lease.slot].timestamp == before.slots[lease.slot].timestamp
                &&& after.slots[lease.slot].dropped == before.slots[lease.slot].dropped
            }
        }),
{
    let released = ring::ring_without_pin(before, pin);
    law_only_complete_frames_are_leased(released.slots);
    if let Some(index) = ring::newest_slot(released.slots) {
        let latest = choose|i: int| ring::latest_ready(released.slots, i);
        assert(ring::latest_ready(released.slots, latest));
        assert forall|j: int|
            0 <= j < before.slots.len() && before.slots[j].state == 2 implies (
        #[trigger] before.slots[j]).sequence <= released.slots[index].sequence by {
            assert(released.slots[j] == before.slots[j]);
            assert(released.slots[j].sequence <= released.slots[latest].sequence);
        }
    } else {
        assert forall|j: int| 0 <= j < before.slots.len() implies (
        #[trigger] before.slots[j]).state != 2 by {
            assert(released.slots[j].state != 2);
        }
    }
}

/// A lease stands exactly where the mapping is open and its slot is pinned for the frame with its
/// number and generation, and no other generation is wanted.
pub proof fn law_lease_stands_for_its_frame_only(
    geometry: RingGeometry,
    state: RingView,
    expected: Option<u64>,
    lease: LeaseView,
)
    requires
        state.slots.len() == geometry.slot_count,
        0 <= lease.slot,
    ensures
        reader::lease_stands(geometry, state, expected, lease) ==> {
            &&& state.closed == 0
            &&& lease.slot < state.slots.len()
            &&& state.slots[lease.slot].state == 3
            &&& state.slots[lease.slot].sequence == lease.sequence
            &&& state.slots[lease.slot].generation == lease.generation
            &&& expected matches Some(generation) ==> generation == lease.generation
        },
        state.closed == 0 && lease.slot < state.slots.len() && state.slots[lease.slot].state == 3
            && state.slots[lease.slot].sequence == lease.sequence
            && state.slots[lease.slot].generation == lease.generation && (expected is None
            || expected->0 == lease.generation) ==> reader::lease_stands(
            geometry,
            state,
            expected,
            lease,
        ),
{
}

/// The numbers that stand in a region for the states of a slot and for the pixel formats.
pub proof fn law_region_codes()
    ensures
        SlotState::Free.code() == 0,
        SlotState::Writing.code() == 1,
        SlotState::Ready.code() == 2,
        SlotState::Pinned.code() == 3,
        layout::pixel_format_of(CameraPixelFormat::Nv12).code() == 1,
        layout::pixel_format_of(CameraPixelFormat::Yuyv).code() == 2,
        layout::pixel_format_of(CameraPixelFormat::Mjpeg).code() == 3,
        header::named_format(1) == CameraPixelFormat::Nv12,
        header::named_format(2) == CameraPixelFormat::Yuyv,
        header::named_format(3) == CameraPixelFormat::Mjpeg,
{
}

/// Where the fields of the header stand in the region.
pub proof fn law_header_fields_stand_at_fixed_places(geometry: RingGeometry, region: Seq<u8>)
    requires
        region.len() >= 192,
    ensures
        ({
            let state = slots::ring_of(geometry, region);
            let fields = header::header_of(state.header);
            &&& forall|i: int| 0 <= i < 8 ==> (#[trigger] fields.magic[i]) == region[i]
            &&& fields.major == bytes::u16_at(region, 8)
            &&& fields.minor == bytes::u16_at(region, 10)
            &&& fields.total_length == bytes::u64_at(region, 16)
            &&& fields.slot_count == bytes::u64_at(region, 24)
            &&& fields.slot_stride == bytes::u64_at(region, 32)
            &&& fields.format == bytes::u32_at(region, 40)
            &&& fields.width == bytes::u32_at(region, 44)
            &&& fields.height == bytes::u32_at(region, 48)
            &&& fields.payload_capacity == bytes::u64_at(region, 56)
            &&& fields.identity.len() == 32
            &&& forall|i: int| 0 <= i < 32 ==> (#[trigger] fields.identity[i]) == region[64 + i]
            &&& fields.token_hash.len() == 32
            &&& forall|i: int| 0 <= i < 32 ==> (#[trigger] fields.token_hash[i]) == region[96 + i]
            &&& state.dropped == bytes::u64_at(region, 128)
        }),
{
    header::lemma_header_fields(region);
}

/// Where the fields of a slot and its payload stand in the region: the slots follow a header of 192
/// bytes, each begins at a multiple of 64 bytes from the next, and its payload follows 128 bytes of
/// its own header.
pub proof fn law_slot_fields_stand_at_fixed_places(
    geometry: RingGeometry,
    region: Seq<u8>,
    index: int,
)
    requires
        0 <= index < geometry.slot_count,
        geometry.payload_capacity >= 0,
        region.len() >= geometry.total_length(),
    ensures
        ({
            let stride = geometry.slot_stride();
            let base = 192 + index * stride;
            let slot = slots::ring_of(geometry, region).slots[index];
            &&& stride % 64 == 0
            &&& 128 + geometry.payload_capacity <= stride < 128 + geometry.payload_capacity + 64
            &&& geometry.total_length() == 192 + geometry.slot_count * stride
            &&& slot.state == bytes::u64_at(region, base)
            &&& slot.sequence == bytes::u64_at(region, base + 8)
            &&& slot.generation == bytes::u64_at(region, base + 16)
            &&& slot.timestamp == bytes::u64_at(region, base + 24)
            &&& slot.dropped == bytes::u64_at(region, base + 32)
            &&& slot.payload_length == bytes::u64_at(region, base + 40)
            &&& slot.plane_count == bytes::u64_at(region, base + 48)
            &&& slot.planes.len() == 3
            &&& forall|k: int|
                0 <= k < 3 ==> (#[trigger] slot.planes[k]).offset == bytes::u32_at(
                    region,
                    base + 56 + 12 * k,
                ) && slot.planes[k].length == bytes::u32_at(region, base + 60 + 12 * k)
                    && slot.planes[k].stride == bytes::u32_at(region, base + 64 + 12 * k)
            &&& slot.payload.len() == geometry.payload_capacity
            &&& forall|i: int|
                0 <= i < geometry.payload_capacity ==> (#[trigger] slot.payload[i]) == region[base
                    + 128 + i]
        }),
{
    config::lemma_slot_range(geometry, index);
    layout::lemma_aligned(SLOT_HEADER_BYTES + geometry.payload_capacity, SLOT_ALIGNMENT as int);
    let stride = geometry.slot_stride();
    let count = geometry.slot_count;
    assert(stride * count == count * stride) by (nonlinear_arith);
}

/// A ring is made exactly where its format, its number of slots, its payload and its whole length
/// are within the public bounds, and the payload holds the largest frame of the format.
pub proof fn law_ring_is_within_the_bounds(limits: CameraLimits, geometry: RingGeometry)
    requires
        geometry.slot_count >= 0,
        0 <= geometry.payload_capacity <= usize::MAX - 256,
        limits.max_frame_bytes <= 0x1000_0000,
    ensures
        geometry.refusal(limits) is None <==> {
            let format = geometry.format;
            &&& 0 < format.width <= limits.max_width
            &&& 0 < format.height <= limits.max_height
            &&& format.pixel_format == CameraPixelFormat::Nv12 ==> format.width % 2 == 0
                && format.height % 2 == 0
            &&& limits.min_slot_count <= geometry.slot_count <= limits.max_slot_count
            &&& geometry.payload_capacity <= limits.max_frame_bytes
            &&& format.pixel_format == CameraPixelFormat::Nv12 ==> 2 * geometry.payload_capacity
                >= 3 * (format.width * format.height)
            &&& format.pixel_format == CameraPixelFormat::Yuyv ==> geometry.payload_capacity >= 2
                * (format.width * format.height)
            &&& format.pixel_format == CameraPixelFormat::Mjpeg ==> geometry.payload_capacity
                == limits.max_frame_bytes
            &&& geometry.total_length() <= 268435456
        },
{
    let format = geometry.format;
    let area = format.width * format.height;
    assert(format.width * format.height * 2 == 2 * area);
    assert(area >= 0) by (nonlinear_arith)
        requires
            area == format.width * format.height,
    ;
    if format.pixel_format == CameraPixelFormat::Nv12 && format.width % 2 == 0 {
        let half = format.width as int / 2;
        assert(area == 2 * (half * format.height)) by (nonlinear_arith)
            requires
                area == format.width * format.height,
                format.width == 2 * half,
        ;
    }
}

/// A header is accepted exactly where its version is the known one, its lengths are that of the
/// mapping and of the descriptor, it names a ring within the bounds with the stride of the layout
/// that lies in the mapping, and it holds the session's identity and the hash of the capability.
pub proof fn law_header_is_accepted_exactly(
    limits: CameraLimits,
    fields: HeaderView,
    mapped_length: int,
    mapping: MappingView,
)
    requires
        fields.slot_count <= usize::MAX,
        fields.payload_capacity <= usize::MAX,
    ensures
        ({
            let named = RingGeometry {
                format: CameraFormat {
                    pixel_format: if fields.format == 1 {
                        CameraPixelFormat::Nv12
                    } else if fields.format == 2 {
                        CameraPixelFormat::Yuyv
                    } else {
                        CameraPixelFormat::Mjpeg
                    },
                    width: fields.width,
                    height: fields.height,
                },
                slot_count: fields.slot_count as int,
                payload_capacity: fields.payload_capacity as int,
            };
            let checked = header::checked_header(limits, fields, mapped_length, mapping);
            &&& checked is Ok ==> checked->Ok_0 == named
            &&& checked is Ok <==> {
                &&& fields.magic =~= seq![0x53u8, 0x48, 0x52, 0x49, 0x4e, 0x47, 0x30, 0x34]
                &&& fields.major == 1
                &&& fields.minor == 0
                &&& fields.total_length == mapped_length
                &&& fields.total_length == mapping.total_length
                &&& fields.format == 1 || fields.format == 2 || fields.format == 3
                &&& named.refusal(limits) is None
                &&& fields.slot_stride == named.slot_stride()
                &&& named.total_length() <= mapped_length
                &&& fields.identity == mapping.identity
                &&& fields.token_hash == mapping::sha256(mapping.token)
            }
        }),
{
    assert(header::MAGIC@ =~= seq![0x53u8, 0x48, 0x52, 0x49, 0x4e, 0x47, 0x30, 0x34]);
}

/// The header that a broker writes says what its ring is: the length, the number of slots, their
/// distance, the format and the payload, the session's identity and the hash of its capability.
pub proof fn law_written_header_describes_the_ring(geometry: RingGeometry, mapping: MappingView)
    requires
        0 <= geometry.slot_count <= u64::MAX,
        0 <= geometry.payload_capacity <= u64::MAX,
        geometry.total_length() <= u64::MAX,
        geometry.slot_stride() <= u64::MAX,
    ensures
        ({
            let fields = header::header_for(geometry, mapping);
            &&& fields.major == 1
            &&& fields.minor == 0
            &&& fields.total_length == geometry.total_length()
            &&& fields.slot_count == geometry.slot_count
            &&& fields.slot_stride == geometry.slot_stride()
            &&& fields.width == geometry.format.width
            &&& fields.height == geometry.format.height
            &&& fields.payload_capacity == geometry.payload_capacity
            &&& fields.identity == mapping.identity
            &&& fields.token_hash == mapping::sha256(mapping.token)
        }),
{
    layout::lemma_aligned(SLOT_HEADER_BYTES + geometry.payload_capacity, SLOT_ALIGNMENT as int);
    let stride = geometry.slot_stride();
    let count = geometry.slot_count;
    assert(stride * count >= 0) by (nonlinear_arith)
        requires
            stride >= 0,
            count >= 0,
    ;
}

/// Planes describe a frame exactly where there are as many as its format has, each lies in the
/// payload, its rows are long and many enough for the frame, and no two share a byte.
pub proof fn law_planes_cover_the_frame(
    format: PixelFormat,
    width: u32,
    height: u32,
    planes: Seq<PlaneView>,
    payload_length: int,
)
    requires
        0 <= payload_length <= usize::MAX,
        width <= 0x7fff_ffff,
    ensures
        ({
            let described = layout::planes_refusal(format, width, height, planes, payload_length)
                is None;
            &&& format == PixelFormat::Mjpeg ==> (described <==> {
                &&& planes.len() == 1
                &&& planes[0].offset + planes[0].length <= payload_length
            })
            &&& format == PixelFormat::Yuyv ==> (described <==> {
                &&& planes.len() == 1
                &&& planes[0].offset + planes[0].length <= payload_length
                &&& planes[0].stride >= 2 * width
                &&& planes[0].length >= planes[0].stride * height
            })
            &&& format == PixelFormat::Nv12 ==> (described <==> {
                &&& planes.len() == 2
                &&& planes[0].offset + planes[0].length <= payload_length
                &&& planes[1].offset + planes[1].length <= payload_length
                &&& planes[0].stride >= width
                &&& planes[1].stride >= width
                &&& planes[0].length >= planes[0].stride * height
                &&& planes[1].length >= planes[1].stride * (height as int / 2)
                &&& planes[0].offset <= planes[1].offset ==> planes[0].offset + planes[0].length
                    <= planes[1].offset
                &&& planes[1].offset < planes[0].offset ==> planes[1].offset + planes[1].length
                    <= planes[0].offset
            })
        }),
{
}

/// A frame is published exactly where its bytes fit a slot, a frame can have its dimensions, and its
/// planes describe a frame in these bytes.
pub proof fn law_publishable_frames_are_published(
    limits: CameraLimits,
    geometry: RingGeometry,
    metadata: MetadataView,
    payload_length: int,
)
    ensures
        ring::publish_refusal(limits, geometry, metadata, payload_length) is None <==> {
            &&& payload_length <= geometry.payload_capacity
            &&& 0 < metadata.width <= limits.max_width
            &&& 0 < metadata.height <= limits.max_height
            &&& metadata.format == PixelFormat::Nv12 ==> metadata.width % 2 == 0 && metadata.height
                % 2 == 0
            &&& layout::planes_refusal(
                metadata.format,
                metadata.width,
                metadata.height,
                metadata.planes,
                payload_length,
            ) is None
        },
{
}

/// What a reader tells of a frame is what the slot holds, in the ring's format: a frame that is read
/// has no more bytes than a slot, and its planes lie in them.
pub proof fn law_read_metadata_is_that_of_the_slot(
    limits: CameraLimits,
    geometry: RingGeometry,
    slot: SlotView,
)
    requires
        slot.planes.len() == MAX_PLANES,
        reader::slot_refusal(limits, geometry, slot) is None,
    ensures
        ({
            let metadata = reader::stored_metadata(geometry, slot);
            &&& metadata.sequence == slot.sequence
            &&& metadata.generation == slot.generation
            &&& metadata.monotonic_timestamp_ns == slot.timestamp
            &&& metadata.dropped_count == slot.dropped
            &&& metadata.width == geometry.format.width
            &&& metadata.height == geometry.format.height
            &&& metadata.format.as_camera() == geometry.format.pixel_format
            &&& metadata.planes.len() == slot.plane_count
            &&& forall|k: int|
                0 <= k < slot.plane_count ==> (#[trigger] metadata.planes[k]) == slot.planes[k]
            &&& slot.payload_length <= geometry.payload_capacity
            &&& slot.plane_count <= 3
            &&& forall|k: int|
                0 <= k < slot.plane_count ==> (#[trigger] slot.planes[k]).offset
                    + slot.planes[k].length <= slot.payload_length
        }),
{
}

/// A lease that is given up frees the slot of its frame and nothing else, and leaves a slot alone that
/// holds another frame by now.
pub proof fn law_release_frees_only_its_frame(before: RingView, lease: LeaseView)
    requires
        0 <= lease.slot < before.slots.len(),
    ensures
        ({
            let after = ring::ring_after_release(before, lease);
            let slot = before.slots[lease.slot];
            let held = slot.sequence == lease.sequence && slot.generation == lease.generation;
            &&& held ==> after.slots[lease.slot].state == 0
            &&& !held ==> after == before
            &&& after.slots.len() == before.slots.len()
            &&& after.dropped == before.dropped
            &&& after.closed == before.closed
            &&& after.header == before.header
            &&& forall|j: int|
                0 <= j < before.slots.len() && j != lease.slot ==> (#[trigger] after.slots[j])
                    == before.slots[j]
            &&& after.slots[lease.slot].payload == slot.payload
            &&& after.slots[lease.slot].sequence == slot.sequence
            &&& after.slots[lease.slot].generation == slot.generation
        }),
{
}

/// Three numbers are a plane exactly where it has bytes and rows, and its end fits in 32 bits.
pub proof fn law_planes_have_bytes_and_rows(offset: usize, length: usize, stride: usize)
    ensures
        layout::plane_refusal(offset, length, stride) is None <==> 0 < length && 0 < stride
            <= 0xffff_ffff && offset + length <= 0xffff_ffff,
{
}

/// A frame has metadata exactly where its dimensions are within the bounds and its planes describe a
/// frame in as many bytes as any frame may have.
pub proof fn law_metadata_describes_a_frame(limits: CameraLimits, metadata: MetadataView)
    ensures
        layout::metadata_refusal(limits, metadata) is None <==> {
            &&& 0 < metadata.width <= limits.max_width
            &&& 0 < metadata.height <= limits.max_height
            &&& metadata.format == PixelFormat::Nv12 ==> metadata.width % 2 == 0 && metadata.height
                % 2 == 0
            &&& layout::planes_refusal(
                metadata.format,
                metadata.width,
                metadata.height,
                metadata.planes,
                limits.max_frame_bytes as int,
            ) is None
        },
{
}

/// A slot is read exactly where it holds no more bytes and planes than a slot can, its planes are
/// planes that describe a frame in its bytes, and the frame is one that can be.
pub proof fn law_slots_with_frames_are_read(
    limits: CameraLimits,
    geometry: RingGeometry,
    slot: SlotView,
)
    requires
        slot.planes.len() == MAX_PLANES,
    ensures
        ({
            let planes = slot.planes.take(slot.plane_count as int);
            let format = layout::pixel_format_of(geometry.format.pixel_format);
            reader::slot_refusal(limits, geometry, slot) is None <==> {
                &&& slot.payload_length <= geometry.payload_capacity
                &&& slot.plane_count <= 3
                &&& forall|k: int|
                    0 <= k < slot.plane_count ==> layout::plane_refusal(
                        (#[trigger] slot.planes[k]).offset as usize,
                        slot.planes[k].length as usize,
                        slot.planes[k].stride as usize,
                    ) is None
                &&& layout::planes_refusal(
                    format,
                    geometry.format.width,
                    geometry.format.height,
                    planes,
                    slot.payload_length as int,
                ) is None
                &&& layout::metadata_refusal(limits, reader::stored_metadata(geometry, slot))
                    is None
            }
        }),
{
    if slot.plane_count <= 3 {
        reveal_with_fuel(reader::stored_plane_refusal, 5);
        if reader::slot_refusal(limits, geometry, slot) is None {
            assert forall|k: int| 0 <= k < slot.plane_count implies layout::plane_refusal(
                (#[trigger] slot.planes[k]).offset as usize,
                slot.planes[k].length as usize,
                slot.planes[k].stride as usize,
            ) is None by {
                assert(k == 0 || k == 1 || k == 2);
            }
        }
    }
}

/// What the errors of a mapping mean: an argument that cannot be, a mapping that is gone, and a failure
/// inside.
pub proof fn law_mapping_errors_are_told_apart(operation: Seq<char>, message: Seq<char>)
    ensures
        layout::invalid_error(operation, message).category == ErrorCategory::InvalidArgument,
        !layout::invalid_error(operation, message).retryable,
        layout::invalid_error(operation, message).operation == operation,
        layout::unavailable_error(operation, message).category == ErrorCategory::Unavailable,
        layout::unavailable_error(operation, message).operation == operation,
        layout::internal_error(operation, message).category == ErrorCategory::Internal,
        layout::internal_error(operation, message).operation == operation,
{
}

} // verus!
