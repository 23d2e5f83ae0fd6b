//! The broker's and the reader's side of the ring.
//!
//! The broker is the only writer of the region. It publishes a frame to a free slot or, when none
//! is free, over the oldest ready frame; a frame that is pinned by a lease is never overwritten.

use vstd::prelude::*;

use crate::camera::frame_format::CameraLimits;
use crate::error::{HalErrorView, HalResult, IoError};
use crate::shared_memory::bytes;
use crate::shared_memory::bytes::{read_u64, write_u64};
use crate::shared_memory::config;
use crate::shared_memory::config::{RingConfig, RingGeometry, ValidatedHeader};
use crate::shared_memory::header;
use crate::shared_memory::header::{validate_header, write_header};
use crate::shared_memory::laws;
use crate::shared_memory::layout;
use crate::shared_memory::layout::{
    invalid, unavailable, validate_dimensions, validate_planes, FrameMetadata, MetadataView,
    SlotState, HEADER_BYTES,
};
use crate::shared_memory::mapping::{MappingDescriptor, MappingView};
use crate::shared_memory::slots;
use crate::shared_memory::slots::{
    count_dropped, load_field, store_field, store_frame, RingView, SlotField, SlotView,
    HEADER_CLOSED, HEADER_DROPPED_COUNT,
};

verus! {

/// The first slot that is free or in no known state: it decides where a frame goes.
pub open spec fn decisive(slots: Seq<SlotView>, index: int) -> bool {
    &&& 0 <= index < slots.len()
    &&& slots[index].state == SlotState::Free.code() || slots[index].state > 3
    &&& forall|j: int| 0 <= j < index ==> 1 <= #[trigger] slots[j].state <= 3
}

/// The ready slot with the lowest sequence, the first of those.
pub open spec fn oldest_ready(slots: Seq<SlotView>, index: int) -> bool {
    &&& 0 <= index < slots.len()
    &&& slots[index].state == SlotState::Ready.code()
    &&& forall|j: int|
        0 <= j < slots.len() && slots[j].state == SlotState::Ready.code()
            ==> slots[index].sequence <= #[trigger] slots[j].sequence
    &&& forall|j: int|
        0 <= j < index && slots[j].state == SlotState::Ready.code() ==> slots[index].sequence
            < #[trigger] slots[j].sequence
}

/// The ready slot with the highest sequence, the first of those.
pub open spec fn latest_ready(slots: Seq<SlotView>, index: int) -> bool {
    &&& 0 <= index < slots.len()
    &&& slots[index].state == SlotState::Ready.code()
    &&& forall|j: int|
        0 <= j < slots.len() && slots[j].state == SlotState::Ready.code()
            ==> #[trigger] slots[j].sequence <= slots[index].sequence
    &&& forall|j: int|
        0 <= j < index && slots[j].state == SlotState::Ready.code()
            ==> #[trigger] slots[j].sequence < slots[index].sequence
}

/// Where the next frame goes: to the first free slot, else over the oldest ready frame. A slot in
/// no known state before the first free one stops the search.
pub open spec fn writable_slot(slots: Seq<SlotView>) -> Option<int> {
    if exists|i: int| decisive(slots, i) {
        let first = choose|i: int| decisive(slots, i);
        if slots[first].state == SlotState::Free.code() {
            Some(first)
        } else {
            None
        }
    } else if exists|i: int| oldest_ready(slots, i) {
        Some(choose|i: int| oldest_ready(slots, i))
    } else {
        None
    }
}

/// The slot that holds the newest complete frame.
pub open spec fn newest_slot(slots: Seq<SlotView>) -> Option<int> {
    if exists|i: int| latest_ready(slots, i) {
        Some(choose|i: int| latest_ready(slots, i))
    } else {
        None
    }
}

/// At most one slot is decisive, oldest or newest.
pub proof fn lemma_choices_unique(slots: Seq<SlotView>, first: int, second: int)
    ensures
        decisive(slots, first) && decisive(slots, second) ==> first == second,
        oldest_ready(slots, first) && oldest_ready(slots, second) ==> first == second,
        latest_ready(slots, first) && latest_ready(slots, second) ==> first == second,
{
    if 0 <= first < slots.len() && 0 <= second < slots.len() {
        let a = slots[first].sequence;
        let b = slots[second].sequence;
    }
}

/// Finds where the next frame goes.
fn select_writable_slot(config: &RingConfig, region: &[u8]) -> (choice: Option<usize>)
    requires
        region.len() == config@.total_length(),
    ensures
        match choice {
            Some(index) => {
                &&& index < config@.slot_count
                &&& writable_slot(slots::ring_of(config@, region@).slots) == Some(index as int)
                &&& slots::ring_of(config@, region@).slots[index as int].state
                    == SlotState::Free.code() || slots::ring_of(
                    config@,
                    region@,
                ).slots[index as int].state == SlotState::Ready.code()
            },
            None => writable_slot(slots::ring_of(config@, region@).slots) is None,
        },
{
    config.facts();
    let ghost all = slots::ring_of(config@, region@).slots;
    let mut oldest: Option<(usize, u64)> = None;
    let count: usize = config.slot_count();
    let mut index: usize = 0;
    while index < count
        invariant
            index <= count,
            count == config@.slot_count,
            region.len() == config@.total_length(),
            all == slots::ring_of(config@, region@).slots,
            all.len() == count,
            forall|j: int| 0 <= j < index ==> 1 <= #[trigger] all[j].state <= 3,
            match oldest {
                Some((at, sequence)) => {
                    &&& at < index
                    &&& all[at as int].state == SlotState::Ready.code()
                    &&& sequence == all[at as int].sequence
                    &&& forall|j: int|
                        0 <= j < index && all[j].state == SlotState::Ready.code() ==> sequence
                            <= #[trigger] all[j].sequence
                    &&& forall|j: int|
                        0 <= j < at && all[j].state == SlotState::Ready.code() ==> sequence
                            < #[trigger] all[j].sequence
                },
                None => forall|j: int|
                    0 <= j < index ==> #[trigger] all[j].state != SlotState::Ready.code(),
            },
        decreases count - index,
    {
        let state: u64 = load_field(config, region, index, SlotField::State);
        match SlotState::from_raw(state) {
            Err(_) => {
                proof {
                    assert(decisive(all, index as int));
                    lemma_choices_unique(
                        all,
                        index as int,
                        choose|i: int| decisive(all, i),
                    );
                }
                return None;
            },
            Ok(SlotState::Free) => {
                proof {
                    assert(decisive(all, index as int));
                    lemma_choices_unique(
                        all,
                        index as int,
                        choose|i: int| decisive(all, i),
                    );
                }
                return Some(index);
            },
            Ok(SlotState::Ready) => {
                let sequence: u64 = load_field(config, region, index, SlotField::Sequence);
                let older = match oldest {
                    None => true,
                    Some((_, current)) => sequence < current,
                };
                if older {
                    oldest = Some((index, sequence));
                }
            },
            Ok(SlotState::Writing) => {},
            Ok(SlotState::Pinned) => {},
        }
        index += 1;
    }
    proof {
        assert(!exists|i: int| decisive(all, i));
    }
    match oldest {
        Some((at, _)) => {
            proof {
                assert(oldest_ready(all, at as int));
                lemma_choices_unique(all, at as int, choose|i: int| oldest_ready(all, i));
            }
            Some(at)
        },
        None => None,
    }
}

/// Finds the newest complete frame.
fn select_newest_slot(config: &RingConfig, region: &[u8]) -> (choice: Option<usize>)
    requires
        region.len() == config@.total_length(),
    ensures
        match choice {
            Some(index) => {
                &&& index < config@.slot_count
                &&& newest_slot(slots::ring_of(config@, region@).slots) == Some(index as int)
            },
            None => newest_slot(slots::ring_of(config@, region@).slots) is None,
        },
{
    config.facts();
    let ghost all = slots::ring_of(config@, region@).slots;
    let mut latest: Option<(usize, u64)> = None;
    let count: usize = config.slot_count();
    let mut index: usize = 0;
    while index < count
        invariant
            index <= count,
            count == config@.slot_count,
            region.len() == config@.total_length(),
            all == slots::ring_of(config@, region@).slots,
            all.len() == count,
            match latest {
                Some((at, sequence)) => {
                    &&& at < index
                    &&& all[at as int].state == SlotState::Ready.code()
                    &&& sequence == all[at as int].sequence
                    &&& forall|j: int|
                        0 <= j < index && all[j].state == SlotState::Ready.code()
                            ==> #[trigger] all[j].sequence <= sequence
                    &&& forall|j: int|
                        0 <= j < at && all[j].state == SlotState::Ready.code()
                            ==> #[trigger] all[j].sequence < sequence
                },
                None => forall|j: int|
                    0 <= j < index ==> #[trigger] all[j].state != SlotState::Ready.code(),
            },
        decreases count - index,
    {
        if load_field(config, region, index, SlotField::State) == SlotState::Ready.raw() {
            let sequence: u64 = load_field(config, region, index, SlotField::Sequence);
            let newer = match latest {
                None => true,
                Some((_, current)) => sequence > current,
            };
            if newer {
                latest = Some((index, sequence));
            }
        }
        index += 1;
    }
    match latest {
        Some((at, _)) => {
            proof {
                assert(latest_ready(all, at as int));
                lemma_choices_unique(all, at as int, choose|i: int| latest_ready(all, i));
            }
            Some(at)
        },
        None => None,
    }
}

/// The first reason, if any, why a frame is not published.
pub open spec fn publish_refusal(
    limits: CameraLimits,
    geometry: RingGeometry,
    metadata: MetadataView,
    payload_length: int,
) -> Option<HalErrorView> {
    let dimensions = layout::dimensions_refusal(
        limits,
        metadata.format,
        metadata.width,
        metadata.height,
    );
    let planes = layout::planes_refusal(
        metadata.format,
        metadata.width,
        metadata.height,
        metadata.planes,
        payload_length,
    );
    if payload_length > geometry.payload_capacity {
        Some(
            layout::invalid_error(
                "shared_memory.publish"@,
                "payload exceeds the negotiated slot capacity"@,
            ),
        )
    } else if dimensions is Some {
        Some(layout::invalid_error("shared_memory.layout"@, dimensions->0))
    } else if planes is Some {
        Some(layout::invalid_error("shared_memory.layout"@, planes->0))
    } else {
        None
    }
}

/// The ring once a frame has been published. A frame that finds no slot, or that takes the slot
/// of a ready frame, counts as one dropped frame.
pub open spec fn ring_after_publish(
    ring: RingView,
    metadata: MetadataView,
    payload: Seq<u8>,
) -> RingView {
    match writable_slot(ring.slots) {
        None => RingView { dropped: slots::next_count(ring.dropped), ..ring },
        Some(index) => {
            let dropped = if ring.slots[index].state == SlotState::Ready.code() {
                slots::next_count(ring.dropped)
            } else {
                ring.dropped
            };
            slots::with_slot(
                RingView { dropped, ..ring },
                index,
                slots::written_slot(ring.slots[index], metadata, dropped, payload),
            )
        },
    }
}

/// A ring without frames: every slot is free, nothing has been dropped, and it is open.
pub open spec fn is_empty_ring(ring: RingView) -> bool {
    &&& ring.dropped == 0
    &&& ring.closed == 0
    &&& forall|i: int|
        0 <= i < ring.slots.len() ==> (#[trigger] ring.slots[i]).state == SlotState::Free.code()
}

/// A claim on the frame of one slot.
#[derive(Clone, Copy, Debug, PartialEq, Eq, Structural)]
pub struct FrameLease {
    slot_index: usize,
    sequence: u64,
    generation: u64,
}

/// The mathematical content of a [`FrameLease`].
pub struct LeaseView {
    pub slot: int,
    pub sequence: u64,
    pub generation: u64,
}

impl View for FrameLease {
    type V = LeaseView;

    closed spec fn view(&self) -> LeaseView {
        LeaseView {
            slot: self.slot_index as int,
            sequence: self.sequence,
            generation: self.generation,
        }
    }
}

impl FrameLease {
    /// The slot of the frame.
    pub fn slot_index(&self) -> (index: usize)
        ensures
            index == self@.slot,
    {
        self.slot_index
    }

    /// The sequence of the frame.
    pub fn sequence(&self) -> (sequence: u64)
        ensures
            sequence == self@.sequence,
    {
        self.sequence
    }

    /// The generation of the frame.
    pub fn generation(&self) -> (generation: u64)
        ensures
            generation == self@.generation,
    {
        self.generation
    }
}

/// The ring once the pin of a lease has been released: its slot is free again, unless it holds
/// another frame by now.
pub open spec fn ring_after_release(ring: RingView, lease: LeaseView) -> RingView {
    let slot = ring.slots[lease.slot];
    if slot.sequence == lease.sequence && slot.generation == lease.generation {
        slots::with_slot(
            ring,
            lease.slot,
            SlotView { state: SlotState::Free.code(), ..slot },
        )
    } else {
        ring
    }
}

/// The ring once the previous pin, if any, has been released.
pub open spec fn ring_without_pin(ring: RingView, pinned: Option<LeaseView>) -> RingView {
    match pinned {
        Some(lease) => ring_after_release(ring, lease),
        None => ring,
    }
}

/// The lease on the frame of a slot.
pub open spec fn lease_on(ring: RingView, index: int) -> LeaseView {
    LeaseView {
        slot: index,
        sequence: ring.slots[index].sequence,
        generation: ring.slots[index].generation,
    }
}

/// The broker's side of a mapping.
pub struct BrokerMapping {
    limits: CameraLimits,
    descriptor: MappingDescriptor,
    config: RingConfig,
    closed: bool,
    pinned: Option<FrameLease>,
}

impl BrokerMapping {
    /// The pin, if there is one, is on a slot of the ring.
    #[verifier::type_invariant]
    closed spec fn pin_in_ring(self) -> bool {
        match self.pinned {
            Some(lease) => lease@.slot < self.config@.slot_count,
            None => true,
        }
    }

    /// The geometry of the ring.
    pub closed spec fn geometry(self) -> RingGeometry {
        self.config@
    }

    /// The public bounds.
    pub closed spec fn bounds(self) -> CameraLimits {
        self.limits
    }

    /// What a reader needs to open the mapping.
    pub closed spec fn mapping(self) -> MappingView {
        self.descriptor@
    }

    /// The pin that the broker holds.
    pub closed spec fn pin(self) -> Option<LeaseView> {
        match self.pinned {
            Some(lease) => Some(lease@),
            None => None,
        }
    }

    /// Whether the mapping has been closed.
    pub closed spec fn is_closed(self) -> bool {
        self.closed
    }

    /// The ring that a region of this mapping holds.
    pub open spec fn ring(self, region: Seq<u8>) -> RingView {
        slots::ring_of(self.geometry(), region)
    }

    /// Takes over a region: writes the header that describes the mapping and makes the ring empty.
    pub fn create(
        limits: CameraLimits,
        config: RingConfig,
        descriptor: MappingDescriptor,
        region: &mut [u8],
    ) -> (broker: BrokerMapping)
        requires
            old(region).len() == config@.total_length(),
            old(region).len() >= HEADER_BYTES,
            descriptor@.total_length == config@.total_length(),
            config@.refusal(limits) is None,
        ensures
            broker.geometry() == config@,
            broker.bounds() == limits,
            broker.mapping() == descriptor@,
            broker.pin() is None,
            !broker.is_closed(),
            final(region).len() == old(region).len(),
            header::header_of(broker.ring(final(region)@).header) == header::header_for(
                config@,
                descriptor@,
            ),
            header::checked_header(
                limits,
                header::header_of(broker.ring(final(region)@).header),
                final(region).len() as int,
                descriptor@,
            ) == Ok::<RingGeometry, HalErrorView>(config@),
            is_empty_ring(broker.ring(final(region)@)),
    {
        config.facts();
        proof {
            laws::law_written_header_is_accepted(limits, config@, descriptor@);
        }
        write_header(&config, region, &descriptor);
        let ghost described = slots::ring_of(config@, region@).header;
        let ghost r1 = region@;
        write_u64(region, HEADER_DROPPED_COUNT, 0);
        let ghost r2 = region@;
        write_u64(region, HEADER_CLOSED, 0);
        proof {
            slots::lemma_patch_header_field(config@, r1, HEADER_DROPPED_COUNT as int, 0);
            vstd::bytes::lemma_auto_spec_u64_to_from_le_bytes();
            slots::lemma_patch_header_field(config@, r2, HEADER_CLOSED as int, 0);
        }
        let count: usize = config.slot_count();
        let mut index: usize = 0;
        while index < count
            invariant
                index <= count,
                count == config@.slot_count,
                region.len() == old(region).len(),
                region.len() == config@.total_length(),
                slots::ring_of(config@, region@).header == described,
                slots::ring_of(config@, region@).dropped == 0,
                slots::ring_of(config@, region@).closed == 0,
                forall|i: int|
                    0 <= i < index ==> (#[trigger] slots::ring_of(config@, region@).slots[i]).state
                        == SlotState::Free.code(),
            decreases count - index,
        {
            store_field(&config, region, index, SlotField::State, SlotState::Free.raw());
            index += 1;
        }
        BrokerMapping { limits, descriptor, config, closed: false, pinned: None }
    }

    /// What a reader needs to open the mapping.
    pub fn descriptor(&self) -> (descriptor: &MappingDescriptor)
        ensures
            descriptor@ == self.mapping(),
    {
        &self.descriptor
    }

    /// The configuration of the ring.
    pub fn config(&self) -> (config: &RingConfig)
        ensures
            config@ == self.geometry(),
    {
        &self.config
    }

    /// The public bounds.
    pub fn limits(&self) -> (limits: &CameraLimits)
        ensures
            *limits == self.bounds(),
    {
        &self.limits
    }

    /// Publishes frames.
    pub fn writer(&self) -> (writer: SlotWriter<'_>)
        ensures
            writer.mapping() == *self,
    {
        SlotWriter { broker: self }
    }

    /// Checks the header of the broker's own region.
    pub fn validated_header(&self, region: &[u8]) -> (result: HalResult<ValidatedHeader>)
        requires
            region.len() >= HEADER_BYTES,
        ensures
            ({
                let checked = header::checked_header(
                    self.bounds(),
                    header::header_of(region@.subrange(0, HEADER_DROPPED_COUNT as int)),
                    region.len() as int,
                    self.mapping(),
                );
                match result {
                    Ok(valid) => {
                        &&& checked == Ok::<RingGeometry, HalErrorView>(valid.geometry())
                        &&& valid.session() == self.mapping().identity
                    },
                    Err(error) => checked == Err::<RingGeometry, HalErrorView>(error@),
                }
            }),
    {
        validate_header(&self.limits, region, &self.descriptor)
    }

    /// How many frames have been dropped.
    pub fn dropped_count(&self, region: &[u8]) -> (count: u64)
        requires
            region.len() >= HEADER_BYTES,
        ensures
            count == self.ring(region@).dropped,
    {
        read_u64(region, HEADER_DROPPED_COUNT)
    }

    /// Frees the slot that the broker has pinned. It always succeeds.
    pub fn release_pin(&mut self, region: &mut [u8]) -> (result: HalResult<()>)
        requires
            old(region).len() == old(self).geometry().total_length(),
        ensures
            result is Ok,
            final(region).len() == old(region).len(),
            final(self).pin() is None,
            final(self).geometry() == old(self).geometry(),
            final(self).bounds() == old(self).bounds(),
            final(self).mapping() == old(self).mapping(),
            final(self).is_closed() == old(self).is_closed(),
            final(self).ring(final(region)@) == ring_without_pin(
                old(self).ring(old(region)@),
                old(self).pin(),
            ),
    {
        proof {
            use_type_invariant(&*self);
        }
        if let Some(lease) = self.pinned {
            let sequence: u64 = load_field(
                &self.config,
                region,
                lease.slot_index,
                SlotField::Sequence,
            );
            let generation: u64 = load_field(
                &self.config,
                region,
                lease.slot_index,
                SlotField::Generation,
            );
            if sequence == lease.sequence && generation == lease.generation {
                store_field(
                    &self.config,
                    region,
                    lease.slot_index,
                    SlotField::State,
                    SlotState::Free.raw(),
                );
            }
            self.pinned = None;
        }
        Ok(())
    }

    /// Releases the previous pin and pins the newest complete frame. The control plane hands the
    /// lease to a reader. It always succeeds; without a complete frame there is no lease.
    pub fn next_frame_lease(&mut self, region: &mut [u8]) -> (result: HalResult<
        Option<FrameLease>,
    >)
        requires
            old(region).len() == old(self).geometry().total_length(),
        ensures
            result is Ok,
            final(region).len() == old(region).len(),
            final(self).geometry() == old(self).geometry(),
            final(self).bounds() == old(self).bounds(),
            final(self).mapping() == old(self).mapping(),
            final(self).is_closed() == old(self).is_closed(),
            ({
                let released = ring_without_pin(old(self).ring(old(region)@), old(self).pin());
                match result->Ok_0 {
                    Some(lease) => {
                        &&& 0 <= lease@.slot < old(self).geometry().slot_count
                        &&& newest_slot(released.slots) == Some(lease@.slot)
                        &&& lease@ == lease_on(released, lease@.slot)
                        &&& final(self).pin() == Some(lease@)
                        &&& final(self).ring(final(region)@) == slots::with_slot(
                            released,
                            lease@.slot,
                            SlotView {
                                state: SlotState::Pinned.code(),
                                ..released.slots[lease@.slot]
                            },
                        )
                    },
                    None => {
                        &&& newest_slot(released.slots) is None
                        &&& final(self).pin() is None
                        &&& final(self).ring(final(region)@) == released
                    },
                }
            }),
    {
        self.release_pin(region)?;
        let index: usize = match select_newest_slot(&self.config, region) {
            Some(index) => index,
            None => return Ok(None),
        };
        let sequence: u64 = load_field(&self.config, region, index, SlotField::Sequence);
        let generation: u64 = load_field(&self.config, region, index, SlotField::Generation);
        store_field(&self.config, region, index, SlotField::State, SlotState::Pinned.raw());
        let lease = FrameLease { slot_index: index, sequence, generation };
        self.pinned = Some(lease);
        Ok(Some(lease))
    }

    /// Closes the mapping once its name is gone: the region then shows readers that it is closed.
    /// Where `unlinked` says that the name is still there, everything stays as it is. Closing twice
    /// does nothing.
    pub fn close(&mut self, region: &mut [u8], unlinked: Result<(), IoError>) -> (result:
        HalResult<()>)
        requires
            old(region).len() == old(self).geometry().total_length(),
            old(region).len() >= HEADER_BYTES,
        ensures
            final(region).len() == old(region).len(),
            final(self).geometry() == old(self).geometry(),
            final(self).bounds() == old(self).bounds(),
            final(self).mapping() == old(self).mapping(),
            final(self).pin() == old(self).pin(),
            final(self).ring(final(region)@) == (if !old(self).is_closed() && result is Ok {
                RingView { closed: 1, ..old(self).ring(old(region)@) }
            } else {
                old(self).ring(old(region)@)
            }),
            match result {
                Ok(()) => {
                    &&& old(self).is_closed() || unlinked is Ok
                    &&& final(self).is_closed()
                },
                Err(error) => {
                    &&& !old(self).is_closed()
                    &&& !final(self).is_closed()
                    &&& unlinked is Err
                    &&& error@ == layout::unavailable_error(
                        "shared_memory.close"@,
                        unlinked->Err_0.message@,
                    )
                },
            },
    {
        proof {
            use_type_invariant(&*self);
        }
        if self.closed {
            return Ok(());
        }
        if let Err(error) = unlinked {
            return Err(unavailable("shared_memory.close", error.message));
        }
        self.config.facts();
        let ghost before = region@;
        write_u64(region, HEADER_CLOSED, 1);
        proof {
            slots::lemma_patch_header_field(self.config@, before, HEADER_CLOSED as int, 1);
            vstd::bytes::lemma_auto_spec_u64_to_from_le_bytes();
        }
        self.closed = true;
        Ok(())
    }
}

/// Publishes frames of a mapping.
pub struct SlotWriter<'a> {
    broker: &'a BrokerMapping,
}

impl<'a> SlotWriter<'a> {
    /// The mapping.
    pub closed spec fn mapping(self) -> BrokerMapping {
        *self.broker
    }

    /// Publishes a frame.
    pub fn publish(
        &self,
        region: &mut [u8],
        metadata: &FrameMetadata,
        payload: &[u8],
    ) -> (result: HalResult<()>)
        requires
            old(region).len() == self.mapping().geometry().total_length(),
            old(region).len() >= HEADER_BYTES,
        ensures
            final(region).len() == old(region).len(),
            ({
                let refusal = publish_refusal(
                    self.mapping().bounds(),
                    self.mapping().geometry(),
                    metadata@,
                    payload@.len() as int,
                );
                match result {
                    Ok(()) => {
                        &&& refusal is None
                        &&& self.mapping().ring(final(region)@) == ring_after_publish(
                            self.mapping().ring(old(region)@),
                            metadata@,
                            payload@,
                        )
                    },
                    Err(error) => refusal == Some(error@) && final(region)@ == old(region)@,
                }
            }),
    {
        let config = &self.broker.config;
        if payload.len() > config.payload_capacity() {
            return Err(
                invalid(
                    "shared_memory.publish",
                    "payload exceeds the negotiated slot capacity",
                ),
            );
        }
        validate_dimensions(
            &self.broker.limits,
            metadata.format(),
            metadata.width(),
            metadata.height(),
        )?;
        validate_planes(
            metadata.format(),
            metadata.width(),
            metadata.height(),
            metadata.planes(),
            payload.len(),
        )?;
        let index: usize = match select_writable_slot(config, region) {
            Some(index) => index,
            None => {
                count_dropped(config, region);
                return Ok(());
            },
        };
        let ghost before = slots::ring_of(config@, region@);
        let dropped: u64 = if load_field(config, region, index, SlotField::State)
            == SlotState::Ready.raw() {
            count_dropped(config, region)
        } else {
            read_u64(region, HEADER_DROPPED_COUNT)
        };
        store_frame(config, region, index, metadata, dropped, payload);
        Ok(())
    }
}

} // verus!
