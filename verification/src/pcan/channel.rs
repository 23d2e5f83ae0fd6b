//! An open channel: polling for frames, the state of the bus, and the end of a session.

use vstd::prelude::*;
use vstd::string::*;

use crate::can::{
    CanActiveConfig, CanBusState, CanBusStatus, CanFrame, CanTimestamp, CanTimestampSource,
    ClockDomain, ReceivedCanFrame,
};
use crate::error::{ErrorCategory, HalError, HalErrorView, HalResult};
use crate::pcan::driver_error;
use crate::pcan::driver_error::{
    map_driver_error, DriverError, DriverFault, PCAN_ERROR_BUSHEAVY, PCAN_ERROR_BUSLIGHT,
    PCAN_ERROR_BUSOFF, PCAN_ERROR_BUSPASSIVE, PCAN_ERROR_OK,
};
use crate::pcan::message::RawReceive;
use crate::resource::ResourceDescriptor;

verus! {

/// How many reads may follow each other without a look at the clock.
pub const MAX_SKIPPED_DIAGNOSTICS: u32 = 64;

/// The longest pause between two polls in nanoseconds.
pub const RECEIVE_POLL_NANOSECONDS: u64 = 1_000_000;

/// What a receive does next.
#[derive(Clone, Debug, PartialEq, Eq)]
pub enum ReceiveAction {
    /// Hands out a frame.
    Deliver(ReceivedCanFrame),
    /// Reads once more.
    ReadAgain,
    /// Looks at the clock.
    CheckDeadline,
}

/// A frame with its time in nanoseconds of the driver's clock.
pub open spec fn timed_frame(frame: CanFrame, time: u64) -> ReceivedCanFrame {
    ReceivedCanFrame {
        frame,
        timestamp: Some(
            CanTimestamp {
                nanoseconds: time,
                source: CanTimestampSource::HostMonotonic,
                clock_domain: ClockDomain::PcanBasic,
            },
        ),
    }
}

/// How many reads have followed each other in a receive.
#[derive(Clone, Copy, Debug, PartialEq, Eq, Structural)]
pub struct ReceivePoll {
    pub reads: u32,
}

impl ReceivePoll {
    /// The start of a receive.
    pub fn new() -> (poll: ReceivePoll)
        ensures
            poll.reads == 0,
    {
        ReceivePoll { reads: 0 }
    }

    /// Takes what a read gave. A frame is handed out. After a diagnostic the channel is read again
    /// at once, but not more often than the limit.
    pub fn on_read(&mut self, read: RawReceive) -> (action: ReceiveAction)
        requires
            old(self).reads < MAX_SKIPPED_DIAGNOSTICS,
        ensures
            final(self).reads < MAX_SKIPPED_DIAGNOSTICS,
            match read {
                RawReceive::Frame(frame, time) => {
                    &&& action == ReceiveAction::Deliver(timed_frame(frame, time))
                    &&& final(self).reads == 0
                },
                RawReceive::Skipped => if old(self).reads + 1 < MAX_SKIPPED_DIAGNOSTICS {
                    &&& action == ReceiveAction::ReadAgain
                    &&& final(self).reads == old(self).reads + 1
                } else {
                    &&& action == ReceiveAction::CheckDeadline
                    &&& final(self).reads == 0
                },
                RawReceive::Empty => {
                    &&& action == ReceiveAction::CheckDeadline
                    &&& final(self).reads == 0
                },
            },
    {
        match read {
            RawReceive::Frame(frame, time) => {
                self.reads = 0;
                ReceiveAction::Deliver(
                    ReceivedCanFrame {
                        frame,
                        timestamp: Some(
                            CanTimestamp {
                                nanoseconds: time,
                                source: CanTimestampSource::HostMonotonic,
                                clock_domain: ClockDomain::PcanBasic,
                            },
                        ),
                    },
                )
            },
            RawReceive::Skipped => {
                if self.reads + 1 < MAX_SKIPPED_DIAGNOSTICS {
                    self.reads = self.reads + 1;
                    ReceiveAction::ReadAgain
                } else {
                    self.reads = 0;
                    ReceiveAction::CheckDeadline
                }
            },
            RawReceive::Empty => {
                self.reads = 0;
                ReceiveAction::CheckDeadline
            },
        }
    }
}

/// How long to pause before the next poll, in nanoseconds; none where the receive is over.
pub fn pause_before_poll(timeout: u64, remaining: u64) -> (pause: Option<u64>)
    ensures
        pause == if timeout == 0 || remaining == 0 {
            None
        } else if remaining < RECEIVE_POLL_NANOSECONDS {
            Some(remaining)
        } else {
            Some(RECEIVE_POLL_NANOSECONDS)
        },
{
    if timeout == 0 || remaining == 0 {
        None
    } else if remaining < RECEIVE_POLL_NANOSECONDS {
        Some(remaining)
    } else {
        Some(RECEIVE_POLL_NANOSECONDS)
    }
}

/// The state of the bus that a status reports, if it reports one: the most severe condition
/// decides.
pub open spec fn bus_state(status: u32) -> Option<CanBusState> {
    if driver_error::any_bit(status, PCAN_ERROR_BUSOFF) {
        Some(CanBusState::BusOff)
    } else if driver_error::any_bit(status, PCAN_ERROR_BUSPASSIVE) {
        Some(CanBusState::Passive)
    } else if driver_error::any_bit(status, PCAN_ERROR_BUSHEAVY) || driver_error::any_bit(
        status,
        PCAN_ERROR_BUSLIGHT,
    ) {
        Some(CanBusState::Warning)
    } else if status == PCAN_ERROR_OK {
        Some(CanBusState::Active)
    } else {
        None
    }
}

/// The status of the bus. The driver has no portable error counters, so none are given.
pub fn bus_status(status: u32) -> (result: Result<CanBusStatus, DriverError>)
    ensures
        match result {
            Ok(found) => {
                &&& bus_state(status) == Some(found.state)
                &&& found.tx_error_counter is None
                &&& found.rx_error_counter is None
            },
            Err(error) => bus_state(status) is None && error@ == DriverFault::Status(status),
        },
{
    let state = if status & PCAN_ERROR_BUSOFF != 0 {
        CanBusState::BusOff
    } else if status & PCAN_ERROR_BUSPASSIVE != 0 {
        CanBusState::Passive
    } else if status & PCAN_ERROR_BUSHEAVY != 0 {
        CanBusState::Warning
    } else if status & PCAN_ERROR_BUSLIGHT != 0 {
        CanBusState::Warning
    } else if status == PCAN_ERROR_OK {
        CanBusState::Active
    } else {
        return Err(DriverError::Status(status));
    };
    Ok(CanBusStatus { state, tx_error_counter: None, rx_error_counter: None })
}

/// The error of an operation on a closed channel.
pub open spec fn closed_error(operation: Seq<char>, id: Seq<char>) -> HalErrorView {
    HalErrorView::new(
        "runtime.session.closed"@,
        ErrorCategory::Conflict,
        operation,
        false,
        "PCAN channel is closed"@,
    ).about(id)
}

/// A channel of a session.
pub struct NativePcanChannel {
    descriptor: ResourceDescriptor,
    active: CanActiveConfig,
    closed: bool,
}

/// The mathematical content of a [`NativePcanChannel`].
pub struct ChannelView {
    pub descriptor: ResourceDescriptor,
    pub active: CanActiveConfig,
    pub closed: bool,
}

impl View for NativePcanChannel {
    type V = ChannelView;

    closed spec fn view(&self) -> ChannelView {
        ChannelView { descriptor: self.descriptor, active: self.active, closed: self.closed }
    }
}

/// The result of an operation with the driver's failure as a structured error.
pub open spec fn mapped<T>(
    result: Result<T, DriverError>,
    mapped_result: HalResult<T>,
    operation: Seq<char>,
    id: Seq<char>,
) -> bool {
    match result {
        Ok(value) => mapped_result == HalResult::<T>::Ok(value),
        Err(error) => {
            &&& mapped_result is Err
            &&& mapped_result->Err_0@ == driver_error::mapped_error(operation, error@, Some(id))
        },
    }
}

impl NativePcanChannel {
    /// An open channel.
    pub fn new(descriptor: ResourceDescriptor, active: CanActiveConfig) -> (channel: Self)
        ensures
            channel@ == (ChannelView { descriptor, active, closed: false }),
    {
        NativePcanChannel { descriptor, active, closed: false }
    }

    /// The resource of the channel.
    pub fn descriptor(&self) -> (descriptor: &ResourceDescriptor)
        ensures
            *descriptor == self@.descriptor,
    {
        &self.descriptor
    }

    /// How the channel is configured.
    pub fn active_config(&self) -> (active: &CanActiveConfig)
        ensures
            *active == self@.active,
    {
        &self.active
    }

    /// Refuses an operation on a closed channel.
    pub fn ensure_open(&self, operation: &'static str) -> (result: HalResult<()>)
        ensures
            match result {
                Ok(()) => !self@.closed,
                Err(error) => {
                    &&& self@.closed
                    &&& error@ == closed_error(operation@, self@.descriptor.id@)
                },
            },
    {
        if self.closed {
            return Err(
                HalError::fixed(
                    "runtime.session.closed",
                    ErrorCategory::Conflict,
                    operation,
                    false,
                    "PCAN channel is closed",
                ).with_resource_id(self.descriptor.id.copy()),
            );
        }
        Ok(())
    }

    /// The result of an operation on the channel.
    pub fn complete<T>(
        &self,
        operation: &'static str,
        result: Result<T, DriverError>,
    ) -> (mapped_result: HalResult<T>)
        ensures
            mapped(result, mapped_result, operation@, self@.descriptor.id@),
    {
        match result {
            Ok(value) => Ok(value),
            Err(error) => Err(map_driver_error(operation, error, Some(&self.descriptor.id))),
        }
    }

    /// Whether the driver still has to close the channel.
    pub fn needs_close(&self) -> (needed: bool)
        ensures
            needed == !self@.closed,
    {
        !self.closed
    }

    /// Takes the driver's answer to a close: the channel is closed where it succeeded, and stays
    /// open where it failed. A channel that is closed already stays so, whatever the answer.
    pub fn close(&mut self, result: Result<(), DriverError>) -> (mapped_result: HalResult<()>)
        ensures
            final(self)@ == (ChannelView {
                closed: old(self)@.closed || result is Ok,
                ..old(self)@
            }),
            if old(self)@.closed {
                mapped_result is Ok
            } else {
                mapped(result, mapped_result, "can.close"@, old(self)@.descriptor.id@)
            },
    {
        if self.closed {
            return Ok(());
        }
        match result {
            Ok(()) => {
                self.closed = true;
                Ok(())
            },
            Err(error) => Err(map_driver_error("can.close", error, Some(&self.descriptor.id))),
        }
    }
}

/// A frame is handed out with the time that the driver gave it, on the driver's own clock.
pub proof fn law_frames_keep_their_times(frame: CanFrame, time: u64)
    ensures
        timed_frame(frame, time).frame == frame,
        timed_frame(frame, time).timestamp matches Some(timestamp) && timestamp.nanoseconds == time
            && timestamp.clock_domain == ClockDomain::PcanBasic && timestamp.source
            == CanTimestampSource::HostMonotonic,
{
}

/// The state of a bus by the bits of a status: off before passive before warned, and active exactly
/// where nothing is reported.
pub proof fn law_most_severe_bus_state_is_told(status: u32)
    ensures
        status & 0x10 != 0 ==> bus_state(status) == Some(CanBusState::BusOff),
        status & 0x10 == 0 && status & 0x40000 != 0 ==> bus_state(status) == Some(
            CanBusState::Passive,
        ),
        status & 0x10 == 0 && status & 0x40000 == 0 && (status & 0x8 != 0 || status & 0x4 != 0)
            ==> bus_state(status) == Some(CanBusState::Warning),
        bus_state(status) == Some(CanBusState::Active) <==> status == 0,
        status != 0 && status & 0x10 == 0 && status & 0x40000 == 0 && status & 0x8 == 0 && status
            & 0x4 == 0 ==> bus_state(status) is None,
{
    assert(0u32 & 0x10 == 0 && 0u32 & 0x40000 == 0 && 0u32 & 0x8 == 0 && 0u32 & 0x4 == 0)
        by (bit_vector);
}

/// A result of the driver is passed on: its value as it is, and its failure under the operation and
/// the resource.
pub proof fn law_driver_results_are_passed_on<T>(
    result: Result<T, DriverError>,
    passed: HalResult<T>,
    operation: Seq<char>,
    id: Seq<char>,
)
    requires
        mapped(result, passed, operation, id),
    ensures
        result is Ok <==> passed is Ok,
        result matches Ok(value) ==> passed->Ok_0 == value,
        result is Err ==> passed->Err_0@.operation == operation && passed->Err_0@.resource_id == Some(
            id,
        ),
{
}

} // verus!
