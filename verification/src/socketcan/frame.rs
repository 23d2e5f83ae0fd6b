//! Frames as the sockets carry them, and how a frame is sent.

use vstd::prelude::*;
use vstd::string::*;

use crate::can;
use crate::can::{CanErrorClass, CanFrame, CanFrameView, CanId, CanMode, ReceivedCanFrame};
use crate::error::{ErrorCategory, HalError, HalErrorView, HalResult, IoError, IoErrorKind};
use crate::resource::ResourceId;
use crate::socketcan::fault;
use crate::socketcan::fault::map_io_error;

verus! {

/// A frame as a socket hands it out.
#[derive(Clone, Debug, PartialEq, Eq)]
pub enum SocketFrame {
    Data { id: CanId, data: Vec<u8> },
    Fd { id: CanId, data: Vec<u8>, bitrate_switch: bool, error_state_indicator: bool },
    Remote { id: CanId, dlc: usize },
    Error { bits: u32, data: Vec<u8> },
}

/// The error classes in the order of their bits.
pub open spec fn class_table() -> Seq<(u32, CanErrorClass)> {
    seq![
        (0x0001u32, CanErrorClass::TxTimeout),
        (0x0002u32, CanErrorClass::LostArbitration),
        (0x0004u32, CanErrorClass::Controller),
        (0x0008u32, CanErrorClass::Protocol),
        (0x0010u32, CanErrorClass::Transceiver),
        (0x0020u32, CanErrorClass::NoAcknowledgement),
        (0x0040u32, CanErrorClass::BusOff),
        (0x0080u32, CanErrorClass::BusError),
        (0x0100u32, CanErrorClass::Restarted),
    ]
}

/// The classes among the first `count` whose bits are set, in order.
pub open spec fn named_classes(bits: u32, count: nat) -> Seq<CanErrorClass>
    decreases count,
{
    if count == 0 {
        Seq::empty()
    } else {
        let before = named_classes(bits, (count - 1) as nat);
        let (mask, class) = class_table()[count - 1];
        if bits & mask != 0 {
            before.push(class)
        } else {
            before
        }
    }
}

/// What an error frame reports: the classes whose bits are set, or an unnamed one.
pub open spec fn error_classes(bits: u32) -> Seq<CanErrorClass> {
    if named_classes(bits, 9).len() == 0 {
        seq![CanErrorClass::Other]
    } else {
        named_classes(bits, 9)
    }
}

fn classes_of(bits: u32) -> (classes: Vec<CanErrorClass>)
    ensures
        classes@ == error_classes(bits),
{
    let table = [
        (0x0001u32, CanErrorClass::TxTimeout),
        (0x0002u32, CanErrorClass::LostArbitration),
        (0x0004u32, CanErrorClass::Controller),
        (0x0008u32, CanErrorClass::Protocol),
        (0x0010u32, CanErrorClass::Transceiver),
        (0x0020u32, CanErrorClass::NoAcknowledgement),
        (0x0040u32, CanErrorClass::BusOff),
        (0x0080u32, CanErrorClass::BusError),
        (0x0100u32, CanErrorClass::Restarted),
    ];
    proof {
        assert(table@ =~= class_table());
    }
    let mut classes: Vec<CanErrorClass> = Vec::new();
    let mut index: usize = 0;
    while index < 9
        invariant
            index <= 9,
            table@ == class_table(),
            classes@ == named_classes(bits, index as nat),
        decreases 9 - index,
    {
        let (mask, class) = table[index];
        if bits & mask != 0 {
            classes.push(class);
        }
        index += 1;
    }
    if classes.len() == 0 {
        classes.push(CanErrorClass::Other);
        proof {
            assert(classes@ =~= seq![CanErrorClass::Other]);
        }
    }
    classes
}

/// The error of an identifier that exceeds its width.
pub open spec fn id_error(id: CanId) -> HalErrorView {
    match id {
        CanId::Standard(_) => can::frame_error("standard CAN identifier exceeds 11 bits"@),
        CanId::Extended(_) => can::frame_error("extended CAN identifier exceeds 29 bits"@),
    }
}

/// The error of a frame that cannot be handled.
pub open spec fn invalid_frame_error(operation: Seq<char>, message: Seq<char>) -> HalErrorView {
    HalErrorView::new(
        "can.frame.invalid"@,
        ErrorCategory::InvalidArgument,
        operation,
        false,
        message,
    )
}

fn invalid_frame(operation: &'static str, message: &'static str) -> (error: HalError)
    ensures
        error@ == invalid_frame_error(operation@, message@),
{
    HalError::fixed("can.frame.invalid", ErrorCategory::InvalidArgument, operation, false, message)
}

/// A frame, if a bus carries it.
pub open spec fn checked_frame(frame: CanFrameView) -> Result<CanFrameView, HalErrorView> {
    match can::frame_refusal(frame) {
        Some(reason) => Err(can::frame_error(reason)),
        None => Ok(frame),
    }
}

/// The frame that a socket hands out, or why it is none.
pub open spec fn received_frame(frame: SocketFrame) -> Result<CanFrameView, HalErrorView> {
    match frame {
        SocketFrame::Data { id, data } => if !id.valid() {
            Err(id_error(id))
        } else {
            checked_frame(CanFrameView::ClassicData { id, data: data@ })
        },
        SocketFrame::Fd { id, data, bitrate_switch, error_state_indicator } => if !id.valid() {
            Err(id_error(id))
        } else {
            checked_frame(
                CanFrameView::FdData { id, data: data@, bitrate_switch, error_state_indicator },
            )
        },
        SocketFrame::Remote { id, dlc } => if !id.valid() {
            Err(id_error(id))
        } else if dlc > u8::MAX {
            Err(invalid_frame_error("can.receive"@, "remote DLC exceeds u8"@))
        } else {
            checked_frame(CanFrameView::ClassicRemote { id, dlc: dlc as u8 })
        },
        SocketFrame::Error { bits, data } => checked_frame(
            CanFrameView::Error { classes: error_classes(bits), data: data@ },
        ),
    }
}

/// The contents of a result with a frame.
pub open spec fn frame_outcome(result: HalResult<CanFrame>) -> Result<CanFrameView, HalErrorView> {
    match result {
        Ok(frame) => Ok(frame@),
        Err(error) => Err(error@),
    }
}

fn checked_id(id: CanId) -> (result: HalResult<CanId>)
    ensures
        match result {
            Ok(kept) => id.valid() && kept == id,
            Err(error) => !id.valid() && error@ == id_error(id),
        },
{
    match id {
        CanId::Standard(value) => CanId::standard(value),
        CanId::Extended(value) => CanId::extended(value),
    }
}

/// The frame that a socket hands out.
pub fn from_socketcan_frame(frame: SocketFrame) -> (result: HalResult<CanFrame>)
    ensures
        frame_outcome(result) == received_frame(frame),
        result matches Ok(taken) ==> match frame {
            SocketFrame::Data { id, data } => taken matches CanFrame::ClassicData {
                id: kept,
                data: bytes,
            } && kept == id && bytes@ == data@,
            SocketFrame::Fd { id, data, bitrate_switch, error_state_indicator } => taken
                matches CanFrame::FdData {
                id: kept,
                data: bytes,
                bitrate_switch: switched,
                error_state_indicator: indicated,
            } && kept == id && bytes@ == data@ && switched == bitrate_switch && indicated
                == error_state_indicator,
            SocketFrame::Remote { id, dlc } => taken matches CanFrame::ClassicRemote {
                id: kept,
                dlc: length,
            } && kept == id && length == dlc,
            SocketFrame::Error { bits, data } => taken matches CanFrame::Error {
                classes,
                data: bytes,
            } && bytes@ == data@ && (classes@.contains(CanErrorClass::BusOff) <==> bits & 0x0040
                != 0),
        },
{
    proof {
        if let SocketFrame::Error { bits, .. } = frame {
            law_error_classes_by_bit(bits);
        }
    }
    match frame {
        SocketFrame::Data { id, data } => {
            let id = checked_id(id)?;
            CanFrame::classic_data(id, data)
        },
        SocketFrame::Fd { id, data, bitrate_switch, error_state_indicator } => {
            let id = checked_id(id)?;
            CanFrame::fd_data(id, data, bitrate_switch, error_state_indicator)
        },
        SocketFrame::Remote { id, dlc } => {
            let id = checked_id(id)?;
            if dlc > u8::MAX as usize {
                return Err(invalid_frame("can.receive", "remote DLC exceeds u8"));
            }
            CanFrame::classic_remote(id, dlc as u8)
        },
        SocketFrame::Error { bits, data } => CanFrame::error(classes_of(bits), data),
    }
}

/// An error frame names a class for each of its known bits, and for no other.
pub proof fn law_error_classes_follow_the_bits(bits: u32, position: int)
    requires
        0 <= position < 9,
    ensures
        error_classes(bits).contains(class_table()[position].1) <==> bits
            & class_table()[position].0 != 0,
        error_classes(bits).len() > 0,
{
    lemma_named_classes(bits, 9, position);
}

proof fn lemma_named_classes(bits: u32, count: nat, position: int)
    requires
        count <= 9,
        0 <= position < 9,
    ensures
        named_classes(bits, count).contains(class_table()[position].1) <==> position < count
            && bits & class_table()[position].0 != 0,
    decreases count,
{
    if count > 0 {
        let before = named_classes(bits, (count - 1) as nat);
        let (mask, class) = class_table()[count - 1];
        lemma_named_classes(bits, (count - 1) as nat, position);
        let wanted = class_table()[position].1;
        if bits & mask != 0 {
            let after = before.push(class);
            if before.contains(wanted) {
                let i = choose|i: int| 0 <= i < before.len() && before[i] == wanted;
                assert(after[i] == wanted);
            }
            if position == count - 1 {
                assert(after[before.len() as int] == wanted);
            }
            if after.contains(wanted) {
                let i = choose|i: int| 0 <= i < after.len() && after[i] == wanted;
                if i < before.len() {
                    assert(before[i] == wanted);
                }
            }
        }
    }
}

/// The socket through which a frame is sent.
#[derive(Clone, Copy, Debug, PartialEq, Eq, Structural)]
pub enum SendRoute {
    Classic,
    Fd,
    Remote,
}

/// The error of a frame that the link does not carry.
pub open spec fn unsupported_frame_error(message: Seq<char>, id: Seq<char>) -> HalErrorView {
    HalErrorView::new(
        "runtime.transport.unsupported_configuration"@,
        ErrorCategory::InvalidArgument,
        "can.send"@,
        false,
        message,
    ).about(id)
}

fn unsupported_frame(message: &'static str, id: &ResourceId) -> (error: HalError)
    ensures
        error@ == unsupported_frame_error(message@, id@),
{
    HalError::fixed(
        "runtime.transport.unsupported_configuration",
        ErrorCategory::InvalidArgument,
        "can.send",
        false,
        message,
    ).with_resource_id(id.copy())
}

/// How a frame is sent on a link, or why it is not.
pub open spec fn route_of(frame: CanFrameView, mode: CanMode, id: Seq<char>) -> Result<
    SendRoute,
    HalErrorView,
> {
    match can::frame_refusal(frame) {
        Some(reason) => Err(can::frame_error(reason).about(id)),
        None => match frame {
            CanFrameView::ClassicData { .. } => Ok(SendRoute::Classic),
            CanFrameView::FdData { .. } => if mode != CanMode::Fd {
                Err(
                    unsupported_frame_error(
                        "CAN FD transmission requires an FD-configured link"@,
                        id,
                    ),
                )
            } else {
                Ok(SendRoute::Fd)
            },
            CanFrameView::ClassicRemote { .. } => Ok(SendRoute::Remote),
            CanFrameView::Error { .. } => Err(
                unsupported_frame_error(
                    "SocketCAN error frames are receive diagnostics and cannot be transmitted"@,
                    id,
                ),
            ),
        },
    }
}

/// How a frame is sent on a link.
pub fn send_route(frame: &CanFrame, mode: CanMode, id: &ResourceId) -> (result: HalResult<SendRoute>)
    ensures
        match result {
            Ok(route) => route_of(frame@, mode, id@) == Ok::<SendRoute, HalErrorView>(route),
            Err(error) => route_of(frame@, mode, id@) == Err::<SendRoute, HalErrorView>(error@),
        },
{
    if let Err(error) = frame.validate() {
        return Err(error.with_resource_id(id.copy()));
    }
    match frame {
        CanFrame::ClassicData { .. } => Ok(SendRoute::Classic),
        CanFrame::FdData { .. } => {
            if mode != CanMode::Fd {
                return Err(
                    unsupported_frame("CAN FD transmission requires an FD-configured link", id),
                );
            }
            Ok(SendRoute::Fd)
        },
        CanFrame::ClassicRemote { .. } => Ok(SendRoute::Remote),
        CanFrame::Error { .. } => Err(
            unsupported_frame(
                "SocketCAN error frames are receive diagnostics and cannot be transmitted",
                id,
            ),
        ),
    }
}

/// The error of a valid frame that the socket's own frame type does not take.
pub fn conversion_error(route: SendRoute, id: &ResourceId) -> (error: HalError)
    ensures
        error@ == invalid_frame_error(
            "can.send"@,
            match route {
                SendRoute::Classic => "failed to convert a validated Classical CAN frame"@,
                SendRoute::Fd => "failed to convert a validated CAN FD frame"@,
                SendRoute::Remote => "failed to convert remote frame"@,
            },
        ).about(id@),
{
    let message = match route {
        SendRoute::Classic => "failed to convert a validated Classical CAN frame",
        SendRoute::Fd => "failed to convert a validated CAN FD frame",
        SendRoute::Remote => "failed to convert remote frame",
    };
    invalid_frame("can.send", message).with_resource_id(id.copy())
}

/// The longest single wait for a frame in nanoseconds.
pub const MAX_RECEIVE_POLL_NANOSECONDS: u64 = 100_000_000;

/// How long one receive waits for a frame; zero does not wait.
pub fn receive_wait(timeout: u64) -> (wait: u64)
    ensures
        wait == if timeout < MAX_RECEIVE_POLL_NANOSECONDS {
            timeout
        } else {
            MAX_RECEIVE_POLL_NANOSECONDS
        },
{
    if timeout < MAX_RECEIVE_POLL_NANOSECONDS {
        timeout
    } else {
        MAX_RECEIVE_POLL_NANOSECONDS
    }
}

/// A read that failed.
pub struct ReadFailure {
    pub error: IoError,
    pub kind_name: String,
}

/// What a receive gives: no frame where none came in time.
pub open spec fn receive_outcome(read: Result<SocketFrame, ReadFailure>, id: Seq<char>) -> Result<
    Option<CanFrameView>,
    HalErrorView,
> {
    match read {
        Ok(frame) => match received_frame(frame) {
            Ok(view) => Ok(Some(view)),
            Err(error) => Err(error.about(id)),
        },
        Err(failure) => if failure.error.kind == IoErrorKind::WouldBlock || failure.error.kind
            == IoErrorKind::TimedOut {
            Ok(None)
        } else {
            Err(fault::socket_error("can.receive"@, failure.error, failure.kind_name@).about(id))
        },
    }
}

/// What a receive gives: no frame where none came in time. The socket reports no time.
pub fn received(read: Result<SocketFrame, ReadFailure>, id: &ResourceId) -> (result: HalResult<
    Option<ReceivedCanFrame>,
>)
    ensures
        match (result, receive_outcome(read, id@)) {
            (Ok(None), Ok(None)) => true,
            (Ok(Some(received)), Ok(Some(view))) => {
                &&& received.frame@ == view
                &&& received.timestamp is None
            },
            (Err(error), Err(view)) => error@ == view,
            _ => false,
        },
{
    match read {
        Ok(frame) => match from_socketcan_frame(frame) {
            Ok(frame) => Ok(Some(ReceivedCanFrame { frame, timestamp: None })),
            Err(error) => Err(error.with_resource_id(id.copy())),
        },
        Err(failure) => {
            if failure.error.kind == IoErrorKind::WouldBlock || failure.error.kind
                == IoErrorKind::TimedOut {
                return Ok(None);
            }
            Err(
                map_io_error(
                    "can.receive",
                    &failure.error,
                    failure.kind_name.as_str(),
                ).with_resource_id(id.copy()),
            )
        },
    }
}

/// A received frame is the one that came: its identifier, its bytes in order and its two flags are
/// those of the socket's frame, a remote frame has the length asked for, and an error frame the bytes
/// that came with it. Every frame that a bus carries is received.
pub proof fn law_received_frame_is_the_one_that_came(frame: SocketFrame)
    ensures
        received_frame(frame) matches Ok(view) ==> match frame {
            SocketFrame::Data { id, data } => {
                &&& view matches CanFrameView::ClassicData { id: kept, data: bytes }
                &&& kept == id
                &&& bytes.len() == data@.len()
                &&& forall|i: int| 0 <= i < data@.len() ==> (#[trigger] bytes[i]) == data@[i]
            },
            SocketFrame::Fd { id, data, bitrate_switch, error_state_indicator } => {
                &&& view matches CanFrameView::FdData {
                    id: kept,
                    data: bytes,
                    bitrate_switch: switched,
                    error_state_indicator: indicated,
                }
                &&& kept == id
                &&& bytes.len() == data@.len()
                &&& forall|i: int| 0 <= i < data@.len() ==> (#[trigger] bytes[i]) == data@[i]
                &&& switched == bitrate_switch
                &&& indicated == error_state_indicator
            },
            SocketFrame::Remote { id, dlc } => {
                &&& view matches CanFrameView::ClassicRemote { id: kept, dlc: length }
                &&& kept == id
                &&& length == dlc
            },
            SocketFrame::Error { bits, data } => {
                &&& view matches CanFrameView::Error { classes, data: bytes }
                &&& classes == error_classes(bits)
                &&& bytes.len() == data@.len()
                &&& forall|i: int| 0 <= i < data@.len() ==> (#[trigger] bytes[i]) == data@[i]
            },
        },
        received_frame(frame) is Ok <==> match frame {
            SocketFrame::Data { id, data } => id.valid() && data@.len() <= 8,
            SocketFrame::Fd { id, data, .. } => id.valid() && can::fd_length(data@.len() as int),
            SocketFrame::Remote { id, dlc } => id.valid() && dlc <= 8,
            SocketFrame::Error { data, .. } => data@.len() <= 8,
        },
{
    if let SocketFrame::Error { bits, .. } = frame {
        law_error_classes_follow_the_bits(bits, 0);
    }
}

/// The classes of an error frame by its bits; one without a known bit is of no named class.
pub proof fn law_error_classes_by_bit(bits: u32)
    ensures
        ({
            let classes = error_classes(bits);
            &&& classes.contains(CanErrorClass::TxTimeout) <==> bits & 0x0001 != 0
            &&& classes.contains(CanErrorClass::LostArbitration) <==> bits & 0x0002 != 0
            &&& classes.contains(CanErrorClass::Controller) <==> bits & 0x0004 != 0
            &&& classes.contains(CanErrorClass::Protocol) <==> bits & 0x0008 != 0
            &&& classes.contains(CanErrorClass::Transceiver) <==> bits & 0x0010 != 0
            &&& classes.contains(CanErrorClass::NoAcknowledgement) <==> bits & 0x0020 != 0
            &&& classes.contains(CanErrorClass::BusOff) <==> bits & 0x0040 != 0
            &&& classes.contains(CanErrorClass::BusError) <==> bits & 0x0080 != 0
            &&& classes.contains(CanErrorClass::Restarted) <==> bits & 0x0100 != 0
            &&& classes == seq![CanErrorClass::Other] || classes == named_classes(bits, 9)
            &&& named_classes(bits, 9).len() == 0 ==> classes == seq![CanErrorClass::Other]
        }),
{
    law_error_classes_follow_the_bits(bits, 0);
    law_error_classes_follow_the_bits(bits, 1);
    law_error_classes_follow_the_bits(bits, 2);
    law_error_classes_follow_the_bits(bits, 3);
    law_error_classes_follow_the_bits(bits, 4);
    law_error_classes_follow_the_bits(bits, 5);
    law_error_classes_follow_the_bits(bits, 6);
    law_error_classes_follow_the_bits(bits, 7);
    law_error_classes_follow_the_bits(bits, 8);
}

/// A frame is sent through the socket of its own kind: every valid Classical frame on every link, a
/// valid CAN FD frame exactly on a link with CAN FD, and an error frame never.
pub proof fn law_frames_go_out_by_their_kind(frame: CanFrameView, mode: CanMode, id: Seq<char>)
    ensures
        route_of(frame, mode, id) == Ok::<SendRoute, HalErrorView>(SendRoute::Classic) <==> frame
            is ClassicData && can::frame_refusal(frame) is None,
        route_of(frame, mode, id) == Ok::<SendRoute, HalErrorView>(SendRoute::Remote) <==> frame
            is ClassicRemote && can::frame_refusal(frame) is None,
        route_of(frame, mode, id) == Ok::<SendRoute, HalErrorView>(SendRoute::Fd) <==> frame
            is FdData && mode == CanMode::Fd && can::frame_refusal(frame) is None,
        frame is Error ==> route_of(frame, mode, id) is Err,
        route_of(frame, mode, id) matches Err(error) ==> error.resource_id == Some(id)
            && !error.retryable,
{
}

/// No frame in time is no failure, and every other failed read is one. A frame that came is handed on
/// or refused as such.
pub proof fn law_silence_is_no_failure(read: Result<SocketFrame, ReadFailure>, id: Seq<char>)
    ensures
        receive_outcome(read, id) == Ok::<Option<CanFrameView>, HalErrorView>(None) <==> read is Err
            && (read->Err_0.error.kind == IoErrorKind::TimedOut || read->Err_0.error.kind
            == IoErrorKind::WouldBlock),
        receive_outcome(read, id) matches Ok(Some(view)) ==> read is Ok && received_frame(
            read->Ok_0,
        ) == Ok::<CanFrameView, HalErrorView>(view),
        receive_outcome(read, id) matches Err(error) ==> error.resource_id == Some(id),
{
}

/// A frame is handed out exactly where a bus can carry it; an identifier with too many bits is told
/// before anything else.
pub proof fn law_possible_frames_are_handed_out(frame: SocketFrame)
    ensures
        received_frame(frame) is Ok <==> match frame {
            SocketFrame::Data { id, data } => id.valid() && data@.len() <= 8,
            SocketFrame::Fd { id, data, .. } => id.valid() && (data@.len() <= 8 || (data@.len() <= 24
                && data@.len() % 4 == 0) || data@.len() == 32 || data@.len() == 48 || data@.len()
                == 64),
            SocketFrame::Remote { id, dlc } => id.valid() && dlc <= 8,
            SocketFrame::Error { data, .. } => data@.len() <= 8,
        },
        match frame {
            SocketFrame::Data { id, .. } | SocketFrame::Fd { id, .. } | SocketFrame::Remote {
                id,
                ..
            } => !id.valid() ==> received_frame(frame)->Err_0.message == match id {
                CanId::Standard(_) => "standard CAN identifier exceeds 11 bits"@,
                CanId::Extended(_) => "extended CAN identifier exceeds 29 bits"@,
            },
            SocketFrame::Error { .. } => true,
        },
        received_frame(frame) matches Err(error) ==> error.name == "can.frame.invalid"@
            && error.category == ErrorCategory::InvalidArgument && !error.retryable,
{
    if let SocketFrame::Error { bits, data } = frame {
        law_error_classes_by_bit(bits);
        can::law_bus_carries_frames_exactly(
            CanFrameView::Error { classes: error_classes(bits), data: data@ },
        );
    }
}

} // verus!
