//! The messages of the driver and the frames that they carry.

use vstd::prelude::*;
use vstd::slice::*;
use vstd::string::*;

use crate::can;
use crate::can::{CanFrame, CanFrameView, CanId};
use crate::pcan::driver_error::{
    check_status, DriverError, DriverFault, PCAN_ERROR_OK, PCAN_ERROR_QRCVEMPTY,
};
use crate::text;
use crate::text::{push_decimal, push_short_upper_hex};

verus! {

pub const PCAN_MESSAGE_RTR: u8 = 0x01;

pub const PCAN_MESSAGE_EXTENDED: u8 = 0x02;

pub const PCAN_MESSAGE_FD: u8 = 0x04;

pub const PCAN_MESSAGE_BRS: u8 = 0x08;

pub const PCAN_MESSAGE_ESI: u8 = 0x10;

pub const PCAN_MESSAGE_ERRFRAME: u8 = 0x40;

pub const PCAN_MESSAGE_STATUS: u8 = 0x80;

/// A Classical message.
#[derive(Clone, Copy, Debug, PartialEq, Eq)]
pub struct PcanMessage {
    pub id: u32,
    pub message_type: u8,
    pub len: u8,
    pub data: [u8; 8],
}

/// A message on a CAN FD channel.
#[derive(Clone, Copy, Debug, PartialEq, Eq)]
pub struct PcanMessageFd {
    pub id: u32,
    pub message_type: u8,
    pub dlc: u8,
    pub data: [u8; 64],
}

/// The mathematical content of a message.
#[verifier::ext_equal]
pub struct MessageView {
    pub id: u32,
    pub message_type: u8,
    pub length: u8,
    pub data: Seq<u8>,
}

impl View for PcanMessage {
    type V = MessageView;

    open spec fn view(&self) -> MessageView {
        MessageView {
            id: self.id,
            message_type: self.message_type,
            length: self.len,
            data: self.data@,
        }
    }
}

impl View for PcanMessageFd {
    type V = MessageView;

    open spec fn view(&self) -> MessageView {
        MessageView {
            id: self.id,
            message_type: self.message_type,
            length: self.dlc,
            data: self.data@,
        }
    }
}

/// The data length code of a payload length.
pub open spec fn dlc_of(length: int) -> Option<u8> {
    if 0 <= length <= 8 {
        Some(length as u8)
    } else if length == 12 {
        Some(9)
    } else if length == 16 {
        Some(10)
    } else if length == 20 {
        Some(11)
    } else if length == 24 {
        Some(12)
    } else if length == 32 {
        Some(13)
    } else if length == 48 {
        Some(14)
    } else if length == 64 {
        Some(15)
    } else {
        None
    }
}

/// The payload length of a data length code.
pub open spec fn length_of(dlc: u8) -> u8 {
    if dlc <= 8 {
        dlc
    } else if dlc == 9 {
        12
    } else if dlc == 10 {
        16
    } else if dlc == 11 {
        20
    } else if dlc == 12 {
        24
    } else if dlc == 13 {
        32
    } else if dlc == 14 {
        48
    } else {
        64
    }
}

/// The data length code of a payload length.
pub fn len_to_dlc(length: usize) -> (dlc: Option<u8>)
    ensures
        dlc == dlc_of(length as int),
{
    if length <= 8 {
        return Some(length as u8);
    }
    match length {
        12 => Some(9),
        16 => Some(10),
        20 => Some(11),
        24 => Some(12),
        32 => Some(13),
        48 => Some(14),
        64 => Some(15),
        _ => None,
    }
}

/// The payload length of a data length code.
pub fn dlc_to_len(dlc: u8) -> (length: u8)
    ensures
        length == length_of(dlc),
{
    if dlc <= 8 {
        return dlc;
    }
    match dlc {
        9 => 12,
        10 => 16,
        11 => 20,
        12 => 24,
        13 => 32,
        14 => 48,
        _ => 64,
    }
}

/// A payload length has a data length code exactly where a CAN FD frame can have it, and the code
/// gives the length back; a code of a CAN FD frame is the code of its length.
pub proof fn law_length_codes_are_inverse(length: int, dlc: u8)
    ensures
        can::fd_length(length) <==> dlc_of(length) is Some,
        dlc_of(length) is Some ==> length_of(dlc_of(length)->0) == length,
        dlc <= 15 ==> dlc_of(length_of(dlc) as int) == Some(dlc),
{
}

/// Bytes followed by zeros up to `size`.
pub open spec fn zero_padded(data: Seq<u8>, size: nat) -> Seq<u8> {
    Seq::new(
        size,
        |i: int|
            if i < data.len() {
                data[i]
            } else {
                0
            },
    )
}

/// The type bit of an identifier.
pub open spec fn id_bit(id: CanId) -> u8 {
    match id {
        CanId::Standard(_) => 0,
        CanId::Extended(_) => PCAN_MESSAGE_EXTENDED,
    }
}

/// The number of an identifier.
pub open spec fn id_number(id: CanId) -> u32 {
    match id {
        CanId::Standard(value) => value as u32,
        CanId::Extended(value) => value,
    }
}

/// The number and the type bit of an identifier.
pub fn raw_id(id: CanId) -> (raw: (u32, u8))
    ensures
        raw == (id_number(id), id_bit(id)),
        id matches CanId::Standard(value) ==> raw.0 == value && raw.1 == 0,
        id matches CanId::Extended(value) ==> raw.0 == value && raw.1 == 0x02,
{
    match id {
        CanId::Standard(value) => (value as u32, 0),
        CanId::Extended(value) => (value, PCAN_MESSAGE_EXTENDED),
    }
}

/// The bit, or nothing.
pub open spec fn bit_if(set: bool, bit: u8) -> u8 {
    if set {
        bit
    } else {
        0
    }
}

/// The message of a frame in a channel with messages of `size` bytes, or why there is none.
pub open spec fn message_of(frame: CanFrameView, size: nat) -> Result<MessageView, DriverFault> {
    match frame {
        CanFrameView::ClassicData { id, data } => Ok(
            MessageView {
                id: id_number(id),
                message_type: id_bit(id),
                length: data.len() as u8,
                data: zero_padded(data, size),
            },
        ),
        CanFrameView::ClassicRemote { id, dlc } => Ok(
            MessageView {
                id: id_number(id),
                message_type: id_bit(id) | PCAN_MESSAGE_RTR,
                length: dlc,
                data: zero_padded(Seq::empty(), size),
            },
        ),
        CanFrameView::FdData { id, data, bitrate_switch, error_state_indicator } => if size == 8 {
            Err(
                DriverFault::UnsupportedFrame(
                    "CAN FD frame requires an FD-configured PCAN channel"@,
                ),
            )
        } else {
            match dlc_of(data.len() as int) {
                None => Err(DriverFault::InvalidFrame("invalid CAN FD payload length"@)),
                Some(dlc) => Ok(
                    MessageView {
                        id: id_number(id),
                        message_type: id_bit(id) | PCAN_MESSAGE_FD | bit_if(
                            bitrate_switch,
                            PCAN_MESSAGE_BRS,
                        ) | bit_if(error_state_indicator, PCAN_MESSAGE_ESI),
                        length: dlc,
                        data: zero_padded(data, size),
                    },
                ),
            }
        },
        CanFrameView::Error { .. } => Err(
            DriverFault::UnsupportedFrame("PCAN cannot transmit HAL error frames"@),
        ),
    }
}

fn pad8(data: &Vec<u8>) -> (padded: [u8; 8])
    requires
        data@.len() <= 8,
    ensures
        padded@ == zero_padded(data@, 8),
{
    let mut padded: [u8; 8] = [0;8];
    let mut index: usize = 0;
    while index < data.len()
        invariant
            index <= data@.len() <= 8,
            padded@ == zero_padded(data@.take(index as int), 8),
        decreases data@.len() - index,
    {
        padded[index] = data[index];
        index += 1;
        proof {
            assert(padded@ =~= zero_padded(data@.take(index as int), 8));
        }
    }
    proof {
        assert(data@.take(index as int) =~= data@);
    }
    padded
}

fn pad64(data: &Vec<u8>) -> (padded: [u8; 64])
    requires
        data@.len() <= 64,
    ensures
        padded@ == zero_padded(data@, 64),
{
    let mut padded: [u8; 64] = [0;64];
    let mut index: usize = 0;
    while index < data.len()
        invariant
            index <= data@.len() <= 64,
            padded@ == zero_padded(data@.take(index as int), 64),
        decreases data@.len() - index,
    {
        padded[index] = data[index];
        index += 1;
        proof {
            assert(padded@ =~= zero_padded(data@.take(index as int), 64));
        }
    }
    proof {
        assert(data@.take(index as int) =~= data@);
    }
    padded
}

/// The message of a frame on a Classical channel.
pub fn to_classic_message(frame: &CanFrame) -> (result: Result<PcanMessage, DriverError>)
    requires
        frame@ matches CanFrameView::ClassicData { data, .. } ==> data.len() <= 8,
    ensures
        match result {
            Ok(message) => message_of(frame@, 8) == Ok::<MessageView, DriverFault>(message@),
            Err(error) => message_of(frame@, 8) == Err::<MessageView, DriverFault>(error@),
        },
{
    match frame {
        CanFrame::ClassicData { id, data } => {
            let (id, id_type) = raw_id(*id);
            Ok(PcanMessage { id, message_type: id_type, len: data.len() as u8, data: pad8(data) })
        },
        CanFrame::ClassicRemote { id, dlc } => {
            let (id, id_type) = raw_id(*id);
            let message = PcanMessage {
                id,
                message_type: id_type | PCAN_MESSAGE_RTR,
                len: *dlc,
                data: [0;8],
            };
            proof {
                assert(message.data@ =~= zero_padded(Seq::empty(), 8));
            }
            Ok(message)
        },
        CanFrame::FdData { .. } => Err(
            DriverError::UnsupportedFrame(
                "CAN FD frame requires an FD-configured PCAN channel".to_owned(),
            ),
        ),
        CanFrame::Error { .. } => Err(
            DriverError::UnsupportedFrame("PCAN cannot transmit HAL error frames".to_owned()),
        ),
    }
}

/// The message of a frame on a CAN FD channel.
pub fn to_fd_message(frame: &CanFrame) -> (result: Result<PcanMessageFd, DriverError>)
    requires
        frame@ matches CanFrameView::ClassicData { data, .. } ==> data.len() <= 64,
    ensures
        match result {
            Ok(message) => message_of(frame@, 64) == Ok::<MessageView, DriverFault>(message@),
            Err(error) => message_of(frame@, 64) == Err::<MessageView, DriverFault>(error@),
        },
{
    match frame {
        CanFrame::ClassicData { id, data } => {
            let (id, id_type) = raw_id(*id);
            Ok(
                PcanMessageFd {
                    id,
                    message_type: id_type,
                    dlc: data.len() as u8,
                    data: pad64(data),
                },
            )
        },
        CanFrame::ClassicRemote { id, dlc } => {
            let (id, id_type) = raw_id(*id);
            let message = PcanMessageFd {
                id,
                message_type: id_type | PCAN_MESSAGE_RTR,
                dlc: *dlc,
                data: [0;64],
            };
            proof {
                assert(message.data@ =~= zero_padded(Seq::empty(), 64));
            }
            Ok(message)
        },
        CanFrame::FdData { id, data, bitrate_switch, error_state_indicator } => {
            let (id, id_type) = raw_id(*id);
            let dlc: u8 = match len_to_dlc(data.len()) {
                Some(dlc) => dlc,
                None => {
                    return Err(
                        DriverError::InvalidFrame("invalid CAN FD payload length".to_owned()),
                    );
                },
            };
            let switch_bit: u8 = if *bitrate_switch {
                PCAN_MESSAGE_BRS
            } else {
                0
            };
            let indicator_bit: u8 = if *error_state_indicator {
                PCAN_MESSAGE_ESI
            } else {
                0
            };
            Ok(
                PcanMessageFd {
                    id,
                    message_type: id_type | PCAN_MESSAGE_FD | switch_bit | indicator_bit,
                    dlc,
                    data: pad64(data),
                },
            )
        },
        CanFrame::Error { .. } => Err(
            DriverError::UnsupportedFrame("PCAN cannot transmit HAL error frames".to_owned()),
        ),
    }
}

/// The identifier of a message, or why it has none.
pub open spec fn decoded_id(number: u32, message_type: u8) -> Result<CanId, Seq<char>> {
    if message_type & PCAN_MESSAGE_EXTENDED != 0 {
        if number <= 0x1fff_ffff {
            Ok(CanId::Extended(number))
        } else {
            Err("extended CAN identifier exceeds 29 bits"@)
        }
    } else if number > u16::MAX {
        Err(
            "PCAN standard identifier 0x"@ + text::short_upper_hex_digits(number as nat)
                + " exceeds u16"@,
        )
    } else if number <= 0x7ff {
        Ok(CanId::Standard(number as u16))
    } else {
        Err("standard CAN identifier exceeds 11 bits"@)
    }
}

/// The identifier of a message.
pub fn from_raw_id(number: u32, message_type: u8) -> (result: Result<CanId, DriverError>)
    ensures
        match result {
            Ok(id) => {
                &&& decoded_id(number, message_type) == Ok::<CanId, Seq<char>>(id)
                &&& match id {
                    CanId::Standard(value) => value == number && message_type & 0x02 == 0,
                    CanId::Extended(value) => value == number && message_type & 0x02 != 0,
                }
            },
            Err(error) => {
                &&& decoded_id(number, message_type) is Err
                &&& error@ == DriverFault::InvalidFrame(decoded_id(number, message_type)->Err_0)
            },
        },
{
    let id = if message_type & PCAN_MESSAGE_EXTENDED != 0 {
        CanId::extended(number)
    } else {
        if number > u16::MAX as u32 {
            let mut message = "PCAN standard identifier 0x".to_owned();
            push_short_upper_hex(&mut message, number);
            message.append(" exceeds u16");
            return Err(DriverError::InvalidFrame(message));
        }
        CanId::standard(number as u16)
    };
    match id {
        Ok(id) => Ok(id),
        Err(error) => Err(DriverError::InvalidFrame(error.debug_message().to_owned())),
    }
}

/// A message that reports on the bus and carries no frame.
pub open spec fn is_diagnostic(message_type: u8) -> bool {
    message_type & (PCAN_MESSAGE_STATUS | PCAN_MESSAGE_ERRFRAME) != 0
}

/// The frame that a message carries; none where it is a diagnostic; or why it is no frame. `fd`
/// says that the message comes from a CAN FD channel.
pub open spec fn frame_of(message: MessageView, fd: bool) -> Result<
    Option<CanFrameView>,
    Seq<char>,
> {
    if is_diagnostic(message.message_type) {
        Ok(None)
    } else {
        match decoded_id(message.id, message.message_type) {
            Err(reason) => Err(reason),
            Ok(id) => if message.message_type & PCAN_MESSAGE_RTR != 0 {
                if message.length > 8 {
                    Err("Classical CAN remote length exceeds 8"@)
                } else {
                    Ok(Some(CanFrameView::ClassicRemote { id, dlc: message.length }))
                }
            } else if fd && message.message_type & PCAN_MESSAGE_FD != 0 {
                Ok(
                    Some(
                        CanFrameView::FdData {
                            id,
                            data: message.data.take(length_of(message.length) as int),
                            bitrate_switch: message.message_type & PCAN_MESSAGE_BRS != 0,
                            error_state_indicator: message.message_type & PCAN_MESSAGE_ESI != 0,
                        },
                    ),
                )
            } else if message.length > 8 {
                Err(
                    "PCAN Classical DLC "@ + text::decimal_digits(message.length as nat)
                        + " exceeds 8"@,
                )
            } else {
                Ok(
                    Some(
                        CanFrameView::ClassicData {
                            id,
                            data: message.data.take(message.length as int),
                        },
                    ),
                )
            },
        }
    }
}

/// The result of decoding a message holds what [`frame_of`] says.
pub open spec fn decodes(
    result: Result<Option<CanFrame>, DriverError>,
    decoded: Result<Option<CanFrameView>, Seq<char>>,
) -> bool {
    match (result, decoded) {
        (Ok(None), Ok(None)) => true,
        (Ok(Some(frame)), Ok(Some(view))) => frame@ == view,
        (Err(error), Err(reason)) => error@ == DriverFault::InvalidFrame(reason),
        _ => false,
    }
}

fn accepted(result: Result<CanFrame, crate::error::HalError>) -> (mapped: Result<
    Option<CanFrame>,
    DriverError,
>)
    ensures
        match result {
            Ok(frame) => mapped == Ok::<Option<CanFrame>, DriverError>(Some(frame)),
            Err(error) => mapped is Err && mapped->Err_0@ == DriverFault::InvalidFrame(
                error@.message,
            ),
        },
{
    match result {
        Ok(frame) => Ok(Some(frame)),
        Err(error) => Err(DriverError::InvalidFrame(error.debug_message().to_owned())),
    }
}

fn too_long(length: u8) -> (error: DriverError)
    ensures
        error@ == DriverFault::InvalidFrame(
            "PCAN Classical DLC "@ + text::decimal_digits(length as nat) + " exceeds 8"@,
        ),
{
    let mut message = "PCAN Classical DLC ".to_owned();
    push_decimal(&mut message, length as u64);
    message.append(" exceeds 8");
    DriverError::InvalidFrame(message)
}

/// The frame of a message on a Classical channel.
pub fn from_classic_message(message: &PcanMessage) -> (result: Result<
    Option<CanFrame>,
    DriverError,
>)
    ensures
        decodes(result, frame_of(message@, false)),
{
    if message.message_type & (PCAN_MESSAGE_STATUS | PCAN_MESSAGE_ERRFRAME) != 0 {
        return Ok(None);
    }
    let id = from_raw_id(message.id, message.message_type)?;
    if message.message_type & PCAN_MESSAGE_RTR != 0 {
        return accepted(CanFrame::classic_remote(id, message.len));
    }
    if message.len > 8 {
        return Err(too_long(message.len));
    }
    let data = slice_to_vec(slice_subrange(message.data.as_slice(), 0, message.len as usize));
    proof {
        assert(data@ =~= message.data@.take(message.len as int));
    }
    accepted(CanFrame::classic_data(id, data))
}

/// The frame of a message on a CAN FD channel.
pub fn from_fd_message(message: &PcanMessageFd) -> (result: Result<Option<CanFrame>, DriverError>)
    ensures
        decodes(result, frame_of(message@, true)),
{
    if message.message_type & (PCAN_MESSAGE_STATUS | PCAN_MESSAGE_ERRFRAME) != 0 {
        return Ok(None);
    }
    let id = from_raw_id(message.id, message.message_type)?;
    if message.message_type & PCAN_MESSAGE_RTR != 0 {
        return accepted(CanFrame::classic_remote(id, message.dlc));
    }
    if message.message_type & PCAN_MESSAGE_FD != 0 {
        let length: u8 = dlc_to_len(message.dlc);
        let data = slice_to_vec(slice_subrange(message.data.as_slice(), 0, length as usize));
        proof {
            assert(data@ =~= message.data@.take(length as int));
        }
        return accepted(
            CanFrame::fd_data(
                id,
                data,
                message.message_type & PCAN_MESSAGE_BRS != 0,
                message.message_type & PCAN_MESSAGE_ESI != 0,
            ),
        );
    }
    if message.dlc > 8 {
        return Err(too_long(message.dlc));
    }
    let data = slice_to_vec(slice_subrange(message.data.as_slice(), 0, message.dlc as usize));
    proof {
        assert(data@ =~= message.data@.take(message.dlc as int));
    }
    accepted(CanFrame::classic_data(id, data))
}

proof fn lemma_type_bits(extended: u8, remote: u8, fd: u8, switch: u8, indicator: u8)
    requires
        extended == 0 || extended == PCAN_MESSAGE_EXTENDED,
        remote == 0 || remote == PCAN_MESSAGE_RTR,
        fd == 0 || fd == PCAN_MESSAGE_FD,
        switch == 0 || switch == PCAN_MESSAGE_BRS,
        indicator == 0 || indicator == PCAN_MESSAGE_ESI,
    ensures
        ({
            let bits = extended | remote | fd | switch | indicator;
            &&& bits & (PCAN_MESSAGE_STATUS | PCAN_MESSAGE_ERRFRAME) == 0
            &&& bits & PCAN_MESSAGE_EXTENDED == extended
            &&& bits & PCAN_MESSAGE_RTR == remote
            &&& bits & PCAN_MESSAGE_FD == fd
            &&& bits & PCAN_MESSAGE_BRS == switch
            &&& bits & PCAN_MESSAGE_ESI == indicator
        }),
{
    let bits = extended | remote | fd | switch | indicator;
    assert(bits & (0x80u8 | 0x40) == 0 && bits & 2 == extended && bits & 1 == remote && bits & 4
        == fd && bits & 8 == switch && bits & 0x10 == indicator) by (bit_vector)
        requires
            bits == extended | remote | fd | switch | indicator,
            extended == 0 || extended == 2,
            remote == 0 || remote == 1,
            fd == 0 || fd == 4,
            switch == 0 || switch == 8,
            indicator == 0 || indicator == 0x10,
    ;
}

proof fn lemma_no_bit(bits: u8)
    ensures
        bits | 0 == bits,
        0u8 | bits == bits,
{
    assert(bits | 0 == bits && 0u8 | bits == bits) by (bit_vector);
}

/// A frame that a bus carries is read back from the message that it was sent as: every frame but
/// an error frame on a CAN FD channel, and every Classical frame on a Classical channel.
pub proof fn law_sent_frame_is_read_back(frame: CanFrameView, fd: bool)
    requires
        can::frame_refusal(frame) is None,
        !(frame is Error),
        frame is FdData ==> fd,
    ensures
        ({
            let size: nat = if fd {
                64
            } else {
                8
            };
            &&& message_of(frame, size) is Ok
            &&& frame_of(message_of(frame, size)->Ok_0, fd) == Ok::<
                Option<CanFrameView>,
                Seq<char>,
            >(Some(frame))
        }),
{
    let size: nat = if fd {
        64
    } else {
        8
    };
    match frame {
        CanFrameView::ClassicData { id, data } => {
            lemma_type_bits(id_bit(id), 0, 0, 0, 0);
            lemma_no_bit(id_bit(id));
            assert(zero_padded(data, size).take(data.len() as int) =~= data);
        },
        CanFrameView::ClassicRemote { id, dlc } => {
            lemma_type_bits(id_bit(id), PCAN_MESSAGE_RTR, 0, 0, 0);
            lemma_no_bit(id_bit(id) | PCAN_MESSAGE_RTR);
        },
        CanFrameView::FdData { id, data, bitrate_switch, error_state_indicator } => {
            lemma_type_bits(
                id_bit(id),
                0,
                PCAN_MESSAGE_FD,
                bit_if(bitrate_switch, PCAN_MESSAGE_BRS),
                bit_if(error_state_indicator, PCAN_MESSAGE_ESI),
            );
            lemma_no_bit(id_bit(id));
            law_length_codes_are_inverse(data.len() as int, 0);
            assert(zero_padded(data, size).take(data.len() as int) =~= data);
        },
        CanFrameView::Error { .. } => {},
    }
}

/// The identifier that a frame has, if it has one.
pub open spec fn identifier(frame: CanFrameView) -> Option<CanId> {
    match frame {
        CanFrameView::ClassicData { id, .. } => Some(id),
        CanFrameView::ClassicRemote { id, .. } => Some(id),
        CanFrameView::FdData { id, .. } => Some(id),
        CanFrameView::Error { .. } => None,
    }
}

/// The message of a frame holds the number of the frame's identifier as it is, with the second type
/// bit for an extended one, and the frame's bytes in order from the first on; the first type bit is
/// set for a remote frame, the third for a CAN FD frame, the fourth where that switches the bit rate
/// and the fifth where it indicates an error state. No other type bit is set, and the bytes that the
/// frame does not have are zero.
pub proof fn law_message_holds_the_frame(frame: CanFrameView, size: nat)
    requires
        size == 8 || size == 64,
        can::frame_refusal(frame) is None,
        message_of(frame, size) is Ok,
    ensures
        ({
            let message = message_of(frame, size)->Ok_0;
            let bits = message.message_type;
            &&& identifier(frame) is Some
            &&& identifier(frame)->0 matches CanId::Standard(value) ==> message.id == value && bits
                & 0x02 == 0
            &&& identifier(frame)->0 matches CanId::Extended(value) ==> message.id == value && bits
                & 0x02 == 0x02
            &&& message.data.len() == size
            &&& bits & 0xe0 == 0
            &&& frame matches CanFrameView::ClassicData { data, .. } ==> {
                &&& bits & 0x1d == 0
                &&& message.length == data.len()
                &&& forall|i: int|
                    0 <= i < data.len() ==> (#[trigger] message.data[i]) == data[i]
                &&& forall|i: int| data.len() <= i < size ==> (#[trigger] message.data[i]) == 0
            }
            &&& frame matches CanFrameView::ClassicRemote { dlc, .. } ==> {
                &&& bits & 0x1d == 0x01
                &&& message.length == dlc
                &&& forall|i: int| 0 <= i < size ==> (#[trigger] message.data[i]) == 0
            }
            &&& frame matches CanFrameView::FdData {
                data,
                bitrate_switch,
                error_state_indicator,
                ..
            } ==> {
                &&& size == 64
                &&& bits & 0x05 == 0x04
                &&& (bits & 0x08 == 0x08) == bitrate_switch
                &&& (bits & 0x10 == 0x10) == error_state_indicator
                &&& message.length <= 15
                &&& data.len() <= 8 ==> message.length == data.len()
                &&& 8 < data.len() <= 24 ==> data.len() == 4 * (message.length - 6)
                &&& 24 < data.len() ==> data.len() == 16 * (message.length - 11)
                &&& forall|i: int|
                    0 <= i < data.len() ==> (#[trigger] message.data[i]) == data[i]
                &&& forall|i: int| data.len() <= i < size ==> (#[trigger] message.data[i]) == 0
            }
        }),
{
    let message = message_of(frame, size)->Ok_0;
    let bits = message.message_type;
    let extended = id_bit(identifier(frame)->0);
    match frame {
        CanFrameView::ClassicData { id, data } => {
            assert(extended & 0x02 == extended && extended & 0xe0 == 0 && extended & 0x1d == 0)
                by (bit_vector)
                requires
                    extended == 0 || extended == 2,
            ;
        },
        CanFrameView::ClassicRemote { id, dlc } => {
            assert(bits & 0x02 == extended && bits & 0xe0 == 0 && bits & 0x1d == 0x01)
                by (bit_vector)
                requires
                    bits == extended | 1,
                    extended == 0 || extended == 2,
            ;
        },
        CanFrameView::FdData { id, data, bitrate_switch, error_state_indicator } => {
            let switch = bit_if(bitrate_switch, PCAN_MESSAGE_BRS);
            let indicator = bit_if(error_state_indicator, PCAN_MESSAGE_ESI);
            assert(bits & 0x02 == extended && bits & 0xe0 == 0 && bits & 0x05 == 0x04 && bits & 0x08
                == switch && bits & 0x10 == indicator) by (bit_vector)
                requires
                    bits == extended | 4 | switch | indicator,
                    extended == 0 || extended == 2,
                    switch == 0 || switch == 8,
                    indicator == 0 || indicator == 0x10,
            ;
        },
        CanFrameView::Error { .. } => {},
    }
}

/// The frame that a message carries has the message's number as its identifier, an extended one
/// exactly where the second type bit is set, and the message's bytes in order from the first on. It
/// is a remote frame exactly where the first type bit is set; else, on a CAN FD channel, a CAN FD
/// frame exactly where the third is. A message with one of the two top type bits carries no frame.
pub proof fn law_frame_holds_the_message(message: MessageView, fd: bool)
    requires
        message.data.len() == if fd {
            64nat
        } else {
            8
        },
        frame_of(message, fd) is Ok,
    ensures
        ({
            let bits = message.message_type;
            let frame = frame_of(message, fd)->Ok_0->0;
            &&& frame_of(message, fd)->Ok_0 is None <==> bits & 0x80 != 0 || bits & 0x40 != 0
            &&& frame_of(message, fd)->Ok_0 is Some ==> {
                &&& identifier(frame) is Some
                &&& identifier(frame)->0 matches CanId::Standard(value) ==> value == message.id
                    && bits & 0x02 == 0
                &&& identifier(frame)->0 matches CanId::Extended(value) ==> value == message.id
                    && bits & 0x02 != 0
                &&& bits & 0x01 != 0 ==> frame is ClassicRemote
                &&& bits & 0x01 == 0 && fd && bits & 0x04 != 0 ==> frame is FdData
                &&& bits & 0x01 == 0 && (!fd || bits & 0x04 == 0) ==> frame is ClassicData
                &&& frame matches CanFrameView::ClassicRemote { dlc, .. } ==> dlc
                    == message.length
                &&& frame matches CanFrameView::ClassicData { data, .. } ==> {
                    &&& data.len() == message.length
                    &&& forall|i: int|
                        0 <= i < data.len() ==> (#[trigger] data[i]) == message.data[i]
                }
                &&& frame matches CanFrameView::FdData {
                    data,
                    bitrate_switch,
                    error_state_indicator,
                    ..
                } ==> {
                    &&& bitrate_switch == (bits & 0x08 != 0)
                    &&& error_state_indicator == (bits & 0x10 != 0)
                    &&& message.length <= 8 ==> data.len() == message.length
                    &&& 9 <= message.length <= 12 ==> data.len() == 4 * (message.length - 6)
                    &&& 13 <= message.length <= 15 ==> data.len() == 16 * (message.length - 11)
                    &&& forall|i: int|
                        0 <= i < data.len() ==> (#[trigger] data[i]) == message.data[i]
                }
            }
        }),
{
    let bits = message.message_type;
    assert((bits & (0x80u8 | 0x40) != 0) == (bits & 0x80 != 0 || bits & 0x40 != 0)) by (bit_vector);
}

/// The error of a frame that no bus carries, else the fault of its message.
pub open spec fn send_of(frame: CanFrameView, size: nat) -> Result<MessageView, DriverFault> {
    match can::frame_refusal(frame) {
        Some(reason) => Err(DriverFault::InvalidFrame(reason)),
        None => message_of(frame, size),
    }
}

proof fn lemma_remote_bits()
    ensures
        (0u8 | 0x01) & 0x03 == 0x01,
        (0x02u8 | 0x01) & 0x03 == 0x03,
{
    assert((0u8 | 0x01) & 0x03 == 0x01 && (0x02u8 | 0x01) & 0x03 == 0x03) by (bit_vector);
}

proof fn lemma_fd_bits()
    ensures
        forall|extended: u8, switch: u8, indicator: u8|
            (extended == 0 || extended == 2) && (switch == 0 || switch == 8) && (indicator == 0
                || indicator == 0x10) ==> {
                let bits = #[trigger] (extended | 0x04 | switch | indicator);
                &&& bits & 0x06 == extended + 4
                &&& (bits & 0x08 != 0) == (switch == 8)
                &&& (bits & 0x10 != 0) == (indicator == 0x10)
            },
{
    assert forall|extended: u8, switch: u8, indicator: u8|
        (extended == 0 || extended == 2) && (switch == 0 || switch == 8) && (indicator == 0
            || indicator == 0x10) implies {
        let bits = #[trigger] (extended | 0x04 | switch | indicator);
        &&& bits & 0x06 == extended + 4
        &&& (bits & 0x08 != 0) == (switch == 8)
        &&& (bits & 0x10 != 0) == (indicator == 0x10)
    } by {
        let bits = extended | 0x04 | switch | indicator;
        assert(bits & 0x06 == extended + 4 && (bits & 0x08 != 0) == (switch == 8) && (bits & 0x10
            != 0) == (indicator == 0x10)) by (bit_vector)
            requires
                bits == extended | 0x04 | switch | indicator,
                extended == 0 || extended == 2,
                switch == 0 || switch == 8,
                indicator == 0 || indicator == 0x10,
        ;
    }
}

/// The message that a frame is sent as on a Classical channel.
pub fn classic_send(frame: &CanFrame) -> (result: Result<PcanMessage, DriverError>)
    ensures
        match result {
            Ok(message) => send_of(frame@, 8) == Ok::<MessageView, DriverFault>(message@),
            Err(error) => send_of(frame@, 8) == Err::<MessageView, DriverFault>(error@),
        },
        result matches Ok(message) ==> {
            &&& *frame matches CanFrame::ClassicData { id: CanId::Standard(number), .. }
                ==> message.id == number && message.message_type == 0
            &&& *frame matches CanFrame::ClassicData { id: CanId::Extended(number), .. }
                ==> message.id == number && message.message_type == 0x02
            &&& *frame matches CanFrame::ClassicData { data, .. } ==> message.len == data@.len()
                && forall|i: int|
                0 <= i < data@.len() ==> (#[trigger] message.data@[i]) == data@[i]
            &&& *frame matches CanFrame::ClassicRemote { id: CanId::Standard(number), dlc }
                ==> message.id == number && message.message_type & 0x03 == 0x01 && message.len
                == dlc
            &&& *frame matches CanFrame::ClassicRemote { id: CanId::Extended(number), dlc }
                ==> message.id == number && message.message_type & 0x03 == 0x03 && message.len
                == dlc
            &&& frame is ClassicData || frame is ClassicRemote
        },
        (frame is ClassicData || frame is ClassicRemote) && can::frame_refusal(frame@) is None
            ==> result is Ok,
{
    proof {
        lemma_remote_bits();
    }
    match frame.validate() {
        Ok(()) => to_classic_message(frame),
        Err(error) => Err(DriverError::InvalidFrame(error.debug_message().to_owned())),
    }
}

/// The message that a frame is sent as on a CAN FD channel.
pub fn fd_send(frame: &CanFrame) -> (result: Result<PcanMessageFd, DriverError>)
    ensures
        match result {
            Ok(message) => send_of(frame@, 64) == Ok::<MessageView, DriverFault>(message@),
            Err(error) => send_of(frame@, 64) == Err::<MessageView, DriverFault>(error@),
        },
        result matches Ok(message) ==> {
            &&& *frame matches CanFrame::ClassicData { id: CanId::Standard(number), .. }
                ==> message.id == number && message.message_type == 0
            &&& *frame matches CanFrame::ClassicData { id: CanId::Extended(number), .. }
                ==> message.id == number && message.message_type == 0x02
            &&& *frame matches CanFrame::ClassicData { data, .. } ==> message.dlc == data@.len()
                && forall|i: int|
                0 <= i < data@.len() ==> (#[trigger] message.data@[i]) == data@[i]
            &&& *frame matches CanFrame::ClassicRemote { id: CanId::Standard(number), dlc }
                ==> message.id == number && message.message_type & 0x03 == 0x01 && message.dlc
                == dlc
            &&& *frame matches CanFrame::ClassicRemote { id: CanId::Extended(number), dlc }
                ==> message.id == number && message.message_type & 0x03 == 0x03 && message.dlc
                == dlc
            &&& *frame matches CanFrame::FdData { id: CanId::Standard(number), .. } ==> message.id
                == number && message.message_type & 0x06 == 0x04
            &&& *frame matches CanFrame::FdData { id: CanId::Extended(number), .. } ==> message.id
                == number && message.message_type & 0x06 == 0x06
            &&& *frame matches CanFrame::FdData {
                data,
                bitrate_switch,
                error_state_indicator,
                ..
            } ==> {
                &&& message.message_type & 0x08 != 0 <==> bitrate_switch
                &&& message.message_type & 0x10 != 0 <==> error_state_indicator
                &&& data@.len() <= 8 ==> message.dlc == data@.len()
                &&& forall|i: int|
                    0 <= i < data@.len() ==> (#[trigger] message.data@[i]) == data@[i]
            }
            &&& !(frame is Error)
        },
        !(frame is Error) && can::frame_refusal(frame@) is None ==> result is Ok,
{
    proof {
        lemma_remote_bits();
        lemma_fd_bits();
    }
    match frame.validate() {
        Ok(()) => to_fd_message(frame),
        Err(error) => Err(DriverError::InvalidFrame(error.debug_message().to_owned())),
    }
}

/// The time stamp of a Classical message.
#[derive(Clone, Copy, Debug, PartialEq, Eq, Structural)]
pub struct PcanTimestamp {
    pub millis: u32,
    pub millis_overflow: u16,
    pub micros: u16,
}

/// A number of nanoseconds, at most the largest that fits.
pub open spec fn saturated(nanoseconds: int) -> u64 {
    if nanoseconds > u64::MAX {
        u64::MAX
    } else {
        nanoseconds as u64
    }
}

fn to_nanoseconds(microseconds: u64) -> (nanoseconds: u64)
    ensures
        nanoseconds == saturated(microseconds * 1000),
{
    match microseconds.checked_mul(1000) {
        Some(nanoseconds) => nanoseconds,
        None => u64::MAX,
    }
}

/// The nanoseconds of a Classical time stamp.
pub open spec fn classic_nanoseconds(timestamp: PcanTimestamp) -> u64 {
    saturated(
        ((timestamp.millis_overflow * 0x1_0000_0000 + timestamp.millis) * 1000
            + timestamp.micros) * 1000,
    )
}

/// What one read gives.
#[derive(Clone, Debug, PartialEq, Eq)]
pub enum RawReceive {
    /// A frame and its time in nanoseconds.
    Frame(CanFrame, u64),
    /// A diagnostic that carries no frame.
    Skipped,
    /// Nothing is waiting.
    Empty,
}

/// A read of a channel gives what the status, the decoded message and the time say.
pub open spec fn reads(
    result: Result<RawReceive, DriverError>,
    status: u32,
    decoded: Result<Option<CanFrameView>, Seq<char>>,
    nanoseconds: u64,
) -> bool {
    if status == PCAN_ERROR_QRCVEMPTY {
        result == Ok::<RawReceive, DriverError>(RawReceive::Empty)
    } else if status != PCAN_ERROR_OK {
        result is Err && result->Err_0@ == DriverFault::Status(status)
    } else {
        match decoded {
            Ok(None) => result == Ok::<RawReceive, DriverError>(RawReceive::Skipped),
            Ok(Some(view)) => result matches Ok(RawReceive::Frame(frame, time)) && frame@ == view
                && time == nanoseconds,
            Err(reason) => result is Err && result->Err_0@ == DriverFault::InvalidFrame(reason),
        }
    }
}

proof fn lemma_diagnostic_bits(bits: u8)
    ensures
        (bits & (0x80u8 | 0x40) != 0) == (bits & 0x80 != 0 || bits & 0x40 != 0),
{
    assert((bits & (0x80u8 | 0x40) != 0) == (bits & 0x80 != 0 || bits & 0x40 != 0)) by (bit_vector);
}

/// What a read of a Classical channel gives.
pub fn read_classic(status: u32, message: &PcanMessage, timestamp: PcanTimestamp) -> (result: Result<
    RawReceive,
    DriverError,
>)
    ensures
        reads(result, status, frame_of(message@, false), classic_nanoseconds(timestamp)),
        result matches Ok(RawReceive::Frame(frame, time)) ==> {
            &&& status == 0
            &&& message.message_type & 0x80 == 0
            &&& message.message_type & 0x40 == 0
            &&& frame matches CanFrame::ClassicData { id: CanId::Standard(number), .. } ==> number
                == message.id && message.message_type & 0x02 == 0
            &&& frame matches CanFrame::ClassicData { id: CanId::Extended(number), .. } ==> number
                == message.id && message.message_type & 0x02 != 0
            &&& frame matches CanFrame::ClassicData { data, .. } ==> data@.len() == message.len
                && forall|i: int|
                0 <= i < data@.len() ==> (#[trigger] data@[i]) == message.data@[i]
            &&& frame matches CanFrame::ClassicRemote { id: CanId::Standard(number), dlc }
                ==> number == message.id && message.message_type & 0x02 == 0 && dlc == message.len
            &&& frame matches CanFrame::ClassicRemote { id: CanId::Extended(number), dlc }
                ==> number == message.id && message.message_type & 0x02 != 0 && dlc == message.len
            &&& frame is ClassicRemote <==> message.message_type & 0x01 != 0
            &&& frame is ClassicData || frame is ClassicRemote
            &&& timestamp.millis_overflow == 0 ==> time == timestamp.millis * 1_000_000
                + timestamp.micros * 1000
        },
        result == Ok::<RawReceive, DriverError>(RawReceive::Empty) <==> status == 0x20,
{
    proof {
        lemma_diagnostic_bits(message.message_type);
    }
    if status == PCAN_ERROR_QRCVEMPTY {
        return Ok(RawReceive::Empty);
    }
    check_status(status)?;
    let millis: u64 = timestamp.millis_overflow as u64 * 0x1_0000_0000 + timestamp.millis as u64;
    let micros: u64 = millis * 1000 + timestamp.micros as u64;
    match from_classic_message(message)? {
        None => Ok(RawReceive::Skipped),
        Some(frame) => Ok(RawReceive::Frame(frame, to_nanoseconds(micros))),
    }
}

/// What a read of a CAN FD channel gives; the driver counts time in microseconds.
pub fn read_fd(status: u32, message: &PcanMessageFd, timestamp: u64) -> (result: Result<
    RawReceive,
    DriverError,
>)
    ensures
        reads(result, status, frame_of(message@, true), saturated(timestamp * 1000)),
        result matches Ok(RawReceive::Frame(frame, time)) ==> {
            &&& status == 0
            &&& message.message_type & 0x80 == 0
            &&& message.message_type & 0x40 == 0
            &&& frame matches CanFrame::ClassicData { id: CanId::Standard(number), .. } ==> number
                == message.id && message.message_type & 0x02 == 0
            &&& frame matches CanFrame::ClassicData { id: CanId::Extended(number), .. } ==> number
                == message.id && message.message_type & 0x02 != 0
            &&& frame matches CanFrame::ClassicData { data, .. } ==> data@.len() == message.dlc
                && forall|i: int|
                0 <= i < data@.len() ==> (#[trigger] data@[i]) == message.data@[i]
            &&& frame matches CanFrame::ClassicRemote { id: CanId::Standard(number), dlc }
                ==> number == message.id && message.message_type & 0x02 == 0 && dlc == message.dlc
            &&& frame matches CanFrame::ClassicRemote { id: CanId::Extended(number), dlc }
                ==> number == message.id && message.message_type & 0x02 != 0 && dlc == message.dlc
            &&& frame is ClassicRemote <==> message.message_type & 0x01 != 0
            &&& frame matches CanFrame::FdData { id: CanId::Standard(number), .. } ==> number
                == message.id && message.message_type & 0x02 == 0
            &&& frame matches CanFrame::FdData { id: CanId::Extended(number), .. } ==> number
                == message.id && message.message_type & 0x02 != 0
            &&& frame matches CanFrame::FdData {
                data,
                bitrate_switch,
                error_state_indicator,
                ..
            } ==> {
                &&& message.message_type & 0x04 != 0
                &&& bitrate_switch <==> message.message_type & 0x08 != 0
                &&& error_state_indicator <==> message.message_type & 0x10 != 0
                &&& message.dlc <= 8 ==> data@.len() == message.dlc
                &&& forall|i: int|
                    0 <= i < data@.len() ==> (#[trigger] data@[i]) == message.data@[i]
            }
            &&& !(frame is Error)
            &&& timestamp <= u64::MAX / 1000 ==> time == timestamp * 1000
        },
        result == Ok::<RawReceive, DriverError>(RawReceive::Empty) <==> status == 0x20,
{
    proof {
        lemma_diagnostic_bits(message.message_type);
    }
    if status == PCAN_ERROR_QRCVEMPTY {
        return Ok(RawReceive::Empty);
    }
    check_status(status)?;
    match from_fd_message(message)? {
        None => Ok(RawReceive::Skipped),
        Some(frame) => Ok(RawReceive::Frame(frame, to_nanoseconds(timestamp))),
    }
}

/// The time of a Classical message is its milliseconds and microseconds in nanoseconds, as far as they
/// fit; the counter of overflows counts spans of as many milliseconds as 32 bits count.
pub proof fn law_times_are_in_nanoseconds(timestamp: PcanTimestamp)
    ensures
        ({
            let milliseconds = timestamp.millis_overflow * 4_294_967_296 + timestamp.millis;
            let exact = milliseconds * 1_000_000 + timestamp.micros * 1_000;
            &&& exact <= u64::MAX ==> classic_nanoseconds(timestamp) == exact
            &&& exact > u64::MAX ==> classic_nanoseconds(timestamp) == u64::MAX
        }),
{
}

/// A message carries a frame exactly where its identifier fits in 29 bits, or in 11, and its length is
/// one that a frame of its kind can have; a diagnostic is never refused.
pub proof fn law_possible_messages_are_not_refused(message: MessageView, fd: bool)
    requires
        message.data.len() == if fd {
            64nat
        } else {
            8
        },
    ensures
        ({
            let bits = message.message_type;
            frame_of(message, fd) is Ok <==> {
                ||| bits & 0x80 != 0 || bits & 0x40 != 0
                ||| {
                    &&& bits & 0x02 != 0 ==> message.id < 536_870_912
                    &&& bits & 0x02 == 0 ==> message.id < 2048
                    &&& bits & 0x01 != 0 || !fd || bits & 0x04 == 0 ==> message.length <= 8
                }
            }
        }),
{
    lemma_diagnostic_bits(message.message_type);
}

/// The content of a message is what its fields hold.
pub proof fn law_messages_are_what_they_hold(classic: PcanMessage, fd: PcanMessageFd)
    ensures
        classic@.id == classic.id,
        classic@.message_type == classic.message_type,
        classic@.length == classic.len,
        classic@.data == classic.data@,
        fd@.id == fd.id,
        fd@.message_type == fd.message_type,
        fd@.length == fd.dlc,
        fd@.data == fd.data@,
{
}

} // verus!
