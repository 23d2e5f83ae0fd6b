//! Controller Area Network frames, timings and link configurations.

use vstd::prelude::*;
use vstd::slice::*;

use crate::error::{ErrorCategory, HalError, HalErrorView, HalResult};

verus! {

/// A frame identifier.
#[derive(Clone, Copy, Debug, PartialEq, Eq, Structural)]
pub enum CanId {
    /// An 11-bit identifier.
    Standard(u16),
    /// A 29-bit identifier.
    Extended(u32),
}

/// The error of a frame that no bus carries.
pub open spec fn frame_error(message: Seq<char>) -> HalErrorView {
    HalErrorView::new(
        "can.frame.invalid"@,
        ErrorCategory::InvalidArgument,
        "can.frame"@,
        false,
        message,
    )
}

fn invalid_frame(message: &'static str) -> (error: HalError)
    ensures
        error@ == frame_error(message@),
{
    HalError::fixed(
        "can.frame.invalid",
        ErrorCategory::InvalidArgument,
        "can.frame",
        false,
        message,
    )
}

impl CanId {
    /// The identifier fits in its width.
    pub open spec fn valid(self) -> bool {
        match self {
            CanId::Standard(value) => value <= 0x7ff,
            CanId::Extended(value) => value <= 0x1fff_ffff,
        }
    }

    /// An 11-bit identifier.
    pub fn standard(value: u16) -> (result: HalResult<CanId>)
        ensures
            match result {
                Ok(id) => id == CanId::Standard(value) && id.valid(),
                Err(error) => {
                    &&& value > 0x7ff
                    &&& error@ == frame_error("standard CAN identifier exceeds 11 bits"@)
                },
            },
    {
        if value > 0x7ff {
            return Err(invalid_frame("standard CAN identifier exceeds 11 bits"));
        }
        Ok(CanId::Standard(value))
    }

    /// A 29-bit identifier.
    pub fn extended(value: u32) -> (result: HalResult<CanId>)
        ensures
            match result {
                Ok(id) => id == CanId::Extended(value) && id.valid(),
                Err(error) => {
                    &&& value > 0x1fff_ffff
                    &&& error@ == frame_error("extended CAN identifier exceeds 29 bits"@)
                },
            },
    {
        if value > 0x1fff_ffff {
            return Err(invalid_frame("extended CAN identifier exceeds 29 bits"));
        }
        Ok(CanId::Extended(value))
    }
}

/// What an error frame reports.
#[derive(Clone, Copy, Debug, PartialEq, Eq, Structural)]
pub enum CanErrorClass {
    TxTimeout,
    LostArbitration,
    Controller,
    Protocol,
    Transceiver,
    NoAcknowledgement,
    BusOff,
    BusError,
    Restarted,
    Other,
}

/// A frame. Which frames the runtime around the library refuses, and with what errors, is not known
/// here; assumed are the limits of the bus in [`CanFrame::validate`].
#[derive(Clone, Debug, PartialEq, Eq)]
pub enum CanFrame {
    ClassicData { id: CanId, data: Vec<u8> },
    ClassicRemote { id: CanId, dlc: u8 },
    FdData { id: CanId, data: Vec<u8>, bitrate_switch: bool, error_state_indicator: bool },
    Error { classes: Vec<CanErrorClass>, data: Vec<u8> },
}

/// The mathematical content of a [`CanFrame`].
#[verifier::ext_equal]
pub enum CanFrameView {
    ClassicData { id: CanId, data: Seq<u8> },
    ClassicRemote { id: CanId, dlc: u8 },
    FdData { id: CanId, data: Seq<u8>, bitrate_switch: bool, error_state_indicator: bool },
    Error { classes: Seq<CanErrorClass>, data: Seq<u8> },
}

impl View for CanFrame {
    type V = CanFrameView;

    open spec fn view(&self) -> CanFrameView {
        match self {
            CanFrame::ClassicData { id, data } => CanFrameView::ClassicData {
                id: *id,
                data: data@,
            },
            CanFrame::ClassicRemote { id, dlc } => CanFrameView::ClassicRemote {
                id: *id,
                dlc: *dlc,
            },
            CanFrame::FdData { id, data, bitrate_switch, error_state_indicator } => {
                CanFrameView::FdData {
                    id: *id,
                    data: data@,
                    bitrate_switch: *bitrate_switch,
                    error_state_indicator: *error_state_indicator,
                }
            },
            CanFrame::Error { classes, data } => CanFrameView::Error {
                classes: classes@,
                data: data@,
            },
        }
    }
}

/// A payload length that a CAN FD frame can have.
pub open spec fn fd_length(length: int) -> bool {
    0 <= length <= 8 || length == 12 || length == 16 || length == 20 || length == 24 || length
        == 32 || length == 48 || length == 64
}

/// The first reason, if any, why no bus carries the frame.
pub open spec fn frame_refusal(frame: CanFrameView) -> Option<Seq<char>> {
    match frame {
        CanFrameView::ClassicData { id, data } => if !id.valid() {
            Some("CAN identifier exceeds its width"@)
        } else if data.len() > 8 {
            Some("Classical CAN payload exceeds 8 bytes"@)
        } else {
            None
        },
        CanFrameView::ClassicRemote { id, dlc } => if !id.valid() {
            Some("CAN identifier exceeds its width"@)
        } else if dlc > 8 {
            Some("Classical CAN remote length exceeds 8"@)
        } else {
            None
        },
        CanFrameView::FdData { id, data, .. } => if !id.valid() {
            Some("CAN identifier exceeds its width"@)
        } else if !fd_length(data.len() as int) {
            Some("CAN FD payload length is not representable"@)
        } else {
            None
        },
        CanFrameView::Error { classes, data } => if classes.len() == 0 {
            Some("CAN error frame names no error class"@)
        } else if data.len() > 8 {
            Some("CAN error frame payload exceeds 8 bytes"@)
        } else {
            None
        },
    }
}

/// Whether a CAN FD frame can have the payload length.
pub fn is_fd_length(length: usize) -> (possible: bool)
    ensures
        possible == fd_length(length as int),
{
    length <= 8 || length == 12 || length == 16 || length == 20 || length == 24 || length == 32
        || length == 48 || length == 64
}

fn id_fits(id: CanId) -> (fits: bool)
    ensures
        fits == id.valid(),
{
    match id {
        CanId::Standard(value) => value <= 0x7ff,
        CanId::Extended(value) => value <= 0x1fff_ffff,
    }
}

impl CanFrame {
    /// Checks that a bus carries the frame.
    pub fn validate(&self) -> (result: HalResult<()>)
        ensures
            match result {
                Ok(()) => frame_refusal(self@) is None,
                Err(error) => {
                    &&& frame_refusal(self@) is Some
                    &&& error@ == frame_error(frame_refusal(self@)->0)
                },
            },
    {
        match self {
            CanFrame::ClassicData { id, data } => {
                if !id_fits(*id) {
                    return Err(invalid_frame("CAN identifier exceeds its width"));
                }
                if data.len() > 8 {
                    return Err(invalid_frame("Classical CAN payload exceeds 8 bytes"));
                }
            },
            CanFrame::ClassicRemote { id, dlc } => {
                if !id_fits(*id) {
                    return Err(invalid_frame("CAN identifier exceeds its width"));
                }
                if *dlc > 8 {
                    return Err(invalid_frame("Classical CAN remote length exceeds 8"));
                }
            },
            CanFrame::FdData { id, data, .. } => {
                if !id_fits(*id) {
                    return Err(invalid_frame("CAN identifier exceeds its width"));
                }
                if !is_fd_length(data.len()) {
                    return Err(invalid_frame("CAN FD payload length is not representable"));
                }
            },
            CanFrame::Error { classes, data } => {
                if classes.len() == 0 {
                    return Err(invalid_frame("CAN error frame names no error class"));
                }
                if data.len() > 8 {
                    return Err(invalid_frame("CAN error frame payload exceeds 8 bytes"));
                }
            },
        }
        Ok(())
    }

    /// The frame, if a bus carries it.
    pub fn checked(self) -> (result: HalResult<CanFrame>)
        ensures
            match result {
                Ok(frame) => frame == self && frame_refusal(self@) is None,
                Err(error) => {
                    &&& frame_refusal(self@) is Some
                    &&& error@ == frame_error(frame_refusal(self@)->0)
                },
            },
    {
        match self.validate() {
            Ok(()) => Ok(self),
            Err(error) => Err(error),
        }
    }

    /// A Classical data frame.
    pub fn classic_data(id: CanId, data: Vec<u8>) -> (result: HalResult<CanFrame>)
        ensures
            ({
                let view = CanFrameView::ClassicData { id, data: data@ };
                match result {
                    Ok(frame) => frame@ == view && frame_refusal(view) is None,
                    Err(error) => {
                        &&& frame_refusal(view) is Some
                        &&& error@ == frame_error(frame_refusal(view)->0)
                    },
                }
            }),
    {
        CanFrame::ClassicData { id, data }.checked()
    }

    /// A Classical remote frame.
    pub fn classic_remote(id: CanId, dlc: u8) -> (result: HalResult<CanFrame>)
        ensures
            ({
                let view = CanFrameView::ClassicRemote { id, dlc };
                match result {
                    Ok(frame) => frame@ == view && frame_refusal(view) is None,
                    Err(error) => {
                        &&& frame_refusal(view) is Some
                        &&& error@ == frame_error(frame_refusal(view)->0)
                    },
                }
            }),
    {
        CanFrame::ClassicRemote { id, dlc }.checked()
    }

    /// A CAN FD data frame.
    pub fn fd_data(
        id: CanId,
        data: Vec<u8>,
        bitrate_switch: bool,
        error_state_indicator: bool,
    ) -> (result: HalResult<CanFrame>)
        ensures
            ({
                let view = CanFrameView::FdData {
                    id,
                    data: data@,
                    bitrate_switch,
                    error_state_indicator,
                };
                match result {
                    Ok(frame) => frame@ == view && frame_refusal(view) is None,
                    Err(error) => {
                        &&& frame_refusal(view) is Some
                        &&& error@ == frame_error(frame_refusal(view)->0)
                    },
                }
            }),
    {
        CanFrame::FdData { id, data, bitrate_switch, error_state_indicator }.checked()
    }

    /// An error frame.
    pub fn error(classes: Vec<CanErrorClass>, data: Vec<u8>) -> (result: HalResult<CanFrame>)
        ensures
            ({
                let view = CanFrameView::Error { classes: classes@, data: data@ };
                match result {
                    Ok(frame) => frame@ == view && frame_refusal(view) is None,
                    Err(error) => {
                        &&& frame_refusal(view) is Some
                        &&& error@ == frame_error(frame_refusal(view)->0)
                    },
                }
            }),
    {
        CanFrame::Error { classes, data }.checked()
    }

    /// The identifier; an error frame has none.
    pub fn id(&self) -> (id: Option<CanId>)
        ensures
            id == match self@ {
                CanFrameView::ClassicData { id, .. } => Some(id),
                CanFrameView::ClassicRemote { id, .. } => Some(id),
                CanFrameView::FdData { id, .. } => Some(id),
                CanFrameView::Error { .. } => None,
            },
    {
        match self {
            CanFrame::ClassicData { id, .. } => Some(*id),
            CanFrame::ClassicRemote { id, .. } => Some(*id),
            CanFrame::FdData { id, .. } => Some(*id),
            CanFrame::Error { .. } => None,
        }
    }
}

/// Whether a link carries CAN FD frames.
#[derive(Clone, Copy, Debug, PartialEq, Eq, Structural)]
pub enum CanMode {
    Classic,
    Fd,
}

/// The timing of one phase of a bit.
#[derive(Clone, Copy, Debug, PartialEq, Eq, Structural)]
pub struct CanBitTiming {
    pub bitrate: u32,
    pub sample_point_permill: Option<u16>,
    pub sjw: Option<u16>,
}

/// The first reason, if any, why there is no such timing.
pub open spec fn timing_refusal(timing: CanBitTiming) -> Option<Seq<char>> {
    if timing.bitrate == 0 {
        Some("CAN bitrate must be non-zero"@)
    } else if timing.sample_point_permill is Some && !(0 < timing.sample_point_permill->0
        < 1000) {
        Some("CAN sample point must be within 1..=999 permill"@)
    } else if timing.sjw == Some(0u16) {
        Some("CAN SJW must be non-zero"@)
    } else {
        None
    }
}

/// The error of a configuration that no link has.
pub open spec fn configuration_error(message: Seq<char>) -> HalErrorView {
    HalErrorView::new(
        "can.configuration.invalid"@,
        ErrorCategory::InvalidArgument,
        "can.configuration"@,
        false,
        message,
    )
}

fn invalid_configuration(message: &'static str) -> (error: HalError)
    ensures
        error@ == configuration_error(message@),
{
    HalError::fixed(
        "can.configuration.invalid",
        ErrorCategory::InvalidArgument,
        "can.configuration",
        false,
        message,
    )
}

impl CanBitTiming {
    /// A timing. Which timings the runtime around the library refuses is not known here; assumed is
    /// that a bit rate, a sample point and a jump width are not zero, and that a sample point is less
    /// than the whole bit.
    pub fn new(
        bitrate: u32,
        sample_point_permill: Option<u16>,
        sjw: Option<u16>,
    ) -> (result: HalResult<CanBitTiming>)
        ensures
            ({
                let timing = CanBitTiming { bitrate, sample_point_permill, sjw };
                match result {
                    Ok(value) => value == timing && timing_refusal(timing) is None,
                    Err(error) => {
                        &&& timing_refusal(timing) is Some
                        &&& error@ == configuration_error(timing_refusal(timing)->0)
                    },
                }
            }),
    {
        if bitrate == 0 {
            return Err(invalid_configuration("CAN bitrate must be non-zero"));
        }
        if let Some(sample_point) = sample_point_permill {
            if sample_point == 0 || sample_point >= 1000 {
                return Err(
                    invalid_configuration("CAN sample point must be within 1..=999 permill"),
                );
            }
        }
        if let Some(width) = sjw {
            if width == 0 {
                return Err(invalid_configuration("CAN SJW must be non-zero"));
            }
        }
        Ok(CanBitTiming { bitrate, sample_point_permill, sjw })
    }
}

/// What a caller wants a link to be configured to.
#[derive(Clone, Copy, Debug, PartialEq, Eq, Structural)]
pub struct CanConfigureConfig {
    pub mode: CanMode,
    pub nominal: CanBitTiming,
    pub data: Option<CanBitTiming>,
    pub listen_only: bool,
    pub loopback: bool,
    pub restart_ms: Option<u32>,
}

/// What a caller expects of a link that is already configured.
#[derive(Clone, Copy, Debug, PartialEq, Eq, Structural)]
pub struct CanLinkExpectation {
    pub mode: Option<CanMode>,
    pub nominal_bitrate: Option<u32>,
    pub data_bitrate: Option<u32>,
    pub listen_only: Option<bool>,
    pub loopback: Option<bool>,
}

/// The clock that times of a link belong to.
#[derive(Clone, Copy, Debug, PartialEq, Eq, Structural)]
pub enum ClockDomain {
    HostMonotonic,
    PcanBasic,
}

impl ClockDomain {
    /// The name of the clock.
    pub open spec fn name(self) -> Seq<char> {
        match self {
            ClockDomain::HostMonotonic => "host-monotonic"@,
            ClockDomain::PcanBasic => "pcan-basic"@,
        }
    }

    /// The name of the clock.
    pub fn as_str(self) -> (name: &'static str)
        ensures
            name@ == self.name(),
    {
        match self {
            ClockDomain::HostMonotonic => "host-monotonic",
            ClockDomain::PcanBasic => "pcan-basic",
        }
    }
}

/// Where the time of a frame comes from.
#[derive(Clone, Copy, Debug, PartialEq, Eq, Structural)]
pub enum CanTimestampSource {
    HostMonotonic,
}

/// The time of a frame.
#[derive(Clone, Copy, Debug, PartialEq, Eq, Structural)]
pub struct CanTimestamp {
    pub nanoseconds: u64,
    pub source: CanTimestampSource,
    pub clock_domain: ClockDomain,
}

/// A frame that was received, with its time where the channel reports one.
#[derive(Clone, Debug, PartialEq, Eq)]
pub struct ReceivedCanFrame {
    pub frame: CanFrame,
    pub timestamp: Option<CanTimestamp>,
}

/// How a link is configured.
#[derive(Clone, Copy, Debug, PartialEq, Eq, Structural)]
pub struct CanActiveConfig {
    pub mode: CanMode,
    pub nominal: CanBitTiming,
    pub data: Option<CanBitTiming>,
    pub listen_only: bool,
    pub loopback: bool,
    pub clock_domain: ClockDomain,
}

impl CanActiveConfig {
    /// The configuration of a link: the data phase has a timing exactly where the link carries
    /// CAN FD frames. That this is all that the runtime around the library checks is assumed; its
    /// own check is not known here.
    pub fn new(
        mode: CanMode,
        nominal: CanBitTiming,
        data: Option<CanBitTiming>,
        listen_only: bool,
        loopback: bool,
        clock_domain: ClockDomain,
    ) -> (result: HalResult<CanActiveConfig>)
        ensures
            match result {
                Ok(config) => {
                    &&& (mode == CanMode::Fd) == (data is Some)
                    &&& config == (CanActiveConfig {
                        mode,
                        nominal,
                        data,
                        listen_only,
                        loopback,
                        clock_domain,
                    })
                },
                Err(error) => {
                    &&& (mode == CanMode::Fd) != (data is Some)
                    &&& error@ == configuration_error(
                        "CAN data-phase timing must be present exactly in FD mode"@,
                    )
                },
            },
    {
        if (mode == CanMode::Fd) != data.is_some() {
            return Err(
                invalid_configuration("CAN data-phase timing must be present exactly in FD mode"),
            );
        }
        Ok(CanActiveConfig { mode, nominal, data, listen_only, loopback, clock_domain })
    }
}

/// The error state of a controller.
#[derive(Clone, Copy, Debug, PartialEq, Eq, Structural)]
pub enum CanBusState {
    Active,
    Warning,
    Passive,
    BusOff,
    Stopped,
    Unknown,
}

/// The state of a bus with the error counters, where they are known.
#[derive(Clone, Copy, Debug, PartialEq, Eq, Structural)]
pub struct CanBusStatus {
    pub state: CanBusState,
    pub tx_error_counter: Option<u32>,
    pub rx_error_counter: Option<u32>,
}

/// A bus carries a frame exactly where its identifier fits in 11 or 29 bits, a Classical frame has at
/// most eight bytes, a CAN FD frame has a length with a code of its own, and an error frame names a
/// class.
pub proof fn law_bus_carries_frames_exactly(frame: CanFrameView)
    ensures
        frame_refusal(frame) is None <==> {
            &&& match frame {
                CanFrameView::ClassicData { id, .. }
                | CanFrameView::ClassicRemote { id, .. }
                | CanFrameView::FdData { id, .. } => {
                    &&& id matches CanId::Standard(number) ==> number < 2048
                    &&& id matches CanId::Extended(number) ==> number < 536_870_912
                },
                CanFrameView::Error { .. } => true,
            }
            &&& match frame {
                CanFrameView::ClassicData { data, .. } => data.len() <= 8,
                CanFrameView::ClassicRemote { dlc, .. } => dlc <= 8,
                CanFrameView::FdData { data, .. } => {
                    ||| data.len() <= 8
                    ||| data.len() <= 24 && data.len() % 4 == 0
                    ||| data.len() == 32 || data.len() == 48 || data.len() == 64
                },
                CanFrameView::Error { classes, data } => classes.len() > 0 && data.len() <= 8,
            }
        },
{
}

/// There is a timing exactly with a bit rate, with a sample point inside the bit and with a jump
/// width, where these are named.
pub proof fn law_timings_have_rates_and_inner_sample_points(timing: CanBitTiming)
    ensures
        timing_refusal(timing) is None <==> {
            &&& timing.bitrate > 0
            &&& timing.sample_point_permill matches Some(point) ==> 1 <= point <= 999
            &&& timing.sjw matches Some(width) ==> width >= 1
        },
{
}

/// The content of a frame is what its fields hold.
pub proof fn law_frames_are_what_they_hold(frame: CanFrame)
    ensures
        frame matches CanFrame::ClassicData { id, data } ==> frame@ == (CanFrameView::ClassicData {
            id,
            data: data@,
        }),
        frame matches CanFrame::ClassicRemote { id, dlc } ==> frame@
            == (CanFrameView::ClassicRemote { id, dlc }),
        frame matches CanFrame::FdData { id, data, bitrate_switch, error_state_indicator }
            ==> frame@ == (CanFrameView::FdData {
            id,
            data: data@,
            bitrate_switch,
            error_state_indicator,
        }),
        frame matches CanFrame::Error { classes, data } ==> frame@ == (CanFrameView::Error {
            classes: classes@,
            data: data@,
        }),
{
}

/// A frame or a configuration that cannot be is an argument of the caller's that is not worth another
/// try.
pub proof fn law_impossible_requests_are_the_callers(message: Seq<char>)
    ensures
        frame_error(message).name == "can.frame.invalid"@,
        frame_error(message).category == ErrorCategory::InvalidArgument,
        frame_error(message).operation == "can.frame"@,
        !frame_error(message).retryable,
        frame_error(message).message == message,
        configuration_error(message).name == "can.configuration.invalid"@,
        configuration_error(message).category == ErrorCategory::InvalidArgument,
        configuration_error(message).operation == "can.configuration"@,
        !configuration_error(message).retryable,
        configuration_error(message).message == message,
{
}

} // verus!
