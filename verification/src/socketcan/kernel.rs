//! What the kernel reports about an interface and what it is asked to change.

use vstd::prelude::*;

use crate::can::CanBusState;
use crate::text;

verus! {

/// The size of the frames that an interface takes.
#[derive(Clone, Copy, Debug, PartialEq, Eq, Structural)]
pub enum Mtu {
    Standard,
    Fd,
}

/// The timing of one phase of a bit as the kernel has it.
#[derive(Clone, Copy, Debug, PartialEq, Eq, Structural)]
pub struct KernelTiming {
    pub bitrate: u32,
    pub sample_point: u32,
    pub tq: u32,
    pub prop_seg: u32,
    pub phase_seg1: u32,
    pub phase_seg2: u32,
    pub sjw: u32,
    pub brp: u32,
}

/// A control mode of a controller.
#[derive(Clone, Copy, Debug, PartialEq, Eq, Structural)]
pub enum ControlMode {
    Loopback,
    ListenOnly,
    TripleSampling,
    OneShot,
    BerrReporting,
    Fd,
    PresumeAck,
    NonIso,
    CcLen8Dlc,
}

impl ControlMode {
    /// The bit of the mode.
    pub open spec fn bit(self) -> u32 {
        match self {
            ControlMode::Loopback => 0x001,
            ControlMode::ListenOnly => 0x002,
            ControlMode::TripleSampling => 0x004,
            ControlMode::OneShot => 0x008,
            ControlMode::BerrReporting => 0x010,
            ControlMode::Fd => 0x020,
            ControlMode::PresumeAck => 0x040,
            ControlMode::NonIso => 0x080,
            ControlMode::CcLen8Dlc => 0x100,
        }
    }

    /// The bit of the mode.
    pub fn mask(self) -> (bit: u32)
        ensures
            bit == self.bit(),
    {
        match self {
            ControlMode::Loopback => 0x001,
            ControlMode::ListenOnly => 0x002,
            ControlMode::TripleSampling => 0x004,
            ControlMode::OneShot => 0x008,
            ControlMode::BerrReporting => 0x010,
            ControlMode::Fd => 0x020,
            ControlMode::PresumeAck => 0x040,
            ControlMode::NonIso => 0x080,
            ControlMode::CcLen8Dlc => 0x100,
        }
    }
}

/// A set of control modes: which ones are spoken of, and which of them are on.
#[derive(Clone, Copy, Debug, PartialEq, Eq, Structural)]
pub struct ControlModes {
    pub mask: u32,
    pub flags: u32,
}

impl ControlModes {
    /// Whether a mode is on.
    pub open spec fn is_on(self, mode: ControlMode) -> bool {
        mode.bit() & self.flags != 0
    }

    /// Whether a mode is spoken of.
    pub open spec fn names(self, mode: ControlMode) -> bool {
        mode.bit() & self.mask != 0
    }

    /// No modes.
    pub fn new() -> (modes: ControlModes)
        ensures
            modes == (ControlModes { mask: 0, flags: 0 }),
    {
        ControlModes { mask: 0, flags: 0 }
    }

    /// Whether a mode is on.
    pub fn has_mode(&self, mode: ControlMode) -> (on: bool)
        ensures
            on == self.is_on(mode),
    {
        mode.mask() & self.flags != 0
    }

    /// Adds a mode.
    pub fn add(&mut self, mode: ControlMode, on: bool)
        ensures
            *final(self) == (ControlModes {
                mask: old(self).mask | mode.bit(),
                flags: if on {
                    old(self).flags | mode.bit()
                } else {
                    old(self).flags
                },
            }),
    {
        let bit: u32 = mode.mask();
        self.mask = self.mask | bit;
        if on {
            self.flags = self.flags | bit;
        }
    }
}

/// The state of a controller as the kernel has it.
#[derive(Clone, Copy, Debug, PartialEq, Eq, Structural)]
pub enum ControllerState {
    ErrorActive,
    ErrorWarning,
    ErrorPassive,
    BusOff,
    Stopped,
    Sleeping,
}

/// The state of the bus that a controller state means.
pub open spec fn bus_state(state: ControllerState) -> CanBusState {
    match state {
        ControllerState::ErrorActive => CanBusState::Active,
        ControllerState::ErrorWarning => CanBusState::Warning,
        ControllerState::ErrorPassive => CanBusState::Passive,
        ControllerState::BusOff => CanBusState::BusOff,
        ControllerState::Stopped => CanBusState::Stopped,
        ControllerState::Sleeping => CanBusState::Stopped,
    }
}

/// The state of the bus that a controller state means.
pub fn map_bus_state(state: ControllerState) -> (mapped: CanBusState)
    ensures
        mapped == bus_state(state),
{
    match state {
        ControllerState::ErrorActive => CanBusState::Active,
        ControllerState::ErrorWarning => CanBusState::Warning,
        ControllerState::ErrorPassive => CanBusState::Passive,
        ControllerState::BusOff => CanBusState::BusOff,
        ControllerState::Stopped => CanBusState::Stopped,
        ControllerState::Sleeping => CanBusState::Stopped,
    }
}

/// The error counters of a controller.
#[derive(Clone, Copy, Debug, PartialEq, Eq, Structural)]
pub struct ErrorCounters {
    pub tx: u16,
    pub rx: u16,
}

/// The parameters that an interface is given; an absent one stays as it is.
#[derive(Clone, Copy, Debug, PartialEq, Eq, Structural)]
pub struct LinkParams {
    pub bit_timing: Option<KernelTiming>,
    pub data_bit_timing: Option<KernelTiming>,
    pub ctrl_mode: Option<ControlModes>,
    pub restart_ms: Option<u32>,
    pub termination: Option<u16>,
}

/// What the kernel reports about the controller of an interface.
#[derive(Clone, Copy, Debug, PartialEq, Eq, Structural)]
pub struct ControllerDetails {
    pub params: LinkParams,
    /// Whether the limits of the nominal timing are reported.
    pub bit_timing_const: bool,
    /// Whether the limits of the data timing are reported.
    pub data_bit_timing_const: bool,
    pub state: Option<ControllerState>,
    pub berr_counter: Option<ErrorCounters>,
}

/// What the kernel reports about an interface.
#[derive(Clone, Debug, PartialEq, Eq)]
pub struct InterfaceDetails {
    pub name: Option<String>,
    pub index: u32,
    pub is_up: bool,
    pub mtu: Option<Mtu>,
    pub can: ControllerDetails,
}

/// The mathematical content of [`InterfaceDetails`].
#[verifier::ext_equal]
pub struct DetailsView {
    pub name: Option<Seq<char>>,
    pub index: u32,
    pub is_up: bool,
    pub mtu: Option<Mtu>,
    pub can: ControllerDetails,
}

impl View for InterfaceDetails {
    type V = DetailsView;

    open spec fn view(&self) -> DetailsView {
        DetailsView {
            name: text::optional_text(self.name),
            index: self.index,
            is_up: self.is_up,
            mtu: self.mtu,
            can: self.can,
        }
    }
}

impl InterfaceDetails {
    /// Details that report nothing.
    pub fn new() -> (details: InterfaceDetails)
        ensures
            details@ == (DetailsView {
                name: None,
                index: 0,
                is_up: false,
                mtu: None,
                can: ControllerDetails {
                    params: LinkParams {
                        bit_timing: None,
                        data_bit_timing: None,
                        ctrl_mode: None,
                        restart_ms: None,
                        termination: None,
                    },
                    bit_timing_const: false,
                    data_bit_timing_const: false,
                    state: None,
                    berr_counter: None,
                },
            }),
    {
        InterfaceDetails {
            name: None,
            index: 0,
            is_up: false,
            mtu: None,
            can: ControllerDetails {
                params: LinkParams {
                    bit_timing: None,
                    data_bit_timing: None,
                    ctrl_mode: None,
                    restart_ms: None,
                    termination: None,
                },
                bit_timing_const: false,
                data_bit_timing_const: false,
                state: None,
                berr_counter: None,
            },
        }
    }

    /// A second value with the same content.
    pub fn copy(&self) -> (details: InterfaceDetails)
        ensures
            details@ == self@,
    {
        InterfaceDetails {
            name: self.name.clone(),
            index: self.index,
            is_up: self.is_up,
            mtu: self.mtu,
            can: self.can,
        }
    }
}

/// The content of what the kernel reports is what the fields hold.
pub proof fn law_details_are_what_they_hold(details: InterfaceDetails)
    ensures
        details@.name is Some <==> details.name is Some,
        details.name is Some ==> details@.name->0 == details.name->0@,
        details@.index == details.index,
        details@.is_up == details.is_up,
        details@.mtu == details.mtu,
        details@.can == details.can,
{
}

/// The bits of the control modes.
pub proof fn law_modes_have_these_bits(modes: ControlModes)
    ensures
        modes.is_on(ControlMode::Loopback) <==> 0x001 & modes.flags != 0,
        modes.is_on(ControlMode::ListenOnly) <==> 0x002 & modes.flags != 0,
        modes.is_on(ControlMode::TripleSampling) <==> 0x004 & modes.flags != 0,
        modes.is_on(ControlMode::OneShot) <==> 0x008 & modes.flags != 0,
        modes.is_on(ControlMode::BerrReporting) <==> 0x010 & modes.flags != 0,
        modes.is_on(ControlMode::Fd) <==> 0x020 & modes.flags != 0,
        modes.is_on(ControlMode::PresumeAck) <==> 0x040 & modes.flags != 0,
        modes.is_on(ControlMode::NonIso) <==> 0x080 & modes.flags != 0,
        modes.is_on(ControlMode::CcLen8Dlc) <==> 0x100 & modes.flags != 0,
        modes.names(ControlMode::Loopback) <==> 0x001 & modes.mask != 0,
        modes.names(ControlMode::ListenOnly) <==> 0x002 & modes.mask != 0,
        modes.names(ControlMode::TripleSampling) <==> 0x004 & modes.mask != 0,
        modes.names(ControlMode::OneShot) <==> 0x008 & modes.mask != 0,
        modes.names(ControlMode::BerrReporting) <==> 0x010 & modes.mask != 0,
        modes.names(ControlMode::Fd) <==> 0x020 & modes.mask != 0,
        modes.names(ControlMode::PresumeAck) <==> 0x040 & modes.mask != 0,
        modes.names(ControlMode::NonIso) <==> 0x080 & modes.mask != 0,
        modes.names(ControlMode::CcLen8Dlc) <==> 0x100 & modes.mask != 0,
{
}

} // verus!
