//! What a channel is opened with: a checked configuration or the configuration it already has.

use vstd::prelude::*;
use vstd::string::*;

use crate::can;
use crate::can::{
    CanActiveConfig, CanBitTiming, CanConfigureConfig, CanLinkExpectation, CanMode, ClockDomain,
};
use crate::pcan::device::{bus_and_index, BusType, DriverDevice};
use crate::pcan::driver_error::{
    DriverError, DriverFault, PCAN_ERROR_ILLOPERATION, PCAN_ERROR_ILLPARAMTYPE,
    PCAN_ERROR_ILLPARAMVAL, PCAN_ERROR_INITIALIZE,
};
use crate::pcan::device;
use crate::pcan::timing;
use crate::pcan::timing::{
    classic_bitrate, exact_phase, parse_fd_timing, timing_to_public, ClassicBitrate, FdTiming,
    TimingPhase,
};
use crate::text;
use crate::text::{push_decimal, push_upper_hex};

verus! {

pub const PCAN_PARAMETER_OFF: u32 = 0;

pub const PCAN_PARAMETER_ON: u32 = 1;

/// How the controller is initialised.
#[derive(Clone, Copy, Debug, PartialEq, Eq, Structural)]
pub enum PreparedKind {
    Classic(ClassicBitrate),
    Fd(FdTiming),
}

/// A configuration that is ready to be opened.
#[derive(Clone, Copy, Debug, PartialEq, Eq, Structural)]
pub struct PreparedOpen {
    pub kind: PreparedKind,
    pub active: CanActiveConfig,
}

/// Whether a predefined Classical bit rate exists.
pub open spec fn predefined(bitrate: u32) -> bool {
    exists|rate: ClassicBitrate| #[trigger] rate.rate() == bitrate
}

/// Why a configuration cannot be opened: the first reason in order.
pub open spec fn configure_refusal(request: CanConfigureConfig) -> Option<Seq<char>> {
    if request.loopback {
        Some("PCAN-Basic does not expose controller loopback configuration"@)
    } else if request.restart_ms is Some {
        Some("PCAN-Basic auto-reset has no representable restart delay"@)
    } else if (request.mode == CanMode::Fd) != (request.data is Some) {
        Some("CAN data-phase timing must be present exactly in FD mode"@)
    } else {
        match request.data {
            None => if request.nominal.sample_point_permill is Some || request.nominal.sjw is Some {
                Some("PCAN Classical CAN supports only predefined bitrates, not timing overrides"@)
            } else if !predefined(request.nominal.bitrate) {
                Some(
                    "PCAN Classical CAN cannot represent "@ + text::decimal_digits(
                        request.nominal.bitrate as nat,
                    ) + " bit/s"@,
                )
            } else {
                None
            },
            Some(data) => match timing::phase_refusal(request.nominal, TimingPhase::Nominal) {
                Some(reason) => Some(reason),
                None => timing::phase_refusal(data, TimingPhase::Data),
            },
        }
    }
}

/// What a configuration is opened with.
pub open spec fn configures(request: CanConfigureConfig, prepared: PreparedOpen) -> bool {
    &&& prepared.active == (CanActiveConfig {
        mode: request.mode,
        nominal: request.nominal,
        data: request.data,
        listen_only: request.listen_only,
        loopback: false,
        clock_domain: ClockDomain::PcanBasic,
    })
    &&& match prepared.kind {
        PreparedKind::Classic(rate) => {
            &&& request.mode == CanMode::Classic
            &&& rate.rate() == request.nominal.bitrate
        },
        PreparedKind::Fd(registers) => {
            &&& request.mode == CanMode::Fd
            &&& request.data is Some
            &&& timing::is_best(request.nominal, TimingPhase::Nominal, registers.nominal)
            &&& timing::is_best(request.data->0, TimingPhase::Data, registers.data)
        },
    }
}

/// Checks a configuration and finds the register values that give it exactly.
pub fn prepare_configure(request: &CanConfigureConfig) -> (result: Result<
    PreparedOpen,
    DriverError,
>)
    ensures
        match result {
            Ok(prepared) => {
                &&& configure_refusal(*request) is None
                &&& configures(*request, prepared)
                &&& prepared.active.mode == request.mode
                &&& prepared.active.nominal == request.nominal
                &&& prepared.active.data == request.data
                &&& prepared.active.listen_only == request.listen_only
                &&& !prepared.active.loopback && !request.loopback
                &&& request.restart_ms is None
                &&& prepared.kind is Fd <==> request.mode == CanMode::Fd
            },
            Err(error) => {
                &&& configure_refusal(*request) is Some
                &&& error@ == DriverFault::Unsupported(configure_refusal(*request)->0)
            },
        },
{
    if request.loopback {
        return Err(
            DriverError::Unsupported(
                "PCAN-Basic does not expose controller loopback configuration".to_owned(),
            ),
        );
    }
    if request.restart_ms.is_some() {
        return Err(
            DriverError::Unsupported(
                "PCAN-Basic auto-reset has no representable restart delay".to_owned(),
            ),
        );
    }
    let active = match CanActiveConfig::new(
        request.mode,
        request.nominal,
        request.data,
        request.listen_only,
        false,
        ClockDomain::PcanBasic,
    ) {
        Ok(active) => active,
        Err(error) => {
            return Err(DriverError::Unsupported(error.debug_message().to_owned()));
        },
    };
    let kind = match request.data {
        None => {
            if request.nominal.sample_point_permill.is_some() || request.nominal.sjw.is_some() {
                return Err(
                    DriverError::Unsupported(
                        "PCAN Classical CAN supports only predefined bitrates, not timing overrides".to_owned(),
                    ),
                );
            }
            match classic_bitrate(request.nominal.bitrate) {
                Some(rate) => PreparedKind::Classic(rate),
                None => {
                    let mut message = "PCAN Classical CAN cannot represent ".to_owned();
                    push_decimal(&mut message, request.nominal.bitrate as u64);
                    message.append(" bit/s");
                    return Err(DriverError::Unsupported(message));
                },
            }
        },
        Some(data) => {
            let nominal = exact_phase(&request.nominal, TimingPhase::Nominal)?;
            let data = exact_phase(&data, TimingPhase::Data)?;
            PreparedKind::Fd(FdTiming { nominal, data })
        },
    };
    Ok(PreparedOpen { kind, active })
}

/// What the driver reports about a channel that is already initialised.
#[derive(Clone, Copy, Debug, PartialEq, Eq, Structural)]
pub struct ObservedLink {
    pub nominal_bitrate: u32,
    pub data_bitrate: Option<u32>,
    pub listen_only: bool,
}

/// The content of an answer of the driver.
pub open spec fn answer<T>(result: Result<T, DriverError>) -> Result<T, DriverFault> {
    match result {
        Ok(value) => Ok(value),
        Err(error) => Err(error@),
    }
}

/// A failed query of the data bit rate that only says that the channel has none.
pub open spec fn means_no_data_phase(fault: DriverFault) -> bool {
    match fault {
        DriverFault::Status(status) => status & (PCAN_ERROR_INITIALIZE | PCAN_ERROR_ILLPARAMTYPE
            | PCAN_ERROR_ILLPARAMVAL | PCAN_ERROR_ILLOPERATION) != 0,
        _ => false,
    }
}

/// The mode of an observed link: CAN FD where it has a data bit rate.
pub open spec fn observed_mode(link: ObservedLink) -> CanMode {
    if link.data_bitrate is Some {
        CanMode::Fd
    } else {
        CanMode::Classic
    }
}

/// Why an observed link is not the expected one.
pub open spec fn expectation_refusal(
    expectation: CanLinkExpectation,
    link: ObservedLink,
) -> Option<DriverFault> {
    if expectation.loopback is Some {
        Some(DriverFault::Unsupported("PCAN-Basic cannot query controller loopback state"@))
    } else if (expectation.mode is Some && expectation.mode != Some(observed_mode(link))) || (
    expectation.nominal_bitrate is Some && expectation.nominal_bitrate != Some(
        link.nominal_bitrate,
    )) || (expectation.data_bitrate is Some && expectation.data_bitrate != link.data_bitrate) || (
    expectation.listen_only is Some && expectation.listen_only != Some(link.listen_only)) {
        Some(
            DriverFault::ConfigurationMismatch(
                "PCAN channel configuration does not match Attach expectations"@,
            ),
        )
    } else {
        None
    }
}

/// Checks that an observed link is the expected one.
pub fn verify_expectation(expectation: &CanLinkExpectation, link: &ObservedLink) -> (result: Result<
    (),
    DriverError,
>)
    ensures
        match result {
            Ok(()) => expectation_refusal(*expectation, *link) is None,
            Err(error) => expectation_refusal(*expectation, *link) == Some(error@),
        },
{
    if expectation.loopback.is_some() {
        return Err(
            DriverError::Unsupported(
                "PCAN-Basic cannot query controller loopback state".to_owned(),
            ),
        );
    }
    let mode = if link.data_bitrate.is_some() {
        CanMode::Fd
    } else {
        CanMode::Classic
    };
    let mode_differs = match expectation.mode {
        Some(value) => value != mode,
        None => false,
    };
    let nominal_differs = match expectation.nominal_bitrate {
        Some(value) => value != link.nominal_bitrate,
        None => false,
    };
    let data_differs = match expectation.data_bitrate {
        Some(value) => match link.data_bitrate {
            Some(observed) => value != observed,
            None => true,
        },
        None => false,
    };
    let listen_only_differs = match expectation.listen_only {
        Some(value) => value != link.listen_only,
        None => false,
    };
    if mode_differs || nominal_differs || data_differs || listen_only_differs {
        return Err(
            DriverError::ConfigurationMismatch(
                "PCAN channel configuration does not match Attach expectations".to_owned(),
            ),
        );
    }
    Ok(())
}

/// The link that the answers of the driver describe, or the first failure.
pub open spec fn observed(
    nominal: Result<u32, DriverFault>,
    data: Result<u32, DriverFault>,
    listen_only: Result<u32, DriverFault>,
    expectation: CanLinkExpectation,
) -> Result<ObservedLink, DriverFault> {
    if nominal is Err {
        Err(
            DriverFault::Unsupported(
                "PCAN Attach requires an already initialized, queryable channel"@,
            ),
        )
    } else if data is Err && !means_no_data_phase(data->Err_0) {
        Err(data->Err_0)
    } else if listen_only is Err {
        Err(listen_only->Err_0)
    } else {
        let link = ObservedLink {
            nominal_bitrate: nominal->Ok_0,
            data_bitrate: if data is Ok && data->Ok_0 != 0 {
                Some(data->Ok_0)
            } else {
                None
            },
            listen_only: listen_only->Ok_0 != 0,
        };
        match expectation_refusal(expectation, link) {
            Some(fault) => Err(fault),
            None => Ok(link),
        }
    }
}

/// Puts the answers of the driver to the three attach queries together and compares them with
/// what is expected.
pub fn observe_link(
    nominal: Result<u32, DriverError>,
    data: Result<u32, DriverError>,
    listen_only: Result<u32, DriverError>,
    expectation: &CanLinkExpectation,
) -> (result: Result<ObservedLink, DriverError>)
    ensures
        answer(result) == observed(
            answer(nominal),
            answer(data),
            answer(listen_only),
            *expectation,
        ),
        result matches Ok(link) ==> {
            &&& nominal is Ok
            &&& link.nominal_bitrate == nominal->Ok_0
            &&& data is Ok && data->Ok_0 != 0 ==> link.data_bitrate == Some(data->Ok_0)
            &&& !(data is Ok && data->Ok_0 != 0) ==> link.data_bitrate is None
            &&& listen_only is Ok
            &&& link.listen_only == (listen_only->Ok_0 != 0)
            &&& expectation.loopback is None
            &&& expectation.mode matches Some(mode) ==> (mode == CanMode::Fd)
                == link.data_bitrate is Some
            &&& expectation.nominal_bitrate matches Some(bitrate) ==> link.nominal_bitrate
                == bitrate
            &&& expectation.data_bitrate matches Some(bitrate) ==> link.data_bitrate == Some(
                bitrate,
            )
            &&& expectation.listen_only matches Some(value) ==> link.listen_only == value
        },
        nominal is Ok && data is Ok && listen_only is Ok && expectation.loopback is None && (
        expectation.mode is None || (expectation.mode->0 == CanMode::Fd) == (data->Ok_0 != 0)) && (
        expectation.nominal_bitrate is None || expectation.nominal_bitrate->0 == nominal->Ok_0) && (
        expectation.data_bitrate is None || (data->Ok_0 != 0 && expectation.data_bitrate->0
            == data->Ok_0)) && (expectation.listen_only is None || expectation.listen_only->0 == (
        listen_only->Ok_0 != 0)) ==> result is Ok,
{
    let nominal_bitrate: u32 = match nominal {
        Ok(value) => value,
        Err(_) => {
            return Err(
                DriverError::Unsupported(
                    "PCAN Attach requires an already initialized, queryable channel".to_owned(),
                ),
            );
        },
    };
    let data_bitrate: Option<u32> = match data {
        Ok(value) => if value != 0 {
            Some(value)
        } else {
            None
        },
        Err(error) => {
            let absent = match error {
                DriverError::Status(status) => status & (PCAN_ERROR_INITIALIZE
                    | PCAN_ERROR_ILLPARAMTYPE | PCAN_ERROR_ILLPARAMVAL
                    | PCAN_ERROR_ILLOPERATION) != 0,
                _ => false,
            };
            if !absent {
                return Err(error);
            }
            None
        },
    };
    let listen_only: bool = match listen_only {
        Ok(value) => value != 0,
        Err(error) => {
            return Err(error);
        },
    };
    let link = ObservedLink { nominal_bitrate, data_bitrate, listen_only };
    match verify_expectation(expectation, &link) {
        Ok(()) => Ok(link),
        Err(error) => Err(error),
    }
}

/// Why an observed link cannot be attached to, given the timing text of a CAN FD link.
pub open spec fn attach_refusal(link: ObservedLink, timing_text: Seq<char>) -> Option<Seq<char>> {
    match link.data_bitrate {
        Some(data_bitrate) => match timing::fd_timing_of(timing_text) {
            Err(reason) => Some(reason),
            Ok(registers) => match (
                timing::public_timing(registers.nominal),
                timing::public_timing(registers.data),
            ) {
                (Err(reason), _) => Some(reason),
                (Ok(_), Err(reason)) => Some(reason),
                (Ok(nominal), Ok(data)) => if nominal.bitrate != link.nominal_bitrate
                    || data.bitrate != data_bitrate {
                    Some("PCAN FD bitrate metadata disagrees with active timing"@)
                } else {
                    None
                },
            },
        },
        None => if !predefined(link.nominal_bitrate) {
            Some(
                "active PCAN Classical bitrate "@ + text::decimal_digits(
                    link.nominal_bitrate as nat,
                ) + " is not representable by can-hal-pcan"@,
            )
        } else {
            None
        },
    }
}

/// What an observed link is opened with.
pub open spec fn attaches(
    link: ObservedLink,
    timing_text: Seq<char>,
    prepared: PreparedOpen,
) -> bool {
    &&& prepared.active.mode == observed_mode(link)
    &&& prepared.active.listen_only == link.listen_only
    &&& !prepared.active.loopback
    &&& prepared.active.clock_domain == ClockDomain::PcanBasic
    &&& match prepared.kind {
        PreparedKind::Classic(rate) => {
            &&& link.data_bitrate is None
            &&& rate.rate() == link.nominal_bitrate
            &&& prepared.active.nominal == (CanBitTiming {
                bitrate: link.nominal_bitrate,
                sample_point_permill: None,
                sjw: None,
            })
            &&& prepared.active.data is None
        },
        PreparedKind::Fd(registers) => {
            &&& link.data_bitrate is Some
            &&& timing::fd_timing_of(timing_text) == Ok::<FdTiming, Seq<char>>(registers)
            &&& timing::public_timing(registers.nominal) == Ok::<CanBitTiming, Seq<char>>(
                prepared.active.nominal,
            )
            &&& prepared.active.data is Some
            &&& timing::public_timing(registers.data) == Ok::<CanBitTiming, Seq<char>>(
                prepared.active.data->0,
            )
        },
    }
}

impl ObservedLink {
    /// Whether the timing text of the channel is needed to attach to it.
    pub fn needs_timing_text(&self) -> (needed: bool)
        ensures
            needed == (observed_mode(*self) == CanMode::Fd),
    {
        self.data_bitrate.is_some()
    }
}

/// Prepares to attach to an observed link. The timing text counts only for a CAN FD link.
pub fn prepare_attach(link: &ObservedLink, timing_text: &str) -> (result: Result<
    PreparedOpen,
    DriverError,
>)
    ensures
        match result {
            Ok(prepared) => {
                &&& attach_refusal(*link, timing_text@) is None
                &&& attaches(*link, timing_text@, prepared)
                &&& prepared.active.mode == CanMode::Fd <==> link.data_bitrate is Some
                &&& prepared.active.nominal.bitrate == link.nominal_bitrate
                &&& prepared.active.data is Some <==> link.data_bitrate is Some
                &&& link.data_bitrate matches Some(bitrate) ==> prepared.active.data->0.bitrate
                    == bitrate
                &&& prepared.active.listen_only == link.listen_only
                &&& !prepared.active.loopback
                &&& prepared.kind is Fd <==> link.data_bitrate is Some
            },
            Err(error) => {
                &&& attach_refusal(*link, timing_text@) is Some
                &&& error@ == DriverFault::Unsupported(attach_refusal(*link, timing_text@)->0)
            },
        },
{
    let (mode, nominal, data, kind) = match link.data_bitrate {
        Some(data_bitrate) => {
            let registers = parse_fd_timing(timing_text)?;
            let nominal = timing_to_public(registers.nominal)?;
            let data = timing_to_public(registers.data)?;
            if nominal.bitrate != link.nominal_bitrate || data.bitrate != data_bitrate {
                return Err(
                    DriverError::Unsupported(
                        "PCAN FD bitrate metadata disagrees with active timing".to_owned(),
                    ),
                );
            }
            (CanMode::Fd, nominal, Some(data), PreparedKind::Fd(registers))
        },
        None => {
            let rate = match classic_bitrate(link.nominal_bitrate) {
                Some(rate) => rate,
                None => {
                    let mut message = "active PCAN Classical bitrate ".to_owned();
                    push_decimal(&mut message, link.nominal_bitrate as u64);
                    message.append(" is not representable by can-hal-pcan");
                    return Err(DriverError::Unsupported(message));
                },
            };
            let nominal = match CanBitTiming::new(link.nominal_bitrate, None, None) {
                Ok(nominal) => nominal,
                Err(error) => {
                    return Err(DriverError::Unsupported(error.debug_message().to_owned()));
                },
            };
            (CanMode::Classic, nominal, None, PreparedKind::Classic(rate))
        },
    };
    match CanActiveConfig::new(
        mode,
        nominal,
        data,
        link.listen_only,
        false,
        ClockDomain::PcanBasic,
    ) {
        Ok(active) => Ok(PreparedOpen { kind, active }),
        Err(error) => Err(DriverError::Unsupported(error.debug_message().to_owned())),
    }
}

/// A link that was configured is attached to with the same register values, where the driver
/// reports back the bit rates and the register values that it was given.
pub proof fn law_attach_follows_configure(
    request: CanConfigureConfig,
    prepared: PreparedOpen,
    timing_text: Seq<char>,
)
    requires
        configure_refusal(request) is None,
        configures(request, prepared),
        request.data is Some,
        prepared.kind matches PreparedKind::Fd(registers) && timing::fd_timing_of(timing_text)
            == Ok::<FdTiming, Seq<char>>(registers),
    ensures
        ({
            let link = ObservedLink {
                nominal_bitrate: request.nominal.bitrate,
                data_bitrate: Some(request.data->0.bitrate),
                listen_only: request.listen_only,
            };
            &&& attach_refusal(link, timing_text) is None
            &&& forall|attached: PreparedOpen| #[trigger]
                attaches(link, timing_text, attached) ==> attached.kind == prepared.kind
                    && attached.active.mode == prepared.active.mode
                    && attached.active.nominal.bitrate == prepared.active.nominal.bitrate
                    && attached.active.listen_only == prepared.active.listen_only
        }),
{
    let registers = prepared.kind->Fd_0;
    timing::law_exact_phase_is_read_back(
        request.nominal,
        TimingPhase::Nominal,
        registers.nominal,
    );
    timing::law_exact_phase_is_read_back(request.data->0, TimingPhase::Data, registers.data);
}

/// The value of the listen-only parameter that a prepared channel is given before it connects, or
/// the error of a channel that cannot carry the prepared mode.
pub fn listen_only_parameter(device: &DriverDevice, prepared: &PreparedOpen) -> (result: Result<
    u32,
    DriverError,
>)
    ensures
        match result {
            Ok(value) => {
                &&& !(prepared.active.mode == CanMode::Fd && !device.fd_capable)
                &&& value == if prepared.active.listen_only {
                    PCAN_PARAMETER_ON
                } else {
                    PCAN_PARAMETER_OFF
                }
            },
            Err(error) => {
                &&& prepared.active.mode == CanMode::Fd && !device.fd_capable
                &&& error@ == DriverFault::Unsupported(
                    "selected PCAN channel does not support CAN FD"@,
                )
            },
        },
{
    if prepared.active.mode == CanMode::Fd && !device.fd_capable {
        return Err(
            DriverError::Unsupported("selected PCAN channel does not support CAN FD".to_owned()),
        );
    }
    if prepared.active.listen_only {
        Ok(PCAN_PARAMETER_ON)
    } else {
        Ok(PCAN_PARAMETER_OFF)
    }
}

/// The bus and the index of a channel, or the error of a handle that names none.
pub fn channel_address(device: &DriverDevice) -> (result: Result<(BusType, u32), DriverError>)
    ensures
        match result {
            Ok(address) => device::address_of(device.handle) == Some(address),
            Err(error) => {
                &&& device::address_of(device.handle) is None
                &&& error@ == DriverFault::Unsupported(
                    "PCAN handle 0x"@ + text::upper_hex_digits(device.handle as nat, 4)
                        + " is outside can-hal-pcan USB/PCI/LAN ranges"@,
                )
            },
        },
{
    match bus_and_index(device.handle) {
        Some(address) => Ok(address),
        None => {
            let mut message = "PCAN handle 0x".to_owned();
            push_upper_hex(&mut message, device.handle as u32, 4);
            message.append(" is outside can-hal-pcan USB/PCI/LAN ranges");
            Err(DriverError::Unsupported(message))
        },
    }
}

/// A link is taken as it is observed only where it is what the caller expects of it, in each value
/// that the caller names; what the driver cannot tell must not be expected.
pub proof fn law_observed_link_meets_the_expectation(
    nominal: Result<u32, DriverFault>,
    data: Result<u32, DriverFault>,
    listen_only: Result<u32, DriverFault>,
    expectation: CanLinkExpectation,
)
    ensures
        observed(nominal, data, listen_only, expectation) matches Ok(link) ==> {
            &&& expectation.loopback is None
            &&& expectation.mode is Some ==> (expectation.mode->0 == CanMode::Fd)
                == link.data_bitrate is Some
            &&& expectation.nominal_bitrate is Some ==> expectation.nominal_bitrate->0
                == link.nominal_bitrate
            &&& expectation.data_bitrate is Some ==> link.data_bitrate is Some
                && expectation.data_bitrate->0 == link.data_bitrate->0
            &&& expectation.listen_only is Some ==> expectation.listen_only->0 == link.listen_only
            &&& nominal is Ok && link.nominal_bitrate == nominal->Ok_0
            &&& link.data_bitrate is Some <==> data is Ok && data->Ok_0 != 0
            &&& link.data_bitrate is Some ==> link.data_bitrate->0 == data->Ok_0
            &&& listen_only is Ok && link.listen_only == (listen_only->Ok_0 != 0)
        },
{
}

/// A channel that cannot tell a data bit rate because it has none is a Classical one: the driver says
/// that it is not initialised for it or does not know the parameter. Any other failure is handed on.
pub proof fn law_unknown_data_rate_is_classical(status: u32)
    ensures
        means_no_data_phase(DriverFault::Status(status)) <==> status & (0x4000000u32 | 0x4000 | 0x8000
            | 0x8000000) != 0,
        !means_no_data_phase(DriverFault::Closed),
{
}

/// A configuration is opened exactly where the driver can give it: without loopback and a restart
/// delay, with a data timing exactly for CAN FD, at a predefined bit rate without further wishes for
/// a Classical link, and with exact register values for both phases of a CAN FD link.
pub proof fn law_representable_configurations_are_opened(request: CanConfigureConfig)
    ensures
        configure_refusal(request) is None <==> {
            &&& !request.loopback
            &&& request.restart_ms is None
            &&& request.mode == CanMode::Fd <==> request.data is Some
            &&& request.data is None ==> {
                let rate = request.nominal.bitrate;
                &&& request.nominal.sample_point_permill is None
                &&& request.nominal.sjw is None
                &&& rate == 1_000_000 || rate == 800_000 || rate == 500_000 || rate == 250_000
                    || rate == 125_000 || rate == 100_000 || rate == 50_000 || rate == 20_000
                    || rate == 10_000 || rate == 5_000
            }
            &&& request.data is Some ==> timing::phase_refusal(
                request.nominal,
                TimingPhase::Nominal,
            ) is None && timing::phase_refusal(request.data->0, TimingPhase::Data) is None
        },
{
    let rate = request.nominal.bitrate;
    assert(ClassicBitrate::Br1M.rate() == 1_000_000);
    assert(ClassicBitrate::Br800K.rate() == 800_000);
    assert(ClassicBitrate::Br500K.rate() == 500_000);
    assert(ClassicBitrate::Br250K.rate() == 250_000);
    assert(ClassicBitrate::Br125K.rate() == 125_000);
    assert(ClassicBitrate::Br100K.rate() == 100_000);
    assert(ClassicBitrate::Br50K.rate() == 50_000);
    assert(ClassicBitrate::Br20K.rate() == 20_000);
    assert(ClassicBitrate::Br10K.rate() == 10_000);
    assert(ClassicBitrate::Br5K.rate() == 5_000);
}

/// The predefined Classical bit rates.
pub proof fn law_predefined_rates(bitrate: u32)
    ensures
        predefined(bitrate) <==> {
            ||| bitrate == 1_000_000 || bitrate == 800_000 || bitrate == 500_000
            ||| bitrate == 250_000 || bitrate == 125_000 || bitrate == 100_000
            ||| bitrate == 50_000 || bitrate == 20_000 || bitrate == 10_000 || bitrate == 5_000
        },
        ClassicBitrate::Br1M.rate() == 1_000_000,
        ClassicBitrate::Br500K.rate() == 500_000,
        ClassicBitrate::Br250K.rate() == 250_000,
        ClassicBitrate::Br125K.rate() == 125_000,
        ClassicBitrate::Br5K.rate() == 5_000,
{
    assert(ClassicBitrate::Br1M.rate() == 1_000_000);
    assert(ClassicBitrate::Br800K.rate() == 800_000);
    assert(ClassicBitrate::Br500K.rate() == 500_000);
    assert(ClassicBitrate::Br250K.rate() == 250_000);
    assert(ClassicBitrate::Br125K.rate() == 125_000);
    assert(ClassicBitrate::Br100K.rate() == 100_000);
    assert(ClassicBitrate::Br50K.rate() == 50_000);
    assert(ClassicBitrate::Br20K.rate() == 20_000);
    assert(ClassicBitrate::Br10K.rate() == 10_000);
    assert(ClassicBitrate::Br5K.rate() == 5_000);
}

/// A link can be attached to exactly where its bit rate is a predefined one, or where both bit rates of
/// a CAN FD link are those of its timing.
pub proof fn law_attachable_links(link: ObservedLink, timing_text: Seq<char>)
    ensures
        link.data_bitrate is None ==> (attach_refusal(link, timing_text) is None <==> predefined(
            link.nominal_bitrate,
        )),
        link.data_bitrate matches Some(rate) ==> (attach_refusal(link, timing_text) is None <==> {
            let found = timing::fd_timing_of(timing_text);
            &&& found is Ok
            &&& timing::public_timing(found->Ok_0.nominal) is Ok
            &&& timing::public_timing(found->Ok_0.data) is Ok
            &&& timing::public_timing(found->Ok_0.nominal)->Ok_0.bitrate == link.nominal_bitrate
            &&& timing::public_timing(found->Ok_0.data)->Ok_0.bitrate == rate
        }),
{
}

} // verus!
