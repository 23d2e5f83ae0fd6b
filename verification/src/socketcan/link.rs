//! The configuration of a link: what is active, whether it is what was asked for, and how a link
//! is given back as it was.

use vstd::prelude::*;
use vstd::string::*;

use crate::can;
use crate::can::{
    CanActiveConfig, CanBitTiming, CanBusState, CanBusStatus, CanConfigureConfig,
    CanLinkExpectation, CanMode, ClockDomain,
};
use crate::error;
use crate::error::{ErrorCategory, HalError, HalErrorView, HalResult};
use crate::resource::ResourceId;
use crate::socketcan::kernel::{
    ControlMode, ControlModes, DetailsView, InterfaceDetails, KernelTiming, Mtu,
};
use crate::socketcan::kernel;

verus! {

/// Whether a set of modes that may be absent has a mode on.
pub open spec fn mode_on(modes: Option<ControlModes>, mode: ControlMode) -> bool {
    modes is Some && modes->0.is_on(mode)
}

fn has_mode(modes: Option<ControlModes>, mode: ControlMode) -> (on: bool)
    ensures
        on == mode_on(modes, mode),
{
    match modes {
        Some(modes) => modes.has_mode(mode),
        None => false,
    }
}

/// Whether an interface carries CAN FD frames now.
pub open spec fn fd_active(details: DetailsView) -> bool {
    details.mtu == Some(Mtu::Fd) && mode_on(details.can.params.ctrl_mode, ControlMode::Fd)
}

/// Whether an interface carries CAN FD frames now.
pub fn is_fd_active(details: &InterfaceDetails) -> (active: bool)
    ensures
        active == fd_active(details@),
{
    let fd_mtu = match details.mtu {
        Some(mtu) => mtu == Mtu::Fd,
        None => false,
    };
    fd_mtu && has_mode(details.can.params.ctrl_mode, ControlMode::Fd)
}

/// Whether an interface can carry CAN FD frames, and whether it can be configured. The latter takes
/// evidence that the interface is not virtual.
pub fn capabilities_for_details(
    details: &InterfaceDetails,
    nonvirtual_sysfs_evidence: bool,
) -> (capabilities: (bool, bool))
    ensures
        capabilities.0 == (fd_active(details@) || details.can.data_bit_timing_const),
        capabilities.1 == (nonvirtual_sysfs_evidence && details.can.bit_timing_const),
{
    let fd = is_fd_active(details) || details.can.data_bit_timing_const;
    let configure = nonvirtual_sysfs_evidence && details.can.bit_timing_const;
    (fd, configure)
}

/// A number that is absent where it is zero; `None` where it does not fit.
pub open spec fn nonzero(value: u32) -> Option<Option<u16>> {
    if value > u16::MAX {
        None
    } else if value == 0 {
        Some(None)
    } else {
        Some(Some(value as u16))
    }
}

/// A number that is absent where it is zero; `None` where it does not fit.
pub fn nonzero_u16(value: u32) -> (result: Option<Option<u16>>)
    ensures
        result == nonzero(value),
{
    if value > u16::MAX as u32 {
        None
    } else if value == 0 {
        Some(None)
    } else {
        Some(Some(value as u16))
    }
}

/// The error of a timing that the kernel cannot have.
pub open spec fn kernel_timing_error(
    operation: Seq<char>,
    phase: Seq<char>,
    reason: Seq<char>,
) -> HalErrorView {
    HalErrorView::new(
        "runtime.transport.unavailable"@,
        ErrorCategory::Unavailable,
        operation,
        true,
        "SocketCAN reported invalid "@ + phase + " timing: "@ + reason,
    )
}

fn invalid_kernel_timing(
    operation: &'static str,
    phase: &'static str,
    reason: &str,
) -> (error: HalError)
    ensures
        error@ == kernel_timing_error(operation@, phase@, reason@),
{
    let mut message = "SocketCAN reported invalid ".to_owned();
    message.append(phase);
    message.append(" timing: ");
    message.append(reason);
    HalError::new(
        "runtime.transport.unavailable",
        ErrorCategory::Unavailable,
        operation,
        true,
        message,
    )
}

/// The timing that the kernel reports.
pub open spec fn reported_timing(
    timing: KernelTiming,
    operation: Seq<char>,
    phase: Seq<char>,
) -> Result<CanBitTiming, HalErrorView> {
    match (nonzero(timing.sample_point), nonzero(timing.sjw)) {
        (None, _) => Err(kernel_timing_error(operation, phase, "sample point exceeds u16"@)),
        (Some(_), None) => Err(kernel_timing_error(operation, phase, "SJW exceeds u16"@)),
        (Some(sample_point_permill), Some(sjw)) => {
            let result = CanBitTiming { bitrate: timing.bitrate, sample_point_permill, sjw };
            match can::timing_refusal(result) {
                Some(reason) => Err(kernel_timing_error(operation, phase, reason)),
                None => Ok(result),
            }
        },
    }
}

/// The timing that the kernel reports.
pub fn from_socketcan_timing(
    timing: KernelTiming,
    operation: &'static str,
    phase: &'static str,
) -> (result: HalResult<CanBitTiming>)
    ensures
        error::outcome(result) == reported_timing(timing, operation@, phase@),
{
    let sample_point = match nonzero_u16(timing.sample_point) {
        Some(value) => value,
        None => {
            return Err(invalid_kernel_timing(operation, phase, "sample point exceeds u16"));
        },
    };
    let sjw = match nonzero_u16(timing.sjw) {
        Some(value) => value,
        None => {
            return Err(invalid_kernel_timing(operation, phase, "SJW exceeds u16"));
        },
    };
    match CanBitTiming::new(timing.bitrate, sample_point, sjw) {
        Ok(result) => Ok(result),
        Err(error) => Err(invalid_kernel_timing(operation, phase, error.debug_message())),
    }
}

/// The timing that the kernel is asked for; zero leaves a value to it.
pub open spec fn requested_timing(timing: CanBitTiming) -> KernelTiming {
    KernelTiming {
        bitrate: timing.bitrate,
        sample_point: match timing.sample_point_permill {
            Some(value) => value as u32,
            None => 0,
        },
        tq: 0,
        prop_seg: 0,
        phase_seg1: 0,
        phase_seg2: 0,
        sjw: match timing.sjw {
            Some(value) => value as u32,
            None => 0,
        },
        brp: 0,
    }
}

/// The timing that the kernel is asked for; zero leaves a value to it.
pub fn to_socketcan_timing(timing: &CanBitTiming) -> (result: KernelTiming)
    ensures
        result == requested_timing(*timing),
{
    KernelTiming {
        bitrate: timing.bitrate,
        sample_point: match timing.sample_point_permill {
            Some(value) => value as u32,
            None => 0,
        },
        tq: 0,
        prop_seg: 0,
        phase_seg1: 0,
        phase_seg2: 0,
        sjw: match timing.sjw {
            Some(value) => value as u32,
            None => 0,
        },
        brp: 0,
    }
}

/// A timing that the kernel reports back as it was asked for is read as that timing.
pub proof fn law_requested_timing_is_read_back(
    timing: CanBitTiming,
    operation: Seq<char>,
    phase: Seq<char>,
)
    requires
        can::timing_refusal(timing) is None,
    ensures
        reported_timing(requested_timing(timing), operation, phase) == Ok::<
            CanBitTiming,
            HalErrorView,
        >(timing),
        timing_as_expected(timing, requested_timing(timing)),
{
}

/// What is active on a link, or why nothing can be said about it.
pub open spec fn active_of(details: DetailsView, operation: Seq<char>) -> Result<
    CanActiveConfig,
    HalErrorView,
> {
    let params = details.can.params;
    let fd_mtu = details.mtu == Some(Mtu::Fd);
    let fd_mode = mode_on(params.ctrl_mode, ControlMode::Fd);
    if fd_mtu != fd_mode {
        Err(
            HalErrorView::new(
                "runtime.transport.unavailable"@,
                ErrorCategory::Unavailable,
                operation,
                true,
                "SocketCAN MTU and FD control mode disagree"@,
            ),
        )
    } else {
        match params.bit_timing {
            None => Err(
                HalErrorView::new(
                    "runtime.transport.unsupported_configuration"@,
                    ErrorCategory::InvalidArgument,
                    operation,
                    false,
                    "SocketCAN did not report nominal bit timing; no active timing is fabricated"@,
                ),
            ),
            Some(nominal) => match reported_timing(nominal, operation, "nominal"@) {
                Err(error) => Err(error),
                Ok(nominal) => if !fd_mode {
                    Ok(
                        CanActiveConfig {
                            mode: CanMode::Classic,
                            nominal,
                            data: None,
                            listen_only: mode_on(params.ctrl_mode, ControlMode::ListenOnly),
                            loopback: mode_on(params.ctrl_mode, ControlMode::Loopback),
                            clock_domain: ClockDomain::HostMonotonic,
                        },
                    )
                } else {
                    match params.data_bit_timing {
                        None => Err(
                            HalErrorView::new(
                                "runtime.transport.unsupported_configuration"@,
                                ErrorCategory::InvalidArgument,
                                operation,
                                false,
                                "SocketCAN FD link did not report data bit timing"@,
                            ),
                        ),
                        Some(data) => match reported_timing(data, operation, "data"@) {
                            Err(error) => Err(error),
                            Ok(data) => Ok(
                                CanActiveConfig {
                                    mode: CanMode::Fd,
                                    nominal,
                                    data: Some(data),
                                    listen_only: mode_on(
                                        params.ctrl_mode,
                                        ControlMode::ListenOnly,
                                    ),
                                    loopback: mode_on(params.ctrl_mode, ControlMode::Loopback),
                                    clock_domain: ClockDomain::HostMonotonic,
                                },
                            ),
                        },
                    }
                },
            },
        }
    }
}

fn active_unscoped(details: &InterfaceDetails, operation: &'static str) -> (result: HalResult<
    CanActiveConfig,
>)
    ensures
        error::outcome(result) == active_of(details@, operation@),
{
    let params = details.can.params;
    let fd_mtu = match details.mtu {
        Some(mtu) => mtu == Mtu::Fd,
        None => false,
    };
    let fd_mode = has_mode(params.ctrl_mode, ControlMode::Fd);
    if fd_mtu != fd_mode {
        return Err(
            HalError::fixed(
                "runtime.transport.unavailable",
                ErrorCategory::Unavailable,
                operation,
                true,
                "SocketCAN MTU and FD control mode disagree",
            ),
        );
    }
    let nominal = match params.bit_timing {
        Some(timing) => from_socketcan_timing(timing, operation, "nominal")?,
        None => {
            return Err(
                HalError::fixed(
                    "runtime.transport.unsupported_configuration",
                    ErrorCategory::InvalidArgument,
                    operation,
                    false,
                    "SocketCAN did not report nominal bit timing; no active timing is fabricated",
                ),
            );
        },
    };
    let (mode, data) = if fd_mode {
        match params.data_bit_timing {
            Some(timing) => (
                CanMode::Fd,
                Some(from_socketcan_timing(timing, operation, "data")?),
            ),
            None => {
                return Err(
                    HalError::fixed(
                        "runtime.transport.unsupported_configuration",
                        ErrorCategory::InvalidArgument,
                        operation,
                        false,
                        "SocketCAN FD link did not report data bit timing",
                    ),
                );
            },
        }
    } else {
        (CanMode::Classic, None)
    };
    CanActiveConfig::new(
        mode,
        nominal,
        data,
        has_mode(params.ctrl_mode, ControlMode::ListenOnly),
        has_mode(params.ctrl_mode, ControlMode::Loopback),
        ClockDomain::HostMonotonic,
    )
}

/// What is active on a link.
pub fn active_config(
    details: &InterfaceDetails,
    id: &ResourceId,
    operation: &'static str,
) -> (result: HalResult<CanActiveConfig>)
    ensures
        error::outcome(result) == error::scoped(active_of(details@, operation@), id@),
{
    match active_unscoped(details, operation) {
        Ok(active) => Ok(active),
        Err(error) => Err(error.with_resource_id(id.copy())),
    }
}

/// A link that is not what the caller expects of it.
pub open spec fn unexpected(expectation: CanLinkExpectation, active: CanActiveConfig) -> bool {
    ||| expectation.mode is Some && expectation.mode != Some(active.mode)
    ||| expectation.nominal_bitrate is Some && expectation.nominal_bitrate != Some(
        active.nominal.bitrate,
    )
    ||| expectation.data_bitrate is Some && (active.data is None || active.data->0.bitrate
        != expectation.data_bitrate->0)
    ||| expectation.listen_only is Some && expectation.listen_only != Some(active.listen_only)
    ||| expectation.loopback is Some && expectation.loopback != Some(active.loopback)
}

/// The error of a link that is not what the caller expects of it.
pub open spec fn expectation_error(id: Seq<char>) -> HalErrorView {
    HalErrorView::new(
        "can.configuration.mismatch"@,
        ErrorCategory::Conflict,
        "can.open"@,
        false,
        "Attach expectations do not match active SocketCAN link state"@,
    ).about(id)
}

/// Checks that a link is what the caller expects of it.
pub fn verify_expectation(
    expectation: &CanLinkExpectation,
    active: &CanActiveConfig,
    id: &ResourceId,
) -> (result: HalResult<()>)
    ensures
        match result {
            Ok(()) => !unexpected(*expectation, *active),
            Err(error) => unexpected(*expectation, *active) && error@ == expectation_error(id@),
        },
{
    let mode_differs = match expectation.mode {
        Some(mode) => mode != active.mode,
        None => false,
    };
    let nominal_differs = match expectation.nominal_bitrate {
        Some(bitrate) => bitrate != active.nominal.bitrate,
        None => false,
    };
    let data_differs = match expectation.data_bitrate {
        Some(bitrate) => match active.data {
            Some(timing) => timing.bitrate != bitrate,
            None => true,
        },
        None => false,
    };
    let listen_only_differs = match expectation.listen_only {
        Some(value) => value != active.listen_only,
        None => false,
    };
    let loopback_differs = match expectation.loopback {
        Some(value) => value != active.loopback,
        None => false,
    };
    if mode_differs || nominal_differs || data_differs || listen_only_differs || loopback_differs {
        return Err(
            HalError::fixed(
                "can.configuration.mismatch",
                ErrorCategory::Conflict,
                "can.open",
                false,
                "Attach expectations do not match active SocketCAN link state",
            ).with_resource_id(id.copy()),
        );
    }
    Ok(())
}

/// A reported timing has the bit rate that was asked for, and the sample point and the jump width
/// where they were asked for.
pub open spec fn timing_as_expected(expected: CanBitTiming, actual: KernelTiming) -> bool {
    &&& actual.bitrate == expected.bitrate
    &&& expected.sample_point_permill is Some ==> actual.sample_point
        == expected.sample_point_permill->0
    &&& expected.sjw is Some ==> actual.sjw == expected.sjw->0
}

/// Whether a reported timing is the one that was asked for.
pub fn timing_matches(expected: &CanBitTiming, actual: KernelTiming) -> (matches: bool)
    ensures
        matches == timing_as_expected(*expected, actual),
{
    let sample_point_fits = match expected.sample_point_permill {
        Some(value) => actual.sample_point == value as u32,
        None => true,
    };
    let sjw_fits = match expected.sjw {
        Some(value) => actual.sjw == value as u32,
        None => true,
    };
    actual.bitrate == expected.bitrate && sample_point_fits && sjw_fits
}

/// The delay before a restart that a request asks for; zero where it names none.
pub open spec fn requested_restart(request: CanConfigureConfig) -> u32 {
    match request.restart_ms {
        Some(delay) => delay,
        None => 0,
    }
}

/// A link has the configuration that was asked for.
pub open spec fn configured_as_requested(
    request: CanConfigureConfig,
    details: DetailsView,
    active: CanActiveConfig,
) -> bool {
    let params = details.can.params;
    &&& request.mode == active.mode
    &&& params.bit_timing is Some && timing_as_expected(request.nominal, params.bit_timing->0)
    &&& match request.data {
        Some(expected) => params.data_bit_timing is Some && timing_as_expected(
            expected,
            params.data_bit_timing->0,
        ),
        None => params.data_bit_timing is None,
    }
    &&& mode_on(params.ctrl_mode, ControlMode::Fd) == (request.mode == CanMode::Fd)
    &&& request.listen_only == active.listen_only
    &&& request.loopback == active.loopback
    &&& params.restart_ms == Some(requested_restart(request))
}

/// Whether a link has the configuration that was asked for.
pub fn config_matches(
    request: &CanConfigureConfig,
    details: &InterfaceDetails,
    active: &CanActiveConfig,
) -> (matches: bool)
    ensures
        matches == configured_as_requested(*request, details@, *active),
{
    let params = details.can.params;
    let nominal_fits = match params.bit_timing {
        Some(actual) => timing_matches(&request.nominal, actual),
        None => false,
    };
    let data_fits = match request.data {
        Some(expected) => match params.data_bit_timing {
            Some(actual) => timing_matches(&expected, actual),
            None => false,
        },
        None => params.data_bit_timing.is_none(),
    };
    let wanted: u32 = match request.restart_ms {
        Some(delay) => delay,
        None => 0,
    };
    let restart_fits = match params.restart_ms {
        Some(delay) => delay == wanted,
        None => false,
    };
    request.mode == active.mode && nominal_fits && data_fits && has_mode(
        params.ctrl_mode,
        ControlMode::Fd,
    ) == (request.mode == CanMode::Fd) && request.listen_only == active.listen_only
        && request.loopback == active.loopback && restart_fits
}

/// The error of a link that does not show the configuration that was asked for.
pub open spec fn configuration_mismatch(id: Seq<char>) -> HalErrorView {
    HalErrorView::new(
        "can.configuration.mismatch"@,
        ErrorCategory::Conflict,
        "can.configure"@,
        false,
        "SocketCAN link did not expose the requested configuration after netlink apply"@,
    ).about(id)
}

/// Checks that a link has the configuration that was asked for.
pub fn verify_config(
    request: &CanConfigureConfig,
    details: &InterfaceDetails,
    active: &CanActiveConfig,
    id: &ResourceId,
) -> (result: HalResult<()>)
    ensures
        match result {
            Ok(()) => configured_as_requested(*request, details@, *active),
            Err(error) => {
                &&& !configured_as_requested(*request, details@, *active)
                &&& error@ == configuration_mismatch(id@)
            },
        },
{
    if !config_matches(request, details, active) {
        return Err(
            HalError::fixed(
                "can.configuration.mismatch",
                ErrorCategory::Conflict,
                "can.configure",
                false,
                "SocketCAN link did not expose the requested configuration after netlink apply",
            ).with_resource_id(id.copy()),
        );
    }
    Ok(())
}

/// The state of the bus that an interface reports.
pub open spec fn status_of(details: DetailsView) -> CanBusStatus {
    CanBusStatus {
        state: match details.can.state {
            Some(state) => kernel::bus_state(state),
            None => CanBusState::Unknown,
        },
        tx_error_counter: match details.can.berr_counter {
            Some(counters) => Some(counters.tx as u32),
            None => None,
        },
        rx_error_counter: match details.can.berr_counter {
            Some(counters) => Some(counters.rx as u32),
            None => None,
        },
    }
}

/// The state of the bus that an interface reports.
pub fn reported_status(details: &InterfaceDetails) -> (status: CanBusStatus)
    ensures
        status == status_of(details@),
{
    let state = match details.can.state {
        Some(state) => kernel::map_bus_state(state),
        None => CanBusState::Unknown,
    };
    let (tx, rx): (Option<u32>, Option<u32>) = match details.can.berr_counter {
        Some(counters) => (Some(counters.tx as u32), Some(counters.rx as u32)),
        None => (None, None),
    };
    CanBusStatus { state, tx_error_counter: tx, rx_error_counter: rx }
}

/// The active configuration is what the kernel reports: the bit rates, and the sample points and the
/// jump widths where they are not zero, of its timings, and the control modes by the bits that are
/// set. There is a data timing exactly on a link with CAN FD.
pub proof fn law_active_configuration_is_what_is_reported(
    details: DetailsView,
    operation: Seq<char>,
)
    ensures
        active_of(details, operation) matches Ok(active) ==> {
            let params = details.can.params;
            let flags = match params.ctrl_mode {
                Some(modes) => modes.flags,
                None => 0,
            };
            &&& params.bit_timing matches Some(nominal) && {
                &&& active.nominal.bitrate == nominal.bitrate
                &&& nominal.bitrate > 0
                &&& nominal.sample_point == match active.nominal.sample_point_permill {
                    Some(value) => value as int,
                    None => 0,
                }
                &&& nominal.sjw == match active.nominal.sjw {
                    Some(value) => value as int,
                    None => 0,
                }
            }
            &&& active.mode == CanMode::Fd <==> details.mtu == Some(Mtu::Fd)
            &&& active.mode == CanMode::Fd <==> params.ctrl_mode is Some && 0x20u32 & flags != 0
            &&& active.data is Some <==> active.mode == CanMode::Fd
            &&& active.data matches Some(data) ==> params.data_bit_timing is Some && {
                let reported = params.data_bit_timing->0;
                &&& data.bitrate == reported.bitrate
                &&& reported.bitrate > 0
                &&& reported.sample_point == match data.sample_point_permill {
                    Some(value) => value as int,
                    None => 0,
                }
                &&& reported.sjw == match data.sjw {
                    Some(value) => value as int,
                    None => 0,
                }
            }
            &&& active.listen_only <==> params.ctrl_mode is Some && 0x02u32 & flags != 0
            &&& active.loopback <==> params.ctrl_mode is Some && 0x01u32 & flags != 0
            &&& active.clock_domain == ClockDomain::HostMonotonic
        },
{
}

/// A link that reports its timings whole is not refused: with the size of its frames and the control
/// mode in agreement, sample points below one, and jump widths that a timing can have.
pub proof fn law_reported_configuration_is_active(details: DetailsView, operation: Seq<char>)
    requires
        details.can.params.bit_timing is Some,
        0 < details.can.params.bit_timing->0.bitrate,
        details.can.params.bit_timing->0.sample_point < 1000,
        details.can.params.bit_timing->0.sjw <= u16::MAX,
        details.can.params.ctrl_mode is Some,
        details.mtu == Some(Mtu::Fd) <==> 0x20u32 & details.can.params.ctrl_mode->0.flags != 0,
        details.mtu == Some(Mtu::Fd) ==> details.can.params.data_bit_timing is Some,
        details.mtu == Some(Mtu::Fd) ==> 0 < details.can.params.data_bit_timing->0.bitrate,
        details.mtu == Some(Mtu::Fd) ==> details.can.params.data_bit_timing->0.sample_point < 1000,
        details.mtu == Some(Mtu::Fd) ==> details.can.params.data_bit_timing->0.sjw <= u16::MAX,
    ensures
        active_of(details, operation) is Ok,
{
}

/// The parameters that the kernel is asked for hold the requested bit rate, and the sample point and
/// the jump width where they are named; all else is left to it.
pub proof fn law_requested_timing_is_what_is_asked_for(timing: CanBitTiming)
    ensures
        ({
            let asked = requested_timing(timing);
            &&& asked.bitrate == timing.bitrate
            &&& timing.sample_point_permill matches Some(value) ==> asked.sample_point == value
            &&& timing.sample_point_permill is None ==> asked.sample_point == 0
            &&& timing.sjw matches Some(value) ==> asked.sjw == value
            &&& timing.sjw is None ==> asked.sjw == 0
            &&& asked.tq == 0 && asked.prop_seg == 0 && asked.phase_seg1 == 0 && asked.phase_seg2
                == 0 && asked.brp == 0
        }),
{
}

/// The status of a bus is the state of its controller and its two error counters; a state that is not
/// reported is unknown, and a sleeping controller is stopped.
pub proof fn law_status_is_what_is_reported(details: DetailsView)
    ensures
        ({
            let status = status_of(details);
            &&& status.state == CanBusState::Active <==> details.can.state == Some(
                kernel::ControllerState::ErrorActive,
            )
            &&& status.state == CanBusState::Warning <==> details.can.state == Some(
                kernel::ControllerState::ErrorWarning,
            )
            &&& status.state == CanBusState::Passive <==> details.can.state == Some(
                kernel::ControllerState::ErrorPassive,
            )
            &&& status.state == CanBusState::BusOff <==> details.can.state == Some(
                kernel::ControllerState::BusOff,
            )
            &&& status.state == CanBusState::Stopped <==> (details.can.state == Some(
                kernel::ControllerState::Stopped,
            ) || details.can.state == Some(kernel::ControllerState::Sleeping))
            &&& status.state == CanBusState::Unknown <==> details.can.state is None
            &&& details.can.berr_counter is None ==> status.tx_error_counter is None
                && status.rx_error_counter is None
            &&& details.can.berr_counter matches Some(counters) ==> status.tx_error_counter == Some(
                counters.tx as u32,
            ) && status.rx_error_counter == Some(counters.rx as u32)
        }),
{
}

/// An interface carries CAN FD frames exactly where its frames may have the size of these and the mode
/// is on.
pub proof fn law_fd_needs_size_and_mode(details: DetailsView)
    ensures
        fd_active(details) <==> details.mtu == Some(Mtu::Fd) && details.can.params.ctrl_mode is Some
            && 0x20 & details.can.params.ctrl_mode->0.flags != 0,
{
}

} // verus!
