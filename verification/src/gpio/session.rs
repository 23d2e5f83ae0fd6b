//! Line configurations, edges and the rules of a line session.

use vstd::prelude::*;
use vstd::string::*;

use crate::error::{ErrorCategory, HalError, HalErrorView, HalResult};

verus! {

/// Which way a line is driven.
#[derive(Clone, Copy, Debug, PartialEq, Eq, Structural)]
pub enum GpioDirection {
    Input,
    Output,
}

/// The resistor of a line.
#[derive(Clone, Copy, Debug, PartialEq, Eq, Structural)]
pub enum GpioBias {
    Disabled,
    PullUp,
    PullDown,
}

/// How an output is driven.
#[derive(Clone, Copy, Debug, PartialEq, Eq, Structural)]
pub enum GpioDrive {
    PushPull,
    OpenDrain,
    OpenSource,
}

/// How lines are requested. Which configurations the runtime around the library refuses is not known
/// here; all are assumed to be taken.
#[derive(Clone, Copy, Debug, PartialEq, Eq, Structural)]
pub struct GpioLineConfig {
    pub direction: GpioDirection,
    pub bias: GpioBias,
    pub active_low: bool,
    pub drive: Option<GpioDrive>,
    pub initial_value: Option<bool>,
}

/// A change of a line.
#[derive(Clone, Copy, Debug, PartialEq, Eq, Structural)]
pub enum GpioEdge {
    Rising,
    Falling,
}

/// The edges that are waited for.
#[derive(Clone, Copy, Debug, PartialEq, Eq, Structural)]
pub struct GpioEdgeSet {
    pub rising: bool,
    pub falling: bool,
}

/// A wait for an edge.
#[derive(Clone, Copy, Debug, PartialEq, Eq, Structural)]
pub struct GpioEdgeRequest {
    pub edges: GpioEdgeSet,
    pub capacity: usize,
}

/// An edge with its monotonic time in nanoseconds and its number.
#[derive(Clone, Copy, Debug, PartialEq, Eq, Structural)]
pub struct GpioEdgeEvent {
    pub edge: GpioEdge,
    pub timestamp_ns: u64,
    pub sequence: u64,
}

/// The error of an argument that the session does not take.
pub open spec fn invalid_error(operation: Seq<char>, message: Seq<char>) -> HalErrorView {
    HalErrorView::new(
        "runtime.argument.invalid"@,
        ErrorCategory::InvalidArgument,
        operation,
        false,
        message,
    )
}

/// The error of an argument that the session does not take.
pub fn invalid(operation: &'static str, message: &'static str) -> (error: HalError)
    ensures
        error@ == invalid_error(operation@, message@),
{
    HalError::fixed(
        "runtime.argument.invalid",
        ErrorCategory::InvalidArgument,
        operation,
        false,
        message,
    )
}

/// The error of an operation that the lines do not support.
pub open spec fn unsupported_error(operation: Seq<char>, message: Seq<char>) -> HalErrorView {
    HalErrorView::new(
        "runtime.protocol.capability_unsupported"@,
        ErrorCategory::Conflict,
        operation,
        false,
        message,
    )
}

/// The error of an operation that the lines do not support.
pub fn unsupported(operation: &'static str, message: &'static str) -> (error: HalError)
    ensures
        error@ == unsupported_error(operation@, message@),
{
    HalError::fixed(
        "runtime.protocol.capability_unsupported",
        ErrorCategory::Conflict,
        operation,
        false,
        message,
    )
}

/// The error of an operation on a closed session.
pub open spec fn closed_error(operation: Seq<char>) -> HalErrorView {
    HalErrorView::new(
        "runtime.session.closed"@,
        ErrorCategory::Conflict,
        operation,
        false,
        "GPIO session is closed"@,
    )
}

/// Refuses an operation on a closed session.
pub fn ensure_open(closed: bool, operation: &'static str) -> (result: HalResult<()>)
    ensures
        match result {
            Ok(()) => !closed,
            Err(error) => closed && error@ == closed_error(operation@),
        },
{
    if closed {
        return Err(
            HalError::fixed(
                "runtime.session.closed",
                ErrorCategory::Conflict,
                operation,
                false,
                "GPIO session is closed",
            ),
        );
    }
    Ok(())
}

/// The system that lines are reached through.
#[derive(Clone, Copy, Debug, PartialEq, Eq, Structural)]
pub enum GpioBackend {
    Linux,
    Windows,
}

impl GpioBackend {
    /// How messages on failures of the system begin.
    pub open spec fn failure_prefix(self) -> Seq<char> {
        match self {
            GpioBackend::Linux => "libgpiod error: "@,
            GpioBackend::Windows => "WinRT GPIO error: "@,
        }
    }

    /// How messages on workers that did not finish begin.
    pub open spec fn worker_prefix(self) -> Seq<char> {
        match self {
            GpioBackend::Linux => "GPIO worker failed: "@,
            GpioBackend::Windows => "Windows GPIO worker failed: "@,
        }
    }
}

/// The error of a failure of the system.
pub open spec fn platform_failure(
    backend: GpioBackend,
    operation: Seq<char>,
    reason: Seq<char>,
) -> HalErrorView {
    HalErrorView::new(
        "runtime.transport.unavailable"@,
        ErrorCategory::Unavailable,
        operation,
        true,
        backend.failure_prefix() + reason,
    )
}

/// The error of a failure of the system.
pub fn platform_error(backend: GpioBackend, operation: &'static str, reason: &str) -> (error: HalError)
    ensures
        error@ == platform_failure(backend, operation@, reason@),
{
    let mut message = match backend {
        GpioBackend::Linux => "libgpiod error: ".to_owned(),
        GpioBackend::Windows => "WinRT GPIO error: ".to_owned(),
    };
    message.append(reason);
    HalError::new(
        "runtime.transport.unavailable",
        ErrorCategory::Unavailable,
        operation,
        true,
        message,
    )
}

/// The error of a worker that did not finish.
pub fn worker_failed(backend: GpioBackend, operation: &'static str, reason: &str) -> (error: HalError)
    ensures
        error@ == HalErrorView::new(
            "runtime.internal.worker_failed"@,
            ErrorCategory::Internal,
            operation@,
            false,
            backend.worker_prefix() + reason@,
        ),
{
    let mut message = match backend {
        GpioBackend::Linux => "GPIO worker failed: ".to_owned(),
        GpioBackend::Windows => "Windows GPIO worker failed: ".to_owned(),
    };
    message.append(reason);
    HalError::new(
        "runtime.internal.worker_failed",
        ErrorCategory::Internal,
        operation,
        false,
        message,
    )
}

/// Checks that a request names a line.
pub fn check_lines(lines: &Vec<u32>) -> (result: HalResult<()>)
    ensures
        match result {
            Ok(()) => lines@.len() > 0,
            Err(error) => {
                &&& lines@.len() == 0
                &&& error@ == invalid_error(
                    "gpio.open"@,
                    "at least one GPIO line is required"@,
                )
            },
        },
{
    if lines.len() == 0 {
        return Err(invalid("gpio.open", "at least one GPIO line is required"));
    }
    Ok(())
}

/// Why values cannot be written to a session's lines: the first reason in order.
pub open spec fn write_refusal(
    closed: bool,
    config: GpioLineConfig,
    lines: nat,
    values: nat,
) -> Option<HalErrorView> {
    if closed {
        Some(closed_error("gpio.write"@))
    } else if config.direction != GpioDirection::Output {
        Some(unsupported_error("gpio.write"@, "GPIO lines were requested as inputs"@))
    } else if values != lines {
        Some(invalid_error("gpio.write"@, "value count must equal requested line count"@))
    } else {
        None
    }
}

/// Checks that values can be written to a session's lines.
pub fn check_write(
    closed: bool,
    config: &GpioLineConfig,
    lines: usize,
    values: usize,
) -> (result: HalResult<()>)
    ensures
        match result {
            Ok(()) => write_refusal(closed, *config, lines as nat, values as nat) is None,
            Err(error) => write_refusal(closed, *config, lines as nat, values as nat) == Some(
                error@,
            ),
        },
{
    ensure_open(closed, "gpio.write")?;
    if config.direction != GpioDirection::Output {
        return Err(unsupported("gpio.write", "GPIO lines were requested as inputs"));
    }
    if values != lines {
        return Err(invalid("gpio.write", "value count must equal requested line count"));
    }
    Ok(())
}

/// Values are written exactly to the lines of an open session that were requested as outputs, one
/// value for each line.
pub proof fn law_outputs_take_one_value_each(
    closed: bool,
    config: GpioLineConfig,
    lines: nat,
    values: nat,
)
    ensures
        write_refusal(closed, config, lines, values) is None <==> !closed && config.direction
            == GpioDirection::Output && values == lines,
        closed ==> write_refusal(closed, config, lines, values)->0.name
            == "runtime.session.closed"@,
        !closed && config.direction == GpioDirection::Input ==> write_refusal(
            closed,
            config,
            lines,
            values,
        )->0.name == "runtime.protocol.capability_unsupported"@,
        !closed && config.direction == GpioDirection::Output && values != lines ==> write_refusal(
            closed,
            config,
            lines,
            values,
        )->0.name == "runtime.argument.invalid"@,
{
}

/// What the errors of a session mean: an argument that it does not take, an operation that its lines
/// do not support, a closed session, and a failure of the system, which alone is worth another try.
pub proof fn law_session_errors_are_told_apart(
    operation: Seq<char>,
    message: Seq<char>,
    backend: GpioBackend,
)
    ensures
        invalid_error(operation, message).name == "runtime.argument.invalid"@,
        invalid_error(operation, message).category == ErrorCategory::InvalidArgument,
        !invalid_error(operation, message).retryable,
        unsupported_error(operation, message).name == "runtime.protocol.capability_unsupported"@,
        unsupported_error(operation, message).category == ErrorCategory::Conflict,
        !unsupported_error(operation, message).retryable,
        closed_error(operation).name == "runtime.session.closed"@,
        closed_error(operation).category == ErrorCategory::Conflict,
        !closed_error(operation).retryable,
        platform_failure(backend, operation, message).name == "runtime.transport.unavailable"@,
        platform_failure(backend, operation, message).category == ErrorCategory::Unavailable,
        platform_failure(backend, operation, message).retryable,
        invalid_error(operation, message).operation == operation,
        unsupported_error(operation, message).operation == operation,
        closed_error(operation).operation == operation,
        platform_failure(backend, operation, message).operation == operation,
{
}

} // verus!
