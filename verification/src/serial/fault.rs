//! Failures of serial ports and the structured errors that they become.

use vstd::prelude::*;
use vstd::string::*;

use crate::error::{ErrorCategory, HalError, HalErrorView, IoErrorKind};

verus! {

/// What the kind of an input/output failure means for a port.
pub open spec fn kind_meaning(kind: IoErrorKind) -> (Seq<char>, ErrorCategory, bool) {
    match kind {
        IoErrorKind::NotFound => ("runtime.resource.not_found"@, ErrorCategory::NotFound, false),
        IoErrorKind::PermissionDenied => (
            "runtime.transport.permission_denied"@,
            ErrorCategory::Conflict,
            false,
        ),
        IoErrorKind::TimedOut | IoErrorKind::WouldBlock => (
            "runtime.transport.timeout"@,
            ErrorCategory::Unavailable,
            true,
        ),
        IoErrorKind::AddrInUse | IoErrorKind::AlreadyExists => (
            "runtime.transport.busy"@,
            ErrorCategory::Conflict,
            true,
        ),
        IoErrorKind::InvalidInput | IoErrorKind::InvalidData => (
            "runtime.transport.unsupported_configuration"@,
            ErrorCategory::InvalidArgument,
            false,
        ),
        _ => ("runtime.transport.disconnected"@, ErrorCategory::Unavailable, true),
    }
}

/// What the kind of an input/output failure means for a port.
pub fn io_error_decision(kind: IoErrorKind) -> (decision: (&'static str, ErrorCategory, bool))
    ensures
        (decision.0@, decision.1, decision.2) == kind_meaning(kind),
{
    match kind {
        IoErrorKind::NotFound => ("runtime.resource.not_found", ErrorCategory::NotFound, false),
        IoErrorKind::PermissionDenied => (
            "runtime.transport.permission_denied",
            ErrorCategory::Conflict,
            false,
        ),
        IoErrorKind::TimedOut | IoErrorKind::WouldBlock => (
            "runtime.transport.timeout",
            ErrorCategory::Unavailable,
            true,
        ),
        IoErrorKind::AddrInUse | IoErrorKind::AlreadyExists => (
            "runtime.transport.busy",
            ErrorCategory::Conflict,
            true,
        ),
        IoErrorKind::InvalidInput | IoErrorKind::InvalidData => (
            "runtime.transport.unsupported_configuration",
            ErrorCategory::InvalidArgument,
            false,
        ),
        _ => ("runtime.transport.disconnected", ErrorCategory::Unavailable, true),
    }
}

/// The kind of a failure of a port.
#[derive(Clone, Copy, Debug, PartialEq, Eq, Structural)]
pub enum PortFault {
    NoDevice,
    InvalidInput,
    Io(IoErrorKind),
    Unknown,
}

/// What the kind of a failure of a port means.
pub open spec fn port_meaning(fault: PortFault) -> (Seq<char>, ErrorCategory, bool) {
    match fault {
        PortFault::NoDevice => ("runtime.resource.not_found"@, ErrorCategory::NotFound, false),
        PortFault::InvalidInput => (
            "runtime.transport.unsupported_configuration"@,
            ErrorCategory::InvalidArgument,
            false,
        ),
        PortFault::Io(kind) => kind_meaning(kind),
        PortFault::Unknown => ("runtime.transport.disconnected"@, ErrorCategory::Unavailable, true),
    }
}

/// An error with a meaning and the message of a failure behind a prefix and the name of its kind.
pub open spec fn described(
    meaning: (Seq<char>, ErrorCategory, bool),
    operation: Seq<char>,
    prefix: Seq<char>,
    kind_name: Seq<char>,
    reason: Seq<char>,
) -> HalErrorView {
    HalErrorView::new(
        meaning.0,
        meaning.1,
        operation,
        meaning.2,
        prefix + kind_name + ": "@ + reason,
    )
}

fn describe(
    decision: (&'static str, ErrorCategory, bool),
    operation: &'static str,
    prefix: &'static str,
    kind_name: &str,
    reason: &str,
) -> (error: HalError)
    ensures
        error@ == described(
            (decision.0@, decision.1, decision.2),
            operation@,
            prefix@,
            kind_name@,
            reason@,
        ),
{
    let mut message = prefix.to_owned();
    message.append(kind_name);
    message.append(": ");
    message.append(reason);
    HalError::new(decision.0, decision.1, operation, decision.2, message)
}

/// The error of a failure of a port; `kind_name` is the name of the failure's kind.
pub fn map_serialport_error(
    operation: &'static str,
    fault: PortFault,
    kind_name: &str,
    reason: &str,
) -> (error: HalError)
    ensures
        error@ == described(
            port_meaning(fault),
            operation@,
            "serialport error "@,
            kind_name@,
            reason@,
        ),
{
    let decision = match fault {
        PortFault::NoDevice => ("runtime.resource.not_found", ErrorCategory::NotFound, false),
        PortFault::InvalidInput => (
            "runtime.transport.unsupported_configuration",
            ErrorCategory::InvalidArgument,
            false,
        ),
        PortFault::Io(kind) => io_error_decision(kind),
        PortFault::Unknown => ("runtime.transport.disconnected", ErrorCategory::Unavailable, true),
    };
    describe(decision, operation, "serialport error ", kind_name, reason)
}

/// The error of an input/output failure; `kind_name` is the name of the failure's kind.
pub fn map_io_error(
    operation: &'static str,
    kind: IoErrorKind,
    kind_name: &str,
    reason: &str,
) -> (error: HalError)
    ensures
        error@ == described(kind_meaning(kind), operation@, "io error "@, kind_name@, reason@),
{
    describe(io_error_decision(kind), operation, "io error ", kind_name, reason)
}

/// The error of an argument that a session does not take.
pub open spec fn invalid_error(operation: Seq<char>, message: Seq<char>) -> HalErrorView {
    HalErrorView::new(
        "runtime.argument.invalid"@,
        ErrorCategory::InvalidArgument,
        operation,
        false,
        message,
    )
}

/// The error of an argument that a session does not take.
pub fn invalid_argument(operation: &'static str, message: &'static str) -> (error: HalError)
    ensures
        error@ == invalid_error(operation@, message@),
{
    HalError::fixed(
        "runtime.argument.invalid",
        ErrorCategory::InvalidArgument,
        operation,
        false,
        message,
    )
}

/// The error of an operation on a session that is not open.
pub open spec fn closed_error(operation: Seq<char>, message: Seq<char>) -> HalErrorView {
    HalErrorView::new(
        "runtime.session.closed"@,
        ErrorCategory::Conflict,
        operation,
        false,
        message,
    )
}

/// The error of an operation on a session that is not open.
pub fn session_closed(operation: &'static str, message: &'static str) -> (error: HalError)
    ensures
        error@ == closed_error(operation@, message@),
{
    HalError::fixed("runtime.session.closed", ErrorCategory::Conflict, operation, false, message)
}

/// The error of a worker that did not finish.
pub open spec fn internal_error(operation: Seq<char>, message: Seq<char>) -> HalErrorView {
    HalErrorView::new(
        "runtime.internal"@,
        ErrorCategory::Internal,
        operation,
        true,
        message,
    )
}

/// The error of a worker that did not finish.
pub fn internal(operation: &'static str, message: String) -> (error: HalError)
    ensures
        error@ == internal_error(operation@, message@),
{
    HalError::new("runtime.internal", ErrorCategory::Internal, operation, true, message)
}

/// The error of a wait that was too long.
pub open spec fn timeout_error(operation: Seq<char>, message: Seq<char>) -> HalErrorView {
    HalErrorView::new(
        "runtime.transport.timeout"@,
        ErrorCategory::Unavailable,
        operation,
        true,
        message,
    )
}

/// The error of a wait that was too long.
pub fn timeout(operation: &'static str, message: String) -> (error: HalError)
    ensures
        error@ == timeout_error(operation@, message@),
{
    HalError::new("runtime.transport.timeout", ErrorCategory::Unavailable, operation, true, message)
}

/// What the failures of a port mean, and which of them are worth another try.
pub proof fn law_port_failures_are_told_apart(fault: PortFault)
    ensures
        ({
            let (name, category, retryable) = port_meaning(fault);
            let kind = fault->Io_0;
            let io = fault is Io;
            let missing = fault is NoDevice || (io && kind == IoErrorKind::NotFound);
            let refused = io && kind == IoErrorKind::PermissionDenied;
            let late = io && (kind == IoErrorKind::TimedOut || kind == IoErrorKind::WouldBlock);
            let taken = io && (kind == IoErrorKind::AddrInUse || kind == IoErrorKind::AlreadyExists);
            let unsupported = fault is InvalidInput || (io && (kind == IoErrorKind::InvalidInput
                || kind == IoErrorKind::InvalidData));
            &&& missing ==> name == "runtime.resource.not_found"@ && category
                == ErrorCategory::NotFound
            &&& refused ==> name == "runtime.transport.permission_denied"@ && category
                == ErrorCategory::Conflict
            &&& late ==> name == "runtime.transport.timeout"@ && category
                == ErrorCategory::Unavailable
            &&& taken ==> name == "runtime.transport.busy"@ && category == ErrorCategory::Conflict
            &&& unsupported ==> name == "runtime.transport.unsupported_configuration"@ && category
                == ErrorCategory::InvalidArgument
            &&& !(missing || refused || late || taken || unsupported) ==> name
                == "runtime.transport.disconnected"@ && category == ErrorCategory::Unavailable
            &&& retryable <==> !(missing || refused || unsupported)
        }),
{
}

/// What the errors of a session mean: an argument that it does not take, a session that is not open, a
/// failure inside, and a time that is over, which alone is worth another try.
pub proof fn law_session_errors_are_told_apart(operation: Seq<char>, message: Seq<char>)
    ensures
        invalid_error(operation, message).name == "runtime.argument.invalid"@,
        invalid_error(operation, message).category == ErrorCategory::InvalidArgument,
        !invalid_error(operation, message).retryable,
        closed_error(operation, message).name == "runtime.session.closed"@,
        closed_error(operation, message).category == ErrorCategory::Conflict,
        !closed_error(operation, message).retryable,
        internal_error(operation, message).category == ErrorCategory::Internal,
        timeout_error(operation, message).name == "runtime.transport.timeout"@,
        timeout_error(operation, message).category == ErrorCategory::Unavailable,
        timeout_error(operation, message).retryable,
        invalid_error(operation, message).operation == operation,
        closed_error(operation, message).operation == operation,
        internal_error(operation, message).operation == operation,
        timeout_error(operation, message).operation == operation,
{
}

} // verus!
