//! Failures of the PCAN-Basic driver and the structured errors that they become.

use vstd::prelude::*;
use vstd::string::*;

use crate::error::{ErrorCategory, HalError, HalErrorView};
use crate::resource::ResourceId;
use crate::text;
use crate::text::{push_decimal, push_upper_hex, same_text};

verus! {

pub const PCAN_ERROR_OK: u32 = 0x00000;

pub const PCAN_ERROR_XMTFULL: u32 = 0x00001;

pub const PCAN_ERROR_OVERRUN: u32 = 0x00002;

pub const PCAN_ERROR_BUSLIGHT: u32 = 0x00004;

pub const PCAN_ERROR_BUSHEAVY: u32 = 0x00008;

pub const PCAN_ERROR_BUSOFF: u32 = 0x00010;

pub const PCAN_ERROR_QRCVEMPTY: u32 = 0x00020;

pub const PCAN_ERROR_QOVERRUN: u32 = 0x00040;

pub const PCAN_ERROR_QXMTFULL: u32 = 0x00080;

pub const PCAN_ERROR_REGTEST: u32 = 0x00100;

pub const PCAN_ERROR_NODRIVER: u32 = 0x00200;

pub const PCAN_ERROR_HWINUSE: u32 = 0x00400;

pub const PCAN_ERROR_NETINUSE: u32 = 0x00800;

pub const PCAN_ERROR_ILLHW: u32 = 0x01400;

pub const PCAN_ERROR_ILLNET: u32 = 0x01800;

pub const PCAN_ERROR_ILLCLIENT: u32 = 0x01C00;

pub const PCAN_ERROR_RESOURCE: u32 = 0x02000;

pub const PCAN_ERROR_ILLPARAMTYPE: u32 = 0x04000;

pub const PCAN_ERROR_ILLPARAMVAL: u32 = 0x08000;

pub const PCAN_ERROR_ILLDATA: u32 = 0x20000;

pub const PCAN_ERROR_BUSPASSIVE: u32 = 0x40000;

pub const PCAN_ERROR_INITIALIZE: u32 = 0x4000000;

pub const PCAN_ERROR_ILLOPERATION: u32 = 0x8000000;

/// A failure of the driver.
#[derive(Clone, Debug, PartialEq, Eq)]
pub enum DriverError {
    Unavailable(String),
    Status(u32),
    Unsupported(String),
    UnsupportedFrame(String),
    ConfigurationMismatch(String),
    InvalidFrame(String),
    Closed,
    Platform(String),
}

/// The mathematical content of a [`DriverError`].
#[verifier::ext_equal]
pub enum DriverFault {
    Unavailable(Seq<char>),
    Status(u32),
    Unsupported(Seq<char>),
    UnsupportedFrame(Seq<char>),
    ConfigurationMismatch(Seq<char>),
    InvalidFrame(Seq<char>),
    Closed,
    Platform(Seq<char>),
}

impl View for DriverError {
    type V = DriverFault;

    open spec fn view(&self) -> DriverFault {
        match self {
            DriverError::Unavailable(message) => DriverFault::Unavailable(message@),
            DriverError::Status(status) => DriverFault::Status(*status),
            DriverError::Unsupported(message) => DriverFault::Unsupported(message@),
            DriverError::UnsupportedFrame(message) => DriverFault::UnsupportedFrame(message@),
            DriverError::ConfigurationMismatch(message) => DriverFault::ConfigurationMismatch(
                message@,
            ),
            DriverError::InvalidFrame(message) => DriverFault::InvalidFrame(message@),
            DriverError::Closed => DriverFault::Closed,
            DriverError::Platform(message) => DriverFault::Platform(message@),
        }
    }
}

/// `0x` and eight upper-case hexadecimal digits.
pub open spec fn status_text(status: u32) -> Seq<char> {
    "0x"@ + text::upper_hex_digits(status as nat, 8)
}

/// `0x` and eight upper-case hexadecimal digits.
pub fn status_code(status: u32) -> (code: String)
    ensures
        code@ == status_text(status),
{
    let mut code = "0x".to_owned();
    push_upper_hex(&mut code, status, 8);
    code
}

impl DriverError {
    /// The failure as a text.
    pub fn message(&self) -> (message: String)
        ensures
            message@ == match self@ {
                DriverFault::Unavailable(message) => message,
                DriverFault::Unsupported(message) => message,
                DriverFault::UnsupportedFrame(message) => message,
                DriverFault::ConfigurationMismatch(message) => message,
                DriverFault::InvalidFrame(message) => message,
                DriverFault::Platform(message) => message,
                DriverFault::Closed => "PCAN channel is closed"@,
                DriverFault::Status(status) => "PCAN status "@ + status_text(status),
            },
    {
        match self {
            DriverError::Unavailable(message) => message.clone(),
            DriverError::Unsupported(message) => message.clone(),
            DriverError::UnsupportedFrame(message) => message.clone(),
            DriverError::ConfigurationMismatch(message) => message.clone(),
            DriverError::InvalidFrame(message) => message.clone(),
            DriverError::Platform(message) => message.clone(),
            DriverError::Closed => "PCAN channel is closed".to_owned(),
            DriverError::Status(status) => {
                let mut message = "PCAN status ".to_owned();
                message.append(status_code(*status).as_str());
                message
            },
        }
    }
}

/// A status of the driver is success only where no bit is set.
pub fn check_status(status: u32) -> (result: Result<(), DriverError>)
    ensures
        match result {
            Ok(()) => status == PCAN_ERROR_OK,
            Err(error) => status != PCAN_ERROR_OK && error@ == DriverFault::Status(status),
        },
{
    if status == PCAN_ERROR_OK {
        Ok(())
    } else {
        Err(DriverError::Status(status))
    }
}

/// A failure of the channel library, as plain values.
#[derive(Clone, Debug, PartialEq, Eq)]
pub enum BackendFault {
    LibraryLoad(String),
    Pcan(u32),
    InvalidFrame(String),
    InvalidChannel(u32),
    UnsupportedBitrate(u32),
    UnsupportedTiming(String),
    Platform(String),
    Other(String),
}

/// The driver failure that a failure of the channel library is.
pub fn from_backend(fault: BackendFault) -> (error: DriverError)
    ensures
        error@ == match fault {
            BackendFault::LibraryLoad(message) => DriverFault::Unavailable(message@),
            BackendFault::Pcan(status) => DriverFault::Status(status),
            BackendFault::InvalidFrame(message) => DriverFault::InvalidFrame(message@),
            BackendFault::InvalidChannel(index) => DriverFault::Unsupported(
                "invalid PCAN channel index "@ + text::decimal_digits(index as nat),
            ),
            BackendFault::UnsupportedBitrate(bitrate) => DriverFault::Unsupported(
                "unsupported PCAN bitrate "@ + text::decimal_digits(bitrate as nat),
            ),
            BackendFault::UnsupportedTiming(message) => DriverFault::Unsupported(message@),
            BackendFault::Platform(message) => DriverFault::Platform(message@),
            BackendFault::Other(message) => DriverFault::Platform(message@),
        },
{
    match fault {
        BackendFault::LibraryLoad(message) => DriverError::Unavailable(message),
        BackendFault::Pcan(status) => DriverError::Status(status),
        BackendFault::InvalidFrame(message) => DriverError::InvalidFrame(message),
        BackendFault::InvalidChannel(index) => {
            let mut message = "invalid PCAN channel index ".to_owned();
            push_decimal(&mut message, index as u64);
            DriverError::Unsupported(message)
        },
        BackendFault::UnsupportedBitrate(bitrate) => {
            let mut message = "unsupported PCAN bitrate ".to_owned();
            push_decimal(&mut message, bitrate as u64);
            DriverError::Unsupported(message)
        },
        BackendFault::UnsupportedTiming(message) => DriverError::Unsupported(message),
        BackendFault::Platform(message) => DriverError::Platform(message),
        BackendFault::Other(message) => DriverError::Platform(message),
    }
}

/// Whether one of the bits of `mask` is set.
pub open spec fn any_bit(status: u32, mask: u32) -> bool {
    status & mask != 0
}

/// Whether all bits of `mask` are set.
pub open spec fn all_bits(status: u32, mask: u32) -> bool {
    status & mask == mask
}

/// The name, the category and the retry advice of a status: the most severe condition decides.
pub open spec fn status_meaning(status: u32, operation: Seq<char>) -> (
    Seq<char>,
    ErrorCategory,
    bool,
) {
    if any_bit(status, PCAN_ERROR_BUSOFF) {
        ("can.bus.off"@, ErrorCategory::Unavailable, false)
    } else if any_bit(status, PCAN_ERROR_BUSPASSIVE | PCAN_ERROR_BUSHEAVY) {
        ("can.bus.passive"@, ErrorCategory::Unavailable, true)
    } else if any_bit(status, PCAN_ERROR_XMTFULL | PCAN_ERROR_QXMTFULL) {
        ("runtime.queue.full"@, ErrorCategory::Unavailable, true)
    } else if any_bit(status, PCAN_ERROR_OVERRUN | PCAN_ERROR_QOVERRUN) {
        ("can.receive.lagged"@, ErrorCategory::Unavailable, true)
    } else if any_bit(status, PCAN_ERROR_NODRIVER) {
        ("can.adapter.unavailable"@, ErrorCategory::Unavailable, false)
    } else if all_bits(status, PCAN_ERROR_ILLHW) || all_bits(status, PCAN_ERROR_ILLNET)
        || all_bits(status, PCAN_ERROR_ILLCLIENT) || any_bit(
        status,
        PCAN_ERROR_REGTEST | PCAN_ERROR_INITIALIZE,
    ) {
        ("runtime.resource.not_found"@, ErrorCategory::NotFound, false)
    } else if any_bit(status, PCAN_ERROR_HWINUSE | PCAN_ERROR_NETINUSE | PCAN_ERROR_RESOURCE) {
        ("runtime.adapter.conflict"@, ErrorCategory::Conflict, false)
    } else if any_bit(
        status,
        PCAN_ERROR_ILLPARAMTYPE | PCAN_ERROR_ILLPARAMVAL | PCAN_ERROR_ILLDATA
            | PCAN_ERROR_ILLOPERATION,
    ) {
        if operation == "can.send"@ {
            ("can.frame.invalid"@, ErrorCategory::InvalidArgument, false)
        } else {
            ("can.configuration.unsupported"@, ErrorCategory::InvalidArgument, false)
        }
    } else {
        ("runtime.transport.unavailable"@, ErrorCategory::Unavailable, true)
    }
}

/// The name, the category and the retry advice of a status.
pub fn status_decision(status: u32, operation: &'static str) -> (decision: (
    &'static str,
    ErrorCategory,
    bool,
))
    ensures
        (decision.0@, decision.1, decision.2) == status_meaning(status, operation@),
{
    if status & PCAN_ERROR_BUSOFF != 0 {
        ("can.bus.off", ErrorCategory::Unavailable, false)
    } else if status & (PCAN_ERROR_BUSPASSIVE | PCAN_ERROR_BUSHEAVY) != 0 {
        ("can.bus.passive", ErrorCategory::Unavailable, true)
    } else if status & (PCAN_ERROR_XMTFULL | PCAN_ERROR_QXMTFULL) != 0 {
        ("runtime.queue.full", ErrorCategory::Unavailable, true)
    } else if status & (PCAN_ERROR_OVERRUN | PCAN_ERROR_QOVERRUN) != 0 {
        ("can.receive.lagged", ErrorCategory::Unavailable, true)
    } else if status & PCAN_ERROR_NODRIVER != 0 {
        ("can.adapter.unavailable", ErrorCategory::Unavailable, false)
    } else if status & PCAN_ERROR_ILLHW == PCAN_ERROR_ILLHW || status & PCAN_ERROR_ILLNET
        == PCAN_ERROR_ILLNET || status & PCAN_ERROR_ILLCLIENT == PCAN_ERROR_ILLCLIENT || status & (
    PCAN_ERROR_REGTEST | PCAN_ERROR_INITIALIZE) != 0 {
        ("runtime.resource.not_found", ErrorCategory::NotFound, false)
    } else if status & (PCAN_ERROR_HWINUSE | PCAN_ERROR_NETINUSE | PCAN_ERROR_RESOURCE) != 0 {
        ("runtime.adapter.conflict", ErrorCategory::Conflict, false)
    } else if status & (PCAN_ERROR_ILLPARAMTYPE | PCAN_ERROR_ILLPARAMVAL | PCAN_ERROR_ILLDATA
        | PCAN_ERROR_ILLOPERATION) != 0 {
        if same_text(operation, "can.send") {
            ("can.frame.invalid", ErrorCategory::InvalidArgument, false)
        } else {
            ("can.configuration.unsupported", ErrorCategory::InvalidArgument, false)
        }
    } else {
        ("runtime.transport.unavailable", ErrorCategory::Unavailable, true)
    }
}

/// The structured error of a driver failure.
pub open spec fn mapped_error(
    operation: Seq<char>,
    fault: DriverFault,
    resource_id: Option<Seq<char>>,
) -> HalErrorView {
    let plain = match fault {
        DriverFault::Unavailable(message) => HalErrorView::new(
            "can.adapter.unavailable"@,
            ErrorCategory::Unavailable,
            operation,
            false,
            message,
        ),
        DriverFault::Unsupported(message) => HalErrorView::new(
            "can.configuration.unsupported"@,
            ErrorCategory::InvalidArgument,
            operation,
            false,
            message,
        ),
        DriverFault::UnsupportedFrame(message) => HalErrorView::new(
            "runtime.transport.unsupported_configuration"@,
            ErrorCategory::InvalidArgument,
            operation,
            false,
            message,
        ),
        DriverFault::InvalidFrame(message) => HalErrorView::new(
            "can.frame.invalid"@,
            ErrorCategory::InvalidArgument,
            operation,
            false,
            message,
        ),
        DriverFault::ConfigurationMismatch(message) => HalErrorView::new(
            "can.configuration.mismatch"@,
            ErrorCategory::Conflict,
            operation,
            false,
            message,
        ),
        DriverFault::Closed => HalErrorView::new(
            "runtime.session.closed"@,
            ErrorCategory::Conflict,
            operation,
            false,
            "PCAN channel is closed"@,
        ),
        DriverFault::Platform(message) => HalErrorView::new(
            "runtime.transport.unavailable"@,
            ErrorCategory::Unavailable,
            operation,
            true,
            message,
        ),
        DriverFault::Status(status) => {
            let (name, category, retryable) = status_meaning(status, operation);
            HalErrorView {
                vendor_code: Some(status_text(status)),
                ..HalErrorView::new(
                    name,
                    category,
                    operation,
                    retryable,
                    "PCAN-Basic returned status "@ + status_text(status),
                )
            }
        },
    };
    match resource_id {
        Some(id) => plain.about(id),
        None => plain,
    }
}

/// The characters of an optional identity.
pub open spec fn optional_id(resource_id: Option<&ResourceId>) -> Option<Seq<char>> {
    match resource_id {
        Some(id) => Some(id@),
        None => None,
    }
}

/// The structured error of a driver failure.
pub fn map_driver_error(
    operation: &'static str,
    error: DriverError,
    resource_id: Option<&ResourceId>,
) -> (mapped: HalError)
    ensures
        mapped@ == mapped_error(operation@, error@, optional_id(resource_id)),
{
    let plain = match error {
        DriverError::Unavailable(message) => HalError::new(
            "can.adapter.unavailable",
            ErrorCategory::Unavailable,
            operation,
            false,
            message,
        ),
        DriverError::Unsupported(message) => HalError::new(
            "can.configuration.unsupported",
            ErrorCategory::InvalidArgument,
            operation,
            false,
            message,
        ),
        DriverError::UnsupportedFrame(message) => HalError::new(
            "runtime.transport.unsupported_configuration",
            ErrorCategory::InvalidArgument,
            operation,
            false,
            message,
        ),
        DriverError::InvalidFrame(message) => HalError::new(
            "can.frame.invalid",
            ErrorCategory::InvalidArgument,
            operation,
            false,
            message,
        ),
        DriverError::ConfigurationMismatch(message) => HalError::new(
            "can.configuration.mismatch",
            ErrorCategory::Conflict,
            operation,
            false,
            message,
        ),
        DriverError::Closed => HalError::fixed(
            "runtime.session.closed",
            ErrorCategory::Conflict,
            operation,
            false,
            "PCAN channel is closed",
        ),
        DriverError::Platform(message) => HalError::new(
            "runtime.transport.unavailable",
            ErrorCategory::Unavailable,
            operation,
            true,
            message,
        ),
        DriverError::Status(status) => {
            let (name, category, retryable) = status_decision(status, operation);
            let code = status_code(status);
            let mut message = "PCAN-Basic returned status ".to_owned();
            message.append(code.as_str());
            HalError::new(name, category, operation, retryable, message).with_vendor_code(code)
        },
    };
    match resource_id {
        Some(id) => plain.with_resource_id(id.copy()),
        None => plain,
    }
}

/// What a status means, by its bits: a bus that is off comes first, then one that is passive or
/// heavy, a full queue, a lost frame, a missing driver, a missing device, a device in use, and last a
/// request that the driver does not take.
pub proof fn law_most_severe_condition_decides(status: u32, operation: Seq<char>)
    ensures
        ({
            let (name, category, retryable) = status_meaning(status, operation);
            let off = status & 0x10 != 0;
            let passive = status & (0x40000u32 | 0x8) != 0;
            let full = status & (0x1u32 | 0x80) != 0;
            let lagged = status & (0x2u32 | 0x40) != 0;
            let absent = status & 0x200 != 0;
            let unknown = status & 0x1400 == 0x1400 || status & 0x1800 == 0x1800 || status & 0x1C00
                == 0x1C00 || status & (0x100u32 | 0x4000000) != 0;
            let taken = status & (0x400u32 | 0x800 | 0x2000) != 0;
            let refused = status & (0x4000u32 | 0x8000 | 0x20000 | 0x8000000) != 0;
            &&& off ==> name == "can.bus.off"@ && category == ErrorCategory::Unavailable
                && !retryable
            &&& !off && passive ==> name == "can.bus.passive"@ && category
                == ErrorCategory::Unavailable && retryable
            &&& !off && !passive && full ==> name == "runtime.queue.full"@ && category
                == ErrorCategory::Unavailable && retryable
            &&& !off && !passive && !full && lagged ==> name == "can.receive.lagged"@ && category
                == ErrorCategory::Unavailable && retryable
            &&& !off && !passive && !full && !lagged && absent ==> name
                == "can.adapter.unavailable"@ && category == ErrorCategory::Unavailable
                && !retryable
            &&& !off && !passive && !full && !lagged && !absent && unknown ==> name
                == "runtime.resource.not_found"@ && category == ErrorCategory::NotFound
                && !retryable
            &&& !off && !passive && !full && !lagged && !absent && !unknown && taken ==> name
                == "runtime.adapter.conflict"@ && category == ErrorCategory::Conflict && !retryable
            &&& !off && !passive && !full && !lagged && !absent && !unknown && !taken && refused
                ==> category == ErrorCategory::InvalidArgument && !retryable && name == if operation
                == "can.send"@ {
                "can.frame.invalid"@
            } else {
                "can.configuration.unsupported"@
            }
            &&& !off && !passive && !full && !lagged && !absent && !unknown && !taken && !refused
                ==> name == "runtime.transport.unavailable"@ && category
                == ErrorCategory::Unavailable && retryable
        }),
{
}

/// The error of a driver failure names the operation and the resource it is about; that of a status
/// holds the status as the driver's own code.
pub proof fn law_driver_errors_say_what_failed(
    operation: Seq<char>,
    fault: DriverFault,
    resource_id: Option<Seq<char>>,
)
    ensures
        ({
            let error = mapped_error(operation, fault, resource_id);
            &&& error.operation == operation
            &&& error.resource_id == resource_id
            &&& fault matches DriverFault::Status(status) ==> error.vendor_code == Some(
                "0x"@ + text::upper_hex_digits(status as nat, 8),
            ) && (error.name, error.category, error.retryable) == status_meaning(status, operation)
            &&& !(fault is Status) ==> error.vendor_code is None && error.retryable == (fault
                is Platform)
            &&& fault is Unavailable ==> error.name == "can.adapter.unavailable"@
            &&& fault is Unsupported ==> error.name == "can.configuration.unsupported"@
                && error.category == ErrorCategory::InvalidArgument
            &&& fault is UnsupportedFrame ==> error.name
                == "runtime.transport.unsupported_configuration"@ && error.category
                == ErrorCategory::InvalidArgument
            &&& fault is InvalidFrame ==> error.name == "can.frame.invalid"@ && error.category
                == ErrorCategory::InvalidArgument
            &&& fault is ConfigurationMismatch ==> error.name == "can.configuration.mismatch"@
                && error.category == ErrorCategory::Conflict
            &&& fault is Closed ==> error.name == "runtime.session.closed"@ && error.category
                == ErrorCategory::Conflict
            &&& fault is Platform ==> error.name == "runtime.transport.unavailable"@
                && error.category == ErrorCategory::Unavailable
        }),
{
}

} // verus!
