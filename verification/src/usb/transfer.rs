//! Transfers: what a device is asked for and what a failed transfer means.

use vstd::prelude::*;
use vstd::slice::*;
use vstd::string::*;

use crate::error::{ErrorCategory, HalError, HalErrorView, HalResult};
use crate::resource::ResourceId;

verus! {

/// A transfer that a caller asks for.
#[derive(Clone, Debug, PartialEq, Eq)]
pub enum UsbTransfer {
    ControlOut { request_type: u8, request: u8, value: u16, index: u16, data: Vec<u8> },
    ControlIn { request_type: u8, request: u8, value: u16, index: u16, max_bytes: usize },
    BulkOut { endpoint: u8, data: Vec<u8> },
    BulkIn { endpoint: u8, max_bytes: usize },
    InterruptOut { endpoint: u8, data: Vec<u8> },
    InterruptIn { endpoint: u8, max_bytes: usize },
}

/// The kind of a control request.
#[derive(Clone, Copy, Debug, PartialEq, Eq, Structural)]
pub enum ControlType {
    Standard,
    Class,
    Vendor,
}

/// Whom a control request is for.
#[derive(Clone, Copy, Debug, PartialEq, Eq, Structural)]
pub enum Recipient {
    Device,
    Interface,
    Endpoint,
    Other,
}

/// The kind of an endpoint.
#[derive(Clone, Copy, Debug, PartialEq, Eq, Structural)]
pub enum EndpointKind {
    Bulk,
    Interrupt,
}

/// A transfer as a device is asked for it.
#[derive(Clone, Debug, PartialEq, Eq)]
pub enum TransferPlan {
    ControlOut {
        control_type: ControlType,
        recipient: Recipient,
        request: u8,
        value: u16,
        index: u16,
        data: Vec<u8>,
    },
    ControlIn {
        control_type: ControlType,
        recipient: Recipient,
        request: u8,
        value: u16,
        index: u16,
        length: u16,
    },
    EndpointOut { kind: EndpointKind, endpoint: u8, data: Vec<u8> },
    EndpointIn { kind: EndpointKind, endpoint: u8, max_bytes: usize },
}

/// The error of a transfer that cannot be asked for.
pub open spec fn invalid_error(message: Seq<char>) -> HalErrorView {
    HalErrorView::new(
        "usb.transfer.invalid"@,
        ErrorCategory::InvalidArgument,
        "usb.transfer"@,
        false,
        message,
    )
}

fn invalid(message: &'static str) -> (error: HalError)
    ensures
        error@ == invalid_error(message@),
{
    HalError::fixed(
        "usb.transfer.invalid",
        ErrorCategory::InvalidArgument,
        "usb.transfer",
        false,
        message,
    )
}

/// Whether a request type or an endpoint address is for the way to the host.
pub open spec fn to_host(address: u8) -> bool {
    address & 0x80 != 0
}

/// Why a transfer's direction is not that of its address.
pub open spec fn direction_refusal(transfer: UsbTransfer) -> Option<Seq<char>> {
    match transfer {
        UsbTransfer::ControlOut { request_type, .. } => if to_host(request_type) {
            Some("control request direction does not match the transfer"@)
        } else {
            None
        },
        UsbTransfer::ControlIn { request_type, .. } => if !to_host(request_type) {
            Some("control request direction does not match the transfer"@)
        } else {
            None
        },
        UsbTransfer::BulkOut { endpoint, .. } | UsbTransfer::InterruptOut { endpoint, .. } => {
            if to_host(endpoint) {
                Some("endpoint direction does not match the transfer"@)
            } else {
                None
            }
        },
        UsbTransfer::BulkIn { endpoint, .. } | UsbTransfer::InterruptIn { endpoint, .. } => {
            if !to_host(endpoint) {
                Some("endpoint direction does not match the transfer"@)
            } else {
                None
            }
        },
    }
}

impl UsbTransfer {
    /// Checks that the direction of the transfer is that of its address. What the runtime around the
    /// library checks of a transfer is not known here; this check and its errors are assumed.
    pub fn validate(&self) -> (result: HalResult<()>)
        ensures
            match result {
                Ok(()) => direction_refusal(*self) is None,
                Err(error) => {
                    &&& direction_refusal(*self) is Some
                    &&& error@ == invalid_error(direction_refusal(*self)->0)
                },
            },
    {
        match self {
            UsbTransfer::ControlOut { request_type, .. } => {
                if *request_type & 0x80 != 0 {
                    return Err(invalid("control request direction does not match the transfer"));
                }
            },
            UsbTransfer::ControlIn { request_type, .. } => {
                if !(*request_type & 0x80 != 0) {
                    return Err(invalid("control request direction does not match the transfer"));
                }
            },
            UsbTransfer::BulkOut { endpoint, .. } | UsbTransfer::InterruptOut { endpoint, .. } => {
                if *endpoint & 0x80 != 0 {
                    return Err(invalid("endpoint direction does not match the transfer"));
                }
            },
            UsbTransfer::BulkIn { endpoint, .. } | UsbTransfer::InterruptIn { endpoint, .. } => {
                if !(*endpoint & 0x80 != 0) {
                    return Err(invalid("endpoint direction does not match the transfer"));
                }
            },
        }
        Ok(())
    }
}

/// The kind of a control request, by the two bits above the recipient.
pub open spec fn control_type_of(request_type: u8) -> Option<ControlType> {
    let kind = (request_type >> 5) & 0x03;
    if kind == 0 {
        Some(ControlType::Standard)
    } else if kind == 1 {
        Some(ControlType::Class)
    } else if kind == 2 {
        Some(ControlType::Vendor)
    } else {
        None
    }
}

/// The kind of a control request.
pub fn control_type(request_type: u8) -> (result: HalResult<ControlType>)
    ensures
        match result {
            Ok(kind) => control_type_of(request_type) == Some(kind),
            Err(error) => {
                &&& control_type_of(request_type) is None
                &&& error@ == invalid_error("reserved USB control type"@)
            },
        },
{
    let kind: u8 = (request_type >> 5) & 0x03;
    if kind == 0 {
        Ok(ControlType::Standard)
    } else if kind == 1 {
        Ok(ControlType::Class)
    } else if kind == 2 {
        Ok(ControlType::Vendor)
    } else {
        Err(invalid("reserved USB control type"))
    }
}

/// Whom a control request is for, by the low five bits.
pub open spec fn recipient_of(request_type: u8) -> Option<Recipient> {
    let number = request_type & 0x1f;
    if number == 0 {
        Some(Recipient::Device)
    } else if number == 1 {
        Some(Recipient::Interface)
    } else if number == 2 {
        Some(Recipient::Endpoint)
    } else if number == 3 {
        Some(Recipient::Other)
    } else {
        None
    }
}

/// Whom a control request is for.
pub fn recipient(request_type: u8) -> (result: HalResult<Recipient>)
    ensures
        match result {
            Ok(recipient) => recipient_of(request_type) == Some(recipient),
            Err(error) => {
                &&& recipient_of(request_type) is None
                &&& error@ == invalid_error("reserved USB control recipient"@)
            },
        },
{
    let number: u8 = request_type & 0x1f;
    if number == 0 {
        Ok(Recipient::Device)
    } else if number == 1 {
        Ok(Recipient::Interface)
    } else if number == 2 {
        Ok(Recipient::Endpoint)
    } else if number == 3 {
        Ok(Recipient::Other)
    } else {
        Err(invalid("reserved USB control recipient"))
    }
}

/// The request type that a kind, a recipient and a direction make up is taken apart into them.
pub proof fn law_request_type_is_taken_apart(kind: ControlType, whom: Recipient, to_the_host: bool)
    ensures
        ({
            let direction: u8 = if to_the_host {
                0x80
            } else {
                0
            };
            let kind_bits: u8 = match kind {
                ControlType::Standard => 0x00,
                ControlType::Class => 0x20,
                ControlType::Vendor => 0x40,
            };
            let whom_bits: u8 = match whom {
                Recipient::Device => 0,
                Recipient::Interface => 1,
                Recipient::Endpoint => 2,
                Recipient::Other => 3,
            };
            let request_type = direction | kind_bits | whom_bits;
            &&& control_type_of(request_type) == Some(kind)
            &&& recipient_of(request_type) == Some(whom)
            &&& to_host(request_type) == to_the_host
        }),
{
    let direction: u8 = if to_the_host {
        0x80
    } else {
        0
    };
    let kind_bits: u8 = match kind {
        ControlType::Standard => 0x00,
        ControlType::Class => 0x20,
        ControlType::Vendor => 0x40,
    };
    let whom_bits: u8 = match whom {
        Recipient::Device => 0,
        Recipient::Interface => 1,
        Recipient::Endpoint => 2,
        Recipient::Other => 3,
    };
    assert(((direction | kind_bits | whom_bits) >> 5) & 0x03 == kind_bits >> 5 && (direction
        | kind_bits | whom_bits) & 0x1f == whom_bits && (direction | kind_bits | whom_bits) & 0x80
        == direction && 0x20u8 >> 5 == 1 && 0x40u8 >> 5 == 2 && 0u8 >> 5 == 0) by (bit_vector)
        requires
            direction == 0 || direction == 0x80,
            kind_bits == 0 || kind_bits == 0x20 || kind_bits == 0x40,
            whom_bits <= 3,
    ;
}

/// Why a transfer cannot be asked for: the first reason in order.
pub open spec fn plan_refusal(transfer: UsbTransfer) -> Option<Seq<char>> {
    match direction_refusal(transfer) {
        Some(reason) => Some(reason),
        None => match transfer {
            UsbTransfer::ControlOut { request_type, .. } => request_type_refusal(request_type),
            UsbTransfer::ControlIn { request_type, max_bytes, .. } => if max_bytes > u16::MAX {
                Some("control length exceeds u16"@)
            } else {
                request_type_refusal(request_type)
            },
            _ => None,
        },
    }
}

/// Why a request type is none.
pub open spec fn request_type_refusal(request_type: u8) -> Option<Seq<char>> {
    if control_type_of(request_type) is None {
        Some("reserved USB control type"@)
    } else if recipient_of(request_type) is None {
        Some("reserved USB control recipient"@)
    } else {
        None
    }
}

/// A plan asks for what the caller asks for.
pub open spec fn plans(transfer: UsbTransfer, plan: TransferPlan) -> bool {
    match transfer {
        UsbTransfer::ControlOut { request_type, request, value, index, data } => plan
            == TransferPlan::ControlOut {
            control_type: control_type_of(request_type)->0,
            recipient: recipient_of(request_type)->0,
            request,
            value,
            index,
            data,
        },
        UsbTransfer::ControlIn { request_type, request, value, index, max_bytes } => plan
            == TransferPlan::ControlIn {
            control_type: control_type_of(request_type)->0,
            recipient: recipient_of(request_type)->0,
            request,
            value,
            index,
            length: max_bytes as u16,
        },
        UsbTransfer::BulkOut { endpoint, data } => plan == TransferPlan::EndpointOut {
            kind: EndpointKind::Bulk,
            endpoint,
            data,
        },
        UsbTransfer::BulkIn { endpoint, max_bytes } => plan == TransferPlan::EndpointIn {
            kind: EndpointKind::Bulk,
            endpoint,
            max_bytes,
        },
        UsbTransfer::InterruptOut { endpoint, data } => plan == TransferPlan::EndpointOut {
            kind: EndpointKind::Interrupt,
            endpoint,
            data,
        },
        UsbTransfer::InterruptIn { endpoint, max_bytes } => plan == TransferPlan::EndpointIn {
            kind: EndpointKind::Interrupt,
            endpoint,
            max_bytes,
        },
    }
}

/// A control transfer is asked for with the request, the value, the index and the bytes or the
/// length that the caller gave, each as it is, and in the same direction; its kind and its recipient
/// are what the bits of the request type say.
pub proof fn law_control_request_is_what_the_caller_gave(transfer: UsbTransfer, plan: TransferPlan)
    requires
        plan_refusal(transfer) is None,
        plans(transfer, plan),
    ensures
        transfer matches UsbTransfer::ControlOut { request_type, request, value, index, data } ==> {
            &&& plan is ControlOut
            &&& request_type < 0x80
            &&& plan->ControlOut_request == request
            &&& plan->ControlOut_value == value
            &&& plan->ControlOut_index == index
            &&& plan->ControlOut_data == data
            &&& request_type == type_number(plan->ControlOut_control_type) + recipient_number(
                plan->ControlOut_recipient,
            )
        },
        transfer matches UsbTransfer::ControlIn { request_type, request, value, index, max_bytes }
            ==> {
            &&& plan is ControlIn
            &&& request_type >= 0x80
            &&& plan->ControlIn_request == request
            &&& plan->ControlIn_value == value
            &&& plan->ControlIn_index == index
            &&& plan->length == max_bytes
            &&& request_type == 0x80 + type_number(plan->ControlIn_control_type)
                + recipient_number(plan->ControlIn_recipient)
        },
{
    let request_type: u8 = match transfer {
        UsbTransfer::ControlOut { request_type, .. } => request_type,
        UsbTransfer::ControlIn { request_type, .. } => request_type,
        _ => 0,
    };
    assert((request_type & 0x80 != 0) == (request_type >= 0x80) && request_type == (request_type
        & 0x80) + 32 * ((request_type >> 5) & 0x03) + (request_type & 0x1f) && (request_type & 0x80
        == 0 || request_type & 0x80 == 0x80)) by (bit_vector);
}

/// The part of a request type that names a kind.
pub open spec fn type_number(kind: ControlType) -> int {
    match kind {
        ControlType::Standard => 0,
        ControlType::Class => 32,
        ControlType::Vendor => 64,
    }
}

/// The part of a request type that names a recipient.
pub open spec fn recipient_number(whom: Recipient) -> int {
    match whom {
        Recipient::Device => 0,
        Recipient::Interface => 1,
        Recipient::Endpoint => 2,
        Recipient::Other => 3,
    }
}

/// A bulk or an interrupt transfer keeps its kind, its endpoint and its bytes or length, and goes
/// the way that the top bit of the endpoint says.
pub proof fn law_endpoint_transfer_is_what_the_caller_gave(
    transfer: UsbTransfer,
    plan: TransferPlan,
)
    requires
        plan_refusal(transfer) is None,
        plans(transfer, plan),
    ensures
        transfer matches UsbTransfer::BulkOut { endpoint, data } ==> plan matches
            TransferPlan::EndpointOut { kind, endpoint: address, data: sent } && kind
            == EndpointKind::Bulk && address == endpoint && sent == data && endpoint < 0x80,
        transfer matches UsbTransfer::InterruptOut { endpoint, data } ==> plan matches
            TransferPlan::EndpointOut { kind, endpoint: address, data: sent } && kind
            == EndpointKind::Interrupt && address == endpoint && sent == data && endpoint < 0x80,
        transfer matches UsbTransfer::BulkIn { endpoint, max_bytes } ==> plan matches
            TransferPlan::EndpointIn { kind, endpoint: address, max_bytes: most } && kind
            == EndpointKind::Bulk && address == endpoint && most == max_bytes && endpoint >= 0x80,
        transfer matches UsbTransfer::InterruptIn { endpoint, max_bytes } ==> plan matches
            TransferPlan::EndpointIn { kind, endpoint: address, max_bytes: most } && kind
            == EndpointKind::Interrupt && address == endpoint && most == max_bytes && endpoint
            >= 0x80,
{
    let endpoint: u8 = match transfer {
        UsbTransfer::BulkOut { endpoint, .. } => endpoint,
        UsbTransfer::InterruptOut { endpoint, .. } => endpoint,
        UsbTransfer::BulkIn { endpoint, .. } => endpoint,
        UsbTransfer::InterruptIn { endpoint, .. } => endpoint,
        _ => 0,
    };
    assert((endpoint & 0x80 != 0) == (endpoint >= 0x80)) by (bit_vector);
}

/// A transfer is refused only for a wrong direction, a reserved request type or a length that a
/// control request cannot have: what the caller asks for is otherwise asked of the device.
pub proof fn law_possible_transfers_are_not_refused(transfer: UsbTransfer)
    ensures
        transfer matches UsbTransfer::ControlOut { request_type, .. } ==> (plan_refusal(transfer)
            is None <==> request_type < 0x60 && request_type % 32 <= 3),
        transfer matches UsbTransfer::ControlIn { request_type, max_bytes, .. } ==> (plan_refusal(
            transfer,
        ) is None <==> 0x80 <= request_type < 0xe0 && request_type % 32 <= 3 && max_bytes
            <= 0xffff),
        transfer matches UsbTransfer::BulkOut { endpoint, .. } ==> (plan_refusal(transfer) is None
            <==> endpoint < 0x80),
        transfer matches UsbTransfer::InterruptOut { endpoint, .. } ==> (plan_refusal(transfer)
            is None <==> endpoint < 0x80),
        transfer matches UsbTransfer::BulkIn { endpoint, .. } ==> (plan_refusal(transfer) is None
            <==> endpoint >= 0x80),
        transfer matches UsbTransfer::InterruptIn { endpoint, .. } ==> (plan_refusal(transfer)
            is None <==> endpoint >= 0x80),
{
    let bits: u8 = match transfer {
        UsbTransfer::ControlOut { request_type, .. } => request_type,
        UsbTransfer::ControlIn { request_type, .. } => request_type,
        UsbTransfer::BulkOut { endpoint, .. } => endpoint,
        UsbTransfer::InterruptOut { endpoint, .. } => endpoint,
        UsbTransfer::BulkIn { endpoint, .. } => endpoint,
        UsbTransfer::InterruptIn { endpoint, .. } => endpoint,
    };
    assert((bits & 0x80 != 0) == (bits >= 0x80) && bits & 0x1f == bits % 32 && ((bits >> 5) & 0x03)
        == (bits / 32) % 4) by (bit_vector);
}

/// How a valid transfer is asked for.
fn plan_transfer(transfer: UsbTransfer) -> (result: HalResult<TransferPlan>)
    requires
        direction_refusal(transfer) is None,
    ensures
        match result {
            Ok(plan) => plan_refusal(transfer) is None && plans(transfer, plan),
            Err(error) => {
                &&& plan_refusal(transfer) is Some
                &&& error@ == invalid_error(plan_refusal(transfer)->0)
            },
        },
{
    match transfer {
        UsbTransfer::ControlOut { request_type, request, value, index, data } => {
            let control_type = control_type(request_type)?;
            let recipient = recipient(request_type)?;
            Ok(TransferPlan::ControlOut { control_type, recipient, request, value, index, data })
        },
        UsbTransfer::ControlIn { request_type, request, value, index, max_bytes } => {
            if max_bytes > u16::MAX as usize {
                return Err(invalid("control length exceeds u16"));
            }
            let length: u16 = max_bytes as u16;
            let control_type = control_type(request_type)?;
            let recipient = recipient(request_type)?;
            Ok(TransferPlan::ControlIn { control_type, recipient, request, value, index, length })
        },
        UsbTransfer::BulkOut { endpoint, data } => Ok(
            TransferPlan::EndpointOut { kind: EndpointKind::Bulk, endpoint, data },
        ),
        UsbTransfer::BulkIn { endpoint, max_bytes } => Ok(
            TransferPlan::EndpointIn { kind: EndpointKind::Bulk, endpoint, max_bytes },
        ),
        UsbTransfer::InterruptOut { endpoint, data } => Ok(
            TransferPlan::EndpointOut { kind: EndpointKind::Interrupt, endpoint, data },
        ),
        UsbTransfer::InterruptIn { endpoint, max_bytes } => Ok(
            TransferPlan::EndpointIn { kind: EndpointKind::Interrupt, endpoint, max_bytes },
        ),
    }
}

/// How a transfer failed, as plain values.
#[derive(Clone, Debug, PartialEq, Eq)]
pub enum TransferFault {
    Cancelled(String),
    Disconnected(String),
    InvalidArgument(String),
    Other(String),
    /// The endpoint could not be had.
    Endpoint(String),
}

/// The error of a failed transfer.
pub open spec fn fault_error(fault: TransferFault) -> HalErrorView {
    match fault {
        TransferFault::Cancelled(reason) => HalErrorView::new(
            "runtime.transport.timeout"@,
            ErrorCategory::Unavailable,
            "usb.transfer"@,
            true,
            "nusb transfer error: "@ + reason@,
        ),
        TransferFault::Disconnected(reason) => HalErrorView::new(
            "runtime.transport.disconnected"@,
            ErrorCategory::Unavailable,
            "usb.transfer"@,
            true,
            "nusb transfer error: "@ + reason@,
        ),
        TransferFault::InvalidArgument(reason) => HalErrorView::new(
            "runtime.transport.unsupported_configuration"@,
            ErrorCategory::InvalidArgument,
            "usb.transfer"@,
            false,
            "nusb transfer error: "@ + reason@,
        ),
        TransferFault::Other(reason) => HalErrorView::new(
            "runtime.transport.unavailable"@,
            ErrorCategory::Unavailable,
            "usb.transfer"@,
            true,
            "nusb transfer error: "@ + reason@,
        ),
        TransferFault::Endpoint(reason) => platform_failure("usb.transfer"@, reason@),
    }
}

/// The error of a failure of the platform.
pub open spec fn platform_failure(operation: Seq<char>, reason: Seq<char>) -> HalErrorView {
    HalErrorView::new(
        "runtime.transport.unavailable"@,
        ErrorCategory::Unavailable,
        operation,
        true,
        "nusb platform error: "@ + reason,
    )
}

/// The error of a failure of the platform.
pub fn platform_error(operation: &'static str, reason: &str) -> (error: HalError)
    ensures
        error@ == platform_failure(operation@, reason@),
{
    let mut message = "nusb platform error: ".to_owned();
    message.append(reason);
    HalError::new(
        "runtime.transport.unavailable",
        ErrorCategory::Unavailable,
        operation,
        true,
        message,
    )
}

/// The error of a failed transfer.
pub fn transfer_error(fault: &TransferFault) -> (error: HalError)
    ensures
        error@ == fault_error(*fault),
{
    let mut message = "nusb transfer error: ".to_owned();
    match fault {
        TransferFault::Cancelled(reason) => {
            message.append(reason.as_str());
            HalError::new(
                "runtime.transport.timeout",
                ErrorCategory::Unavailable,
                "usb.transfer",
                true,
                message,
            )
        },
        TransferFault::Disconnected(reason) => {
            message.append(reason.as_str());
            HalError::new(
                "runtime.transport.disconnected",
                ErrorCategory::Unavailable,
                "usb.transfer",
                true,
                message,
            )
        },
        TransferFault::InvalidArgument(reason) => {
            message.append(reason.as_str());
            HalError::new(
                "runtime.transport.unsupported_configuration",
                ErrorCategory::InvalidArgument,
                "usb.transfer",
                false,
                message,
            )
        },
        TransferFault::Other(reason) => {
            message.append(reason.as_str());
            HalError::new(
                "runtime.transport.unavailable",
                ErrorCategory::Unavailable,
                "usb.transfer",
                true,
                message,
            )
        },
        TransferFault::Endpoint(reason) => platform_error("usb.transfer", reason.as_str()),
    }
}

/// What a transfer that ended hands out: the bytes that came in; nothing for a way out.
pub enum TransferOutcome {
    Sent,
    Received { buffer: Vec<u8>, actual_len: usize },
    Failed(TransferFault),
}

/// A session on an interface of a device.
pub struct NusbSession {
    id: ResourceId,
    interface: u8,
    closed: bool,
}

impl NusbSession {
    /// The identity of the device.
    pub closed spec fn resource(self) -> Seq<char> {
        self.id@
    }

    /// The number of the claimed interface.
    pub closed spec fn claimed(self) -> u8 {
        self.interface
    }

    /// Whether the session is closed.
    pub closed spec fn is_closed(self) -> bool {
        self.closed
    }

    /// A session on a claimed interface.
    pub fn open(id: ResourceId, interface: u8) -> (session: NusbSession)
        ensures
            session.resource() == id@,
            session.claimed() == interface,
            !session.is_closed(),
    {
        NusbSession { id, interface, closed: false }
    }

    /// The number of the claimed interface.
    pub fn interface_claim(&self) -> (interface: u8)
        ensures
            interface == self.claimed(),
    {
        self.interface
    }

    /// How a transfer is asked for. What the interface does not take is an error about the device;
    /// a closed session and a wrong direction are not.
    pub fn transfer(&self, transfer: UsbTransfer) -> (result: HalResult<TransferPlan>)
        ensures
            match result {
                Ok(plan) => {
                    &&& !self.is_closed()
                    &&& plan_refusal(transfer) is None
                    &&& plans(transfer, plan)
                    &&& transfer is ControlOut ==> {
                        &&& plan is ControlOut
                        &&& plan->ControlOut_request == transfer->ControlOut_request
                        &&& plan->ControlOut_value == transfer->ControlOut_value
                        &&& plan->ControlOut_index == transfer->ControlOut_index
                        &&& plan->ControlOut_data@ == transfer->ControlOut_data@
                    }
                    &&& transfer is ControlIn ==> {
                        &&& plan is ControlIn
                        &&& plan->ControlIn_request == transfer->ControlIn_request
                        &&& plan->ControlIn_value == transfer->ControlIn_value
                        &&& plan->ControlIn_index == transfer->ControlIn_index
                        &&& plan->length == transfer->ControlIn_max_bytes
                    }
                    &&& transfer is BulkOut ==> {
                        &&& plan is EndpointOut
                        &&& plan->EndpointOut_kind == EndpointKind::Bulk
                        &&& plan->EndpointOut_endpoint == transfer->BulkOut_endpoint
                        &&& plan->EndpointOut_data@ == transfer->BulkOut_data@
                    }
                    &&& transfer is InterruptOut ==> {
                        &&& plan is EndpointOut
                        &&& plan->EndpointOut_kind == EndpointKind::Interrupt
                        &&& plan->EndpointOut_endpoint == transfer->InterruptOut_endpoint
                        &&& plan->EndpointOut_data@ == transfer->InterruptOut_data@
                    }
                    &&& transfer is BulkIn ==> {
                        &&& plan is EndpointIn
                        &&& plan->EndpointIn_kind == EndpointKind::Bulk
                        &&& plan->EndpointIn_endpoint == transfer->BulkIn_endpoint
                        &&& plan->EndpointIn_max_bytes == transfer->BulkIn_max_bytes
                    }
                    &&& transfer is InterruptIn ==> {
                        &&& plan is EndpointIn
                        &&& plan->EndpointIn_kind == EndpointKind::Interrupt
                        &&& plan->EndpointIn_endpoint == transfer->InterruptIn_endpoint
                        &&& plan->EndpointIn_max_bytes == transfer->InterruptIn_max_bytes
                    }
                },
                Err(error) => if self.is_closed() {
                    error@ == closed_error("usb.transfer"@)
                } else if direction_refusal(transfer) is Some {
                    error@ == invalid_error(direction_refusal(transfer)->0)
                } else {
                    &&& plan_refusal(transfer) is Some
                    &&& error@ == invalid_error(plan_refusal(transfer)->0).about(self.resource())
                },
            },
    {
        if self.closed {
            return Err(
                HalError::fixed(
                    "runtime.session.closed",
                    ErrorCategory::Conflict,
                    "usb.transfer",
                    false,
                    "USB session is closed",
                ),
            );
        }
        transfer.validate()?;
        match plan_transfer(transfer) {
            Ok(plan) => Ok(plan),
            Err(error) => Err(error.with_resource_id(self.id.copy())),
        }
    }

    /// What a transfer that ended gives.
    pub fn complete(&self, outcome: TransferOutcome) -> (result: HalResult<Vec<u8>>)
        requires
            outcome matches TransferOutcome::Received { buffer, actual_len } ==> actual_len
                <= buffer@.len(),
        ensures
            match outcome {
                TransferOutcome::Sent => result is Ok && result->Ok_0@.len() == 0,
                TransferOutcome::Received { buffer, actual_len } => {
                    &&& result is Ok
                    &&& result->Ok_0@ == buffer@.take(actual_len as int)
                    &&& result->Ok_0@.len() == actual_len
                    &&& forall|i: int|
                        0 <= i < actual_len ==> (#[trigger] result->Ok_0@[i]) == buffer@[i]
                },
                TransferOutcome::Failed(fault) => {
                    &&& result is Err
                    &&& result->Err_0@ == fault_error(fault).about(self.resource())
                },
            },
    {
        match outcome {
            TransferOutcome::Sent => Ok(Vec::new()),
            TransferOutcome::Received { buffer, actual_len } => {
                let kept = slice_to_vec(slice_subrange(buffer.as_slice(), 0, actual_len));
                proof {
                    assert(kept@ =~= buffer@.take(actual_len as int));
                }
                Ok(kept)
            },
            TransferOutcome::Failed(fault) => Err(
                transfer_error(&fault).with_resource_id(self.id.copy()),
            ),
        }
    }

    /// Closes the session; closing it again changes nothing.
    pub fn close(&mut self) -> (result: HalResult<()>)
        ensures
            result is Ok,
            final(self).is_closed(),
            final(self).resource() == old(self).resource(),
            final(self).claimed() == old(self).claimed(),
    {
        self.closed = true;
        Ok(())
    }
}

/// The error of an operation on a closed session.
pub open spec fn closed_error(operation: Seq<char>) -> HalErrorView {
    HalErrorView::new(
        "runtime.session.closed"@,
        ErrorCategory::Conflict,
        operation,
        false,
        "USB session is closed"@,
    )
}

/// What the failures of a transfer mean; only an argument that cannot be transferred is not worth
/// another try.
pub proof fn law_transfer_failures_are_told_apart(fault: TransferFault)
    ensures
        ({
            let error = fault_error(fault);
            &&& error.operation == "usb.transfer"@
            &&& error.retryable <==> !(fault is InvalidArgument)
            &&& error.category == ErrorCategory::InvalidArgument <==> fault is InvalidArgument
            &&& error.category == ErrorCategory::Unavailable <==> !(fault is InvalidArgument)
            &&& fault is Cancelled ==> error.name == "runtime.transport.timeout"@
            &&& fault is Disconnected ==> error.name == "runtime.transport.disconnected"@
            &&& fault is InvalidArgument ==> error.name
                == "runtime.transport.unsupported_configuration"@
            &&& fault is Other || fault is Endpoint ==> error.name
                == "runtime.transport.unavailable"@
        }),
{
}

} // verus!
