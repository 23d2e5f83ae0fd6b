//! Discovery of USB devices and the selection of one to open.

use vstd::prelude::*;
use vstd::string::*;

use crate::error::{ErrorCategory, HalError, HalErrorView, HalResult};
use crate::resource;
use crate::resource::{
    endpoint_position, resolve_resource, Capability, DescriptorView, ResourceDescriptor, ResourceId,
    ResourceProperties, TransportKind,
};
use crate::text;
use crate::text::{decimal, four_hex, push_decimal};
use crate::usb::identity;
use crate::usb::identity::{identity_from_metadata, UsbDeviceMetadata};

verus! {

/// The adapter.
#[derive(Clone, Copy, Debug)]
pub struct NusbAdapter;

/// A device as the platform reports it.
#[derive(Clone, Debug, PartialEq, Eq)]
pub struct UsbDeviceInfo {
    pub bus_id: String,
    pub port_chain: Vec<u8>,
    pub vendor_id: u16,
    pub product_id: u16,
    pub serial_number: Option<String>,
    pub device_address: u8,
}

/// The numbers of ports with a dot between them.
pub open spec fn joined_ports(ports: Seq<u8>) -> Seq<char>
    decreases ports.len(),
{
    if ports.len() == 0 {
        Seq::empty()
    } else if ports.len() == 1 {
        text::decimal_digits(ports[0] as nat)
    } else {
        joined_ports(ports.drop_last()) + "."@ + text::decimal_digits(ports.last() as nat)
    }
}

fn join_ports(ports: &Vec<u8>) -> (joined: String)
    ensures
        joined@ == joined_ports(ports@),
{
    let mut joined = String::new();
    let mut index: usize = 0;
    while index < ports.len()
        invariant
            index <= ports@.len(),
            joined@ == joined_ports(ports@.take(index as int)),
        decreases ports@.len() - index,
    {
        proof {
            assert(ports@.take(index + 1).drop_last() =~= ports@.take(index as int));
        }
        if index > 0 {
            joined.append(".");
        }
        push_decimal(&mut joined, ports[index] as u64);
        proof {
            assert(joined@ =~= joined_ports(ports@.take(index + 1)));
        }
        index += 1;
    }
    proof {
        assert(ports@.take(index as int) =~= ports@);
    }
    joined
}

/// The chain of ports that a device is plugged into.
pub open spec fn topology_of(bus_id: Seq<char>, ports: Seq<u8>) -> Seq<char> {
    bus_id + "-"@ + joined_ports(ports)
}

/// The endpoint of a device: its address on its bus.
pub open spec fn endpoint_of(bus_id: Seq<char>, device_address: u8) -> Seq<char> {
    bus_id + "/"@ + text::decimal_digits(device_address as nat)
}

/// The descriptor of a device.
pub open spec fn descriptor_of(device: UsbDeviceInfo) -> DescriptorView {
    let named = identity::identity_of(
        device.vendor_id,
        device.product_id,
        text::optional_text(device.serial_number),
        topology_of(device.bus_id@, device.port_chain@),
    );
    DescriptorView {
        id: named.0,
        endpoint: endpoint_of(device.bus_id@, device.device_address),
        quality: named.1,
        transport: TransportKind::Usb,
        properties: Map::<Seq<char>, Seq<char>>::empty().insert("adapter"@, "nusb"@).insert(
            "endpoint"@,
            endpoint_of(device.bus_id@, device.device_address),
        ).insert("usb.vid"@, text::lower_hex_digits(device.vendor_id as nat, 4)).insert(
            "usb.pid"@,
            text::lower_hex_digits(device.product_id as nat, 4),
        ).insert("usb.bus_id"@, device.bus_id@).insert(
            "usb.port_chain"@,
            joined_ports(device.port_chain@),
        ).insert("usb.device_address"@, text::decimal_digits(device.device_address as nat)),
        capabilities: seq![
            Capability::UsbControl,
            Capability::UsbBulk,
            Capability::UsbInterrupt,
        ],
    }
}

/// The descriptor of a device.
pub fn descriptor_from_device(device: &UsbDeviceInfo) -> (result: HalResult<ResourceDescriptor>)
    ensures
        result is Ok,
        result->Ok_0@ == descriptor_of(*device),
{
    let ports = join_ports(&device.port_chain);
    let mut topology = device.bus_id.clone();
    topology.append("-");
    topology.append(ports.as_str());
    let mut endpoint = device.bus_id.clone();
    endpoint.append("/");
    push_decimal(&mut endpoint, device.device_address as u64);
    let metadata = UsbDeviceMetadata {
        vendor_id: device.vendor_id,
        product_id: device.product_id,
        serial_number: device.serial_number.clone(),
        topology,
    };
    let identity = identity_from_metadata(&metadata)?;
    let mut properties = ResourceProperties::new();
    properties.insert_text("adapter", "nusb");
    properties.insert_text("endpoint", endpoint.as_str());
    properties.insert("usb.vid", four_hex(device.vendor_id));
    properties.insert("usb.pid", four_hex(device.product_id));
    properties.insert_text("usb.bus_id", device.bus_id.as_str());
    properties.insert("usb.port_chain", ports);
    properties.insert("usb.device_address", decimal(device.device_address as u64));
    let mut capabilities: Vec<Capability> = Vec::new();
    capabilities.push(Capability::UsbControl);
    capabilities.push(Capability::UsbBulk);
    capabilities.push(Capability::UsbInterrupt);
    proof {
        assert(capabilities@ =~= descriptor_of(*device).capabilities);
    }
    Ok(
        ResourceDescriptor {
            id: identity.id,
            endpoint,
            quality: identity.quality,
            transport: TransportKind::Usb,
            properties,
            capabilities,
        },
    )
}

/// The error of a system without USB support.
pub fn unavailable(operation: &'static str) -> (error: HalError)
    ensures
        error@ == HalErrorView::new(
            "runtime.adapter.unavailable"@,
            ErrorCategory::Unavailable,
            operation@,
            false,
            "native nusb session support is not yet available"@,
        ),
{
    HalError::fixed(
        "runtime.adapter.unavailable",
        ErrorCategory::Unavailable,
        operation,
        false,
        "native nusb session support is not yet available",
    )
}

/// The error of a worker that did not finish.
pub fn worker_failed(operation: &'static str, reason: &str) -> (error: HalError)
    ensures
        error@ == HalErrorView::new(
            "runtime.internal.worker_failed"@,
            ErrorCategory::Internal,
            operation@,
            false,
            "nusb worker failed: "@ + reason@,
        ),
{
    let mut message = "nusb worker failed: ".to_owned();
    message.append(reason);
    HalError::new(
        "runtime.internal.worker_failed",
        ErrorCategory::Internal,
        operation,
        false,
        message,
    )
}

/// The descriptors of devices, in order.
pub open spec fn descriptors_of(devices: Seq<UsbDeviceInfo>) -> Seq<DescriptorView> {
    devices.map(|i: int, device: UsbDeviceInfo| descriptor_of(device))
}

/// A device that was selected: the position of its descriptor, and the position of the device to
/// open.
#[derive(Clone, Copy, Debug, PartialEq, Eq, Structural)]
pub struct SelectedDevice {
    pub resolved: usize,
    pub position: usize,
}

impl NusbAdapter {
    /// The adapter.
    pub fn new() -> (adapter: Self)
        ensures
            adapter == NusbAdapter,
    {
        NusbAdapter
    }

    /// The name of the adapter.
    pub fn adapter_name(&self) -> (name: &'static str)
        ensures
            name@ == "nusb"@,
    {
        "nusb"
    }

    /// The descriptors of devices, in order.
    pub fn enumerate(&self, devices: &Vec<UsbDeviceInfo>) -> (result: HalResult<
        Vec<ResourceDescriptor>,
    >)
        ensures
            result is Ok,
            resource::descriptor_views(result->Ok_0@) == descriptors_of(devices@),
    {
        let mut descriptors: Vec<ResourceDescriptor> = Vec::new();
        let mut index: usize = 0;
        while index < devices.len()
            invariant
                index <= devices@.len(),
                descriptors@.len() == index,
                forall|i: int|
                    0 <= i < index ==> (#[trigger] descriptors@[i])@ == descriptor_of(devices@[i]),
            decreases devices@.len() - index,
        {
            let descriptor = descriptor_from_device(&devices[index])?;
            descriptors.push(descriptor);
            index += 1;
        }
        proof {
            assert(resource::descriptor_views(descriptors@) =~= descriptors_of(devices@));
        }
        Ok(descriptors)
    }

    /// The device to open: the first one at the endpoint of the first one with the identity.
    pub fn select(&self, devices: &Vec<UsbDeviceInfo>, id: &ResourceId) -> (result: HalResult<
        SelectedDevice,
    >)
        ensures
            match result {
                Ok(selected) => {
                    let descriptors = descriptors_of(devices@);
                    &&& selected.position <= selected.resolved < devices@.len()
                    &&& descriptors[selected.resolved as int].id == id@
                    &&& forall|i: int|
                        0 <= i < selected.resolved ==> (#[trigger] descriptors[i]).id != id@
                    &&& descriptors[selected.position as int].endpoint
                        == descriptors[selected.resolved as int].endpoint
                    &&& forall|i: int|
                        0 <= i < selected.position ==> (#[trigger] descriptors[i]).endpoint
                            != descriptors[selected.resolved as int].endpoint
                },
                Err(error) => {
                    &&& error@ == resource::not_found_error("usb.open"@, id@)
                    &&& forall|i: int|
                        0 <= i < devices@.len() ==> (#[trigger] descriptors_of(devices@)[i]).id
                            != id@
                },
            },
    {
        let descriptors = self.enumerate(devices)?;
        let ghost views = descriptors_of(devices@);
        proof {
            assert(resource::descriptor_views(descriptors@).len() == descriptors@.len());
            assert forall|i: int| 0 <= i < devices@.len() implies (#[trigger] descriptors@[i])@
                == views[i] by {
                assert(resource::descriptor_views(descriptors@)[i] == descriptors@[i]@);
            }
            assert forall|i: int|
                0 <= i < devices@.len() implies #[trigger] views[i].capabilities.contains(
                Capability::UsbControl,
            ) by {
                assert(views[i].capabilities[0] == Capability::UsbControl);
            }
        }
        match resolve_resource(&descriptors, id, Capability::UsbControl, "usb.open") {
            Ok(resolved) => {
                let position: usize = match endpoint_position(
                    &descriptors,
                    descriptors[resolved].endpoint.as_str(),
                ) {
                    Some(position) => position,
                    None => resolved,
                };
                proof {
                    assert forall|i: int| 0 <= i < resolved implies (#[trigger] views[i]).id
                        != id@ by {
                        assert(!resource::matches_selector(
                            descriptors@[i]@,
                            id@,
                            Capability::UsbControl,
                        ));
                    }
                    assert forall|i: int| 0 <= i < position implies (#[trigger] views[i]).endpoint
                        != views[resolved as int].endpoint by {
                        assert(descriptors@[i]@.endpoint != descriptors@[resolved as int]@.endpoint);
                    }
                }
                Ok(SelectedDevice { resolved, position })
            },
            Err(error) => {
                proof {
                    assert forall|i: int| 0 <= i < devices@.len() implies (#[trigger] views[i]).id
                        != id@ by {
                        assert(!resource::matches_selector(
                            descriptors@[i]@,
                            id@,
                            Capability::UsbControl,
                        ));
                    }
                }
                Err(error)
            },
        }
    }
}

/// A device keeps its identity when its address on the bus changes, and one with a serial number
/// keeps it when it is plugged in elsewhere.
pub proof fn law_identity_is_independent_of_the_address(
    first: UsbDeviceInfo,
    second: UsbDeviceInfo,
)
    requires
        first.vendor_id == second.vendor_id,
        first.product_id == second.product_id,
        text::optional_text(first.serial_number) == text::optional_text(second.serial_number),
        text::spec_non_empty(text::optional_text(first.serial_number)) is Some || (first.bus_id@
            == second.bus_id@ && first.port_chain@ == second.port_chain@),
    ensures
        descriptor_of(first).id == descriptor_of(second).id,
        descriptor_of(first).quality == descriptor_of(second).quality,
{
}

/// A device is offered under its identity, at its address on its bus, with what is known about it,
/// for all three kinds of transfers.
pub proof fn law_device_is_offered_as_it_is(device: UsbDeviceInfo)
    ensures
        ({
            let offered = descriptor_of(device);
            let named = identity::identity_of(
                device.vendor_id,
                device.product_id,
                text::optional_text(device.serial_number),
                device.bus_id@ + "-"@ + joined_ports(device.port_chain@),
            );
            let address = text::decimal_digits(device.device_address as nat);
            &&& offered.id == named.0
            &&& offered.quality == named.1
            &&& offered.endpoint == device.bus_id@ + "/"@ + address
            &&& offered.transport == TransportKind::Usb
            &&& offered.capabilities.contains(Capability::UsbControl)
            &&& offered.capabilities.contains(Capability::UsbBulk)
            &&& offered.capabilities.contains(Capability::UsbInterrupt)
            &&& offered.properties["adapter"@] == "nusb"@
            &&& offered.properties["endpoint"@] == device.bus_id@ + "/"@ + address
            &&& offered.properties["usb.vid"@] == text::lower_hex_digits(device.vendor_id as nat, 4)
            &&& offered.properties["usb.pid"@] == text::lower_hex_digits(
                device.product_id as nat,
                4,
            )
            &&& offered.properties["usb.bus_id"@] == device.bus_id@
            &&& offered.properties["usb.port_chain"@] == joined_ports(device.port_chain@)
            &&& offered.properties["usb.device_address"@] == address
        }),
{
    reveal_strlit("adapter");
    reveal_strlit("endpoint");
    reveal_strlit("usb.vid");
    reveal_strlit("usb.pid");
    reveal_strlit("usb.bus_id");
    reveal_strlit("usb.port_chain");
    reveal_strlit("usb.device_address");
    assert("adapter"@.len() == 7 && "adapter"@[0] == 'a');
    assert("endpoint"@.len() == 8);
    assert("usb.vid"@.len() == 7 && "usb.vid"@[0] == 'u' && "usb.vid"@[4] == 'v');
    assert("usb.pid"@.len() == 7 && "usb.pid"@[0] == 'u' && "usb.pid"@[4] == 'p');
    assert("usb.bus_id"@.len() == 10);
    assert("usb.port_chain"@.len() == 14);
    assert("usb.device_address"@.len() == 18);
    let offered = descriptor_of(device).capabilities;
    assert(offered[0] == Capability::UsbControl);
    assert(offered[1] == Capability::UsbBulk);
    assert(offered[2] == Capability::UsbInterrupt);
}

/// The ports of a device stand in order, each in decimal digits, with a point between two.
pub proof fn law_ports_stand_in_order(ports: Seq<u8>, last: u8)
    ensures
        joined_ports(seq![]) == Seq::<char>::empty(),
        joined_ports(seq![last]) == text::decimal_digits(last as nat),
        ports.len() > 0 ==> joined_ports(ports.push(last)) == joined_ports(ports) + "."@
            + text::decimal_digits(last as nat),
{
    assert(ports.push(last).drop_last() =~= ports);
}

} // verus!
