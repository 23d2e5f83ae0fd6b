//! Discovery of serial ports and the selection of one to open.

use vstd::prelude::*;
use vstd::string::*;

use crate::error::{ErrorCategory, HalError, HalErrorView, HalResult};
use crate::resource::{
    DescriptorView, IdentityQuality, ResourceDescriptor, ResourceId, ResourceProperties,
    TransportKind,
};
use crate::serial::identity;
use crate::serial::identity::{
    identity_from_endpoint, identity_from_usb_metadata, SerialIdentity, UsbPortMetadata,
};
use crate::text;
use crate::text::four_hex;

verus! {

/// The adapter.
#[derive(Clone, Copy, Debug)]
pub struct SerialPortAdapter;

/// What is behind a port.
#[derive(Clone, Debug, PartialEq, Eq)]
pub enum PortType {
    Usb(UsbPortMetadata),
    Pci,
    Bluetooth,
    Unknown,
}

/// A port as the platform reports it.
#[derive(Clone, Debug, PartialEq, Eq)]
pub struct PortInfo {
    pub port_name: String,
    pub port_type: PortType,
}

/// The text and the quality of a port's identity.
pub open spec fn identity_of(port: PortInfo) -> (Seq<char>, IdentityQuality) {
    match port.port_type {
        PortType::Usb(metadata) => identity::usb_identity(
            port.port_name@,
            metadata.vid,
            metadata.pid,
            text::optional_text(metadata.serial_number),
        ),
        _ => identity::endpoint_identity(port.port_name@),
    }
}

/// A map with one more entry, where the value is there and not empty.
pub open spec fn with_optional(
    properties: Map<Seq<char>, Seq<char>>,
    key: Seq<char>,
    value: Option<Seq<char>>,
) -> Map<Seq<char>, Seq<char>> {
    match value {
        Some(value) => if value.len() > 0 {
            properties.insert(key, value)
        } else {
            properties
        },
        None => properties,
    }
}

/// Adds an entry, where the value is there and not empty.
pub fn insert_optional(properties: &mut ResourceProperties, key: &str, value: &Option<String>)
    ensures
        final(properties)@ == with_optional(old(properties)@, key@, text::optional_text(*value)),
{
    if let Some(value) = value {
        if !value.as_str().is_empty() {
            properties.insert_text(key, value.as_str());
        }
    }
}

/// The properties of a port.
pub open spec fn properties_of(port: PortInfo) -> Map<Seq<char>, Seq<char>> {
    let always = Map::<Seq<char>, Seq<char>>::empty().insert("adapter"@, "serialport"@).insert(
        "endpoint"@,
        port.port_name@,
    );
    match port.port_type {
        PortType::Usb(metadata) => with_optional(
            with_optional(
                with_optional(
                    always.insert("port_type"@, "usb"@).insert(
                        "usb.vid"@,
                        text::lower_hex_digits(metadata.vid as nat, 4),
                    ).insert("usb.pid"@, text::lower_hex_digits(metadata.pid as nat, 4)),
                    "usb.serial_number"@,
                    text::optional_text(metadata.serial_number),
                ),
                "usb.manufacturer"@,
                text::optional_text(metadata.manufacturer),
            ),
            "usb.product"@,
            text::optional_text(metadata.product),
        ),
        PortType::Pci => always.insert("port_type"@, "pci"@),
        PortType::Bluetooth => always.insert("port_type"@, "bluetooth"@),
        PortType::Unknown => always.insert("port_type"@, "unknown"@),
    }
}

/// The descriptor of a port.
pub open spec fn descriptor_of(port: PortInfo) -> DescriptorView {
    DescriptorView {
        id: identity_of(port).0,
        endpoint: port.port_name@,
        quality: identity_of(port).1,
        transport: TransportKind::Serial,
        properties: properties_of(port),
        capabilities: Seq::empty(),
    }
}

fn identity_from_port(port: &PortInfo) -> (result: HalResult<SerialIdentity>)
    ensures
        result is Ok,
        (result->Ok_0.id@, result->Ok_0.quality) == identity_of(*port),
{
    match &port.port_type {
        PortType::Usb(metadata) => identity_from_usb_metadata(port.port_name.as_str(), metadata),
        PortType::Pci => identity_from_endpoint(port.port_name.as_str()),
        PortType::Bluetooth => identity_from_endpoint(port.port_name.as_str()),
        PortType::Unknown => identity_from_endpoint(port.port_name.as_str()),
    }
}

fn properties_from_port(port: &PortInfo) -> (properties: ResourceProperties)
    ensures
        properties@ == properties_of(*port),
{
    let mut properties = ResourceProperties::new();
    properties.insert_text("adapter", "serialport");
    properties.insert_text("endpoint", port.port_name.as_str());
    match &port.port_type {
        PortType::Usb(metadata) => {
            properties.insert_text("port_type", "usb");
            properties.insert("usb.vid", four_hex(metadata.vid));
            properties.insert("usb.pid", four_hex(metadata.pid));
            insert_optional(&mut properties, "usb.serial_number", &metadata.serial_number);
            insert_optional(&mut properties, "usb.manufacturer", &metadata.manufacturer);
            insert_optional(&mut properties, "usb.product", &metadata.product);
        },
        PortType::Pci => properties.insert_text("port_type", "pci"),
        PortType::Bluetooth => properties.insert_text("port_type", "bluetooth"),
        PortType::Unknown => properties.insert_text("port_type", "unknown"),
    }
    properties
}

/// The descriptor of a port.
pub fn descriptor_from_port(port: &PortInfo) -> (result: HalResult<ResourceDescriptor>)
    ensures
        result is Ok,
        result->Ok_0@ == descriptor_of(*port),
{
    let identity = identity_from_port(port)?;
    let properties = properties_from_port(port);
    Ok(
        ResourceDescriptor {
            id: identity.id,
            endpoint: port.port_name.clone(),
            quality: identity.quality,
            transport: TransportKind::Serial,
            properties,
            capabilities: Vec::new(),
        },
    )
}

/// A descriptor that a selector names.
pub open spec fn selected_by(
    descriptor: DescriptorView,
    id: Seq<char>,
    quality: IdentityQuality,
) -> bool {
    &&& descriptor.id == id
    &&& descriptor.quality == quality
    &&& descriptor.transport == TransportKind::Serial
}

/// The error of a selector for another kind of transport.
pub open spec fn transport_error() -> HalErrorView {
    HalErrorView::new(
        "runtime.transport.unsupported_configuration"@,
        ErrorCategory::InvalidArgument,
        "serial.open"@,
        false,
        "selector transport is not serial"@,
    )
}

/// The error of a selector that names no port.
pub open spec fn not_found_error() -> HalErrorView {
    HalErrorView::new(
        "runtime.resource.not_found"@,
        ErrorCategory::NotFound,
        "serial.open"@,
        false,
        "selector did not match an enumerated port"@,
    )
}

impl SerialPortAdapter {
    /// The adapter.
    pub fn new() -> (adapter: Self)
        ensures
            adapter == SerialPortAdapter,
    {
        SerialPortAdapter
    }

    /// The name of the adapter.
    pub fn adapter_name(&self) -> (name: &'static str)
        ensures
            name@ == "serialport"@,
    {
        "serialport"
    }

    /// The descriptors of ports, in order.
    pub fn enumerate(&self, ports: &Vec<PortInfo>) -> (result: HalResult<Vec<ResourceDescriptor>>)
        ensures
            result is Ok,
            crate::resource::descriptor_views(result->Ok_0@) == ports@.map(
                |i: int, port: PortInfo| descriptor_of(port),
            ),
    {
        let mut descriptors: Vec<ResourceDescriptor> = Vec::new();
        let mut index: usize = 0;
        while index < ports.len()
            invariant
                index <= ports@.len(),
                descriptors@.len() == index,
                forall|i: int|
                    0 <= i < index ==> (#[trigger] descriptors@[i])@ == descriptor_of(ports@[i]),
            decreases ports@.len() - index,
        {
            let descriptor = descriptor_from_port(&ports[index])?;
            descriptors.push(descriptor);
            index += 1;
        }
        proof {
            assert(crate::resource::descriptor_views(descriptors@) =~= ports@.map(
                |i: int, port: PortInfo| descriptor_of(port),
            ));
        }
        Ok(descriptors)
    }

    /// The position of the first port that a selector names by its identity, the quality of the
    /// identity and the transport.
    pub fn select(
        &self,
        descriptors: &Vec<ResourceDescriptor>,
        transport: TransportKind,
        id: &ResourceId,
        quality: IdentityQuality,
    ) -> (result: HalResult<usize>)
        ensures
            match result {
                Ok(position) => {
                    &&& transport == TransportKind::Serial
                    &&& position < descriptors@.len()
                    &&& selected_by(descriptors@[position as int]@, id@, quality)
                    &&& forall|i: int|
                        0 <= i < position ==> !selected_by(
                            #[trigger] descriptors@[i]@,
                            id@,
                            quality,
                        )
                },
                Err(error) => if transport != TransportKind::Serial {
                    error@ == transport_error()
                } else {
                    &&& error@ == not_found_error()
                    &&& forall|i: int|
                        0 <= i < descriptors@.len() ==> !selected_by(
                            #[trigger] descriptors@[i]@,
                            id@,
                            quality,
                        )
                },
            },
    {
        if transport != TransportKind::Serial {
            return Err(
                HalError::fixed(
                    "runtime.transport.unsupported_configuration",
                    ErrorCategory::InvalidArgument,
                    "serial.open",
                    false,
                    "selector transport is not serial",
                ),
            );
        }
        let mut index: usize = 0;
        while index < descriptors.len()
            invariant
                transport == TransportKind::Serial,
                index <= descriptors@.len(),
                forall|i: int|
                    0 <= i < index ==> !selected_by(#[trigger] descriptors@[i]@, id@, quality),
            decreases descriptors@.len() - index,
        {
            if descriptors[index].id.same(id) && descriptors[index].quality == quality
                && descriptors[index].transport == TransportKind::Serial {
                return Ok(index);
            }
            index += 1;
        }
        Err(
            HalError::fixed(
                "runtime.resource.not_found",
                ErrorCategory::NotFound,
                "serial.open",
                false,
                "selector did not match an enumerated port",
            ),
        )
    }
}

/// A port is offered under its identity and its name, with its kind and, of a USB port, what is known
/// about the device; texts that are absent or empty are left out.
pub proof fn law_port_is_offered_as_it_is(port: PortInfo)
    ensures
        ({
            let offered = descriptor_of(port);
            &&& offered.id == identity_of(port).0
            &&& offered.quality == identity_of(port).1
            &&& offered.endpoint == port.port_name@
            &&& offered.transport == TransportKind::Serial
            &&& offered.properties["adapter"@] == "serialport"@
            &&& offered.properties["endpoint"@] == port.port_name@
            &&& offered.properties["port_type"@] == match port.port_type {
                PortType::Usb(_) => "usb"@,
                PortType::Pci => "pci"@,
                PortType::Bluetooth => "bluetooth"@,
                PortType::Unknown => "unknown"@,
            }
        }),
        port.port_type matches PortType::Usb(metadata) ==> {
            let properties = descriptor_of(port).properties;
            let serial = text::optional_text(metadata.serial_number);
            let maker = text::optional_text(metadata.manufacturer);
            let product = text::optional_text(metadata.product);
            &&& properties["usb.vid"@] == text::lower_hex_digits(metadata.vid as nat, 4)
            &&& properties["usb.pid"@] == text::lower_hex_digits(metadata.pid as nat, 4)
            &&& properties.dom().contains("usb.serial_number"@) <==> serial is Some
                && serial->0.len() > 0
            &&& properties.dom().contains("usb.serial_number"@)
                ==> properties["usb.serial_number"@] == serial->0
            &&& properties.dom().contains("usb.manufacturer"@) <==> maker is Some && maker->0.len()
                > 0
            &&& properties.dom().contains("usb.manufacturer"@)
                ==> properties["usb.manufacturer"@] == maker->0
            &&& properties.dom().contains("usb.product"@) <==> product is Some && product->0.len()
                > 0
            &&& properties.dom().contains("usb.product"@) ==> properties["usb.product"@]
                == product->0
            &&& identity_of(port) == identity::usb_identity(
                port.port_name@,
                metadata.vid,
                metadata.pid,
                serial,
            )
        },
        !(port.port_type is Usb) ==> identity_of(port) == identity::endpoint_identity(
            port.port_name@,
        ),
{
    reveal_strlit("adapter");
    reveal_strlit("endpoint");
    reveal_strlit("port_type");
    reveal_strlit("usb.vid");
    reveal_strlit("usb.pid");
    reveal_strlit("usb.serial_number");
    reveal_strlit("usb.manufacturer");
    reveal_strlit("usb.product");
    assert("adapter"@.len() == 7 && "adapter"@[0] == 'a');
    assert("endpoint"@.len() == 8);
    assert("port_type"@.len() == 9);
    assert("usb.vid"@.len() == 7 && "usb.vid"@[0] == 'u' && "usb.vid"@[4] == 'v');
    assert("usb.pid"@.len() == 7 && "usb.pid"@[0] == 'u' && "usb.pid"@[4] == 'p');
    assert("usb.serial_number"@.len() == 17);
    assert("usb.manufacturer"@.len() == 16);
    assert("usb.product"@.len() == 11);
}

/// A selector names a port by its identity and the quality of it, and only among ports.
pub proof fn law_selectors_name_one_port(
    descriptor: DescriptorView,
    id: Seq<char>,
    quality: IdentityQuality,
)
    ensures
        selected_by(descriptor, id, quality) ==> descriptor.id == id && descriptor.quality == quality
            && descriptor.transport == TransportKind::Serial,
        descriptor.id == id && descriptor.quality == quality && descriptor.transport
            == TransportKind::Serial ==> selected_by(descriptor, id, quality),
{
}

} // verus!
