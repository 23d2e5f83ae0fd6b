//! Discovery of PCAN channels and the selection of one to open.

use vstd::prelude::*;
use vstd::string::*;

use crate::error::{ErrorCategory, HalError, HalErrorView, HalResult};
use crate::pcan::device;
use crate::pcan::device::DriverDevice;
use crate::pcan::driver_error;
use crate::pcan::driver_error::{map_driver_error, DriverError};
use crate::pcan::identity;
use crate::pcan::identity::{identity_from_metadata, PcanChannelMetadata};
use crate::resource;
use crate::resource::{
    endpoint_position, resolve_resource, Capability, DescriptorView, ResourceDescriptor, ResourceId,
    ResourceProperties, TransportKind,
};
use crate::text;
use crate::text::{decimal, push_upper_hex, show_bool};

verus! {

/// The operating system that the adapter runs on.
#[derive(Clone, Copy, Debug, PartialEq, Eq, Structural)]
pub enum Platform {
    Windows,
    Linux,
    Other,
}

/// The file name of the driver library, where the platform has one.
pub fn default_library_name(platform: Platform) -> (name: Option<&'static str>)
    ensures
        match platform {
            Platform::Windows => name is Some && name->0@ == "PCANBasic.dll"@,
            Platform::Linux => name is Some && name->0@ == "libpcanbasic.so"@,
            Platform::Other => name is None,
        },
{
    match platform {
        Platform::Windows => Some("PCANBasic.dll"),
        Platform::Linux => Some("libpcanbasic.so"),
        Platform::Other => None,
    }
}

/// The adapter, with the driver library loaded.
#[derive(Clone, Copy, Debug)]
pub struct PcanAdapter {
    platform: Platform,
}

/// The error of a platform without a driver.
pub open spec fn unavailable_error(operation: Seq<char>) -> HalErrorView {
    HalErrorView::new(
        "can.adapter.unavailable"@,
        ErrorCategory::Unavailable,
        operation,
        false,
        "PCAN-Basic is supported only on Windows and Linux"@,
    )
}

/// The error of a worker that did not finish.
pub open spec fn worker_failure(operation: Seq<char>, reason: Seq<char>) -> HalErrorView {
    HalErrorView::new(
        "runtime.internal.worker_failed"@,
        ErrorCategory::Internal,
        operation,
        false,
        "PCAN blocking worker failed: "@ + reason,
    )
}

/// The error of a worker that did not finish.
pub fn worker_error(operation: &'static str, reason: &str) -> (error: HalError)
    ensures
        error@ == worker_failure(operation@, reason@),
{
    let mut message = "PCAN blocking worker failed: ".to_owned();
    message.append(reason);
    HalError::new(
        "runtime.internal.worker_failed",
        ErrorCategory::Internal,
        operation,
        false,
        message,
    )
}

/// The endpoint of a channel.
pub open spec fn endpoint_text(handle: u16) -> Seq<char> {
    "pcan://0x"@ + text::upper_hex_digits(handle as nat, 4)
}

fn endpoint(handle: u16) -> (text: String)
    ensures
        text@ == endpoint_text(handle),
{
    let mut endpoint = "pcan://0x".to_owned();
    push_upper_hex(&mut endpoint, handle as u32, 4);
    endpoint
}

/// What a channel can do.
pub open spec fn capabilities_of(fd_capable: bool) -> Seq<Capability> {
    let always = seq![
        Capability::CanClassic,
        Capability::CanConfigure,
        Capability::CanRxTimestamp,
    ];
    if fd_capable {
        always.push(Capability::CanFd)
    } else {
        always
    }
}

/// The properties of a channel.
pub open spec fn properties_of(device: device::DeviceView) -> Map<Seq<char>, Seq<char>> {
    let always = Map::<Seq<char>, Seq<char>>::empty().insert("adapter"@, "pcan"@).insert(
        "handle"@,
        "0x"@ + text::upper_hex_digits(device.handle as nat, 4),
    ).insert("device_type"@, "0x"@ + text::upper_hex_digits(device.device_type as nat, 2)).insert(
        "controller_number"@,
        text::decimal_digits(device.controller_number as nat),
    ).insert("fd_capable"@, text::bool_text(device.fd_capable)).insert(
        "channel_condition"@,
        "0x"@ + text::upper_hex_digits(device.channel_condition as nat, 8),
    );
    let named = match device.device_name {
        Some(name) => always.insert("hardware_name"@, name),
        None => always,
    };
    match device.device_id {
        Some(id) => named.insert(
            "vendor_device_id"@,
            "0x"@ + text::upper_hex_digits(id as nat, 8),
        ),
        None => named,
    }
}

/// The descriptor of a channel.
pub open spec fn descriptor_of(device: device::DeviceView) -> DescriptorView {
    DescriptorView {
        id: identity::identity_text(
            device.handle,
            device.device_type,
            device.controller_number,
            device.device_id,
        ),
        endpoint: endpoint_text(device.handle),
        quality: identity::identity_quality(device.device_id),
        transport: TransportKind::Can,
        properties: properties_of(device),
        capabilities: capabilities_of(device.fd_capable),
    }
}

fn prefixed_hex(value: u32, width: u8) -> (text: String)
    ensures
        text@ == "0x"@ + text::upper_hex_digits(value as nat, width as nat),
{
    let mut text = "0x".to_owned();
    push_upper_hex(&mut text, value, width);
    text
}

/// The descriptor of a channel.
pub fn descriptor_from_device(device: &DriverDevice) -> (result: HalResult<ResourceDescriptor>)
    ensures
        result is Ok,
        result->Ok_0@ == descriptor_of(device@),
{
    let metadata = PcanChannelMetadata {
        handle: device.handle,
        device_type: device.device_type,
        controller_number: device.controller_number,
        device_name: device.device_name.clone(),
        device_id: device.device_id,
    };
    let identity = identity_from_metadata(&metadata)?;
    let mut capabilities: Vec<Capability> = Vec::new();
    capabilities.push(Capability::CanClassic);
    capabilities.push(Capability::CanConfigure);
    capabilities.push(Capability::CanRxTimestamp);
    if device.fd_capable {
        capabilities.push(Capability::CanFd);
    }
    let mut properties = ResourceProperties::new();
    properties.insert_text("adapter", "pcan");
    properties.insert("handle", prefixed_hex(device.handle as u32, 4));
    properties.insert("device_type", prefixed_hex(device.device_type as u32, 2));
    properties.insert("controller_number", decimal(device.controller_number as u64));
    properties.insert_text("fd_capable", show_bool(device.fd_capable));
    properties.insert("channel_condition", prefixed_hex(device.channel_condition, 8));
    if let Some(name) = &device.device_name {
        properties.insert_text("hardware_name", name.as_str());
    }
    if let Some(id) = device.device_id {
        properties.insert("vendor_device_id", prefixed_hex(id, 8));
    }
    proof {
        assert(capabilities@ =~= capabilities_of(device.fd_capable));
    }
    Ok(
        ResourceDescriptor {
            id: identity.id,
            endpoint: endpoint(device.handle),
            quality: identity.quality,
            transport: TransportKind::Can,
            properties,
            capabilities,
        },
    )
}

/// The descriptors of channels, in order.
pub open spec fn descriptors_of(devices: Seq<DriverDevice>) -> Seq<DescriptorView> {
    devices.map(|i: int, device: DriverDevice| descriptor_of(device@))
}

fn describe_all(devices: &Vec<DriverDevice>) -> (result: HalResult<Vec<ResourceDescriptor>>)
    ensures
        result is Ok,
        resource::descriptor_views(result->Ok_0@) == descriptors_of(devices@),
{
    let mut descriptors: Vec<ResourceDescriptor> = Vec::new();
    let mut index: usize = 0;
    while index < devices.len()
        invariant
            index <= devices@.len(),
            descriptors@.len() == index,
            forall|i: int|
                0 <= i < index ==> (#[trigger] descriptors@[i])@ == descriptor_of(devices@[i]@),
        decreases devices@.len() - index,
    {
        let descriptor = descriptor_from_device(&devices[index])?;
        descriptors.push(descriptor);
        index += 1;
    }
    proof {
        assert(resource::descriptor_views(descriptors@) =~= descriptors_of(devices@));
    }
    Ok(descriptors)
}

/// A channel that was selected: its descriptor, the position of that descriptor among those of the
/// discovered channels, and the position of the channel to open.
pub struct SelectedChannel {
    pub descriptor: ResourceDescriptor,
    pub resolved: usize,
    pub position: usize,
}

/// The selected channel is the first one with the identity, and what is opened is the first
/// channel at its endpoint.
pub open spec fn selects(
    descriptors: Seq<DescriptorView>,
    id: Seq<char>,
    selected: SelectedChannel,
) -> bool {
    &&& selected.position <= selected.resolved < descriptors.len()
    &&& selected.descriptor@ == descriptors[selected.resolved as int]
    &&& selected.descriptor@.id == id
    &&& forall|i: int| 0 <= i < selected.resolved ==> (#[trigger] descriptors[i]).id != id
    &&& descriptors[selected.position as int].endpoint == selected.descriptor@.endpoint
    &&& forall|i: int|
        0 <= i < selected.position ==> (#[trigger] descriptors[i]).endpoint
            != selected.descriptor@.endpoint
}

impl PcanAdapter {
    /// The platform that the driver was loaded on.
    pub closed spec fn platform(self) -> Platform {
        self.platform
    }

    /// The adapter, given how loading the driver library ended. A platform without a driver has
    /// none to load.
    pub fn load(platform: Platform, loaded: Result<(), DriverError>) -> (result: HalResult<Self>)
        ensures
            match result {
                Ok(adapter) => {
                    &&& platform != Platform::Other
                    &&& loaded is Ok
                    &&& adapter.platform() == platform
                },
                Err(error) => if platform == Platform::Other {
                    error@ == unavailable_error("can.adapter.load"@)
                } else {
                    &&& loaded is Err
                    &&& error@ == driver_error::mapped_error(
                        "can.adapter.load"@,
                        loaded->Err_0@,
                        None,
                    )
                },
            },
    {
        if platform == Platform::Other {
            return Err(
                HalError::fixed(
                    "can.adapter.unavailable",
                    ErrorCategory::Unavailable,
                    "can.adapter.load",
                    false,
                    "PCAN-Basic is supported only on Windows and Linux",
                ),
            );
        }
        match loaded {
            Ok(()) => Ok(PcanAdapter { platform }),
            Err(error) => Err(map_driver_error("can.adapter.load", error, None)),
        }
    }

    /// The name of the adapter.
    pub fn adapter_name(&self) -> (name: &'static str)
        ensures
            name@ == "pcan"@,
    {
        "pcan"
    }

    /// The descriptors of the discovered channels.
    pub fn enumerate(&self, discovered: Result<Vec<DriverDevice>, DriverError>) -> (result: HalResult<
        Vec<ResourceDescriptor>,
    >)
        ensures
            match discovered {
                Ok(devices) => {
                    &&& result is Ok
                    &&& resource::descriptor_views(result->Ok_0@) == descriptors_of(devices@)
                },
                Err(error) => {
                    &&& result is Err
                    &&& result->Err_0@ == driver_error::mapped_error(
                        "can.enumerate"@,
                        error@,
                        None,
                    )
                },
            },
    {
        match discovered {
            Ok(devices) => describe_all(&devices),
            Err(error) => Err(map_driver_error("can.enumerate", error, None)),
        }
    }

    /// The channel with an identity among the discovered ones.
    pub fn select(&self, devices: &Vec<DriverDevice>, id: &ResourceId) -> (result: HalResult<
        SelectedChannel,
    >)
        ensures
            match result {
                Ok(selected) => selects(descriptors_of(devices@), id@, selected),
                Err(error) => {
                    &&& error@ == resource::not_found_error("can.open"@, id@)
                    &&& forall|i: int|
                        0 <= i < devices@.len() ==> (#[trigger] descriptors_of(devices@)[i]).id
                            != id@
                },
            },
    {
        let descriptors = describe_all(devices)?;
        proof {
            assert(resource::descriptor_views(descriptors@).len() == descriptors@.len());
            assert forall|i: int| 0 <= i < devices@.len() implies (#[trigger] descriptors@[i])@
                == descriptors_of(devices@)[i] by {
                assert(resource::descriptor_views(descriptors@)[i] == descriptors@[i]@);
            }
            assert forall|i: int|
                0 <= i < devices@.len() implies #[trigger] descriptors_of(
                devices@,
            )[i].capabilities.contains(Capability::CanClassic) by {
                assert(descriptors_of(devices@)[i].capabilities[0] == Capability::CanClassic);
            }
        }
        match resolve_resource(&descriptors, id, Capability::CanClassic, "can.open") {
            Ok(resolved) => {
                let descriptor = descriptor_from_device(&devices[resolved])?;
                let position: usize = match endpoint_position(
                    &descriptors,
                    descriptor.endpoint.as_str(),
                ) {
                    Some(position) => position,
                    None => resolved,
                };
                proof {
                    assert forall|i: int| 0 <= i < resolved implies (#[trigger] descriptors_of(
                        devices@,
                    )[i]).id != id@ by {
                        assert(!resource::matches_selector(
                            descriptors@[i]@,
                            id@,
                            Capability::CanClassic,
                        ));
                    }
                    assert forall|i: int| 0 <= i < position implies (#[trigger] descriptors_of(
                        devices@,
                    )[i]).endpoint != descriptor@.endpoint by {
                        assert(descriptors@[i]@.endpoint != descriptor@.endpoint);
                    }
                    assert(descriptors@[resolved as int]@ == descriptor@);
                }
                Ok(SelectedChannel { descriptor, resolved, position })
            },
            Err(error) => {
                proof {
                    assert forall|i: int| 0 <= i < devices@.len() implies (
                    #[trigger] descriptors_of(devices@)[i]).id != id@ by {
                        assert(!resource::matches_selector(
                            descriptors@[i]@,
                            id@,
                            Capability::CanClassic,
                        ));
                    }
                }
                Err(error)
            },
        }
    }

    /// The channel to open, given how the discovery ended.
    pub fn open(
        &self,
        discovered: Result<Vec<DriverDevice>, DriverError>,
        id: &ResourceId,
    ) -> (result: HalResult<(SelectedChannel, Vec<DriverDevice>)>)
        ensures
            match discovered {
                Ok(devices) => match result {
                    Ok((selected, kept)) => {
                        &&& kept == devices
                        &&& selects(descriptors_of(devices@), id@, selected)
                    },
                    Err(error) => {
                        &&& error@ == resource::not_found_error("can.open"@, id@)
                        &&& forall|i: int|
                            0 <= i < devices@.len() ==> (#[trigger] descriptors_of(devices@)[i]).id
                                != id@
                    },
                },
                Err(error) => {
                    &&& result is Err
                    &&& result->Err_0@ == driver_error::mapped_error(
                        "can.open"@,
                        error@,
                        Some(id@),
                    )
                },
            },
    {
        match discovered {
            Ok(devices) => match self.select(&devices, id) {
                Ok(selected) => Ok((selected, devices)),
                Err(error) => Err(error),
            },
            Err(error) => Err(map_driver_error("can.open", error, Some(id))),
        }
    }
}

/// A channel with vendor evidence keeps its identity when its handle changes.
pub proof fn law_strong_identity_outlives_the_handle(
    first: device::DeviceView,
    second: device::DeviceView,
)
    requires
        first.device_type == second.device_type,
        first.controller_number == second.controller_number,
        first.device_id == second.device_id,
        descriptor_of(first).quality == crate::resource::IdentityQuality::Strong,
    ensures
        descriptor_of(first).id == descriptor_of(second).id,
        descriptor_of(second).quality == crate::resource::IdentityQuality::Strong,
{
}

/// A channel is offered under its identity and its handle, with what the driver tells about it. Every
/// channel carries Classical frames, can be configured and tells times; CAN FD goes with the device.
pub proof fn law_channel_is_offered_as_it_is(device: device::DeviceView)
    ensures
        ({
            let offered = descriptor_of(device);
            &&& offered.id == identity::identity_text(
                device.handle,
                device.device_type,
                device.controller_number,
                device.device_id,
            )
            &&& offered.quality == identity::identity_quality(device.device_id)
            &&& offered.endpoint == "pcan://0x"@ + text::upper_hex_digits(device.handle as nat, 4)
            &&& offered.transport == TransportKind::Can
            &&& offered.capabilities.contains(Capability::CanClassic)
            &&& offered.capabilities.contains(Capability::CanConfigure)
            &&& offered.capabilities.contains(Capability::CanRxTimestamp)
            &&& offered.capabilities.contains(Capability::CanFd) <==> device.fd_capable
            &&& offered.properties["adapter"@] == "pcan"@
            &&& offered.properties["handle"@] == "0x"@ + text::upper_hex_digits(
                device.handle as nat,
                4,
            )
            &&& offered.properties["device_type"@] == "0x"@ + text::upper_hex_digits(
                device.device_type as nat,
                2,
            )
            &&& offered.properties["controller_number"@] == text::decimal_digits(
                device.controller_number as nat,
            )
            &&& offered.properties["fd_capable"@] == if device.fd_capable {
                "true"@
            } else {
                "false"@
            }
            &&& offered.properties["channel_condition"@] == "0x"@ + text::upper_hex_digits(
                device.channel_condition as nat,
                8,
            )
            &&& offered.properties.dom().contains("hardware_name"@) <==> device.device_name is Some
            &&& device.device_name is Some ==> offered.properties["hardware_name"@]
                == device.device_name->0
            &&& offered.properties.dom().contains("vendor_device_id"@) <==> device.device_id
                is Some
            &&& device.device_id is Some ==> offered.properties["vendor_device_id"@] == "0x"@
                + text::upper_hex_digits(device.device_id->0 as nat, 8)
        }),
{
    reveal_strlit("adapter");
    reveal_strlit("handle");
    reveal_strlit("device_type");
    reveal_strlit("controller_number");
    reveal_strlit("fd_capable");
    reveal_strlit("channel_condition");
    reveal_strlit("hardware_name");
    reveal_strlit("vendor_device_id");
    assert("adapter"@.len() == 7);
    assert("handle"@.len() == 6);
    assert("device_type"@.len() == 11);
    assert("controller_number"@.len() == 17 && "controller_number"@[1] == 'o');
    assert("fd_capable"@.len() == 10);
    assert("channel_condition"@.len() == 17 && "channel_condition"@[1] == 'h');
    assert("hardware_name"@.len() == 13);
    assert("vendor_device_id"@.len() == 16);
    let offered = capabilities_of(device.fd_capable);
    assert(offered[0] == Capability::CanClassic);
    assert(offered[1] == Capability::CanConfigure);
    assert(offered[2] == Capability::CanRxTimestamp);
    if device.fd_capable {
        assert(offered[3] == Capability::CanFd);
    }
}

/// The selected channel has the selected identity, and what is opened is at its endpoint; where no two
/// channels share an endpoint, it is the selected channel itself.
pub proof fn law_the_selected_channel_is_opened(
    descriptors: Seq<DescriptorView>,
    id: Seq<char>,
    selected: SelectedChannel,
)
    requires
        selects(descriptors, id, selected),
    ensures
        selected.descriptor@.id == id,
        selected.descriptor@ == descriptors[selected.resolved as int],
        descriptors[selected.position as int].endpoint
            == descriptors[selected.resolved as int].endpoint,
        forall|i: int| 0 <= i < selected.resolved ==> (#[trigger] descriptors[i]).id != id,
        forall|i: int|
            0 <= i < selected.position ==> (#[trigger] descriptors[i]).endpoint
                != descriptors[selected.resolved as int].endpoint,
        (forall|i: int, j: int|
            0 <= i < j < descriptors.len() ==> (#[trigger] descriptors[i]).endpoint != (
            #[trigger] descriptors[j]).endpoint) ==> selected.position == selected.resolved,
{
}

} // verus!
