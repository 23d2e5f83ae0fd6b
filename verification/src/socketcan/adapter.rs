//! Discovery of CAN interfaces and the selection of one to open.

use vstd::prelude::*;
use vstd::string::*;

use crate::error::{ErrorCategory, HalError, HalErrorView, HalResult};
use crate::resource;
use crate::resource::{
    resolve_resource, Capability, DescriptorView, ResourceDescriptor, ResourceId,
    ResourceProperties, TransportKind,
};
use crate::socketcan::identity;
use crate::socketcan::identity::{identity_from_metadata, CanInterfaceMetadata, MetadataView};
use crate::socketcan::kernel::{DetailsView, InterfaceDetails};
use crate::socketcan::link;
use crate::socketcan::link::capabilities_for_details;
use crate::text;
use crate::text::show_bool;

verus! {

/// The adapter.
#[derive(Clone, Copy, Debug)]
pub struct SocketCanAdapter;

/// Whether an interface can carry CAN FD frames.
pub open spec fn supports_fd(details: DetailsView) -> bool {
    link::fd_active(details) || details.can.data_bit_timing_const
}

/// Whether an interface can be configured: it is not virtual, and the kernel knows the limits of
/// its timing.
pub open spec fn supports_configure(metadata: MetadataView, details: DetailsView) -> bool {
    !metadata.virtual_interface && details.can.bit_timing_const
}

/// What an interface can do.
pub open spec fn capabilities_of(metadata: MetadataView, details: DetailsView) -> Seq<Capability> {
    let classic = seq![Capability::CanClassic];
    let fd = if supports_fd(details) {
        classic.push(Capability::CanFd)
    } else {
        classic
    };
    if supports_configure(metadata, details) {
        fd.push(Capability::CanConfigure)
    } else {
        fd
    }
}

/// The properties of an interface.
pub open spec fn properties_of(
    interface: Seq<char>,
    metadata: MetadataView,
    details: DetailsView,
) -> Map<Seq<char>, Seq<char>> {
    Map::<Seq<char>, Seq<char>>::empty().insert("adapter"@, "socketcan"@).insert(
        "interface"@,
        interface,
    ).insert("virtual"@, text::bool_text(metadata.virtual_interface)).insert(
        "link_state"@,
        if details.is_up {
            "up"@
        } else {
            "down"@
        },
    ).insert(
        "mode"@,
        if supports_fd(details) {
            "fd"@
        } else {
            "classic"@
        },
    )
}

/// The descriptor of an interface.
pub open spec fn descriptor_of(
    interface: Seq<char>,
    metadata: MetadataView,
    details: DetailsView,
) -> DescriptorView {
    DescriptorView {
        id: identity::identity_of(metadata).0,
        endpoint: interface,
        quality: identity::identity_of(metadata).1,
        transport: TransportKind::Can,
        properties: properties_of(interface, metadata, details),
        capabilities: capabilities_of(metadata, details),
    }
}

/// The error of a discovery that failed.
pub open spec fn discovery_failure(operation: Seq<char>, reason: Seq<char>) -> HalErrorView {
    HalErrorView::new(
        "runtime.transport.unavailable"@,
        ErrorCategory::Unavailable,
        operation,
        true,
        "SocketCAN discovery failed: "@ + reason,
    )
}

/// The error of a discovery that failed.
pub fn discovery_error(operation: &'static str, reason: &str) -> (error: HalError)
    ensures
        error@ == discovery_failure(operation@, reason@),
{
    let mut message = "SocketCAN discovery failed: ".to_owned();
    message.append(reason);
    HalError::new(
        "runtime.transport.unavailable",
        ErrorCategory::Unavailable,
        operation,
        true,
        message,
    )
}

/// The error of a system without SocketCAN.
pub fn unavailable(operation: &'static str) -> (error: HalError)
    ensures
        error@ == HalErrorView::new(
            "runtime.adapter.unavailable"@,
            ErrorCategory::Unavailable,
            operation@,
            false,
            "SocketCAN is only available on Linux"@,
        ),
{
    HalError::fixed(
        "runtime.adapter.unavailable",
        ErrorCategory::Unavailable,
        operation,
        false,
        "SocketCAN is only available on Linux",
    )
}

/// The error of a worker that did not finish.
pub fn join_error(operation: &'static str, reason: &str) -> (error: HalError)
    ensures
        error@ == HalErrorView::new(
            "runtime.internal.worker_failed"@,
            ErrorCategory::Internal,
            operation@,
            false,
            "SocketCAN blocking worker failed: "@ + reason@,
        ),
{
    let mut message = "SocketCAN blocking worker failed: ".to_owned();
    message.append(reason);
    HalError::new(
        "runtime.internal.worker_failed",
        ErrorCategory::Internal,
        operation,
        false,
        message,
    )
}

/// The descriptor of an interface, given what is known about its device and what the kernel
/// reports.
pub fn descriptor_from_interface(
    interface: &str,
    metadata: &CanInterfaceMetadata,
    details: Result<InterfaceDetails, String>,
) -> (result: HalResult<ResourceDescriptor>)
    ensures
        match details {
            Ok(details) => {
                &&& result is Ok
                &&& result->Ok_0@ == descriptor_of(interface@, metadata@, details@)
            },
            Err(reason) => result is Err && result->Err_0@ == discovery_failure(
                "can.enumerate"@,
                reason@,
            ),
        },
{
    let identity = identity_from_metadata(metadata)?;
    let details = match details {
        Ok(details) => details,
        Err(reason) => {
            return Err(discovery_error("can.enumerate", reason.as_str()));
        },
    };
    let (supports_fd, supports_configure) = capabilities_for_details(
        &details,
        !metadata.virtual_interface,
    );
    let mut capabilities: Vec<Capability> = Vec::new();
    capabilities.push(Capability::CanClassic);
    if supports_fd {
        capabilities.push(Capability::CanFd);
    }
    if supports_configure {
        capabilities.push(Capability::CanConfigure);
    }
    let mut properties = ResourceProperties::new();
    properties.insert_text("adapter", "socketcan");
    properties.insert_text("interface", interface);
    properties.insert_text("virtual", show_bool(metadata.virtual_interface));
    properties.insert_text(
        "link_state",
        if details.is_up {
            "up"
        } else {
            "down"
        },
    );
    properties.insert_text(
        "mode",
        if supports_fd {
            "fd"
        } else {
            "classic"
        },
    );
    proof {
        assert(capabilities@ =~= capabilities_of(metadata@, details@));
    }
    Ok(
        ResourceDescriptor {
            id: identity.id,
            endpoint: interface.to_owned(),
            quality: identity.quality,
            transport: TransportKind::Can,
            properties,
            capabilities,
        },
    )
}

/// The error of an interface that cannot be configured.
pub open spec fn not_configurable_error(id: Seq<char>) -> HalErrorView {
    HalErrorView::new(
        "runtime.protocol.capability_unsupported"@,
        ErrorCategory::Conflict,
        "can.configure"@,
        false,
        "SocketCAN configuration is unavailable for this interface"@,
    ).about(id)
}

impl SocketCanAdapter {
    /// The adapter.
    pub fn new() -> (adapter: Self)
        ensures
            adapter == SocketCanAdapter,
    {
        SocketCanAdapter
    }

    /// The name of the adapter.
    pub fn adapter_name(&self) -> (name: &'static str)
        ensures
            name@ == "socketcan"@,
    {
        "socketcan"
    }

    /// The position of the interface to open, given whether it is to be configured.
    pub fn select(
        &self,
        descriptors: &Vec<ResourceDescriptor>,
        id: &ResourceId,
        configure: bool,
    ) -> (result: HalResult<usize>)
        ensures
            match result {
                Ok(position) => {
                    &&& position < descriptors@.len()
                    &&& resource::matches_selector(
                        descriptors@[position as int]@,
                        id@,
                        Capability::CanClassic,
                    )
                    &&& configure ==> descriptors@[position as int]@.capabilities.contains(
                        Capability::CanConfigure,
                    )
                    &&& forall|i: int|
                        0 <= i < position ==> !resource::matches_selector(
                            #[trigger] descriptors@[i]@,
                            id@,
                            Capability::CanClassic,
                        )
                },
                Err(error) => {
                    ||| {
                        &&& error@ == resource::not_found_error("can.open"@, id@)
                        &&& forall|i: int|
                            0 <= i < descriptors@.len() ==> !resource::matches_selector(
                                #[trigger] descriptors@[i]@,
                                id@,
                                Capability::CanClassic,
                            )
                    }
                    ||| {
                        &&& error@ == not_configurable_error(id@)
                        &&& configure
                        &&& exists|i: int|
                            #![trigger descriptors@[i]]
                            {
                                &&& 0 <= i < descriptors@.len()
                                &&& resource::matches_selector(
                                    descriptors@[i]@,
                                    id@,
                                    Capability::CanClassic,
                                )
                                &&& !descriptors@[i]@.capabilities.contains(
                                    Capability::CanConfigure,
                                )
                                &&& forall|j: int|
                                    0 <= j < i ==> !resource::matches_selector(
                                        #[trigger] descriptors@[j]@,
                                        id@,
                                        Capability::CanClassic,
                                    )
                            }
                    }
                },
            },
    {
        let position = resolve_resource(descriptors, id, Capability::CanClassic, "can.open")?;
        if configure && !descriptors[position].supports(Capability::CanConfigure) {
            proof {
                let found = descriptors@[position as int];
                assert(resource::matches_selector(found@, id@, Capability::CanClassic));
            }
            return Err(
                HalError::fixed(
                    "runtime.protocol.capability_unsupported",
                    ErrorCategory::Conflict,
                    "can.configure",
                    false,
                    "SocketCAN configuration is unavailable for this interface",
                ).with_resource_id(descriptors[position].id.copy()),
            );
        }
        Ok(position)
    }
}

/// A virtual interface is never offered for configuration, and its identity is weak.
pub proof fn law_virtual_interfaces_are_not_configurable(
    interface: Seq<char>,
    metadata: MetadataView,
    details: DetailsView,
)
    requires
        metadata.virtual_interface,
    ensures
        !descriptor_of(interface, metadata, details).capabilities.contains(
            Capability::CanConfigure,
        ),
        descriptor_of(interface, metadata, details).quality
            == crate::resource::IdentityQuality::Weak,
        descriptor_of(interface, metadata, details).id == "can:endpoint:"@ + text::encoded_segment(
            metadata.interface,
        ),
{
}

/// An interface is offered under its name and its identity. It carries Classical frames, CAN FD
/// frames where they are active or the limits of their timing are known, and can be configured where
/// it is not virtual and the limits of its timing are known.
pub proof fn law_interface_is_offered_as_it_is(
    interface: Seq<char>,
    metadata: MetadataView,
    details: DetailsView,
)
    ensures
        ({
            let offered = descriptor_of(interface, metadata, details);
            let fd = link::fd_active(details) || details.can.data_bit_timing_const;
            &&& offered.id == identity::identity_of(metadata).0
            &&& offered.quality == identity::identity_of(metadata).1
            &&& offered.endpoint == interface
            &&& offered.transport == TransportKind::Can
            &&& offered.capabilities.contains(Capability::CanClassic)
            &&& offered.capabilities.contains(Capability::CanFd) <==> fd
            &&& offered.capabilities.contains(Capability::CanConfigure)
                <==> !metadata.virtual_interface && details.can.bit_timing_const
            &&& offered.properties["adapter"@] == "socketcan"@
            &&& offered.properties["interface"@] == interface
            &&& offered.properties["virtual"@] == if metadata.virtual_interface {
                "true"@
            } else {
                "false"@
            }
            &&& offered.properties["link_state"@] == if details.is_up {
                "up"@
            } else {
                "down"@
            }
            &&& offered.properties["mode"@] == if fd {
                "fd"@
            } else {
                "classic"@
            }
        }),
{
    reveal_strlit("adapter");
    reveal_strlit("interface");
    reveal_strlit("virtual");
    reveal_strlit("link_state");
    reveal_strlit("mode");
    assert("adapter"@.len() == 7);
    assert("interface"@.len() == 9);
    assert("virtual"@.len() == 7);
    assert("link_state"@.len() == 10);
    assert("mode"@.len() == 4);
    assert("virtual"@[0] == 'v' && "adapter"@[0] == 'a');
    assert("virtual"@ != "adapter"@);
    let offered = capabilities_of(metadata, details);
    assert(offered =~= seq![Capability::CanClassic] + (if supports_fd(details) {
        seq![Capability::CanFd]
    } else {
        seq![]
    }) + (if supports_configure(metadata, details) {
        seq![Capability::CanConfigure]
    } else {
        seq![]
    }));
    assert(offered[0] == Capability::CanClassic);
    if supports_fd(details) {
        assert(offered[1] == Capability::CanFd);
    }
    if supports_configure(metadata, details) {
        assert(offered.last() == Capability::CanConfigure);
    }
}

} // verus!
