//! Stable identities of CAN network interfaces.

use vstd::prelude::*;
use vstd::string::*;

use crate::error::HalResult;
use crate::resource::{IdentityQuality, ResourceId};
use crate::text;
use crate::text::{encode_segment, non_empty, same_text};

verus! {

/// What is known about an interface.
#[derive(Clone, Debug, PartialEq, Eq)]
pub struct CanInterfaceMetadata {
    pub interface: String,
    pub serial: Option<String>,
    pub stable_path: Option<String>,
    pub topology: Option<String>,
    pub virtual_interface: bool,
}

/// The identity of an interface.
#[derive(Clone, Debug, PartialEq, Eq)]
pub struct CanIdentity {
    pub id: ResourceId,
    pub quality: IdentityQuality,
}

/// The mathematical content of [`CanInterfaceMetadata`].
#[verifier::ext_equal]
pub struct MetadataView {
    pub interface: Seq<char>,
    pub serial: Option<Seq<char>>,
    pub stable_path: Option<Seq<char>>,
    pub topology: Option<Seq<char>>,
    pub virtual_interface: bool,
}

impl View for CanInterfaceMetadata {
    type V = MetadataView;

    open spec fn view(&self) -> MetadataView {
        MetadataView {
            interface: self.interface@,
            serial: text::optional_text(self.serial),
            stable_path: text::optional_text(self.stable_path),
            topology: text::optional_text(self.topology),
            virtual_interface: self.virtual_interface,
        }
    }
}

/// The text and the quality of an interface's identity: by the strongest evidence there is. Of a
/// virtual interface only the name counts.
pub open spec fn identity_of(metadata: MetadataView) -> (Seq<char>, IdentityQuality) {
    let endpoint = (
        "can:endpoint:"@ + text::encoded_segment(metadata.interface),
        IdentityQuality::Weak,
    );
    if metadata.virtual_interface {
        endpoint
    } else {
        match text::spec_non_empty(metadata.serial) {
            Some(serial) => ("can:serial:"@ + text::encoded_segment(serial), IdentityQuality::Strong),
            None => match text::spec_non_empty(metadata.stable_path) {
                Some(path) => ("can:path:"@ + text::encoded_segment(path), IdentityQuality::Medium),
                None => match text::spec_non_empty(metadata.topology) {
                    Some(topology) => (
                        "can:topology:"@ + text::encoded_segment(topology),
                        IdentityQuality::Medium,
                    ),
                    None => endpoint,
                },
            },
        }
    }
}

fn identity(prefix: &'static str, value: &str, quality: IdentityQuality) -> (identity: CanIdentity)
    ensures
        identity.id@ == prefix@ + text::encoded_segment(value@),
        identity.quality == quality,
{
    let mut id = prefix.to_owned();
    id.append(encode_segment(value).as_str());
    CanIdentity { id: ResourceId::new(id), quality }
}

/// The identity of an interface.
pub fn identity_from_metadata(metadata: &CanInterfaceMetadata) -> (result: HalResult<CanIdentity>)
    ensures
        result is Ok,
        (result->Ok_0.id@, result->Ok_0.quality) == identity_of(metadata@),
{
    if !metadata.virtual_interface {
        if let Some(serial) = non_empty(&metadata.serial) {
            return Ok(identity("can:serial:", serial, IdentityQuality::Strong));
        }
        if let Some(path) = non_empty(&metadata.stable_path) {
            return Ok(identity("can:path:", path, IdentityQuality::Medium));
        }
        if let Some(topology) = non_empty(&metadata.topology) {
            return Ok(identity("can:topology:", topology, IdentityQuality::Medium));
        }
    }
    Ok(identity("can:endpoint:", metadata.interface.as_str(), IdentityQuality::Weak))
}

/// The evidence that an identity rests on: its kind, and what it says.
pub open spec fn evidence_of(metadata: MetadataView) -> (Seq<char>, Seq<char>) {
    let endpoint = ("can:endpoint:"@, metadata.interface);
    if metadata.virtual_interface {
        endpoint
    } else {
        match text::spec_non_empty(metadata.serial) {
            Some(serial) => ("can:serial:"@, serial),
            None => match text::spec_non_empty(metadata.stable_path) {
                Some(path) => ("can:path:"@, path),
                None => match text::spec_non_empty(metadata.topology) {
                    Some(topology) => ("can:topology:"@, topology),
                    None => endpoint,
                },
            },
        }
    }
}

/// Interfaces have the same identity only where it rests on the same evidence.
pub proof fn law_identities_are_distinct(a: MetadataView, b: MetadataView)
    requires
        identity_of(a).0 == identity_of(b).0,
    ensures
        evidence_of(a) == evidence_of(b),
{
    reveal_strlit("can:endpoint:");
    reveal_strlit("can:serial:");
    reveal_strlit("can:path:");
    reveal_strlit("can:topology:");
    let (start_a, value_a) = evidence_of(a);
    let (start_b, value_b) = evidence_of(b);
    let id_a = identity_of(a).0;
    let id_b = identity_of(b).0;
    assert(id_a == start_a + text::encoded_segment(value_a));
    assert(id_b == start_b + text::encoded_segment(value_b));
    assert(id_a[4] == start_a[4] && id_b[4] == start_b[4]);
    assert(start_a == start_b);
    text::lemma_same_start(
        start_a,
        text::encoded_segment(value_a),
        text::encoded_segment(value_b),
    );
    text::law_encodings_are_distinct(value_a, value_b);
}

/// What the system's files say of an interface; what could not be read is absent. Paths are
/// canonical.
#[derive(Clone, Debug, PartialEq, Eq)]
pub struct SysfsReport {
    /// The serial number of the device.
    pub serial: Option<String>,
    /// Where the device is.
    pub device_path: Option<String>,
    /// Where the device is plugged in.
    pub topology: Option<String>,
    /// Where the interface is.
    pub network_path: Option<String>,
}

/// A path of something that is not hardware.
pub open spec fn virtual_path(path: Seq<char>) -> bool {
    path == "/sys/devices/virtual"@ || "/sys/devices/virtual/"@.is_prefix_of(path)
}

/// Whether a path is that of something that is not hardware.
pub fn is_virtual_path(path: &str) -> (is_virtual: bool)
    ensures
        is_virtual == virtual_path(path@),
{
    proof {
        reveal_strlit("/sys/devices/virtual/");
    }
    if same_text(path, "/sys/devices/virtual") {
        return true;
    }
    if path.unicode_len() < 21 {
        return false;
    }
    proof {
        assert("/sys/devices/virtual/"@.is_prefix_of(path@) == (path@.subrange(0, 21)
            == "/sys/devices/virtual/"@));
    }
    same_text(path.substring_char(0, 21), "/sys/devices/virtual/")
}

/// What the system's files say of an interface, as evidence of its identity. A device that is not
/// hardware has no stable path.
pub open spec fn evidence_in(
    interface: Seq<char>,
    serial: Option<Seq<char>>,
    device_path: Option<Seq<char>>,
    topology: Option<Seq<char>>,
    network_path: Option<Seq<char>>,
) -> MetadataView {
    MetadataView {
        interface,
        serial: text::spec_non_empty(serial),
        stable_path: match device_path {
            Some(path) => if virtual_path(path) {
                None
            } else {
                Some(path)
            },
            None => None,
        },
        topology: text::spec_non_empty(topology),
        virtual_interface: network_path is Some && virtual_path(network_path->0),
    }
}

fn owned(value: Option<&str>) -> (owned: Option<String>)
    ensures
        match value {
            Some(value) => text::optional_text(owned) == Some(value@),
            None => owned is None,
        },
{
    match value {
        Some(value) => Some(value.to_owned()),
        None => None,
    }
}

/// What the system's files say of an interface, as evidence of its identity.
pub fn metadata_from_sysfs(interface: &str, report: &SysfsReport) -> (metadata: CanInterfaceMetadata)
    ensures
        metadata@ == evidence_in(
            interface@,
            text::optional_text(report.serial),
            text::optional_text(report.device_path),
            text::optional_text(report.topology),
            text::optional_text(report.network_path),
        ),
{
    let stable_path = match &report.device_path {
        Some(path) => {
            if is_virtual_path(path.as_str()) {
                None
            } else {
                Some(path.as_str().to_owned())
            }
        },
        None => None,
    };
    let virtual_interface = match &report.network_path {
        Some(path) => is_virtual_path(path.as_str()),
        None => false,
    };
    CanInterfaceMetadata {
        interface: interface.to_owned(),
        serial: owned(non_empty(&report.serial)),
        stable_path,
        topology: owned(non_empty(&report.topology)),
        virtual_interface,
    }
}

/// An identity rests on the serial number where there is one, else on the stable path, else on the
/// topology, else on the name; a virtual interface has only its name. The stronger the evidence, the
/// better the quality.
pub proof fn law_identity_rests_on_the_strongest_evidence(metadata: MetadataView)
    ensures
        ({
            let (id, quality) = identity_of(metadata);
            let serial = text::spec_non_empty(metadata.serial);
            let path = text::spec_non_empty(metadata.stable_path);
            let topology = text::spec_non_empty(metadata.topology);
            let named = metadata.virtual_interface || (serial is None && path is None && topology is None);
            &&& named ==> quality == IdentityQuality::Weak && id == "can:endpoint:"@
                + text::encoded_segment(metadata.interface)
            &&& !named && serial is Some ==> quality == IdentityQuality::Strong && id == "can:serial:"@
                + text::encoded_segment(serial->0)
            &&& !named && serial is None && path is Some ==> quality == IdentityQuality::Medium && id
                == "can:path:"@ + text::encoded_segment(path->0)
            &&& !named && serial is None && path is None ==> quality == IdentityQuality::Medium && id
                == "can:topology:"@ + text::encoded_segment(topology->0)
        }),
{
}

/// What counts as evidence of an interface's identity: its serial number and its topology without
/// white space around them, and the path of its device unless that is one of something that is not
/// hardware. An interface is virtual exactly where its own path is such a path.
pub proof fn law_virtual_paths_are_no_evidence(
    interface: Seq<char>,
    serial: Option<Seq<char>>,
    device_path: Option<Seq<char>>,
    topology: Option<Seq<char>>,
    network_path: Option<Seq<char>>,
)
    ensures
        ({
            let found = evidence_in(interface, serial, device_path, topology, network_path);
            let start = "/sys/devices/virtual"@;
            &&& found.interface == interface
            &&& found.serial == text::spec_non_empty(serial)
            &&& found.topology == text::spec_non_empty(topology)
            &&& found.stable_path is Some ==> found.stable_path == device_path
            &&& found.stable_path is None && device_path is Some ==> start.is_prefix_of(
                device_path->0,
            )
            &&& device_path is Some && device_path->0 == start ==> found.stable_path is None
            &&& found.virtual_interface ==> network_path is Some && start.is_prefix_of(
                network_path->0,
            )
            &&& network_path is Some && "/sys/devices/virtual/"@.is_prefix_of(network_path->0)
                ==> found.virtual_interface
            &&& network_path is None ==> !found.virtual_interface
        }),
{
    reveal_strlit("/sys/devices/virtual");
    reveal_strlit("/sys/devices/virtual/");
    let start = "/sys/devices/virtual"@;
    let longer = "/sys/devices/virtual/"@;
    assert(longer.subrange(0, start.len() as int) =~= start);
    assert forall|path: Seq<char>| #[trigger] longer.is_prefix_of(path) implies start.is_prefix_of(
        path,
    ) by {
        assert(path.subrange(0, start.len() as int) =~= longer.subrange(0, start.len() as int));
    }
    assert(start.is_prefix_of(start)) by {
        assert(start.subrange(0, start.len() as int) =~= start);
    }
}

/// The content of what is known about an interface is what the fields hold.
pub proof fn law_metadata_is_what_it_holds(metadata: CanInterfaceMetadata)
    ensures
        metadata@.interface == metadata.interface@,
        metadata@.serial == text::optional_text(metadata.serial),
        metadata@.stable_path == text::optional_text(metadata.stable_path),
        metadata@.topology == text::optional_text(metadata.topology),
        metadata@.virtual_interface == metadata.virtual_interface,
{
}

} // verus!
