//! Resource identities, descriptors and selection.

use vstd::prelude::*;

use crate::error::{ErrorCategory, HalError, HalErrorView, HalResult};
use crate::text::same_text;

verus! {

/// The stable identity of a hardware resource.
#[derive(Clone, Debug, PartialEq, Eq)]
pub struct ResourceId {
    text: String,
}

impl View for ResourceId {
    type V = Seq<char>;

    closed spec fn view(&self) -> Seq<char> {
        self.text@
    }
}

impl ResourceId {
    /// The identity with the given text. Which texts the runtime around the library refuses as
    /// identities is not known here; every text is assumed to be one.
    pub fn new(text: String) -> (id: ResourceId)
        ensures
            id@ == text@,
    {
        ResourceId { text }
    }

    /// The text of the identity.
    pub fn as_str(&self) -> (text: &str)
        ensures
            text@ == self@,
    {
        self.text.as_str()
    }

    /// A second value with the same text.
    pub fn copy(&self) -> (id: ResourceId)
        ensures
            id@ == self@,
    {
        ResourceId { text: self.text.clone() }
    }

    /// Whether two identities have the same text.
    pub fn same(&self, other: &ResourceId) -> (same: bool)
        ensures
            same == (self@ == other@),
    {
        same_text(self.text.as_str(), other.text.as_str())
    }
}

/// How far an identity survives replugging and renumbering.
#[derive(Clone, Copy, Debug, PartialEq, Eq, Structural)]
pub enum IdentityQuality {
    Weak,
    Medium,
    Strong,
}

/// The hardware class of a resource.
#[derive(Clone, Copy, Debug, PartialEq, Eq, Structural)]
pub enum TransportKind {
    Serial,
    Can,
    Usb,
    Gpio,
    Camera,
}

/// What a resource can do.
#[derive(Clone, Copy, Debug, PartialEq, Eq, Structural)]
pub enum Capability {
    CanClassic,
    CanFd,
    CanConfigure,
    CanErrorFrames,
    CanRxTimestamp,
    UsbControl,
    UsbBulk,
    UsbInterrupt,
    GpioLines,
    GpioEdges,
    CameraCapture,
    CameraFramesShm,
}

/// Properties of a resource: a map from key to value.
#[derive(Debug, PartialEq, Eq)]
pub struct ResourceProperties {
    entries: Vec<(String, String)>,
}

impl ResourceProperties {
    /// No key occurs twice.
    #[verifier::type_invariant]
    closed spec fn wf(self) -> bool {
        forall|i: int, j: int|
            0 <= i < j < self.entries@.len() ==> #[trigger] self.entries@[i].0@
                != #[trigger] self.entries@[j].0@
    }

    /// Whether `key` stands at position `i`.
    closed spec fn key_at(self, i: int, key: Seq<char>) -> bool {
        0 <= i < self.entries@.len() && self.entries@[i].0@ == key
    }
}

impl View for ResourceProperties {
    type V = Map<Seq<char>, Seq<char>>;

    closed spec fn view(&self) -> Map<Seq<char>, Seq<char>> {
        Map::new(
            |key: Seq<char>| exists|i: int| self.key_at(i, key),
            |key: Seq<char>| self.entries@[choose|i: int| self.key_at(i, key)].1@,
        )
    }
}

impl Clone for ResourceProperties {
    fn clone(&self) -> (properties: Self)
        ensures
            properties@ == self@,
    {
        proof {
            use_type_invariant(self);
        }
        let mut entries: Vec<(String, String)> = Vec::new();
        let mut index: usize = 0;
        while index < self.entries.len()
            invariant
                index <= self.entries@.len(),
                entries@.len() == index,
                forall|i: int|
                    0 <= i < index ==> (#[trigger] entries@[i]).0@ == self.entries@[i].0@
                        && entries@[i].1@ == self.entries@[i].1@,
            decreases self.entries@.len() - index,
        {
            entries.push((self.entries[index].0.clone(), self.entries[index].1.clone()));
            index += 1;
        }
        let ghost copied = ResourceProperties { entries };
        proof {
            assert(copied.wf());
            assert forall|key: Seq<char>| copied@.dom().contains(key) == self@.dom().contains(
                key,
            ) by {
                if copied@.dom().contains(key) {
                    let i = choose|i: int| copied.key_at(i, key);
                    assert(self.key_at(i, key));
                }
                if self@.dom().contains(key) {
                    let i = choose|i: int| self.key_at(i, key);
                    assert(copied.key_at(i, key));
                }
            }
            assert forall|key: Seq<char>| copied@.dom().contains(key) implies copied@[key]
                == self@[key] by {
                let i = choose|i: int| copied.key_at(i, key);
                copied.lemma_value(i);
                self.lemma_value(i);
            }
            assert(copied@ =~= self@);
        }
        ResourceProperties { entries }
    }
}

impl ResourceProperties {
    /// No properties.
    pub fn new() -> (properties: ResourceProperties)
        ensures
            properties@ == Map::<Seq<char>, Seq<char>>::empty(),
    {
        let properties = ResourceProperties { entries: Vec::new() };
        proof {
            assert(properties@ =~= Map::<Seq<char>, Seq<char>>::empty());
        }
        properties
    }

    proof fn lemma_value(self, i: int)
        requires
            self.wf(),
            0 <= i < self.entries@.len(),
        ensures
            self@.dom().contains(self.entries@[i].0@),
            self@[self.entries@[i].0@] == self.entries@[i].1@,
    {
        let key = self.entries@[i].0@;
        assert(self.key_at(i, key));
        let chosen = choose|j: int| self.key_at(j, key);
        assert(self.key_at(chosen, key));
        assert(chosen == i);
    }

    fn position(&self, key: &str) -> (position: Option<usize>)
        ensures
            match position {
                Some(i) => self.key_at(i as int, key@),
                None => !self@.dom().contains(key@),
            },
    {
        let mut index: usize = 0;
        while index < self.entries.len()
            invariant
                index <= self.entries@.len(),
                forall|i: int| 0 <= i < index ==> #[trigger] self.entries@[i].0@ != key@,
            decreases self.entries@.len() - index,
        {
            if same_text(self.entries[index].0.as_str(), key) {
                return Some(index);
            }
            index += 1;
        }
        None
    }

    /// Sets the value of a key.
    pub fn insert(&mut self, key: &str, value: String)
        ensures
            final(self)@ == old(self)@.insert(key@, value@),
    {
        proof {
            use_type_invariant(&*self);
        }
        let ghost before = *self;
        let position = self.position(key);
        let mut entries: Vec<(String, String)> = Vec::new();
        std::mem::swap(&mut entries, &mut self.entries);
        match position {
            Some(index) => {
                entries.set(index, (key.to_owned(), value));
                let ghost after = ResourceProperties { entries };
                proof {
                    assert(after.wf());
                    assert(after@ =~= before@.insert(key@, value@)) by {
                        assert forall|k: Seq<char>|
                            after@.dom().contains(k) == before@.insert(
                                key@,
                                value@,
                            ).dom().contains(k) by {
                            if after@.dom().contains(k) {
                                let i = choose|i: int| after.key_at(i, k);
                                assert(before.key_at(i, k));
                            }
                            if before@.insert(key@, value@).dom().contains(k) {
                                if k == key@ {
                                    assert(after.key_at(index as int, k));
                                } else {
                                    let i = choose|i: int| before.key_at(i, k);
                                    assert(after.key_at(i, k));
                                }
                            }
                        }
                        assert forall|k: Seq<char>| after@.dom().contains(k) implies after@[k]
                            == before@.insert(key@, value@)[k] by {
                            let i = choose|i: int| after.key_at(i, k);
                            after.lemma_value(i);
                            before.lemma_value(i);
                        }
                    }
                }
            },
            None => {
                entries.push((key.to_owned(), value));
                let ghost after = ResourceProperties { entries };
                proof {
                    let last = before.entries@.len() as int;
                    assert(forall|i: int|
                        0 <= i < last ==> #[trigger] after.entries@[i] == before.entries@[i]);
                    assert(after.wf()) by {
                        assert forall|i: int, j: int|
                            0 <= i < j < after.entries@.len() implies #[trigger] after.entries@[i].0@
                            != #[trigger] after.entries@[j].0@ by {
                            if j == last {
                                before.lemma_value(i);
                            }
                        }
                    }
                    assert(after@ =~= before@.insert(key@, value@)) by {
                        assert forall|k: Seq<char>|
                            after@.dom().contains(k) == before@.insert(
                                key@,
                                value@,
                            ).dom().contains(k) by {
                            if after@.dom().contains(k) {
                                let i = choose|i: int| after.key_at(i, k);
                                if i < last {
                                    assert(before.key_at(i, k));
                                }
                            }
                            if before@.insert(key@, value@).dom().contains(k) {
                                if k == key@ {
                                    assert(after.key_at(last, k));
                                } else {
                                    let i = choose|i: int| before.key_at(i, k);
                                    assert(after.key_at(i, k));
                                }
                            }
                        }
                        assert forall|k: Seq<char>| after@.dom().contains(k) implies after@[k]
                            == before@.insert(key@, value@)[k] by {
                            let i = choose|i: int| after.key_at(i, k);
                            after.lemma_value(i);
                            if i < last {
                                before.lemma_value(i);
                            }
                        }
                    }
                }
            },
        }
        self.entries = entries;
    }

    /// Sets the value of a key to a fixed text.
    pub fn insert_text(&mut self, key: &str, value: &str)
        ensures
            final(self)@ == old(self)@.insert(key@, value@),
    {
        self.insert(key, value.to_owned());
    }

    /// The value of a key.
    pub fn get(&self, key: &str) -> (value: Option<&str>)
        ensures
            match value {
                Some(value) => self@.dom().contains(key@) && self@[key@] == value@,
                None => !self@.dom().contains(key@),
            },
    {
        match self.position(key) {
            Some(index) => {
                proof {
                    use_type_invariant(self);
                    self.lemma_value(index as int);
                }
                Some(self.entries[index].1.as_str())
            },
            None => None,
        }
    }
}

/// A discovered resource.
#[derive(Clone, Debug, PartialEq, Eq)]
pub struct ResourceDescriptor {
    pub id: ResourceId,
    pub endpoint: String,
    pub quality: IdentityQuality,
    pub transport: TransportKind,
    pub properties: ResourceProperties,
    pub capabilities: Vec<Capability>,
}

/// The mathematical content of a [`ResourceDescriptor`].
#[verifier::ext_equal]
pub struct DescriptorView {
    pub id: Seq<char>,
    pub endpoint: Seq<char>,
    pub quality: IdentityQuality,
    pub transport: TransportKind,
    pub properties: Map<Seq<char>, Seq<char>>,
    pub capabilities: Seq<Capability>,
}

impl View for ResourceDescriptor {
    type V = DescriptorView;

    open spec fn view(&self) -> DescriptorView {
        DescriptorView {
            id: self.id@,
            endpoint: self.endpoint@,
            quality: self.quality,
            transport: self.transport,
            properties: self.properties@,
            capabilities: self.capabilities@,
        }
    }
}

impl ResourceDescriptor {
    /// The identity.
    pub fn id(&self) -> (id: &ResourceId)
        ensures
            id@ == self@.id,
    {
        &self.id
    }

    /// Whether the resource has a capability.
    pub fn supports(&self, capability: Capability) -> (found: bool)
        ensures
            found == self@.capabilities.contains(capability),
    {
        let mut index: usize = 0;
        while index < self.capabilities.len()
            invariant
                index <= self.capabilities@.len(),
                forall|i: int| 0 <= i < index ==> self.capabilities@[i] != capability,
            decreases self.capabilities@.len() - index,
        {
            if self.capabilities[index] == capability {
                proof {
                    assert(self@.capabilities[index as int] == capability);
                }
                return true;
            }
            index += 1;
        }
        false
    }
}

/// The contents of a list of descriptors.
pub open spec fn descriptor_views(descriptors: Seq<ResourceDescriptor>) -> Seq<DescriptorView> {
    descriptors.map(|i: int, descriptor: ResourceDescriptor| descriptor@)
}

/// A descriptor that a selector with the identity and the wanted capability matches.
pub open spec fn matches_selector(
    descriptor: DescriptorView,
    id: Seq<char>,
    capability: Capability,
) -> bool {
    descriptor.id == id && descriptor.capabilities.contains(capability)
}

/// The error of a selector that matches no discovered resource.
pub open spec fn not_found_error(operation: Seq<char>, id: Seq<char>) -> HalErrorView {
    HalErrorView::new(
        "runtime.resource.not_found"@,
        ErrorCategory::NotFound,
        operation,
        false,
        "selector did not match a discovered resource"@,
    ).about(id)
}

/// The position of the first descriptor that a selector matches. How the runtime around the library
/// resolves selectors is not known here. Assumed is that the identity and the wanted capability
/// decide, and the quality of the identity and the transport do not, that the first match is taken,
/// and that the error is [`not_found_error`].
pub fn resolve_resource(
    descriptors: &Vec<ResourceDescriptor>,
    id: &ResourceId,
    capability: Capability,
    operation: &'static str,
) -> (result: HalResult<usize>)
    ensures
        match result {
            Ok(position) => {
                &&& position < descriptors@.len()
                &&& descriptors@[position as int]@.id == id@
                &&& descriptors@[position as int]@.capabilities.contains(capability)
                &&& matches_selector(descriptors@[position as int]@, id@, capability)
                &&& forall|i: int|
                    0 <= i < position ==> !matches_selector(
                        #[trigger] descriptors@[i]@,
                        id@,
                        capability,
                    )
            },
            Err(error) => {
                &&& error@ == not_found_error(operation@, id@)
                &&& forall|i: int|
                    0 <= i < descriptors@.len() ==> !matches_selector(
                        #[trigger] descriptors@[i]@,
                        id@,
                        capability,
                    )
            },
        },
{
    let mut index: usize = 0;
    while index < descriptors.len()
        invariant
            index <= descriptors@.len(),
            forall|i: int|
                0 <= i < index ==> !matches_selector(
                    #[trigger] descriptors@[i]@,
                    id@,
                    capability,
                ),
        decreases descriptors@.len() - index,
    {
        if descriptors[index].id.same(id) && descriptors[index].supports(capability) {
            return Ok(index);
        }
        index += 1;
    }
    Err(
        HalError::fixed(
            "runtime.resource.not_found",
            ErrorCategory::NotFound,
            operation,
            false,
            "selector did not match a discovered resource",
        ).with_resource_id(id.copy()),
    )
}

/// The position of the first descriptor with an endpoint.
pub fn endpoint_position(descriptors: &Vec<ResourceDescriptor>, endpoint: &str) -> (position: Option<
    usize,
>)
    ensures
        match position {
            Some(position) => {
                &&& position < descriptors@.len()
                &&& descriptors@[position as int]@.endpoint == endpoint@
                &&& forall|i: int|
                    0 <= i < position ==> (#[trigger] descriptors@[i])@.endpoint != endpoint@
            },
            None => forall|i: int|
                0 <= i < descriptors@.len() ==> (#[trigger] descriptors@[i])@.endpoint != endpoint@,
        },
{
    let mut index: usize = 0;
    while index < descriptors.len()
        invariant
            index <= descriptors@.len(),
            forall|i: int|
                0 <= i < index ==> (#[trigger] descriptors@[i])@.endpoint != endpoint@,
        decreases descriptors@.len() - index,
    {
        if same_text(descriptors[index].endpoint.as_str(), endpoint) {
            return Some(index);
        }
        index += 1;
    }
    None
}

/// A selector matches a resource exactly where the identity is the same and the wanted capability is
/// among those of the resource.
pub proof fn law_selectors_match_identity_and_capability(
    descriptor: DescriptorView,
    id: Seq<char>,
    capability: Capability,
)
    ensures
        matches_selector(descriptor, id, capability) ==> descriptor.id == id && exists|i: int|
            0 <= i < descriptor.capabilities.len() && (#[trigger] descriptor.capabilities[i])
                == capability,
        descriptor.id == id && (exists|i: int|
            0 <= i < descriptor.capabilities.len() && (#[trigger] descriptor.capabilities[i])
                == capability) ==> matches_selector(descriptor, id, capability),
{
}

/// The content of a descriptor is what its fields hold.
pub proof fn law_descriptors_are_what_they_hold(descriptor: ResourceDescriptor)
    ensures
        descriptor@.id == descriptor.id@,
        descriptor@.endpoint == descriptor.endpoint@,
        descriptor@.quality == descriptor.quality,
        descriptor@.transport == descriptor.transport,
        descriptor@.properties == descriptor.properties@,
        descriptor@.capabilities == descriptor.capabilities@,
{
}

/// A resource that is not there is told so, about its identity, and is not worth another try.
pub proof fn law_missing_resources_are_told(operation: Seq<char>, id: Seq<char>)
    ensures
        not_found_error(operation, id).name == "runtime.resource.not_found"@,
        not_found_error(operation, id).category == ErrorCategory::NotFound,
        not_found_error(operation, id).operation == operation,
        not_found_error(operation, id).resource_id == Some(id),
        !not_found_error(operation, id).retryable,
{
}

} // verus!
