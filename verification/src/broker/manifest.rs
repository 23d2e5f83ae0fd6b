//! What a broker says of itself: its version, its wire protocol, its target and its adapters.

use vstd::prelude::*;

use crate::shared_memory::mapping;
use crate::shared_memory::mapping::digest;
use crate::text;
use crate::text::push_byte_hex;

verus! {

/// The releases of the broker.
#[derive(Clone, Copy, Debug, PartialEq, Eq, Structural)]
pub enum BrokerRelease {
    /// Version 0.2.0: no cameras and no schema in the manifest.
    First,
    /// Version 0.5.0-rc.1.
    Current,
}

/// The operating systems that make a difference.
#[derive(Clone, Copy, Debug, PartialEq, Eq, Structural)]
pub enum TargetOs {
    Linux,
    Macos,
    Windows,
    Other,
}

/// The features that a broker is built with.
#[derive(Clone, Copy, Debug, PartialEq, Eq, Structural)]
pub struct BrokerFeatures {
    pub serialport: bool,
    pub pcan: bool,
    pub socketcan: bool,
    pub nusb: bool,
    pub linux_gpio: bool,
    pub windows_gpio: bool,
    pub avfoundation: bool,
    pub v4l2: bool,
    pub mediafoundation: bool,
    pub virtual_adapters: bool,
}

impl BrokerFeatures {
    /// A feature that needs an operating system and real hardware takes effect.
    pub open spec fn native(self, release: BrokerRelease, feature: bool, suited: bool) -> bool {
        release == BrokerRelease::Current && feature && suited && !self.virtual_adapters
    }
}

/// A name, and whether it is in a list.
pub struct Entry {
    pub name: Seq<char>,
    pub listed: bool,
}

/// The names that are listed, in order.
pub open spec fn listed(entries: Seq<Entry>) -> Seq<Seq<char>>
    decreases entries.len(),
{
    if entries.len() == 0 {
        Seq::empty()
    } else if entries.last().listed {
        listed(entries.drop_last()).push(entries.last().name)
    } else {
        listed(entries.drop_last())
    }
}

/// The contents of a list of names.
pub open spec fn names(list: Seq<&'static str>) -> Seq<Seq<char>> {
    list.map(|i: int, name: &'static str| name@)
}

/// Every adapter in order of its name, and whether the broker has it. The serial port adapter is
/// always there.
pub open spec fn adapter_entries(
    release: BrokerRelease,
    features: BrokerFeatures,
    os: TargetOs,
) -> Seq<Entry> {
    let current = release == BrokerRelease::Current;
    seq![
        Entry {
            name: "avfoundation"@,
            listed: features.native(release, features.avfoundation, os == TargetOs::Macos),
        },
        Entry {
            name: "linux-gpio"@,
            listed: features.native(release, features.linux_gpio, os == TargetOs::Linux),
        },
        Entry {
            name: "mediafoundation"@,
            listed: features.native(release, features.mediafoundation, os == TargetOs::Windows),
        },
        Entry { name: "nusb"@, listed: features.native(release, features.nusb, true) },
        Entry { name: "pcan"@, listed: features.pcan },
        Entry { name: "serialport"@, listed: true },
        Entry { name: "socketcan"@, listed: features.socketcan },
        Entry {
            name: "v4l2"@,
            listed: features.native(release, features.v4l2, os == TargetOs::Linux),
        },
        Entry { name: "virtual-camera"@, listed: current && features.virtual_adapters },
        Entry { name: "virtual-can"@, listed: features.virtual_adapters },
        Entry { name: "virtual-gpio"@, listed: features.virtual_adapters },
        Entry { name: "virtual-serial"@, listed: features.virtual_adapters },
        Entry { name: "virtual-usb"@, listed: features.virtual_adapters },
        Entry {
            name: "windows-gpio"@,
            listed: features.native(release, features.windows_gpio, os == TargetOs::Windows),
        },
    ]
}

/// Every feature in order of its name, and whether it took effect.
pub open spec fn feature_entries(
    release: BrokerRelease,
    features: BrokerFeatures,
    os: TargetOs,
) -> Seq<Entry> {
    let current = release == BrokerRelease::Current;
    seq![
        Entry {
            name: "avfoundation"@,
            listed: features.native(release, features.avfoundation, os == TargetOs::Macos),
        },
        Entry {
            name: "linux-gpio"@,
            listed: features.native(release, features.linux_gpio, os == TargetOs::Linux),
        },
        Entry {
            name: "mediafoundation"@,
            listed: features.native(release, features.mediafoundation, os == TargetOs::Windows),
        },
        Entry { name: "nusb"@, listed: features.native(release, features.nusb, true) },
        Entry { name: "pcan"@, listed: features.pcan },
        Entry { name: "serialport"@, listed: current && features.serialport },
        Entry { name: "socketcan"@, listed: features.socketcan },
        Entry {
            name: "v4l2"@,
            listed: features.native(release, features.v4l2, os == TargetOs::Linux),
        },
        Entry { name: "virtual-adapters"@, listed: features.virtual_adapters },
        Entry {
            name: "windows-gpio"@,
            listed: features.native(release, features.windows_gpio, os == TargetOs::Windows),
        },
    ]
}

fn push_listed(
    list: &mut Vec<&'static str>,
    name: &'static str,
    is_listed: bool,
    Ghost(entries): Ghost<Seq<Entry>>,
    Ghost(done): Ghost<int>,
)
    requires
        0 <= done < entries.len(),
        entries[done] == (Entry { name: name@, listed: is_listed }),
        names(old(list)@) == listed(entries.take(done)),
    ensures
        names(final(list)@) == listed(entries.take(done + 1)),
{
    proof {
        assert(entries.take(done + 1).drop_last() =~= entries.take(done));
    }
    if is_listed {
        list.push(name);
        proof {
            assert(names(list@) =~= names(old(list)@).push(name@));
        }
    }
}

/// The adapters of a broker, in order of their names.
pub fn enabled_adapters(
    release: BrokerRelease,
    features: &BrokerFeatures,
    os: TargetOs,
) -> (adapters: Vec<&'static str>)
    ensures
        names(adapters@) == listed(adapter_entries(release, *features, os)),
{
    let ghost entries = adapter_entries(release, *features, os);
    let mut list: Vec<&'static str> = Vec::new();
    let current = release == BrokerRelease::Current;
    let native = current && !features.virtual_adapters;
    let linux = os == TargetOs::Linux;
    let macos = os == TargetOs::Macos;
    let windows = os == TargetOs::Windows;
    let simulated = features.virtual_adapters;
    proof {
        assert(names(list@) =~= listed(entries.take(0)));
    }
    push_listed(
        &mut list,
        "avfoundation",
        native && features.avfoundation && macos,
        Ghost(entries),
        Ghost(0),
    );
    push_listed(
        &mut list,
        "linux-gpio",
        native && features.linux_gpio && linux,
        Ghost(entries),
        Ghost(1),
    );
    push_listed(
        &mut list,
        "mediafoundation",
        native && features.mediafoundation && windows,
        Ghost(entries),
        Ghost(2),
    );
    push_listed(&mut list, "nusb", native && features.nusb, Ghost(entries), Ghost(3));
    push_listed(&mut list, "pcan", features.pcan, Ghost(entries), Ghost(4));
    push_listed(&mut list, "serialport", true, Ghost(entries), Ghost(5));
    push_listed(&mut list, "socketcan", features.socketcan, Ghost(entries), Ghost(6));
    push_listed(&mut list, "v4l2", native && features.v4l2 && linux, Ghost(entries), Ghost(7));
    push_listed(&mut list, "virtual-camera", current && simulated, Ghost(entries), Ghost(8));
    push_listed(&mut list, "virtual-can", simulated, Ghost(entries), Ghost(9));
    push_listed(&mut list, "virtual-gpio", simulated, Ghost(entries), Ghost(10));
    push_listed(&mut list, "virtual-serial", simulated, Ghost(entries), Ghost(11));
    push_listed(&mut list, "virtual-usb", simulated, Ghost(entries), Ghost(12));
    push_listed(
        &mut list,
        "windows-gpio",
        native && features.windows_gpio && windows,
        Ghost(entries),
        Ghost(13),
    );
    proof {
        assert(entries.take(14) =~= entries);
    }
    list
}

/// The features that took effect, in order of their names.
pub fn enabled_features(
    release: BrokerRelease,
    features: &BrokerFeatures,
    os: TargetOs,
) -> (enabled: Vec<&'static str>)
    ensures
        names(enabled@) == listed(feature_entries(release, *features, os)),
{
    let ghost entries = feature_entries(release, *features, os);
    let mut list: Vec<&'static str> = Vec::new();
    let current = release == BrokerRelease::Current;
    let native = current && !features.virtual_adapters;
    let linux = os == TargetOs::Linux;
    let macos = os == TargetOs::Macos;
    let windows = os == TargetOs::Windows;
    proof {
        assert(names(list@) =~= listed(entries.take(0)));
    }
    push_listed(
        &mut list,
        "avfoundation",
        native && features.avfoundation && macos,
        Ghost(entries),
        Ghost(0),
    );
    push_listed(
        &mut list,
        "linux-gpio",
        native && features.linux_gpio && linux,
        Ghost(entries),
        Ghost(1),
    );
    push_listed(
        &mut list,
        "mediafoundation",
        native && features.mediafoundation && windows,
        Ghost(entries),
        Ghost(2),
    );
    push_listed(&mut list, "nusb", native && features.nusb, Ghost(entries), Ghost(3));
    push_listed(&mut list, "pcan", features.pcan, Ghost(entries), Ghost(4));
    push_listed(
        &mut list,
        "serialport",
        current && features.serialport,
        Ghost(entries),
        Ghost(5),
    );
    push_listed(&mut list, "socketcan", features.socketcan, Ghost(entries), Ghost(6));
    push_listed(&mut list, "v4l2", native && features.v4l2 && linux, Ghost(entries), Ghost(7));
    push_listed(
        &mut list,
        "virtual-adapters",
        features.virtual_adapters,
        Ghost(entries),
        Ghost(8),
    );
    push_listed(
        &mut list,
        "windows-gpio",
        native && features.windows_gpio && windows,
        Ghost(entries),
        Ghost(9),
    );
    proof {
        assert(entries.take(10) =~= entries);
    }
    list
}

/// The libraries of vendors that have to be installed.
pub fn required_vendor_runtime_libraries(features: &BrokerFeatures) -> (libraries: Vec<
    &'static str,
>)
    ensures
        names(libraries@) == if features.pcan {
            seq!["PCAN-Basic"@]
        } else {
            Seq::<Seq<char>>::empty()
        },
{
    let mut libraries: Vec<&'static str> = Vec::new();
    if features.pcan {
        libraries.push("PCAN-Basic");
    }
    proof {
        assert(names(libraries@) =~= if features.pcan {
            seq!["PCAN-Basic"@]
        } else {
            Seq::<Seq<char>>::empty()
        });
    }
    libraries
}

/// The version of the manifest's shape.
#[derive(Clone, Copy, Debug, PartialEq, Eq, Structural)]
pub struct ManifestSchema {
    pub major: u32,
}

/// The versions of the wire protocol that a broker speaks.
#[derive(Clone, Copy, Debug, PartialEq, Eq, Structural)]
pub struct WireRange {
    pub major: u32,
    pub minimum_minor: u32,
    pub maximum_minor: u32,
}

/// What a broker was built for.
#[derive(Clone, Debug, PartialEq, Eq)]
pub struct Target {
    pub triple: String,
    pub os: String,
    pub arch: String,
}

/// What a broker was built with.
#[derive(Clone, Debug, PartialEq, Eq)]
pub struct Enabled {
    pub adapters: Vec<&'static str>,
    pub features: Vec<&'static str>,
}

/// The checksum of a broker's executable.
#[derive(Clone, Debug, PartialEq, Eq)]
pub struct ArtifactChecksum {
    pub algorithm: &'static str,
    pub value: String,
}

/// What a broker says of itself.
#[derive(Clone, Debug, PartialEq, Eq)]
pub struct BrokerManifest {
    pub schema: Option<ManifestSchema>,
    pub broker_version: &'static str,
    pub wire: WireRange,
    pub target: Target,
    pub enabled: Enabled,
    pub msrv: &'static str,
    pub artifact_checksum: ArtifactChecksum,
    pub required_vendor_runtime_libraries: Vec<&'static str>,
}

/// How a broker was built.
#[derive(Clone, Debug, PartialEq, Eq)]
pub struct BuildInfo {
    pub release: BrokerRelease,
    pub features: BrokerFeatures,
    pub target_os: TargetOs,
    pub target: Target,
}

/// The versions of the wire protocol that a release speaks.
pub open spec fn wire_of(release: BrokerRelease) -> WireRange {
    WireRange {
        major: 1,
        minimum_minor: 0,
        maximum_minor: if release == BrokerRelease::First {
            2
        } else {
            3
        },
    }
}

impl BrokerManifest {
    /// The manifest of a broker, given how it was built and the bytes of its executable.
    pub fn current(build: BuildInfo, artifact: &[u8]) -> (manifest: BrokerManifest)
        ensures
            manifest.schema == match build.release {
                BrokerRelease::First => None::<ManifestSchema>,
                BrokerRelease::Current => Some(ManifestSchema { major: 1 }),
            },
            manifest.broker_version@ == match build.release {
                BrokerRelease::First => "0.2.0"@,
                BrokerRelease::Current => "0.5.0-rc.1"@,
            },
            manifest.wire == wire_of(build.release),
            manifest.target == build.target,
            names(manifest.enabled.adapters@) == listed(
                adapter_entries(build.release, build.features, build.target_os),
            ),
            names(manifest.enabled.features@) == listed(
                feature_entries(build.release, build.features, build.target_os),
            ),
            manifest.msrv@ == "1.85"@,
            manifest.artifact_checksum.algorithm@ == "sha256"@,
            manifest.artifact_checksum.value@ == text::byte_hex_digits(mapping::sha256(artifact@)),
            names(manifest.required_vendor_runtime_libraries@) == if build.features.pcan {
                seq!["PCAN-Basic"@]
            } else {
                Seq::<Seq<char>>::empty()
            },
    {
        let hash = digest(artifact);
        let mut value = String::new();
        push_byte_hex(&mut value, hash.as_slice());
        proof {
            assert(value@ =~= text::byte_hex_digits(hash@));
        }
        let first = build.release == BrokerRelease::First;
        BrokerManifest {
            schema: if first {
                None
            } else {
                Some(ManifestSchema { major: 1 })
            },
            broker_version: if first {
                "0.2.0"
            } else {
                "0.5.0-rc.1"
            },
            wire: WireRange {
                major: 1,
                minimum_minor: 0,
                maximum_minor: if first {
                    2
                } else {
                    3
                },
            },
            enabled: Enabled {
                adapters: enabled_adapters(build.release, &build.features, build.target_os),
                features: enabled_features(build.release, &build.features, build.target_os),
            },
            required_vendor_runtime_libraries: required_vendor_runtime_libraries(&build.features),
            target: build.target,
            msrv: "1.85",
            artifact_checksum: ArtifactChecksum { algorithm: "sha256", value },
        }
    }
}

/// A text stands before another in the order of their characters.
pub open spec fn precedes(a: Seq<char>, b: Seq<char>) -> bool {
    exists|i: int| #[trigger] first_difference(a, b, i)
}

/// Up to a position two texts agree, and there the first one is over or has the smaller character.
pub open spec fn first_difference(a: Seq<char>, b: Seq<char>, i: int) -> bool {
    &&& 0 <= i <= a.len()
    &&& i < b.len()
    &&& forall|j: int| 0 <= j < i ==> a[j] == b[j]
    &&& i < a.len() ==> (a[i] as u32) < (b[i] as u32)
}

proof fn lemma_precedes_transitive(a: Seq<char>, b: Seq<char>, c: Seq<char>)
    requires
        precedes(a, b),
        precedes(b, c),
    ensures
        precedes(a, c),
{
    let i = choose|i: int| first_difference(a, b, i);
    let j = choose|j: int| first_difference(b, c, j);
    let k = if i <= j {
        i
    } else {
        j
    };
    assert(first_difference(a, c, k));
}

/// Each name stands before the next.
pub open spec fn ascending(list: Seq<Seq<char>>) -> bool {
    forall|i: int, j: int| 0 <= i < j < list.len() ==> precedes(#[trigger] list[i], #[trigger] list[j])
}

proof fn lemma_entries_ascend(entries: Seq<Entry>, i: int, j: int)
    requires
        0 <= i < j < entries.len(),
        forall|k: int|
            0 <= k < entries.len() - 1 ==> precedes(
                (#[trigger] entries[k]).name,
                entries[k + 1].name,
            ),
    ensures
        precedes(entries[i].name, entries[j].name),
    decreases j - i,
{
    assert(precedes(entries[i].name, entries[i + 1].name));
    if i + 1 < j {
        lemma_entries_ascend(entries, i + 1, j);
        lemma_precedes_transitive(entries[i].name, entries[i + 1].name, entries[j].name);
    }
}

proof fn lemma_listed_ascend(entries: Seq<Entry>)
    requires
        forall|k: int|
            0 <= k < entries.len() - 1 ==> precedes(
                (#[trigger] entries[k]).name,
                entries[k + 1].name,
            ),
    ensures
        ascending(listed(entries)),
        forall|i: int|
            0 <= i < listed(entries).len() ==> exists|k: int|
                0 <= k < entries.len() && (#[trigger] entries[k]).name == #[trigger] listed(
                    entries,
                )[i],
    decreases entries.len(),
{
    if entries.len() > 0 {
        let last = entries.len() - 1;
        let rest = entries.drop_last();
        lemma_listed_ascend(rest);
        let list = listed(entries);
        assert forall|i: int| 0 <= i < list.len() implies exists|k: int|
            0 <= k < entries.len() && (#[trigger] entries[k]).name == #[trigger] list[i] by {
            if i < listed(rest).len() {
                let k = choose|k: int|
                    0 <= k < rest.len() && (#[trigger] rest[k]).name == listed(rest)[i];
                assert(entries[k].name == list[i]);
            } else {
                assert(entries[last].name == list[i]);
            }
        }
        assert forall|i: int, j: int| 0 <= i < j < list.len() implies precedes(
            #[trigger] list[i],
            #[trigger] list[j],
        ) by {
            if j < listed(rest).len() {
                assert(list[i] == listed(rest)[i] && list[j] == listed(rest)[j]);
            } else {
                let k = choose|k: int|
                    0 <= k < rest.len() && (#[trigger] rest[k]).name == listed(rest)[i];
                assert(list[j] == entries[last].name);
                lemma_entries_ascend(entries, k, last);
                assert(entries[k].name == list[i]);
            }
        }
    }
}

/// The adapters and the features of every broker are listed in ascending order, each once.
pub proof fn law_enabled_lists_ascend(
    release: BrokerRelease,
    features: BrokerFeatures,
    os: TargetOs,
)
    ensures
        ascending(listed(adapter_entries(release, features, os))),
        ascending(listed(feature_entries(release, features, os))),
{
    reveal_strlit("avfoundation");
    reveal_strlit("linux-gpio");
    reveal_strlit("mediafoundation");
    reveal_strlit("nusb");
    reveal_strlit("pcan");
    reveal_strlit("serialport");
    reveal_strlit("socketcan");
    reveal_strlit("v4l2");
    reveal_strlit("virtual-adapters");
    reveal_strlit("virtual-camera");
    reveal_strlit("virtual-can");
    reveal_strlit("virtual-gpio");
    reveal_strlit("virtual-serial");
    reveal_strlit("virtual-usb");
    reveal_strlit("windows-gpio");
    assert(first_difference("avfoundation"@, "linux-gpio"@, 0));
    assert(first_difference("linux-gpio"@, "mediafoundation"@, 0));
    assert(first_difference("mediafoundation"@, "nusb"@, 0));
    assert(first_difference("nusb"@, "pcan"@, 0));
    assert(first_difference("pcan"@, "serialport"@, 0));
    assert(first_difference("serialport"@, "socketcan"@, 1));
    assert(first_difference("socketcan"@, "v4l2"@, 0));
    assert(first_difference("v4l2"@, "virtual-camera"@, 1));
    assert(first_difference("virtual-camera"@, "virtual-can"@, 10));
    assert(first_difference("virtual-can"@, "virtual-gpio"@, 8));
    assert(first_difference("virtual-gpio"@, "virtual-serial"@, 8));
    assert(first_difference("virtual-serial"@, "virtual-usb"@, 8));
    assert(first_difference("virtual-usb"@, "windows-gpio"@, 0));
    assert(first_difference("v4l2"@, "virtual-adapters"@, 1));
    assert(first_difference("virtual-adapters"@, "windows-gpio"@, 0));
    let adapters = adapter_entries(release, features, os);
    let effective = feature_entries(release, features, os);
    assert forall|k: int| 0 <= k < adapters.len() - 1 implies precedes(
        (#[trigger] adapters[k]).name,
        adapters[k + 1].name,
    ) by {}
    assert forall|k: int| 0 <= k < effective.len() - 1 implies precedes(
        (#[trigger] effective[k]).name,
        effective[k + 1].name,
    ) by {}
    lemma_listed_ascend(adapters);
    lemma_listed_ascend(effective);
}

/// A list holds exactly the names of the entries that are listed.
pub proof fn law_lists_hold_what_is_listed(entries: Seq<Entry>, name: Seq<char>)
    ensures
        listed(entries).contains(name) <==> exists|i: int|
            0 <= i < entries.len() && (#[trigger] entries[i]).listed && entries[i].name == name,
    decreases entries.len(),
{
    if entries.len() > 0 {
        let front = entries.drop_last();
        let before = listed(front);
        let list = listed(entries);
        law_lists_hold_what_is_listed(front, name);
        if list.contains(name) {
            let k = choose|k: int| 0 <= k < list.len() && list[k] == name;
            if k < before.len() {
                assert(before[k] == name);
                let i = choose|i: int|
                    0 <= i < front.len() && (#[trigger] front[i]).listed && front[i].name == name;
                assert(entries[i] == front[i]);
            } else {
                assert(entries[entries.len() - 1].name == name);
            }
        }
        if exists|i: int|
            0 <= i < entries.len() && (#[trigger] entries[i]).listed && entries[i].name == name {
            let i = choose|i: int|
                0 <= i < entries.len() && (#[trigger] entries[i]).listed && entries[i].name == name;
            if i < front.len() {
                assert(front[i] == entries[i]);
                let k = choose|k: int| 0 <= k < before.len() && before[k] == name;
                assert(list[k] == name);
            } else {
                assert(list[before.len() as int] == name);
            }
        }
    }
}

/// Which adapters a broker lists: native ones only in the current release, on their own system and
/// without virtual adapters; virtual ones only with them; and the serial port always.
pub proof fn law_adapters_follow_the_build(
    release: BrokerRelease,
    features: BrokerFeatures,
    os: TargetOs,
)
    ensures
        ({
            let entries = adapter_entries(release, features, os);
            let native = release == BrokerRelease::Current && !features.virtual_adapters;
            let linux = native && os == TargetOs::Linux;
            let macos = native && os == TargetOs::Macos;
            let windows = native && os == TargetOs::Windows;
            let simulated = features.virtual_adapters;
            &&& entries.len() == 14
            &&& entries[0].name == "avfoundation"@ && entries[0].listed == (macos
                && features.avfoundation)
            &&& entries[1].name == "linux-gpio"@ && entries[1].listed == (linux
                && features.linux_gpio)
            &&& entries[2].name == "mediafoundation"@ && entries[2].listed == (windows
                && features.mediafoundation)
            &&& entries[3].name == "nusb"@ && entries[3].listed == (native && features.nusb)
            &&& entries[4].name == "pcan"@ && entries[4].listed == features.pcan
            &&& entries[5].name == "serialport"@ && entries[5].listed
            &&& entries[6].name == "socketcan"@ && entries[6].listed == features.socketcan
            &&& entries[7].name == "v4l2"@ && entries[7].listed == (linux && features.v4l2)
            &&& entries[8].name == "virtual-camera"@ && entries[8].listed == (release
                == BrokerRelease::Current && simulated)
            &&& entries[9].name == "virtual-can"@ && entries[9].listed == simulated
            &&& entries[10].name == "virtual-gpio"@ && entries[10].listed == simulated
            &&& entries[11].name == "virtual-serial"@ && entries[11].listed == simulated
            &&& entries[12].name == "virtual-usb"@ && entries[12].listed == simulated
            &&& entries[13].name == "windows-gpio"@ && entries[13].listed == (windows
                && features.windows_gpio)
        }),
        ({
            let entries = feature_entries(release, features, os);
            let native = release == BrokerRelease::Current && !features.virtual_adapters;
            let linux = native && os == TargetOs::Linux;
            let macos = native && os == TargetOs::Macos;
            let windows = native && os == TargetOs::Windows;
            &&& entries.len() == 10
            &&& entries[0].name == "avfoundation"@ && entries[0].listed == (macos
                && features.avfoundation)
            &&& entries[1].name == "linux-gpio"@ && entries[1].listed == (linux
                && features.linux_gpio)
            &&& entries[2].name == "mediafoundation"@ && entries[2].listed == (windows
                && features.mediafoundation)
            &&& entries[3].name == "nusb"@ && entries[3].listed == (native && features.nusb)
            &&& entries[4].name == "pcan"@ && entries[4].listed == features.pcan
            &&& entries[5].name == "serialport"@ && entries[5].listed == (release
                == BrokerRelease::Current && features.serialport)
            &&& entries[6].name == "socketcan"@ && entries[6].listed == features.socketcan
            &&& entries[7].name == "v4l2"@ && entries[7].listed == (linux && features.v4l2)
            &&& entries[8].name == "virtual-adapters"@ && entries[8].listed
                == features.virtual_adapters
            &&& entries[9].name == "windows-gpio"@ && entries[9].listed == (windows
                && features.windows_gpio)
        }),
{
}

/// Every release speaks the first major version of the wire protocol from its first minor version on:
/// the first release up to the second, the current one up to the third.
pub proof fn law_releases_speak_these_versions(release: BrokerRelease)
    ensures
        wire_of(release).major == 1,
        wire_of(release).minimum_minor == 0,
        release == BrokerRelease::First ==> wire_of(release).maximum_minor == 2,
        release == BrokerRelease::Current ==> wire_of(release).maximum_minor == 3,
{
}

/// No text stands before itself, and of two texts at most one stands before the other.
pub proof fn law_texts_stand_in_one_order(a: Seq<char>, b: Seq<char>)
    ensures
        !precedes(a, a),
        !(precedes(a, b) && precedes(b, a)),
        a.len() < b.len() && a =~= b.take(a.len() as int) ==> precedes(a, b),
        a.len() > 0 && b.len() > 0 && (a[0] as u32) < (b[0] as u32) ==> precedes(a, b),
{
    assert forall|i: int| !first_difference(a, a, i) by {}
    if precedes(a, b) && precedes(b, a) {
        let i = choose|i: int| first_difference(a, b, i);
        let j = choose|j: int| first_difference(b, a, j);
        assert(first_difference(a, b, i) && first_difference(b, a, j));
        if i < j {
            assert(b[i] == a[i]);
        } else if j < i {
            assert(a[j] == b[j]);
        }
    }
    if a.len() < b.len() && a =~= b.take(a.len() as int) {
        assert forall|j: int| 0 <= j < a.len() implies a[j] == b[j] by {
            assert(b.take(a.len() as int)[j] == b[j]);
        }
        assert(first_difference(a, b, a.len() as int));
    }
    if a.len() > 0 && b.len() > 0 && (a[0] as u32) < (b[0] as u32) {
        assert(first_difference(a, b, 0));
    }
}

} // verus!
