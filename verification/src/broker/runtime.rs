//! Which adapters the runtime of a broker gets.

use vstd::prelude::*;

use crate::broker::manifest::{BrokerFeatures, TargetOs};
use crate::broker::serve::{structured_error_fields, StructuredErrorFields};
use crate::error::HalError;

verus! {

/// An adapter that a runtime gets.
#[derive(Clone, Copy, Debug, PartialEq, Eq, Structural)]
pub enum AdapterChoice {
    SerialPort,
    SocketCan,
    Nusb,
    LinuxGpio,
    WindowsGpio,
    AvFoundation,
    V4l2,
    MediaFoundation,
    VirtualSerial,
    VirtualCan,
    VirtualCanFd,
    VirtualUsb,
    VirtualGpio,
    VirtualCamera,
    Pcan,
}

impl AdapterChoice {
    /// The identity of the resource of a virtual adapter.
    pub open spec fn virtual_id(self) -> Option<Seq<char>> {
        match self {
            AdapterChoice::VirtualSerial => Some("serial:virtual:broker-app"@),
            AdapterChoice::VirtualCan => Some("can:virtual:broker-app:classic"@),
            AdapterChoice::VirtualCanFd => Some("can:virtual:broker-app:fd"@),
            AdapterChoice::VirtualUsb => Some("usb:virtual:broker-app"@),
            AdapterChoice::VirtualGpio => Some("gpio:virtual:broker-app"@),
            AdapterChoice::VirtualCamera => Some("camera:virtual:broker-app"@),
            _ => None,
        }
    }

    /// The identity of the resource of a virtual adapter.
    pub fn resource(self) -> (id: Option<&'static str>)
        ensures
            match id {
                Some(id) => self.virtual_id() == Some(id@),
                None => self.virtual_id() is None,
            },
    {
        match self {
            AdapterChoice::VirtualSerial => Some("serial:virtual:broker-app"),
            AdapterChoice::VirtualCan => Some("can:virtual:broker-app:classic"),
            AdapterChoice::VirtualCanFd => Some("can:virtual:broker-app:fd"),
            AdapterChoice::VirtualUsb => Some("usb:virtual:broker-app"),
            AdapterChoice::VirtualGpio => Some("gpio:virtual:broker-app"),
            AdapterChoice::VirtualCamera => Some("camera:virtual:broker-app"),
            _ => None,
        }
    }

    /// How many lines the bank of the virtual adapter for lines has.
    pub open spec fn virtual_lines(self) -> Option<u32> {
        if self == AdapterChoice::VirtualGpio {
            Some(2)
        } else {
            None
        }
    }

    /// How many lines the bank of the virtual adapter for lines has.
    pub fn line_count(self) -> (count: Option<u32>)
        ensures
            count == self.virtual_lines(),
    {
        if self == AdapterChoice::VirtualGpio {
            Some(2)
        } else {
            None
        }
    }

    /// Whether the adapter is one for cameras.
    pub fn is_camera(self) -> (camera: bool)
        ensures
            camera == (self == AdapterChoice::AvFoundation || self == AdapterChoice::V4l2 || self
                == AdapterChoice::MediaFoundation || self == AdapterChoice::VirtualCamera),
    {
        matches!(
            self,
            AdapterChoice::AvFoundation | AdapterChoice::V4l2 | AdapterChoice::MediaFoundation
            | AdapterChoice::VirtualCamera
        )
    }
}

/// Whether a broker with the features has an adapter.
pub open spec fn wanted(
    choice: AdapterChoice,
    features: BrokerFeatures,
    os: TargetOs,
    pcan_loaded: bool,
) -> bool {
    let native = !features.virtual_adapters;
    match choice {
        AdapterChoice::SerialPort => features.serialport,
        AdapterChoice::SocketCan => features.socketcan,
        AdapterChoice::Nusb => native && features.nusb,
        AdapterChoice::LinuxGpio => native && features.linux_gpio && os == TargetOs::Linux,
        AdapterChoice::WindowsGpio => native && features.windows_gpio && os == TargetOs::Windows,
        AdapterChoice::AvFoundation => native && features.avfoundation && os == TargetOs::Macos,
        AdapterChoice::V4l2 => native && features.v4l2 && os == TargetOs::Linux,
        AdapterChoice::MediaFoundation => native && features.mediafoundation && os
            == TargetOs::Windows,
        AdapterChoice::Pcan => features.pcan && pcan_loaded,
        _ => features.virtual_adapters,
    }
}

/// The adapters in the order in which a runtime gets them.
pub open spec fn registration_order() -> Seq<AdapterChoice> {
    seq![
        AdapterChoice::SerialPort,
        AdapterChoice::SocketCan,
        AdapterChoice::Nusb,
        AdapterChoice::LinuxGpio,
        AdapterChoice::WindowsGpio,
        AdapterChoice::AvFoundation,
        AdapterChoice::V4l2,
        AdapterChoice::MediaFoundation,
        AdapterChoice::VirtualSerial,
        AdapterChoice::VirtualCan,
        AdapterChoice::VirtualCanFd,
        AdapterChoice::VirtualUsb,
        AdapterChoice::VirtualGpio,
        AdapterChoice::VirtualCamera,
        AdapterChoice::Pcan,
    ]
}

/// The adapters among choices that a broker with the features has, in order.
pub open spec fn chosen(
    choices: Seq<AdapterChoice>,
    features: BrokerFeatures,
    os: TargetOs,
    pcan_loaded: bool,
) -> Seq<AdapterChoice> {
    choices.filter(|choice: AdapterChoice| wanted(choice, features, os, pcan_loaded))
}

fn is_wanted(
    choice: AdapterChoice,
    features: &BrokerFeatures,
    os: TargetOs,
    pcan_loaded: bool,
) -> (has: bool)
    ensures
        has == wanted(choice, *features, os, pcan_loaded),
{
    let native = !features.virtual_adapters;
    match choice {
        AdapterChoice::SerialPort => features.serialport,
        AdapterChoice::SocketCan => features.socketcan,
        AdapterChoice::Nusb => native && features.nusb,
        AdapterChoice::LinuxGpio => native && features.linux_gpio && os == TargetOs::Linux,
        AdapterChoice::WindowsGpio => native && features.windows_gpio && os == TargetOs::Windows,
        AdapterChoice::AvFoundation => native && features.avfoundation && os == TargetOs::Macos,
        AdapterChoice::V4l2 => native && features.v4l2 && os == TargetOs::Linux,
        AdapterChoice::MediaFoundation => native && features.mediafoundation && os
            == TargetOs::Windows,
        AdapterChoice::Pcan => features.pcan && pcan_loaded,
        _ => features.virtual_adapters,
    }
}

fn registrations(features: &BrokerFeatures, os: TargetOs, pcan_loaded: bool) -> (adapters: Vec<
    AdapterChoice,
>)
    ensures
        adapters@ == chosen(registration_order(), *features, os, pcan_loaded),
{
    let order: [AdapterChoice; 15] = [
        AdapterChoice::SerialPort,
        AdapterChoice::SocketCan,
        AdapterChoice::Nusb,
        AdapterChoice::LinuxGpio,
        AdapterChoice::WindowsGpio,
        AdapterChoice::AvFoundation,
        AdapterChoice::V4l2,
        AdapterChoice::MediaFoundation,
        AdapterChoice::VirtualSerial,
        AdapterChoice::VirtualCan,
        AdapterChoice::VirtualCanFd,
        AdapterChoice::VirtualUsb,
        AdapterChoice::VirtualGpio,
        AdapterChoice::VirtualCamera,
        AdapterChoice::Pcan,
    ];
    let mut adapters: Vec<AdapterChoice> = Vec::new();
    let mut index: usize = 0;
    proof {
        assert(order@ =~= registration_order());
        reveal(Seq::filter);
        assert(order@.take(0) =~= Seq::<AdapterChoice>::empty());
    }
    while index < 15
        invariant
            index <= 15,
            order@.len() == 15,
            adapters@ == chosen(order@.take(index as int), *features, os, pcan_loaded),
        decreases 15 - index,
    {
        proof {
            reveal(Seq::filter);
            assert(order@.take(index + 1).drop_last() =~= order@.take(index as int));
        }
        if is_wanted(order[index], features, os, pcan_loaded) {
            adapters.push(order[index]);
        }
        index += 1;
    }
    proof {
        assert(order@.take(15) =~= order@);
    }
    adapters
}

/// Why a broker does not start.
pub enum StartFault {
    /// A required adapter could not be loaded.
    Load(HalError),
    /// The broker was built without a required adapter.
    NotBuilt,
}

/// What a broker starts with: its adapters, and what is logged of an adapter that could not be
/// loaded.
pub struct RuntimePlan {
    pub adapters: Vec<AdapterChoice>,
    pub load_error: Option<StructuredErrorFields>,
}

/// The adapters of a broker, given how loading the PCAN adapter ended where the broker has it. A
/// failure is only one of the broker where the adapter is required.
pub fn build_runtime(
    features: &BrokerFeatures,
    os: TargetOs,
    require_pcan: bool,
    loaded: Result<(), HalError>,
) -> (result: Result<RuntimePlan, StartFault>)
    ensures
        match result {
            Ok(plan) => {
                &&& require_pcan ==> features.pcan && loaded is Ok
                &&& plan.adapters@ == chosen(
                    registration_order(),
                    *features,
                    os,
                    loaded is Ok,
                )
                &&& match plan.load_error {
                    Some(fields) => features.pcan && loaded is Err && fields.tells(
                        "pcan"@,
                        loaded->Err_0@,
                    ),
                    None => !features.pcan || loaded is Ok,
                }
            },
            Err(StartFault::NotBuilt) => require_pcan && !features.pcan,
            Err(StartFault::Load(error)) => {
                &&& require_pcan
                &&& features.pcan
                &&& loaded == Err::<(), HalError>(error)
            },
        },
{
    if !features.pcan {
        if require_pcan {
            return Err(StartFault::NotBuilt);
        }
        return Ok(
            RuntimePlan {
                adapters: registrations(features, os, loaded.is_ok()),
                load_error: None,
            },
        );
    }
    match loaded {
        Ok(()) => Ok(
            RuntimePlan { adapters: registrations(features, os, true), load_error: None },
        ),
        Err(error) => {
            if require_pcan {
                return Err(StartFault::Load(error));
            }
            let fields = structured_error_fields("pcan", &error);
            Ok(
                RuntimePlan {
                    adapters: registrations(features, os, false),
                    load_error: Some(fields),
                },
            )
        },
    }
}

/// A broker with virtual adapters reaches no real camera, and has one virtual one.
pub proof fn law_virtual_brokers_have_no_real_cameras(
    features: BrokerFeatures,
    os: TargetOs,
    pcan_loaded: bool,
)
    requires
        features.virtual_adapters,
    ensures
        !wanted(AdapterChoice::AvFoundation, features, os, pcan_loaded),
        !wanted(AdapterChoice::V4l2, features, os, pcan_loaded),
        !wanted(AdapterChoice::MediaFoundation, features, os, pcan_loaded),
        wanted(AdapterChoice::VirtualCamera, features, os, pcan_loaded),
{
}

/// A broker has exactly the adapters that it was built with and that its system can use: native ones
/// only without virtual ones, each on its own system, virtual ones only together, and the PCAN adapter
/// only where its driver was loaded.
pub proof fn law_brokers_have_what_they_were_built_with(
    features: BrokerFeatures,
    os: TargetOs,
    pcan_loaded: bool,
)
    ensures
        ({
            let adapters = chosen(registration_order(), features, os, pcan_loaded);
            let simulated = features.virtual_adapters;
            &&& adapters.contains(AdapterChoice::SerialPort) <==> features.serialport
            &&& adapters.contains(AdapterChoice::SocketCan) <==> features.socketcan
            &&& adapters.contains(AdapterChoice::Nusb) <==> features.nusb && !simulated
            &&& adapters.contains(AdapterChoice::LinuxGpio) <==> features.linux_gpio && !simulated
                && os == TargetOs::Linux
            &&& adapters.contains(AdapterChoice::WindowsGpio) <==> features.windows_gpio
                && !simulated && os == TargetOs::Windows
            &&& adapters.contains(AdapterChoice::AvFoundation) <==> features.avfoundation
                && !simulated && os == TargetOs::Macos
            &&& adapters.contains(AdapterChoice::V4l2) <==> features.v4l2 && !simulated && os
                == TargetOs::Linux
            &&& adapters.contains(AdapterChoice::MediaFoundation) <==> features.mediafoundation
                && !simulated && os == TargetOs::Windows
            &&& adapters.contains(AdapterChoice::VirtualSerial) <==> simulated
            &&& adapters.contains(AdapterChoice::VirtualCan) <==> simulated
            &&& adapters.contains(AdapterChoice::VirtualCanFd) <==> simulated
            &&& adapters.contains(AdapterChoice::VirtualUsb) <==> simulated
            &&& adapters.contains(AdapterChoice::VirtualGpio) <==> simulated
            &&& adapters.contains(AdapterChoice::VirtualCamera) <==> simulated
            &&& adapters.contains(AdapterChoice::Pcan) <==> features.pcan && pcan_loaded
        }),
{
    let order = registration_order();
    let has = |choice: AdapterChoice| wanted(choice, features, os, pcan_loaded);
    assert forall|choice: AdapterChoice| #[trigger]
        order.filter(has).contains(choice) <==> wanted(choice, features, os, pcan_loaded) by {
        lemma_every_choice_is_registered(choice);
        let k = choose|k: int| 0 <= k < order.len() && order[k] == choice;
        if has(choice) {
            order.lemma_filter_contains(has, k);
        }
        if order.filter(has).contains(choice) {
            let i = choose|i: int|
                0 <= i < order.filter(has).len() && order.filter(has)[i] == choice;
            order.lemma_filter_pred(has, i);
        }
    }
}

proof fn lemma_every_choice_is_registered(choice: AdapterChoice)
    ensures
        registration_order().contains(choice),
{
    let order = registration_order();
    assert(order[0] == AdapterChoice::SerialPort);
    assert(order[1] == AdapterChoice::SocketCan);
    assert(order[2] == AdapterChoice::Nusb);
    assert(order[3] == AdapterChoice::LinuxGpio);
    assert(order[4] == AdapterChoice::WindowsGpio);
    assert(order[5] == AdapterChoice::AvFoundation);
    assert(order[6] == AdapterChoice::V4l2);
    assert(order[7] == AdapterChoice::MediaFoundation);
    assert(order[8] == AdapterChoice::VirtualSerial);
    assert(order[9] == AdapterChoice::VirtualCan);
    assert(order[10] == AdapterChoice::VirtualCanFd);
    assert(order[11] == AdapterChoice::VirtualUsb);
    assert(order[12] == AdapterChoice::VirtualGpio);
    assert(order[13] == AdapterChoice::VirtualCamera);
    assert(order[14] == AdapterChoice::Pcan);
}

/// The resources of the virtual adapters.
pub proof fn law_virtual_resources_have_these_names()
    ensures
        AdapterChoice::VirtualSerial.virtual_id() == Some("serial:virtual:broker-app"@),
        AdapterChoice::VirtualCan.virtual_id() == Some("can:virtual:broker-app:classic"@),
        AdapterChoice::VirtualCanFd.virtual_id() == Some("can:virtual:broker-app:fd"@),
        AdapterChoice::VirtualUsb.virtual_id() == Some("usb:virtual:broker-app"@),
        AdapterChoice::VirtualGpio.virtual_id() == Some("gpio:virtual:broker-app"@),
        AdapterChoice::VirtualCamera.virtual_id() == Some("camera:virtual:broker-app"@),
        AdapterChoice::VirtualGpio.virtual_lines() == Some(2u32),
        AdapterChoice::VirtualCamera.virtual_lines() is None,
        AdapterChoice::Nusb.virtual_id() is None,
        AdapterChoice::Pcan.virtual_id() is None,
{
}

} // verus!
