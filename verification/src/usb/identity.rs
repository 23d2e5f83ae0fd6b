//! Stable identities of USB devices.

use vstd::prelude::*;
use vstd::string::*;

use crate::error::HalResult;
use crate::resource::{IdentityQuality, ResourceId};
use crate::text;
use crate::text::{encode, non_empty, push_lower_hex};

verus! {

/// What is known about a device.
#[derive(Clone, Debug, PartialEq, Eq)]
pub struct UsbDeviceMetadata {
    pub vendor_id: u16,
    pub product_id: u16,
    pub serial_number: Option<String>,
    /// The chain of physical ports, which unlike the bus address outlives replugging.
    pub topology: String,
}

/// The identity of a device.
#[derive(Clone, Debug, PartialEq, Eq)]
pub struct UsbIdentity {
    pub id: ResourceId,
    pub quality: IdentityQuality,
}

/// The text and the quality of a device's identity: by its serial number where it has one, else by
/// the ports it is plugged into.
pub open spec fn identity_of(
    vendor_id: u16,
    product_id: u16,
    serial_number: Option<Seq<char>>,
    topology: Seq<char>,
) -> (Seq<char>, IdentityQuality) {
    match text::spec_non_empty(serial_number) {
        Some(serial) => (
            "usb:device:"@ + text::lower_hex_digits(vendor_id as nat, 4) + ":"@
                + text::lower_hex_digits(product_id as nat, 4) + ":"@ + text::encoded_name(serial),
            IdentityQuality::Strong,
        ),
        None => ("usb:topology:"@ + text::encoded_name(topology), IdentityQuality::Weak),
    }
}

/// The identity of a device.
pub fn identity_from_metadata(metadata: &UsbDeviceMetadata) -> (result: HalResult<UsbIdentity>)
    ensures
        result is Ok,
        (result->Ok_0.id@, result->Ok_0.quality) == identity_of(
            metadata.vendor_id,
            metadata.product_id,
            text::optional_text(metadata.serial_number),
            metadata.topology@,
        ),
{
    if let Some(serial) = non_empty(&metadata.serial_number) {
        let mut id = "usb:device:".to_owned();
        push_lower_hex(&mut id, metadata.vendor_id as u32, 4);
        id.append(":");
        push_lower_hex(&mut id, metadata.product_id as u32, 4);
        id.append(":");
        id.append(encode(serial).as_str());
        return Ok(UsbIdentity { id: ResourceId::new(id), quality: IdentityQuality::Strong });
    }
    let mut id = "usb:topology:".to_owned();
    id.append(encode(metadata.topology.as_str()).as_str());
    Ok(UsbIdentity { id: ResourceId::new(id), quality: IdentityQuality::Weak })
}

/// Devices with serial numbers have the same identity only where vendor, product and serial number
/// are the same, devices without only where they are plugged in at the same place, and one of each
/// never.
pub proof fn law_identities_are_distinct(
    vendor_a: u16,
    product_a: u16,
    serial_a: Option<Seq<char>>,
    topology_a: Seq<char>,
    vendor_b: u16,
    product_b: u16,
    serial_b: Option<Seq<char>>,
    topology_b: Seq<char>,
)
    requires
        identity_of(vendor_a, product_a, serial_a, topology_a).0 == identity_of(
            vendor_b,
            product_b,
            serial_b,
            topology_b,
        ).0,
    ensures
        text::spec_non_empty(serial_a) == text::spec_non_empty(serial_b),
        text::spec_non_empty(serial_a) is Some ==> vendor_a == vendor_b && product_a == product_b,
        text::spec_non_empty(serial_a) is None ==> topology_a == topology_b,
{
    reveal_strlit("usb:device:");
    reveal_strlit("usb:topology:");
    let id_a = identity_of(vendor_a, product_a, serial_a, topology_a).0;
    let id_b = identity_of(vendor_b, product_b, serial_b, topology_b).0;
    assert(id_a[4] == id_b[4]);
    match (text::spec_non_empty(serial_a), text::spec_non_empty(serial_b)) {
        (Some(a), Some(b)) => {
            text::lemma_powers_of_sixteen();
            text::lemma_lower_hex_digits(vendor_a as nat, vendor_b as nat, 4);
            text::lemma_lower_hex_digits(vendor_b as nat, vendor_a as nat, 4);
            text::lemma_lower_hex_digits(product_a as nat, product_b as nat, 4);
            text::lemma_lower_hex_digits(product_b as nat, product_a as nat, 4);
            let start_a = "usb:device:"@ + text::lower_hex_digits(vendor_a as nat, 4);
            let start_b = "usb:device:"@ + text::lower_hex_digits(vendor_b as nat, 4);
            let middle_a = start_a + ":"@ + text::lower_hex_digits(product_a as nat, 4);
            let middle_b = start_b + ":"@ + text::lower_hex_digits(product_b as nat, 4);
            text::lemma_same_parts(
                middle_a + ":"@,
                middle_b + ":"@,
                text::encoded_name(a),
                text::encoded_name(b),
            );
            text::lemma_same_parts(middle_a, middle_b, ":"@, ":"@);
            text::lemma_same_parts(
                start_a + ":"@,
                start_b + ":"@,
                text::lower_hex_digits(product_a as nat, 4),
                text::lower_hex_digits(product_b as nat, 4),
            );
            text::lemma_same_parts(start_a, start_b, ":"@, ":"@);
            text::lemma_same_start(
                "usb:device:"@,
                text::lower_hex_digits(vendor_a as nat, 4),
                text::lower_hex_digits(vendor_b as nat, 4),
            );
            text::law_encodings_are_distinct(a, b);
        },
        (None, None) => {
            text::lemma_same_start(
                "usb:topology:"@,
                text::encoded_name(topology_a),
                text::encoded_name(topology_b),
            );
            text::law_encodings_are_distinct(topology_a, topology_b);
        },
        _ => {},
    }
}

/// A device with a serial number has a strong identity made of vendor, product and serial number; any
/// other has a weak one made of the place where it is plugged in.
pub proof fn law_identity_rests_on_the_serial_number(
    vendor_id: u16,
    product_id: u16,
    serial_number: Option<Seq<char>>,
    topology: Seq<char>,
)
    ensures
        ({
            let (id, quality) = identity_of(vendor_id, product_id, serial_number, topology);
            let serial = text::spec_non_empty(serial_number);
            &&& quality == IdentityQuality::Strong <==> serial is Some
            &&& quality == IdentityQuality::Weak <==> serial is None
            &&& serial is Some ==> id == "usb:device:"@ + text::lower_hex_digits(
                vendor_id as nat,
                4,
            ) + ":"@ + text::lower_hex_digits(product_id as nat, 4) + ":"@ + text::encoded_name(
                serial->0,
            )
            &&& serial is None ==> id == "usb:topology:"@ + text::encoded_name(topology)
        }),
{
}

} // verus!
