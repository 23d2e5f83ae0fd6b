//! Stable identities of serial ports.

use vstd::prelude::*;
use vstd::string::*;

use crate::error::HalResult;
use crate::resource::{IdentityQuality, ResourceId};
use crate::text;
use crate::text::{encode_segment, non_empty, push_lower_hex};

verus! {

/// What is known about the USB device behind a port.
#[derive(Clone, Debug, PartialEq, Eq)]
pub struct UsbPortMetadata {
    pub vid: u16,
    pub pid: u16,
    pub serial_number: Option<String>,
    pub manufacturer: Option<String>,
    pub product: Option<String>,
}

/// The identity of a port.
#[derive(Clone, Debug, PartialEq, Eq)]
pub struct SerialIdentity {
    pub id: ResourceId,
    pub quality: IdentityQuality,
}

/// The text and the quality of a port's identity by its endpoint.
pub open spec fn endpoint_identity(endpoint: Seq<char>) -> (Seq<char>, IdentityQuality) {
    ("serial:endpoint:"@ + text::encoded_segment(endpoint), IdentityQuality::Weak)
}

/// The text and the quality of a USB port's identity: by the serial number of the device where it
/// has one, else by the endpoint.
pub open spec fn usb_identity(
    endpoint: Seq<char>,
    vid: u16,
    pid: u16,
    serial_number: Option<Seq<char>>,
) -> (Seq<char>, IdentityQuality) {
    match text::spec_non_empty(serial_number) {
        Some(serial) => (
            "serial:usb:"@ + text::lower_hex_digits(vid as nat, 4) + ":"@ + text::lower_hex_digits(
                pid as nat,
                4,
            ) + ":"@ + text::encoded_segment(serial),
            IdentityQuality::Strong,
        ),
        None => endpoint_identity(endpoint),
    }
}

/// The identity of a USB port.
pub fn identity_from_usb_metadata(endpoint: &str, metadata: &UsbPortMetadata) -> (result: HalResult<
    SerialIdentity,
>)
    ensures
        result is Ok,
        (result->Ok_0.id@, result->Ok_0.quality) == usb_identity(
            endpoint@,
            metadata.vid,
            metadata.pid,
            text::optional_text(metadata.serial_number),
        ),
{
    if let Some(serial) = non_empty(&metadata.serial_number) {
        let mut id = "serial:usb:".to_owned();
        push_lower_hex(&mut id, metadata.vid as u32, 4);
        id.append(":");
        push_lower_hex(&mut id, metadata.pid as u32, 4);
        id.append(":");
        id.append(encode_segment(serial).as_str());
        return Ok(SerialIdentity { id: ResourceId::new(id), quality: IdentityQuality::Strong });
    }
    identity_from_endpoint(endpoint)
}

/// The identity of a port of which only the endpoint is known.
pub fn identity_from_endpoint(endpoint: &str) -> (result: HalResult<SerialIdentity>)
    ensures
        result is Ok,
        (result->Ok_0.id@, result->Ok_0.quality) == endpoint_identity(endpoint@),
{
    let mut id = "serial:endpoint:".to_owned();
    id.append(encode_segment(endpoint).as_str());
    Ok(SerialIdentity { id: ResourceId::new(id), quality: IdentityQuality::Weak })
}

/// USB ports with serial numbers have the same identity only where vendor, product and serial number
/// are the same, ports without only where their endpoints are the same, and one of each never.
pub proof fn law_identities_are_distinct(
    endpoint_a: Seq<char>,
    vid_a: u16,
    pid_a: u16,
    serial_a: Option<Seq<char>>,
    endpoint_b: Seq<char>,
    vid_b: u16,
    pid_b: u16,
    serial_b: Option<Seq<char>>,
)
    requires
        usb_identity(endpoint_a, vid_a, pid_a, serial_a).0 == usb_identity(
            endpoint_b,
            vid_b,
            pid_b,
            serial_b,
        ).0,
    ensures
        text::spec_non_empty(serial_a) == text::spec_non_empty(serial_b),
        text::spec_non_empty(serial_a) is Some ==> vid_a == vid_b && pid_a == pid_b,
        text::spec_non_empty(serial_a) is None ==> endpoint_a == endpoint_b,
{
    reveal_strlit("serial:usb:");
    reveal_strlit("serial:endpoint:");
    let id_a = usb_identity(endpoint_a, vid_a, pid_a, serial_a).0;
    let id_b = usb_identity(endpoint_b, vid_b, pid_b, serial_b).0;
    assert(id_a[7] == id_b[7]);
    match (text::spec_non_empty(serial_a), text::spec_non_empty(serial_b)) {
        (Some(a), Some(b)) => {
            text::lemma_powers_of_sixteen();
            text::lemma_lower_hex_digits(vid_a as nat, vid_b as nat, 4);
            text::lemma_lower_hex_digits(vid_b as nat, vid_a as nat, 4);
            text::lemma_lower_hex_digits(pid_a as nat, pid_b as nat, 4);
            text::lemma_lower_hex_digits(pid_b as nat, pid_a as nat, 4);
            let start_a = "serial:usb:"@ + text::lower_hex_digits(vid_a as nat, 4);
            let start_b = "serial:usb:"@ + text::lower_hex_digits(vid_b as nat, 4);
            let middle_a = start_a + ":"@ + text::lower_hex_digits(pid_a as nat, 4);
            let middle_b = start_b + ":"@ + text::lower_hex_digits(pid_b as nat, 4);
            text::lemma_same_parts(
                middle_a + ":"@,
                middle_b + ":"@,
                text::encoded_segment(a),
                text::encoded_segment(b),
            );
            text::lemma_same_parts(middle_a, middle_b, ":"@, ":"@);
            text::lemma_same_parts(
                start_a + ":"@,
                start_b + ":"@,
                text::lower_hex_digits(pid_a as nat, 4),
                text::lower_hex_digits(pid_b as nat, 4),
            );
            text::lemma_same_parts(start_a, start_b, ":"@, ":"@);
            text::lemma_same_start(
                "serial:usb:"@,
                text::lower_hex_digits(vid_a as nat, 4),
                text::lower_hex_digits(vid_b as nat, 4),
            );
            text::law_encodings_are_distinct(a, b);
        },
        (None, None) => {
            text::lemma_same_start(
                "serial:endpoint:"@,
                text::encoded_segment(endpoint_a),
                text::encoded_segment(endpoint_b),
            );
            text::law_encodings_are_distinct(endpoint_a, endpoint_b);
        },
        _ => {},
    }
}

/// A USB port whose device has a serial number has a strong identity made of vendor, product and
/// serial number; any other port has a weak one made of its endpoint.
pub proof fn law_identity_rests_on_the_serial_number(
    endpoint: Seq<char>,
    vid: u16,
    pid: u16,
    serial_number: Option<Seq<char>>,
)
    ensures
        ({
            let (id, quality) = usb_identity(endpoint, vid, pid, serial_number);
            let serial = text::spec_non_empty(serial_number);
            let plain = "serial:endpoint:"@ + text::encoded_segment(endpoint);
            &&& quality == IdentityQuality::Strong <==> serial is Some
            &&& quality == IdentityQuality::Weak <==> serial is None
            &&& serial is Some ==> id == "serial:usb:"@ + text::lower_hex_digits(vid as nat, 4)
                + ":"@ + text::lower_hex_digits(pid as nat, 4) + ":"@ + text::encoded_segment(
                serial->0,
            )
            &&& serial is None ==> id == plain
            &&& endpoint_identity(endpoint) == (plain, IdentityQuality::Weak)
        }),
{
}

} // verus!
