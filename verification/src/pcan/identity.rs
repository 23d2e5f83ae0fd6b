//! Stable identities of PCAN channels.

use vstd::prelude::*;
use vstd::string::*;

use crate::error::HalResult;
use crate::resource::{IdentityQuality, ResourceId};
use crate::text;
use crate::text::push_upper_hex;

verus! {

/// What is known about a channel.
#[derive(Clone, Debug, PartialEq, Eq)]
pub struct PcanChannelMetadata {
    pub handle: u16,
    pub device_type: u8,
    pub controller_number: u8,
    pub device_name: Option<String>,
    pub device_id: Option<u32>,
}

/// The identity of a channel.
#[derive(Clone, Debug, PartialEq, Eq)]
pub struct PcanIdentity {
    pub id: ResourceId,
    pub quality: IdentityQuality,
}

/// A vendor device identifier that tells devices apart; zero does not.
pub open spec fn device_evidence(device_id: Option<u32>) -> Option<u32> {
    if device_id == Some(0u32) {
        None
    } else {
        device_id
    }
}

/// The text of a channel's identity: by the vendor's device identifier where there is one, else by
/// the handle. A hardware name says which model a device is and not which device.
pub open spec fn identity_text(
    handle: u16,
    device_type: u8,
    controller_number: u8,
    device_id: Option<u32>,
) -> Seq<char> {
    match device_evidence(device_id) {
        Some(device_id) => "can:pcan:device:"@ + text::upper_hex_digits(device_type as nat, 2)
            + ":"@ + text::upper_hex_digits(device_id as nat, 8) + ":"@ + text::upper_hex_digits(
            controller_number as nat,
            2,
        ),
        None => "can:pcan:handle:"@ + text::upper_hex_digits(handle as nat, 4),
    }
}

/// The quality of a channel's identity.
pub open spec fn identity_quality(device_id: Option<u32>) -> IdentityQuality {
    if device_evidence(device_id) is Some {
        IdentityQuality::Strong
    } else {
        IdentityQuality::Weak
    }
}

/// The identity of a channel.
pub fn identity_from_metadata(metadata: &PcanChannelMetadata) -> (result: HalResult<PcanIdentity>)
    ensures
        result is Ok,
        result->Ok_0.id@ == identity_text(
            metadata.handle,
            metadata.device_type,
            metadata.controller_number,
            metadata.device_id,
        ),
        result->Ok_0.quality == identity_quality(metadata.device_id),
{
    if let Some(device_id) = metadata.device_id {
        if device_id != 0 {
            let mut id = "can:pcan:device:".to_owned();
            push_upper_hex(&mut id, metadata.device_type as u32, 2);
            id.append(":");
            push_upper_hex(&mut id, device_id, 8);
            id.append(":");
            push_upper_hex(&mut id, metadata.controller_number as u32, 2);
            return Ok(
                PcanIdentity { id: ResourceId::new(id), quality: IdentityQuality::Strong },
            );
        }
    }
    let mut id = "can:pcan:handle:".to_owned();
    push_upper_hex(&mut id, metadata.handle as u32, 4);
    Ok(PcanIdentity { id: ResourceId::new(id), quality: IdentityQuality::Weak })
}

/// Channels with a vendor's device identifier have the same identity only where device type, device
/// identifier and controller are the same, channels without only where their handles are the same,
/// and one of each never.
pub proof fn law_identities_are_distinct(
    handle_a: u16,
    type_a: u8,
    controller_a: u8,
    device_a: Option<u32>,
    handle_b: u16,
    type_b: u8,
    controller_b: u8,
    device_b: Option<u32>,
)
    requires
        identity_text(handle_a, type_a, controller_a, device_a) == identity_text(
            handle_b,
            type_b,
            controller_b,
            device_b,
        ),
    ensures
        device_evidence(device_a) == device_evidence(device_b),
        device_evidence(device_a) is Some ==> type_a == type_b && controller_a == controller_b,
        device_evidence(device_a) is None ==> handle_a == handle_b,
{
    reveal_strlit("can:pcan:device:");
    reveal_strlit("can:pcan:handle:");
    let id_a = identity_text(handle_a, type_a, controller_a, device_a);
    let id_b = identity_text(handle_b, type_b, controller_b, device_b);
    assert(id_a[9] == id_b[9]);
    text::lemma_powers_of_sixteen();
    match (device_evidence(device_a), device_evidence(device_b)) {
        (Some(a), Some(b)) => {
            text::lemma_upper_hex_digits(type_a as nat, type_b as nat, 2);
            text::lemma_upper_hex_digits(type_b as nat, type_a as nat, 2);
            text::lemma_upper_hex_digits(a as nat, b as nat, 8);
            text::lemma_upper_hex_digits(b as nat, a as nat, 8);
            text::lemma_upper_hex_digits(controller_a as nat, controller_b as nat, 2);
            text::lemma_upper_hex_digits(controller_b as nat, controller_a as nat, 2);
            let start_a = "can:pcan:device:"@ + text::upper_hex_digits(type_a as nat, 2);
            let start_b = "can:pcan:device:"@ + text::upper_hex_digits(type_b as nat, 2);
            let middle_a = start_a + ":"@ + text::upper_hex_digits(a as nat, 8);
            let middle_b = start_b + ":"@ + text::upper_hex_digits(b as nat, 8);
            text::lemma_same_parts(
                middle_a + ":"@,
                middle_b + ":"@,
                text::upper_hex_digits(controller_a as nat, 2),
                text::upper_hex_digits(controller_b as nat, 2),
            );
            text::lemma_same_parts(middle_a, middle_b, ":"@, ":"@);
            text::lemma_same_parts(
                start_a + ":"@,
                start_b + ":"@,
                text::upper_hex_digits(a as nat, 8),
                text::upper_hex_digits(b as nat, 8),
            );
            text::lemma_same_parts(start_a, start_b, ":"@, ":"@);
            text::lemma_same_start(
                "can:pcan:device:"@,
                text::upper_hex_digits(type_a as nat, 2),
                text::upper_hex_digits(type_b as nat, 2),
            );
        },
        (None, None) => {
            text::lemma_upper_hex_digits(handle_a as nat, handle_b as nat, 4);
            text::lemma_same_start(
                "can:pcan:handle:"@,
                text::upper_hex_digits(handle_a as nat, 4),
                text::upper_hex_digits(handle_b as nat, 4),
            );
        },
        _ => {},
    }
}

/// A channel with a vendor identifier that is not zero has a strong identity made of the type, the
/// identifier and the controller; any other has a weak one made of its handle.
pub proof fn law_identity_rests_on_the_vendor_identifier(
    handle: u16,
    device_type: u8,
    controller_number: u8,
    device_id: Option<u32>,
)
    ensures
        ({
            let id = identity_text(handle, device_type, controller_number, device_id);
            let known = device_id is Some && device_id->0 != 0;
            &&& identity_quality(device_id) == IdentityQuality::Strong <==> known
            &&& identity_quality(device_id) == IdentityQuality::Weak <==> !known
            &&& known ==> id == "can:pcan:device:"@ + text::upper_hex_digits(device_type as nat, 2)
                + ":"@ + text::upper_hex_digits(device_id->0 as nat, 8) + ":"@
                + text::upper_hex_digits(controller_number as nat, 2)
            &&& !known ==> id == "can:pcan:handle:"@ + text::upper_hex_digits(handle as nat, 4)
        }),
{
}

} // verus!
