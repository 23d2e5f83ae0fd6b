use robot_hal::resource::{
    endpoint_position, resolve_resource, Capability, IdentityQuality, ResourceDescriptor,
    ResourceId, ResourceProperties, TransportKind,
};
use robot_hal::text::{
    decimal, encode, encode_segment, index_of, non_empty, parse_u32, push_byte_hex,
    push_lower_hex, push_short_upper_hex, push_unreserved_encoded, push_upper_hex, show_bool,
    signed_decimal,
};

#[test]
fn digits_are_written() {
    assert_eq!(decimal(0), "0");
    assert_eq!(decimal(u64::MAX), u64::MAX.to_string());
    assert_eq!(signed_decimal(i32::MIN), i32::MIN.to_string());
    let mut out = String::new();
    push_upper_hex(&mut out, 0xabc, 4);
    push_lower_hex(&mut out, 0xabc, 8);
    push_short_upper_hex(&mut out, 0x1f);
    push_byte_hex(&mut out, &[0, 0xff]);
    assert_eq!(out, "0ABC00000abc1F00ff");
    assert_eq!(show_bool(true), "true");
}

#[test]
fn numbers_are_read_as_the_standard_library_reads_them() {
    for text in ["", "+", "-1", "0", "+7", "007", "4294967295", "4294967296", "1a", "٣"] {
        assert_eq!(parse_u32(text), text.parse::<u32>().ok(), "{text}");
    }
    assert_eq!(index_of("a=b", '='), 1);
    assert_eq!(index_of("ab", '='), 2);
}

#[test]
fn texts_are_encoded() {
    assert_eq!(encode_segment("a:b/c ü"), "a%3Ab%2Fc%20%C3%BC");
    assert_eq!(encode("a:b(c)"), "a%3Ab(c)");
    let mut out = String::from("x:");
    push_unreserved_encoded(&mut out, "a b~");
    assert_eq!(out, "x:a%20b~");
    assert_ne!(encode("%41"), encode("A"));
    assert_eq!(non_empty(&Some("\u{3000}x\t".to_owned())), Some("x"));
    assert_eq!(non_empty(&Some(" \n".to_owned())), None);
}

fn descriptor(id: &str, endpoint: &str, capabilities: Vec<Capability>) -> ResourceDescriptor {
    ResourceDescriptor {
        id: ResourceId::new(id.to_owned()),
        endpoint: endpoint.to_owned(),
        quality: IdentityQuality::Weak,
        transport: TransportKind::Can,
        properties: ResourceProperties::new(),
        capabilities,
    }
}

#[test]
fn resources_are_resolved_by_identity_and_capability() {
    let descriptors = vec![
        descriptor("a", "x", vec![]),
        descriptor("a", "y", vec![Capability::CanFd]),
    ];
    let id = ResourceId::new("a".to_owned());
    assert_eq!(
        resolve_resource(&descriptors, &id, Capability::CanFd, "can.open").unwrap(),
        1
    );
    let error =
        resolve_resource(&descriptors, &id, Capability::CanClassic, "can.open").unwrap_err();
    assert_eq!(error.name(), "runtime.resource.not_found");
    assert_eq!(endpoint_position(&descriptors, "y"), Some(1));
    assert_eq!(endpoint_position(&descriptors, "z"), None);
}

#[test]
fn properties_keep_the_last_value() {
    let mut properties = ResourceProperties::new();
    properties.insert_text("b", "1");
    properties.insert_text("a", "2");
    properties.insert_text("b", "3");
    assert_eq!(properties.get("b"), Some("3"));
    assert_eq!(properties.get("a"), Some("2"));
    assert_eq!(properties.get("c"), None);
}
