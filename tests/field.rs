use ssdp::FieldMap;

#[test]
fn positive_non_utf8() {
    let uuid_pair = FieldMap::parse_bytes(&b"uuid:some_value_\x80"[..]).unwrap();
    assert_eq!(uuid_pair, FieldMap::uuid(&String::from_utf8_lossy(&b"some_value_\x80".to_vec())));
}

#[test]
fn positive_unknown_non_utf8() {
    let unknown_pair = FieldMap::parse_bytes(&b"some_key\x80:some_value_\x80"[..]).unwrap();
    assert_eq!(unknown_pair,
               FieldMap::unknown(&String::from_utf8_lossy(&b"some_key\x80".to_vec()),
                                 &String::from_utf8_lossy(&b"some_value_\x80".to_vec())));
}

#[test]
fn field_positive_upnp() {
    let upnp_pair = FieldMap::new("upnp:some_value").unwrap();
    assert_eq!(upnp_pair, FieldMap::upnp("some_value"));
}

#[test]
fn field_positive_uuid() {
    let uuid_pair = FieldMap::new("uuid:some_value").unwrap();
    assert_eq!(uuid_pair, FieldMap::uuid("some_value"));
}

#[test]
fn field_positive_urn() {
    let urn_pair = FieldMap::new("urn:some_value").unwrap();
    assert_eq!(urn_pair, FieldMap::urn("some_value"));
}

#[test]
fn field_positive_unknown() {
    let unknown_pair = FieldMap::new("some_key:some_value").unwrap();
    assert_eq!(unknown_pair, FieldMap::unknown("some_key", "some_value"));
}

#[test]
#[should_panic]
fn field_negative_no_colon() {
    FieldMap::new("upnpsome_value").unwrap();
}

#[test]
fn field_rejects_empty_sides() {
    assert_eq!(FieldMap::new("upnp:"), None);
    assert_eq!(FieldMap::new(":value"), None);
    assert_eq!(FieldMap::new(""), None);
    assert_eq!(FieldMap::new(":"), None);
}

#[test]
fn field_splits_at_first_colon() {
    assert_eq!(FieldMap::new("uuid::abc"), Some(FieldMap::uuid(":abc")));
    assert_eq!(FieldMap::new("a:b:c"), Some(FieldMap::unknown("a", "b:c")));
}

#[test]
fn field_keys_are_case_sensitive() {
    assert_eq!(FieldMap::new("UPNP:x"), Some(FieldMap::unknown("UPNP", "x")));
    assert_eq!(FieldMap::new("Uuid:x"), Some(FieldMap::unknown("Uuid", "x")));
}

#[test]
fn field_format_each_kind() {
    assert_eq!(FieldMap::upnp("rootdevice").to_string(), "upnp:rootdevice");
    assert_eq!(FieldMap::uuid("abc").to_string(), "uuid:abc");
    assert_eq!(FieldMap::urn("schemas-upnp-org:device:printer:1").to_string(),
               "urn:schemas-upnp-org:device:printer:1");
    assert_eq!(FieldMap::unknown("max-age", "1500").to_string(), "max-age:1500");
}

#[test]
fn field_round_trip_values() {
    let fields = vec![
        FieldMap::upnp("rootdevice"),
        FieldMap::uuid("a984bc8c-aaf0-5dff-b980-00d098bda247"),
        FieldMap::urn("schemas-upnp-org:service:ContentDirectory:1"),
        FieldMap::unknown("some-key", "välue::with colons"),
    ];
    for f in fields {
        assert_eq!(FieldMap::new(&f.to_string()), Some(f.clone()));
        assert_eq!(FieldMap::parse_bytes(f.to_string().as_bytes()), Some(f));
    }
}

#[test]
fn field_invalid_utf8_key_is_replaced() {
    let pair = FieldMap::parse_bytes(&b"\xffkey:v"[..]).unwrap();
    assert_eq!(pair, FieldMap::unknown("\u{fffd}key", "v"));
}

#[test]
fn field_classifies_key_text() {
    assert_eq!(FieldMap::from_key_value("uuid".to_string(), "x".to_string()), FieldMap::uuid("x"));
    assert_eq!(FieldMap::from_key_value("urn".to_string(), "x".to_string()), FieldMap::urn("x"));
    assert_eq!(FieldMap::from_key_value("upnp".to_string(), "x".to_string()), FieldMap::upnp("x"));
    assert_eq!(FieldMap::from_key_value("\u{fffd}".to_string(), "x".to_string()),
               FieldMap::unknown("\u{fffd}", "x"));
}
