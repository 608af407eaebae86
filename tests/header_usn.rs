use ssdp::header::SSDPHeader;

use ssdp::header::USN;
use ssdp::FieldMap::{UPnP, UUID, URN, Unknown};

#[test]
fn positive_double_pair() {
    let double_pair_header = &["uuid:device-UUID::upnp:rootdevice".to_string().into_bytes()];
    let USN(first, second) = USN::parse_header(double_pair_header).unwrap();

    match first {
        UUID(n) => assert_eq!(n, "device-UUID"),
        _ => panic!("Didnt Match uuid"),
    };

    match second.unwrap() {
        UPnP(n) => assert_eq!(n, "rootdevice"),
        _ => panic!("Didnt Match upnp"),
    };
}

#[test]
fn positive_single_pair() {
    let single_pair_header = &["urn:device-URN".to_string().into_bytes()];
    let USN(first, second) = USN::parse_header(single_pair_header).unwrap();

    match first {
        URN(n) => assert_eq!(n, "device-URN"),
        _ => panic!("Didnt Match urn"),
    };

    assert!(second.is_none());
}

#[test]
fn positive_trailing_double_colon() {
    let trailing_double_colon_header = &["upnp:device-UPnP::".to_string().into_bytes()];
    let USN(first, second) = USN::parse_header(trailing_double_colon_header).unwrap();

    match first {
        UPnP(n) => assert_eq!(n, "device-UPnP"),
        _ => panic!("Didnt Match upnp"),
    };

    assert!(second.is_none());
}

#[test]
fn positive_trailing_single_colon() {
    let trailing_single_colon_header = &["some-key:device-UPnP:".to_string().into_bytes()];
    let USN(first, second) = USN::parse_header(trailing_single_colon_header).unwrap();

    match first {
        Unknown(k, v) => {
            assert_eq!(k, "some-key");
            assert_eq!(v, "device-UPnP");
        }
        _ => panic!("Didnt Match upnp"),
    };

    assert!(second.is_none());
}

#[test]
#[should_panic]
fn usn_negative_empty() {
    let empty_header = &["".to_string().into_bytes()];

    USN::parse_header(empty_header).unwrap();
}

#[test]
#[should_panic]
fn negative_colon() {
    let colon_header = &[":".to_string().into_bytes()];

    USN::parse_header(colon_header).unwrap();
}

#[test]
#[should_panic]
fn usn_negative_double_colon() {
    let double_colon_header = &["::".to_string().into_bytes()];

    USN::parse_header(double_colon_header).unwrap();
}

#[test]
#[should_panic]
fn negative_double_colon_value() {
    let double_colon_value_header = &["uuid:::".to_string().into_bytes()];

    USN::parse_header(double_colon_value_header).unwrap();
}
