use ssdp::header::SSDPHeader;

use ssdp::FieldMap;
use ssdp::header::ST;

#[test]
fn positive_all() {
    let st_all_header = &[b"ssdp:all"[..].to_vec()];

    match ST::parse_header(st_all_header) {
        Ok(ST::All) => (),
        _ => panic!("Failed To Match ST::All Header"),
    }
}

#[test]
fn positive_field_upnp() {
    let st_upnp_root_header = &[b"upnp:some_identifier"[..].to_vec()];

    match ST::parse_header(st_upnp_root_header) {
        Ok(ST::Target(FieldMap::UPnP(_))) => (),
        _ => panic!("Failed To Match ST::Target Header To FieldMap::UPnP"),
    }
}

#[test]
fn positive_field_urn() {
    let st_urn_root_header = &[b"urn:some_identifier"[..].to_vec()];

    match ST::parse_header(st_urn_root_header) {
        Ok(ST::Target(FieldMap::URN(_))) => (),
        _ => panic!("Failed To Match ST::Target Header To FieldMap::URN"),
    }
}

#[test]
fn positive_field_uuid() {
    let st_uuid_root_header = &[b"uuid:some_identifier"[..].to_vec()];

    match ST::parse_header(st_uuid_root_header) {
        Ok(ST::Target(FieldMap::UUID(_))) => (),
        _ => panic!("Failed To Match ST::Target Header To FieldMap::UUID"),
    }
}

#[test]
#[should_panic]
fn negative_multiple_headers() {
    let st_multiple_headers = &[b"uuid:some_identifier"[..].to_vec(), b"ssdp:all"[..].to_vec()];

    ST::parse_header(st_multiple_headers).unwrap();
}
