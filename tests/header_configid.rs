use ssdp::header::SSDPHeader;

use ssdp::header::ConfigID;

#[test]
fn positive_configid() {
    let configid_header_value = &[b"1777215"[..].to_vec()];

    ConfigID::parse_header(configid_header_value).unwrap();
}

#[test]
fn positive_reserved() {
    let configid_header_value = &[b"20720000"[..].to_vec()];

    ConfigID::parse_header(configid_header_value).unwrap();
}

#[test]
fn configid_positive_lower_bound() {
    let configid_header_value = &[b"0"[..].to_vec()];

    ConfigID::parse_header(configid_header_value).unwrap();
}

#[test]
fn configid_positive_upper_bound() {
    let configid_header_value = &[b"2147483647"[..].to_vec()];

    ConfigID::parse_header(configid_header_value).unwrap();
}

#[test]
fn configid_positive_negative_zero() {
    let configid_header_value = &[b"-0"[..].to_vec()];

    ConfigID::parse_header(configid_header_value).unwrap();
}

#[test]
#[should_panic]
fn configid_negative_overflow() {
    let configid_header_value = &[b"2290649224"[..].to_vec()];

    ConfigID::parse_header(configid_header_value).unwrap();
}

#[test]
#[should_panic]
fn configid_negative_negative_overflow() {
    let configid_header_value = &[b"-2290649224"[..].to_vec()];

    ConfigID::parse_header(configid_header_value).unwrap();
}

#[test]
#[should_panic]
fn configid_negative_nan() {
    let configid_header_value = &[b"2290wow649224"[..].to_vec()];

    ConfigID::parse_header(configid_header_value).unwrap();
}
