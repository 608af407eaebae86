use ssdp::header::SSDPHeader;

use ssdp::header::BootID;

#[test]
fn positive_bootid() {
    let bootid_header_value = &[b"1216907400"[..].to_vec()];

    BootID::parse_header(bootid_header_value).unwrap();
}

#[test]
fn positive_leading_zeros() {
    let bootid_header_value = &[b"0000001216907400"[..].to_vec()];

    BootID::parse_header(bootid_header_value).unwrap();
}

#[test]
fn bootid_positive_lower_bound() {
    let bootid_header_value = &[b"0"[..].to_vec()];

    BootID::parse_header(bootid_header_value).unwrap();
}

#[test]
fn bootid_positive_upper_bound() {
    let bootid_header_value = &[b"2147483647"[..].to_vec()];

    BootID::parse_header(bootid_header_value).unwrap();
}

#[test]
fn bootid_positive_negative_zero() {
    let bootid_header_value = &[b"-0"[..].to_vec()];

    BootID::parse_header(bootid_header_value).unwrap();
}

#[test]
#[should_panic]
fn bootid_negative_overflow() {
    let bootid_header_value = &[b"2290649224"[..].to_vec()];

    BootID::parse_header(bootid_header_value).unwrap();
}

#[test]
#[should_panic]
fn bootid_negative_negative_overflow() {
    let bootid_header_value = &[b"-2290649224"[..].to_vec()];

    BootID::parse_header(bootid_header_value).unwrap();
}

#[test]
#[should_panic]
fn bootid_negative_nan() {
    let bootid_header_value = &[b"2290wow649224"[..].to_vec()];

    BootID::parse_header(bootid_header_value).unwrap();
}
