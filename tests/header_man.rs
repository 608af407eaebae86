use ssdp::header::SSDPHeader;

use ssdp::header::Man;

#[test]
fn positive_man() {
    let man_header = &[b"\"ssdp:discover\""[..].to_vec()];

    Man::parse_header(man_header).unwrap();
}

#[test]
#[should_panic]
fn negative_wrong_case() {
    let wrong_case_man_header = &[b"\"SSDP:discover\""[..].to_vec()];

    Man::parse_header(wrong_case_man_header).unwrap();
}

#[test]
#[should_panic]
fn negative_missing_quotes() {
    let missing_quotes_man_header = &[b"ssdp:discover"[..].to_vec()];

    Man::parse_header(missing_quotes_man_header).unwrap();
}
