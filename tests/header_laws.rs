use ssdp::header::{BootID, ConfigID, Man, SSDPHeader, SearchPort, SecureLocation, MX, NT, ST, USN};
use ssdp::FieldMap;

fn line(s: &[u8]) -> Vec<Vec<u8>> {
    vec![s.to_vec()]
}

#[test]
fn mx_boundaries() {
    assert_eq!(MX::parse_header(&line(b"1")), Ok(MX(1)));
    assert_eq!(MX::parse_header(&line(b"120")), Ok(MX(120)));
    assert!(MX::parse_header(&line(b"0")).is_err());
    assert!(MX::parse_header(&line(b"121")).is_err());
    assert_eq!(MX::parse_header(&line(b"+7")), Ok(MX(7)));
    assert!(MX::parse_header(&line(b"")).is_err());
    assert!(MX::parse_header(&line(b"+")).is_err());
    assert!(MX::parse_header(&line(b"1000")).is_err());
}

#[test]
fn mx_new_bounds() {
    assert_eq!(MX::new(1), Ok(MX(1)));
    assert_eq!(MX::new(120), Ok(MX(120)));
    assert!(MX::new(0).is_err());
    assert!(MX::new(121).is_err());
}

#[test]
fn numeric_round_trips() {
    for n in [1u8, 5, 99, 120] {
        assert_eq!(MX::parse_header(&[MX(n).fmt_header()]), Ok(MX(n)));
    }
    for n in [49152u16, 50000, 65535] {
        assert_eq!(SearchPort::parse_header(&[SearchPort(n).fmt_header()]), Ok(SearchPort(n)));
    }
    for n in [0u32, 7, 1216907400, 2147483647] {
        assert_eq!(BootID::parse_header(&[BootID(n).fmt_header()]), Ok(BootID(n)));
        assert_eq!(ConfigID::parse_header(&[ConfigID(n).fmt_header()]), Ok(ConfigID(n)));
    }
    assert_eq!(BootID(1216907400).fmt_header(), b"1216907400".to_vec());
}

#[test]
fn searchport_boundaries() {
    assert_eq!(SearchPort::parse_header(&line(b"49152")), Ok(SearchPort(49152)));
    assert_eq!(SearchPort::parse_header(&line(b"65535")), Ok(SearchPort(65535)));
    assert!(SearchPort::parse_header(&line(b"49151")).is_err());
    assert!(SearchPort::parse_header(&line(b"65536")).is_err());
}

#[test]
fn bootid_boundaries() {
    assert_eq!(BootID::parse_header(&line(b"0")), Ok(BootID(0)));
    assert_eq!(BootID::parse_header(&line(b"2147483647")), Ok(BootID(2147483647)));
    assert!(BootID::parse_header(&line(b"2147483648")).is_err());
    assert!(BootID::parse_header(&line(b"2290649224")).is_err());
    assert_eq!(BootID::parse_header(&line(b"-0")), Ok(BootID(0)));
    assert_eq!(ConfigID::parse_header(&line(b"-000")), Ok(ConfigID(0)));
    assert!(ConfigID::parse_header(&line(b"-1")).is_err());
    assert!(ConfigID::parse_header(&line(b"-")).is_err());
    assert!(ConfigID::parse_header(&[b"1".to_vec(), b"2".to_vec()]).is_err());
}

#[test]
fn man_literal() {
    assert_eq!(Man::parse_header(&line(b"\"ssdp:discover\"")), Ok(Man));
    assert!(Man::parse_header(&line(b"\"SSDP:discover\"")).is_err());
    assert!(Man::parse_header(&line(b"ssdp:discover")).is_err());
    assert_eq!(Man.fmt_header(), b"\"ssdp:discover\"".to_vec());
}

#[test]
fn usn_both_pairs_round_trip() {
    let raw = b"uuid:device-UUID::upnp:rootdevice";
    let usn = USN::parse_header(&line(raw)).unwrap();
    assert_eq!(usn, USN(FieldMap::uuid("device-UUID"), Some(FieldMap::upnp("rootdevice"))));
    assert_eq!(usn.fmt_header(), raw.to_vec());
}

#[test]
fn usn_trailing_colons_fold_into_absence() {
    assert_eq!(USN::parse_header(&line(b"upnp:device-UPnP::")),
               Ok(USN(FieldMap::upnp("device-UPnP"), None)));
    assert_eq!(USN::parse_header(&line(b"upnp:device-UPnP:")),
               Ok(USN(FieldMap::upnp("device-UPnP"), None)));
}

#[test]
fn usn_bad_second_pair_is_refused() {
    assert!(USN::parse_header(&line(b"uuid:abc::nocolon")).is_err());
    assert!(USN::parse_header(&line(b"::upnp:rootdevice")).is_err());
}

#[test]
fn usn_round_trip_values() {
    let values = vec![
        USN(FieldMap::uuid("abc"), None),
        USN(FieldMap::uuid("abc"), Some(FieldMap::urn("schemas-upnp-org:device:printer:1"))),
        USN(FieldMap::unknown("key", "v"), Some(FieldMap::unknown("k2", "x::y"))),
    ];
    for v in values {
        assert_eq!(USN::parse_header(&[v.fmt_header()]), Ok(v));
    }
}

#[test]
fn nt_and_st_round_trip() {
    let nt = NT::new(FieldMap::urn("schemas-upnp-org:device:printer:1"));
    assert_eq!(NT::parse_header(&[nt.fmt_header()]), Ok(nt));
    assert_eq!(ST::parse_header(&[ST::All.fmt_header()]), Ok(ST::All));
    let st = ST::Target(FieldMap::upnp("rootdevice"));
    assert_eq!(ST::parse_header(&[st.fmt_header()]), Ok(st));
}

#[test]
fn securelocation_round_trip() {
    let loc = SecureLocation("https://192.168.1.1/ä".to_string());
    assert_eq!(SecureLocation::parse_header(&[loc.fmt_header()]), Ok(loc.clone()));
    assert_eq!(SecureLocation::parse_header(&line(b"https://h/")).unwrap().0, "https://h/");
}

#[test]
fn header_names() {
    assert_eq!(MX::header_name(), "MX");
    assert_eq!(BootID::header_name(), "BOOTID.UPNP.ORG");
    assert_eq!(ConfigID::header_name(), "CONFIGID.UPNP.ORG");
    assert_eq!(SearchPort::header_name(), "SEARCHPORT.UPNP.ORG");
    assert_eq!(SecureLocation::header_name(), "SECURELOCATION.UPNP.ORG");
    assert_eq!(Man::header_name(), "MAN");
    assert_eq!(USN::header_name(), "USN");
    assert_eq!(NT::header_name(), "NT");
    assert_eq!(ST::header_name(), "ST");
}
