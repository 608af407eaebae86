use ssdp::message::{fan_out_succeeded, Config};
use ssdp::net::{rewrite_request_target, IpAddress};
use ssdp::receiver::{worker_step, ReadOutcome, WorkerStep};
use ssdp::IpVersionMode;

#[test]
fn rewrite_first_slash_only() {
    assert_eq!(rewrite_request_target(b"M-SEARCH / HTTP/1.1\r\n"), b"M-SEARCH * HTTP/1.1\r\n".to_vec());
    assert_eq!(rewrite_request_target(b"NOTIFY / HTTP/1.1\r\nLOCATION: http://a/b\r\n"),
               b"NOTIFY * HTTP/1.1\r\nLOCATION: http://a/b\r\n".to_vec());
    assert_eq!(rewrite_request_target(b"HTTP/1.1 200 OK\r\n"), b"HTTP/1.1 200 OK\r\n".to_vec());
    assert_eq!(rewrite_request_target(b"no slash"), b"no slash".to_vec());
    assert_eq!(rewrite_request_target(b""), Vec::<u8>::new());
}

#[test]
fn ip_classification() {
    assert!(IpAddress::V4([127, 0, 0, 1]).is_loopback());
    assert!(!IpAddress::V4([192, 168, 1, 2]).is_global());
    assert!(IpAddress::V4([8, 8, 8, 8]).is_global());
    assert!(IpAddress::V4([192, 0, 0, 9]).is_global());
    assert!(!IpAddress::V4([100, 64, 0, 1]).is_global());
    assert!(!IpAddress::V4([198, 19, 0, 1]).is_global());
    assert!(!IpAddress::V4([240, 0, 0, 1]).is_global());
    assert!(!IpAddress::V4([0, 1, 2, 3]).is_global());
    assert!(IpAddress::V6([0, 0, 0, 0, 0, 0, 0, 1]).is_loopback());
    assert!(!IpAddress::V6([0xfe80, 0, 0, 0, 1, 2, 3, 4]).is_global());
    assert!(IpAddress::V6([0x2a00, 0x1450, 0, 0, 0, 0, 0, 1]).is_global());
    assert!(!IpAddress::V6([0x2001, 0xdb8, 0, 0, 0, 0, 0, 1]).is_global());
    assert!(IpAddress::V6([0xff0e, 0, 0, 0, 0, 0, 0, 1]).is_global());
    assert!(!IpAddress::V6([0xff02, 0, 0, 0, 0, 0, 0, 0xc]).is_global());
}

#[test]
fn ssdp_candidates() {
    assert!(IpAddress::V4([192, 168, 1, 2]).is_ssdp_candidate());
    assert!(IpAddress::V4([8, 8, 8, 8]).is_ssdp_candidate());
    assert!(!IpAddress::V4([127, 0, 0, 1]).is_ssdp_candidate());
    assert!(IpAddress::V6([0xfe80, 0, 0, 0, 1, 2, 3, 4]).is_ssdp_candidate());
    assert!(!IpAddress::V6([0x2a00, 0x1450, 0, 0, 0, 0, 0, 1]).is_ssdp_candidate());
    assert!(!IpAddress::V6([0, 0, 0, 0, 0, 0, 0, 1]).is_ssdp_candidate());
}

#[test]
fn modes_admit_families() {
    assert!(IpVersionMode::Any.admits(true) && IpVersionMode::Any.admits(false));
    assert!(IpVersionMode::V4Only.admits(true) && !IpVersionMode::V4Only.admits(false));
    assert!(!IpVersionMode::V6Only.admits(true) && IpVersionMode::V6Only.admits(false));
    assert_eq!(IpVersionMode::from_family(true), IpVersionMode::V4Only);
    assert_eq!(IpVersionMode::from_family(false), IpVersionMode::V6Only);
}

#[test]
fn worker_steps() {
    assert_eq!(worker_step(ReadOutcome::Datagram { parsed: true }), WorkerStep::Deliver);
    assert_eq!(worker_step(ReadOutcome::Datagram { parsed: false }), WorkerStep::Skip);
    assert_eq!(worker_step(ReadOutcome::TimedOut), WorkerStep::Stop);
    assert_eq!(worker_step(ReadOutcome::Failed), WorkerStep::Skip);
}

#[test]
fn fan_out() {
    assert!(fan_out_succeeded(1, 3));
    assert!(!fan_out_succeeded(0, 2));
    assert!(fan_out_succeeded(0, 0));
}

#[test]
fn config_defaults_and_setters() {
    let c = Config::new();
    assert_eq!(c.ipv4_addr, "239.255.255.250");
    assert_eq!(c.ipv6_addr, "FF02::C");
    assert_eq!(c.port, 1900);
    assert_eq!(c.ttl, 2);
    assert_eq!(c.mode, IpVersionMode::Any);
    let c = Config::default().set_port(1901).set_ttl(4).set_mode(IpVersionMode::V4Only)
        .set_ipv4_addr("239.0.0.1").set_ipv6_addr("FF05::C");
    assert_eq!((c.port, c.ttl, c.mode), (1901, 4, IpVersionMode::V4Only));
    assert_eq!((c.ipv4_addr.as_str(), c.ipv6_addr.as_str()), ("239.0.0.1", "FF05::C"));
}
