use hyper::header::Headers;
use hyper::server::response::Response;
use hyper::status::StatusCode;

use ssdp::header::{HeaderMut, HeaderRef, Man, MX, NT, NTS, ST, USN};
use ssdp::message::{MessageType, NotifyMessage, SearchRequest, SearchResponse};
use ssdp::net::rewrite_request_target;
use ssdp::receiver::FromRawSSDP;
use ssdp::FieldMap;

/// The bytes a stream-oriented HTTP writer emits for a request to `/`.
fn request_bytes(method: &str, headers: &Headers) -> Vec<u8> {
    let mut text = format!("{} / HTTP/1.1\r\nHost: 239.255.255.250:1900\r\n", method);
    for view in headers.iter() {
        text.push_str(&format!("{}: {}\r\n", view.name(), view.value_string()));
    }
    text.push_str("Content-Length: 0\r\n\r\n");
    rewrite_request_target(text.as_bytes())
}

#[test]
fn search_round_trip_codec() {
    let mut request = SearchRequest::new();
    request.set(Man);
    request.set(MX(5));
    request.set(ST::All);
    let datagram = request_bytes(MessageType::Search.method_name().unwrap(), request.headers());
    assert!(datagram.starts_with(b"M-SEARCH * HTTP/1.1\r\n"));

    let received = SearchRequest::raw_ssdp(&datagram).unwrap();
    assert_eq!(received.get::<MX>(), Some(MX(5)));
    assert_eq!(received.get::<Man>(), Some(Man));
    assert_eq!(received.get::<ST>(), Some(ST::All));
    assert!(received.get_raw("Host").is_some());

    let mut response = SearchResponse::new();
    response.set_raw("LOCATION", vec![b"http://192.0.2.1:80/d.xml".to_vec()]);
    let mut out = Vec::new();
    {
        let mut headers = Headers::new();
        for view in response.headers().iter() {
            headers.set_raw(view.name().to_owned(), vec![view.value_string().into_bytes()]);
        }
        let mut writer = Response::new(&mut out, &mut headers);
        *writer.status_mut() = StatusCode::Ok;
        writer.start().unwrap().end().unwrap();
    }
    let answer = SearchResponse::raw_ssdp(&out).unwrap();
    assert_eq!(answer.get_raw("location").unwrap(), &[b"http://192.0.2.1:80/d.xml".to_vec()][..]);
}

#[test]
fn notify_byebye_codec() {
    let mut notify = NotifyMessage::new();
    notify.set(NTS::ByeBye);
    notify.set(NT(FieldMap::upnp("rootdevice")));
    notify.set(USN(FieldMap::uuid("abc"), None));
    let datagram = request_bytes(MessageType::Notify.method_name().unwrap(), notify.headers());
    assert!(datagram.starts_with(b"NOTIFY * HTTP/1.1\r\n"));

    let received = NotifyMessage::raw_ssdp(&datagram).unwrap();
    assert_eq!(received.get::<NTS>(), Some(NTS::ByeBye));
    assert_eq!(received.get::<USN>(), Some(USN(FieldMap::uuid("abc"), None)));
    assert_eq!(received.get::<NT>(), Some(NT(FieldMap::upnp("rootdevice"))));
}
