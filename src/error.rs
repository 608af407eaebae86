//! The ways an SSDP message can be refused.

use vstd::prelude::*;

verus! {

/// Enumerates the errors that can occur when dealing with an SSDP message.
#[derive(Clone, Debug, PartialEq, Eq)]
pub enum SSDPError {
    /// Message is not valid HTTP; the message is supplied as bytes.
    InvalidHttp(Vec<u8>),
    /// Message did not specify HTTP/1.1 as version.
    InvalidHttpVersion,
    /// Message consists of an error code, which is supplied.
    ResponseCode(u16),
    /// Method supplied is not a valid SSDP method; the method is supplied.
    InvalidMethod(String),
    /// Uri supplied is not a valid SSDP uri; the uri is supplied.
    InvalidUri(String),
    /// Header is missing from the message; the expected header is supplied.
    MissingHeader(&'static str),
    /// Header has an invalid value; the header name and a reason are supplied.
    InvalidHeader(&'static str, &'static str),
    /// Message is valid SSDP but not of the kind that was asked for.
    UnexpectedMessage,
}

/// What an `SSDPError` holds, as bytes and text.
pub enum SSDPErrorView {
    InvalidHttp(Seq<u8>),
    InvalidHttpVersion,
    ResponseCode(u16),
    InvalidMethod(Seq<char>),
    InvalidUri(Seq<char>),
    MissingHeader(Seq<char>),
    InvalidHeader(Seq<char>, Seq<char>),
    UnexpectedMessage,
}

impl View for SSDPError {
    type V = SSDPErrorView;

    open spec fn view(&self) -> SSDPErrorView {
        match self {
            SSDPError::InvalidHttp(b) => SSDPErrorView::InvalidHttp(b@),
            SSDPError::InvalidHttpVersion => SSDPErrorView::InvalidHttpVersion,
            SSDPError::ResponseCode(c) => SSDPErrorView::ResponseCode(*c),
            SSDPError::InvalidMethod(m) => SSDPErrorView::InvalidMethod(m@),
            SSDPError::InvalidUri(u) => SSDPErrorView::InvalidUri(u@),
            SSDPError::MissingHeader(h) => SSDPErrorView::MissingHeader(h@),
            SSDPError::InvalidHeader(h, m) => SSDPErrorView::InvalidHeader(h@, m@),
            SSDPError::UnexpectedMessage => SSDPErrorView::UnexpectedMessage,
        }
    }
}

} // verus!
