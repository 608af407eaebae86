//! Simple Service Discovery Protocol (SSDP): the message layer of UPnP discovery.
//!
//! The library holds the parts of SSDP that decide: the header values and their
//! wire form, the validation of received datagrams, and the choices made when
//! sending. Sockets and threads are left to the caller.

pub mod error;
pub mod field;
pub mod header;
pub mod message;
pub mod net;
pub mod receiver;
pub mod text;

pub use error::SSDPError;
pub use field::FieldMap;
pub use net::IpVersionMode;
