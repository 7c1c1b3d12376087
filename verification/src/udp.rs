//! The tracker protocol: wire format, per-device sessions and the server
//! that routes datagrams to them.

pub mod client;
pub mod packet;
pub mod device;
pub mod server;
