//! Core of a motion-capture server: the tracker wire protocol, per-device
//! sessions, the tracker registry, the bone hierarchy with its orientation
//! fallback rules, and the shape of the messages published downstream.
//!
//! Nothing here touches a socket, a clock or floating-point arithmetic. Times
//! are nanosecond counts on a monotonic clock that the caller reads, and
//! every real number is carried as the bits of an IEEE-754 binary32 value.

pub mod address;
pub mod config;
pub mod id_map;
pub mod looper;
pub mod main_server;
pub mod math;
pub mod osc;
pub mod registry;
pub mod skeleton;
pub mod text;
pub mod tracker;
pub mod udp;
pub mod websocket;
