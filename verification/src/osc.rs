//! The messages published to avatar engines and VR clients.
//!
//! A message is an address and a list of arguments, as the Open Sound
//! Control protocol has them. What is worked out here is which messages one
//! tick makes and what they hold; encoding and sending them is the caller's
//! part.

use vstd::prelude::*;

pub mod vmc_connector;
pub mod vrchat_connector;

verus! {

/// `String::push_str` appends a string slice.
pub assume_specification[ String::push_str ](s: &mut String, other: &str)
    ensures
        final(s)@ == old(s)@ + other@,
;

/// One argument of a message.
#[derive(Debug)]
pub enum OscArg {
    Int(i32),
    /// A binary32 value, by its bits.
    Float(u32),
    Str(String),
}

/// An argument, apart from how its text is held in memory.
pub enum OscArgView {
    Int(i32),
    Float(u32),
    Str(Seq<char>),
}

impl View for OscArg {
    type V = OscArgView;

    open spec fn view(&self) -> OscArgView {
        match self {
            OscArg::Int(v) => OscArgView::Int(*v),
            OscArg::Float(v) => OscArgView::Float(*v),
            OscArg::Str(v) => OscArgView::Str(v@),
        }
    }
}

#[derive(Debug)]
pub struct OscMessage {
    pub addr: String,
    pub args: Vec<OscArg>,
}

/// A message, apart from how it is held in memory.
pub struct OscMessageView {
    pub addr: Seq<char>,
    pub args: Seq<OscArgView>,
}

impl View for OscMessage {
    type V = OscMessageView;

    open spec fn view(&self) -> OscMessageView {
        OscMessageView { addr: self.addr@, args: Seq::new(self.args@.len(), |i: int| self.args@[i]@) }
    }
}

/// What a list of messages holds.
pub open spec fn spec_views(messages: Seq<OscMessage>) -> Seq<OscMessageView> {
    Seq::new(messages.len(), |i: int| messages[i]@)
}

/// The three components of a vector as arguments.
pub open spec fn spec_vector_args(x: u32, y: u32, z: u32) -> Seq<OscArgView> {
    seq![OscArgView::Float(x), OscArgView::Float(y), OscArgView::Float(z)]
}

/// Which port the publisher's socket is connected to, if any.
pub struct OscConnector {
    pub peer_port: Option<u16>,
}

impl OscConnector {
    pub fn new() -> (r: OscConnector)
        ensures
            r.peer_port.is_none(),
    {
        OscConnector { peer_port: None }
    }

    /// Whether applying a configuration calls for the socket to be
    /// connected anew: publishing is enabled and the port to send to is not
    /// the one the socket is connected to.
    pub fn needs_connect(&self, enabled: bool, send_port: u16) -> (r: bool)
        ensures
            r == (enabled && self.peer_port != Some(send_port)),
    {
        enabled && match self.peer_port {
            Some(port) => port != send_port,
            None => true,
        }
    }

    /// Notes that the socket was connected to `port`.
    pub fn connect(&mut self, port: u16)
        ensures
            final(self).peer_port == Some(port),
    {
        self.peer_port = Some(port);
    }
}

} // verus!
