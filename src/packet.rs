//! OSC messages and packets.
use rosc::{OscBundle, OscType};
use vstd::prelude::*;

verus! {

/// An OSC message: an address and its ordered arguments.
#[derive(Clone, Debug, PartialEq)]
pub struct OscMessage {
    /// The address pattern, such as `/mixer/volume`.
    pub addr: String,
    /// The arguments, in order.
    pub args: Vec<OscType>,
}

/// An OSC packet: a single message, or a bundle of nested packets.
#[derive(Clone, Debug, PartialEq)]
pub enum OscPacket {
    /// A single message.
    Message(OscMessage),
    /// A bundle, carried through unread.
    Bundle(OscBundle),
}

} // verus!
