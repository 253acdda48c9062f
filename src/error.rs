//! The error type of the library.
use vstd::prelude::*;

verus! {

/// The errors that may happen while sending or receiving messages over an
/// OSC socket.
#[derive(Debug)]
pub enum Error {
    /// A transport failure: bind, connect, send or receive failed, or a
    /// datagram was sent only in part.
    Io(std::io::Error),
    /// A datagram that the codec could not decode, or a packet it could not
    /// encode.
    Osc(rosc::OscError),
    /// A datagram refused before decoding: one that the codec cannot be
    /// trusted to take without panicking or reserving too much memory.
    Undecodable,
}

/// The error item of a packet stream: a transport failure, or a datagram
/// that could not be decoded, with the address it came from.
#[derive(Debug)]
pub enum RecvError<A> {
    /// Receiving failed.
    Io(std::io::Error),
    /// The datagram from the given sender could not be decoded.
    Protocol(Error, A),
}

impl From<rosc::OscError> for Error {
    fn from(error: rosc::OscError) -> (r: Self) {
        Error::Osc(error)
    }
}

impl vstd::std_specs::convert::FromSpecImpl<rosc::OscError> for Error {
    open spec fn obeys_from_spec() -> bool {
        true
    }

    open spec fn from_spec(v: rosc::OscError) -> Self {
        Error::Osc(v)
    }
}

impl From<std::io::Error> for Error {
    fn from(error: std::io::Error) -> (r: Self) {
        Error::Io(error)
    }
}

impl vstd::std_specs::convert::FromSpecImpl<std::io::Error> for Error {
    open spec fn obeys_from_spec() -> bool {
        true
    }

    open spec fn from_spec(v: std::io::Error) -> Self {
        Error::Io(v)
    }
}

} // verus!
