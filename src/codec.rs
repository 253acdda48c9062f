//! The `rosc` types and codec calls this library relies on.
use crate::guard::decode_safe;
use crate::packet::{OscMessage, OscPacket};
use vstd::prelude::*;

verus! {

/// One OSC argument value; opaque here, as it may hold floating-point data.
#[verifier::external_type_specification]
#[verifier::external_body]
pub struct ExOscType(rosc::OscType);

/// A bundle: a time tag and nested packets; carried through unread.
#[verifier::external_type_specification]
#[verifier::external_body]
pub struct ExOscBundle(rosc::OscBundle);

/// Relies on the derived `Clone` of `rosc::OscBundle`.
pub assume_specification[ <rosc::OscBundle as Clone>::clone ](
    b: &rosc::OscBundle,
) -> rosc::OscBundle;

/// The codec's error value.
#[verifier::external_type_specification]
#[verifier::external_body]
pub struct ExOscError(rosc::OscError);

/// A transport error.
#[verifier::external_type_specification]
#[verifier::external_body]
pub struct ExIoError(std::io::Error);

/// What `rosc::decoder::decode` makes of the given bytes: the packet, or
/// `None` where it returns an error. The decoder reads nothing but its input.
pub uninterp spec fn decoded(b: Seq<u8>) -> Option<OscPacket>;

/// What `rosc::encoder::encode` makes of the given packet: its wire bytes,
/// or `None` where it returns an error. The encoder reads nothing but its
/// input.
pub uninterp spec fn encoded(p: OscPacket) -> Option<Seq<u8>>;

/// Relies on `rosc::decoder::decode`: it returns the packet the bytes hold,
/// or an error. Only datagrams that `decode_safe` accepts are handed to it,
/// as it panics on some others.
#[verifier::external_body]
pub(crate) fn decode_bytes(b: &[u8]) -> (r: Result<OscPacket, rosc::OscError>)
    requires
        decode_safe(b@),
    ensures
        r is Ok <==> decoded(b@) is Some,
        r matches Ok(p) ==> decoded(b@) == Some(p),
{
    match rosc::decoder::decode(b)? {
        rosc::OscPacket::Message(m) => {
            Ok(OscPacket::Message(OscMessage { addr: m.addr, args: m.args }))
        },
        rosc::OscPacket::Bundle(b) => Ok(OscPacket::Bundle(b)),
    }
}

/// Relies on `rosc::encoder::encode`: it returns the wire bytes of the
/// packet, or the codec's error for a packet it cannot encode.
#[verifier::external_body]
pub(crate) fn encode_packet_bytes(p: &OscPacket) -> (r: Result<Vec<u8>, rosc::OscError>)
    ensures
        r is Ok <==> encoded(*p) is Some,
        r matches Ok(b) ==> encoded(*p) == Some(b@),
{
    let p = match p.clone() {
        OscPacket::Message(m) => {
            rosc::OscPacket::Message(rosc::OscMessage { addr: m.addr, args: m.args })
        },
        OscPacket::Bundle(b) => rosc::OscPacket::Bundle(b),
    };
    rosc::encoder::encode(&p)
}

/// Relies on `std::io::Error::new`: builds the transport error that reports
/// a datagram which was only partly sent.
#[verifier::external_body]
pub(crate) fn short_send_error() -> (r: std::io::Error) {
    std::io::Error::new(std::io::ErrorKind::Interrupted, "UDP packet not fully sent")
}

} // verus!
