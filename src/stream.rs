//! From received datagrams to stream items, and from packets to datagrams.
use crate::codec::{decode_bytes, decoded, encode_packet_bytes, encoded, short_send_error};
use crate::error::{Error, RecvError};
use crate::guard::{decode_safe, is_decode_safe};
use crate::packet::OscPacket;
use crate::receiver::{BufferedReceiver, RECV_BUF_LEN};
use vstd::prelude::*;

verus! {

/// The packet that a datagram yields: what the codec decodes it to, where
/// it may be handed to the codec at all.
pub open spec fn accepted(b: Seq<u8>) -> Option<OscPacket> {
    if decode_safe(b) {
        decoded(b)
    } else {
        None
    }
}

/// The stream item for a datagram from `addr`, given the decoder's outcome
/// on its bytes: the packet with its sender, or a protocol error with its
/// sender.
pub fn item_from_decoded<A>(decoded: Result<OscPacket, rosc::OscError>, addr: A) -> (r: Result<
    (OscPacket, A),
    RecvError<A>,
>)
    ensures
        decoded matches Ok(p) ==> r matches Ok(t) && t.0 == p && t.1 == addr,
        decoded matches Err(e) ==> r matches Err(RecvError::Protocol(Error::Osc(f), a)) && f == e
            && a == addr,
{
    match decoded {
        Ok(p) => Ok((p, addr)),
        Err(e) => Err(RecvError::Protocol(Error::Osc(e), addr)),
    }
}

/// Decodes a datagram received from `addr`. The result is the packet that
/// the datagram yields, with its sender; where there is none it is a
/// protocol error, which names the sender too. A datagram that the codec
/// cannot take safely is refused as `Undecodable`.
pub fn decode_datagram<A>(bytes: &[u8], addr: A) -> (r: Result<(OscPacket, A), RecvError<A>>)
    ensures
        accepted(bytes@) matches Some(p) ==> r matches Ok(t) && t.0 == p && t.1 == addr,
        accepted(bytes@) is None ==> (r matches Err(RecvError::Protocol(_, a)) && a == addr),
        !decode_safe(bytes@) ==> r matches Err(RecvError::Protocol(Error::Undecodable, _)),
        decode_safe(bytes@) && r is Err ==> r matches Err(RecvError::Protocol(Error::Osc(_), _)),
{
    if !is_decode_safe(bytes) {
        return Err(RecvError::Protocol(Error::Undecodable, addr));
    }
    let decoded = decode_bytes(bytes);
    item_from_decoded(decoded, addr)
}

/// The stream item for what the receiver produced: `None` at the end of the
/// stream, a transport error handed on as it is, or the decoded datagram.
/// A bad datagram gives an error item and does not end the stream.
pub fn next_item<A>(received: Option<Result<(Vec<u8>, A), std::io::Error>>) -> (r: Option<
    Result<(OscPacket, A), RecvError<A>>,
>)
    ensures
        r is None <==> received is None,
        received matches Some(Err(e)) ==> r matches Some(Err(RecvError::Io(f))) && f == e,
        received matches Some(Ok(d)) ==> (accepted(d.0@) matches Some(p) ==> (r matches Some(
            Ok(t),
        ) && t.0 == p && t.1 == d.1)),
        received matches Some(Ok(d)) ==> (accepted(d.0@) is None ==> (r matches Some(
            Err(RecvError::Protocol(_, a)),
        ) && a == d.1)),
{
    match received {
        None => None,
        Some(Err(e)) => Some(Err(RecvError::Io(e))),
        Some(Ok((bytes, addr))) => Some(decode_datagram(bytes.as_slice(), addr)),
    }
}

/// Checks that a send put the whole datagram `buf` on the wire: `len` is
/// the byte count the transport reported. A shorter or longer count is a
/// transport error.
pub fn check_len(buf: &[u8], len: usize) -> (r: Result<(), Error>)
    ensures
        r is Ok <==> len == buf@.len(),
        r matches Err(e) ==> e is Io,
{
    if len != buf.len() {
        Err(Error::Io(short_send_error()))
    } else {
        Ok(())
    }
}

/// The result of sending the datagram `buf`, given what the transport
/// reported: its error, handed on, or the byte count, which must be that of
/// the whole datagram.
pub fn send_result(buf: &[u8], sent: Result<usize, std::io::Error>) -> (r: Result<(), Error>)
    ensures
        r is Ok <==> (sent matches Ok(n) && n == buf@.len()),
        sent matches Err(e) ==> r matches Err(Error::Io(f)) && f == e,
        r matches Err(e) ==> e is Io,
{
    match sent {
        Err(e) => Err(Error::Io(e)),
        Ok(n) => check_len(buf, n),
    }
}

/// Encodes a packet into the datagram to send: its wire bytes, or a
/// protocol error where the codec cannot encode it.
pub fn encode_packet(packet: &OscPacket) -> (r: Result<Vec<u8>, Error>)
    ensures
        r is Ok <==> encoded(*packet) is Some,
        r matches Ok(b) ==> encoded(*packet) == Some(b@),
        r matches Err(e) ==> e is Osc,
{
    match encode_packet_bytes(packet) {
        Ok(bytes) => Ok(bytes),
        Err(e) => Err(Error::Osc(e)),
    }
}

/// Stream resilience, on the receiver's side: a receive that succeeds leaves
/// the receiver idle and holding its buffer whatever the bytes were, so a
/// datagram that fails to decode does not keep the next one from being
/// received. The item of each datagram depends on its own bytes alone (see
/// `next_item`).
pub proof fn lemma_bad_datagram_keeps_stream(s: BufferedReceiver, bad: Vec<u8>)
    requires
        s.wf(),
        s.is_receiving(),
        bad@.len() == RECV_BUF_LEN,
    ensures
        s.returned(Some(bad)).wf(),
        !s.returned(Some(bad)).is_receiving(),
        s.returned(Some(bad)).held() == Some(bad),
        s.returned(Some(bad)).started().is_receiving(),
{
    BufferedReceiver::lemma_with(Some(bad), false);
    BufferedReceiver::lemma_with(None, true);
}

} // verus!
