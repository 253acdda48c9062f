//! Open Sound Control over UDP: the verified core.
//!
//! Argument values and bundles are those of the `rosc` crate, whose encoder
//! and decoder this library calls. The library owns the receive-buffer state
//! machine, the check of which datagrams the decoder may be given, the
//! mapping from received datagrams to stream items, the check that a whole
//! datagram was sent, and the conversions from native values into messages.
pub mod codec;
pub mod error;
pub mod guard;
pub mod message;
pub mod packet;
pub mod receiver;
pub mod stream;

pub use error::{Error, RecvError};
pub use message::{IntoOscArgs, IntoOscMessage, IntoOscPacket, OscMessageExt, OscPacketExt};
pub use packet::{OscMessage, OscPacket};
pub use receiver::{BufferedReceiver, RECV_BUF_LEN};
pub use rosc::{OscBundle, OscType};
pub use guard::is_decode_safe;
pub use stream::{
    check_len, decode_datagram, encode_packet, item_from_decoded, next_item, send_result,
};
