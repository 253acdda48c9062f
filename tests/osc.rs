use async_osc::{
    check_len, decode_datagram, encode_packet, is_decode_safe, next_item, send_result,
    BufferedReceiver, Error, IntoOscArgs, IntoOscMessage, IntoOscPacket, OscBundle, OscMessage,
    OscMessageExt, OscPacket, OscPacketExt, OscType, RecvError, RECV_BUF_LEN,
};

fn glitch() -> OscMessage {
    OscMessage::new("/glitch", (0.17f32, "ultra"))
}

fn round_trip(p: OscPacket) {
    let bytes = encode_packet(&p).unwrap();
    let (q, addr) = decode_datagram(&bytes, 7u32).unwrap();
    assert_eq!(q, p);
    assert_eq!(addr, 7u32);
}

#[test]
fn round_trip_messages() {
    round_trip(OscPacket::Message(glitch()));
    round_trip(OscPacket::Message(OscMessage::new("/ack", (1,))));
    round_trip(OscPacket::Message(OscMessage::new("/none", Vec::<OscType>::new())));
    round_trip(OscPacket::Message(OscMessage::new(
        "/many",
        vec![
            OscType::Int(-3),
            OscType::Long(1 << 40),
            OscType::Double(2.5),
            OscType::Bool(true),
            OscType::Blob(vec![1, 2, 3]),
            OscType::Char('x'),
            OscType::Nil,
            OscType::Inf,
        ],
    )));
    round_trip(OscPacket::Message(OscMessage::new("/three", (1i32, 2.0f32, "three"))));
}

#[test]
fn round_trip_bundle() {
    let inner = rosc::OscPacket::Message(rosc::OscMessage {
        addr: "/in".to_string(),
        args: vec![OscType::Int(5)],
    });
    let bundle = OscBundle {
        timetag: rosc::OscTime { seconds: 10, fractional: 20 },
        content: vec![inner],
    };
    round_trip(OscPacket::Bundle(bundle));
}

#[test]
fn encoded_message_bytes() {
    let bytes = encode_packet(&("/a", (1i32,)).into_osc_packet()).unwrap();
    assert_eq!(bytes, vec![b'/', b'a', 0, 0, b',', b'i', 0, 0, 0, 0, 0, 1]);
}

#[test]
fn malformed_datagram_is_protocol_error() {
    assert!(matches!(decode_datagram(&[], 1u8), Err(RecvError::Protocol(Error::Osc(_), 1u8))));
    assert!(matches!(
        decode_datagram(b"xyz", 4u8),
        Err(RecvError::Protocol(Error::Osc(_), 4u8))
    ));
}

#[test]
fn stream_survives_bad_datagram() {
    let mut rx = BufferedReceiver::new();
    let good = encode_packet(&OscPacket::Message(glitch())).unwrap();

    let mut buf = rx.start().unwrap();
    buf[..3].copy_from_slice(b"zzz");
    let item = next_item(Some(rx.complete(Ok((buf, 3, 1u16)))));
    assert!(matches!(item, Some(Err(RecvError::Protocol(Error::Osc(_), 1u16)))));

    let mut buf = rx.start().unwrap();
    buf[..good.len()].copy_from_slice(&good);
    let item = next_item(Some(rx.complete(Ok((buf, good.len(), 2u16)))));
    let (packet, addr) = item.unwrap().unwrap();
    assert_eq!(packet, OscPacket::Message(glitch()));
    assert_eq!(addr, 2u16);
}

#[test]
fn end_of_stream_and_transport_error() {
    assert!(next_item::<u8>(None).is_none());
    let e = std::io::Error::new(std::io::ErrorKind::ConnectionReset, "reset");
    match next_item::<u8>(Some(Err(e))) {
        Some(Err(RecvError::Io(e))) => assert_eq!(e.kind(), std::io::ErrorKind::ConnectionReset),
        _ => panic!("expected a transport error"),
    }
}

#[test]
fn single_receive_in_flight() {
    let mut rx = BufferedReceiver::new();
    let buf = rx.start().unwrap();
    assert_eq!(buf.len(), RECV_BUF_LEN);
    assert!(buf.iter().all(|b| *b == 0));
    assert!(rx.start().is_none());
    assert!(rx.start().is_none());
    rx.complete(Ok((buf, 0, ()))).unwrap();
    assert!(rx.start().is_some());
}

#[test]
fn buffer_is_reused() {
    let mut rx = BufferedReceiver::new();
    let first = rx.start().unwrap();
    let ptr = first.as_ptr();
    let mut buf = first;
    for i in 0..10usize {
        buf[0] = i as u8;
        let (data, addr) = rx.complete(Ok((buf, 1, i))).unwrap();
        assert_eq!(data, vec![i as u8]);
        assert_eq!(addr, i);
        buf = rx.start().unwrap();
        assert_eq!(buf.as_ptr(), ptr);
    }
}

#[test]
fn failed_receive_makes_fresh_buffer() {
    let mut rx = BufferedReceiver::new();
    let mut buf = rx.start().unwrap();
    buf[0] = 9;
    let e = std::io::Error::new(std::io::ErrorKind::Other, "gone");
    assert!(rx.complete::<u8>(Err(e)).is_err());
    let again = rx.start().unwrap();
    assert_eq!(again.len(), RECV_BUF_LEN);
    assert_eq!(again[0], 0);
}

#[test]
fn received_bytes_are_exact() {
    let mut rx = BufferedReceiver::new();
    let mut buf = rx.start().unwrap();
    buf[..4].copy_from_slice(&[1, 2, 3, 4]);
    let (data, _) = rx.complete(Ok((buf, 4, ()))).unwrap();
    assert_eq!(data, vec![1, 2, 3, 4]);
}

#[test]
fn short_send_is_transport_error() {
    let bytes = vec![0u8; 12];
    assert!(check_len(&bytes, 12).is_ok());
    match check_len(&bytes, 8) {
        Err(Error::Io(e)) => assert_eq!(e.kind(), std::io::ErrorKind::Interrupted),
        _ => panic!("expected a transport error"),
    }
    assert!(matches!(check_len(&bytes, 13), Err(Error::Io(_))));
    assert!(send_result(&bytes, Ok(12)).is_ok());
    assert!(matches!(send_result(&bytes, Ok(0)), Err(Error::Io(_))));
    let e = std::io::Error::new(std::io::ErrorKind::NotConnected, "not connected");
    match send_result(&bytes, Err(e)) {
        Err(Error::Io(e)) => assert_eq!(e.kind(), std::io::ErrorKind::NotConnected),
        _ => panic!("expected a transport error"),
    }
}

#[test]
fn message_accessors() {
    let m = glitch();
    assert!(m.starts_with("/gl"));
    assert!(m.starts_with(""));
    assert!(m.starts_with("/glitch"));
    assert!(!m.starts_with("/glitchy"));
    assert!(!m.starts_with("/x"));
    let (addr, args) = m.as_tuple();
    assert_eq!(addr, "/glitch");
    assert_eq!(args, &[OscType::Float(0.17), OscType::String("ultra".to_string())]);
}

#[test]
fn packet_accessors() {
    let p = OscPacket::Message(glitch());
    assert_eq!(p.message(), Some(&glitch()));
    assert_eq!(p.into_message(), Some(glitch()));
    let b = OscPacket::Bundle(OscBundle {
        timetag: rosc::OscTime { seconds: 0, fractional: 1 },
        content: vec![],
    });
    assert!(b.message().is_none());
    assert!(b.into_message().is_none());
}

#[test]
fn conversions() {
    assert_eq!((1i32,).into_osc_args(), vec![OscType::Int(1)]);
    assert_eq!(
        (1i32, "a").into_osc_args(),
        vec![OscType::Int(1), OscType::String("a".to_string())]
    );
    assert_eq!(
        (true, 2i64, 'c').into_osc_args(),
        vec![OscType::Bool(true), OscType::Long(2), OscType::Char('c')]
    );
    assert_eq!(OscType::Nil.into_osc_args(), vec![OscType::Nil]);
    assert_eq!(
        vec![1i32, 2, 3].into_osc_args(),
        vec![OscType::Int(1), OscType::Int(2), OscType::Int(3)]
    );
    let m = ("/ack", (1,)).into_osc_message();
    assert_eq!(m.addr, "/ack");
    assert_eq!(m.args, vec![OscType::Int(1)]);
    assert_eq!(("/ack", (1,)).into_osc_packet(), OscPacket::Message(m.clone()));
    assert_eq!(m.clone().into_osc_packet(), OscPacket::Message(m.clone()));
    let p = OscPacket::Message(m);
    assert_eq!(p.clone().into_osc_packet(), p);
}

/// Hands a datagram to a receiver as the transport would: into the buffer
/// that the receiver checked out, with the sender's address.
fn deliver(rx: &mut BufferedReceiver, datagram: &[u8], from: u16) -> (OscPacket, u16) {
    let mut buf = rx.start().unwrap();
    buf[..datagram.len()].copy_from_slice(datagram);
    next_item(Some(rx.complete(Ok((buf, datagram.len(), from))))).unwrap().unwrap()
}

#[test]
fn exchange_scenario() {
    let (addr1, addr2) = (5001u16, 5002u16);
    let mut rx1 = BufferedReceiver::new();
    let mut rx2 = BufferedReceiver::new();

    let bytes = encode_packet(&("/glitch", (0.17f32, "ultra")).into_osc_packet()).unwrap();
    send_result(&bytes, Ok(bytes.len())).unwrap();
    let (packet, peer_addr) = deliver(&mut rx2, &bytes, addr1);
    let message = packet.message().unwrap();
    assert_eq!(peer_addr, addr1);
    assert_eq!(&message.addr, "/glitch");
    assert_eq!(
        &message.args,
        &[OscType::Float(0.17), OscType::String("ultra".to_string())]
    );

    let reply = encode_packet(&("/ack", (1,)).into_osc_packet()).unwrap();
    send_result(&reply, Ok(reply.len())).unwrap();
    let (packet, peer_addr) = deliver(&mut rx1, &reply, addr2);
    assert_eq!(packet, OscPacket::Message(OscMessage::new("/ack", (1,))));
    assert_eq!(peer_addr, addr2);
}

#[test]
fn short_midi_argument_is_refused() {
    let datagram = b"/a\0\0,m\0\0";
    assert!(!is_decode_safe(datagram));
    assert!(matches!(
        decode_datagram(datagram, 3u8),
        Err(RecvError::Protocol(Error::Undecodable, 3u8))
    ));
    assert!(!is_decode_safe(b"/a\0\0,r\0\0\x01\x02"));
}

#[test]
fn full_midi_and_colour_arguments_decode() {
    let m = OscMessage::new(
        "/dev",
        vec![
            OscType::Midi(rosc::OscMidiMessage { port: 1, status: 2, data1: 3, data2: 4 }),
            OscType::Color(rosc::OscColor { red: 5, green: 6, blue: 7, alpha: 8 }),
        ],
    );
    let bytes = encode_packet(&OscPacket::Message(m.clone())).unwrap();
    assert!(is_decode_safe(&bytes));
    round_trip(OscPacket::Message(m));
}

#[test]
fn oversized_blob_is_refused() {
    let mut datagram = b"/a\0\0,b\0\0".to_vec();
    datagram.extend_from_slice(&[0xff, 0xff, 0xff, 0xff, 1, 2]);
    assert!(!is_decode_safe(&datagram));
    assert!(matches!(
        decode_datagram(&datagram, 0u8),
        Err(RecvError::Protocol(Error::Undecodable, 0u8))
    ));
}

fn nested_bundle(depth: usize) -> OscPacket {
    let mut p = rosc::OscPacket::Message(rosc::OscMessage { addr: "/x".to_string(), args: vec![] });
    for _ in 0..depth {
        p = rosc::OscPacket::Bundle(OscBundle {
            timetag: rosc::OscTime { seconds: 0, fractional: 0 },
            content: vec![p],
        });
    }
    match p {
        rosc::OscPacket::Bundle(b) => OscPacket::Bundle(b),
        rosc::OscPacket::Message(m) => OscPacket::Message(OscMessage { addr: m.addr, args: m.args }),
    }
}

#[test]
fn bundle_nesting_is_bounded() {
    let ok = encode_packet(&nested_bundle(8)).unwrap();
    assert!(is_decode_safe(&ok));
    round_trip(nested_bundle(8));
    let deep = encode_packet(&nested_bundle(9)).unwrap();
    assert!(!is_decode_safe(&deep));
    assert!(matches!(
        decode_datagram(&deep, 0u8),
        Err(RecvError::Protocol(Error::Undecodable, 0u8))
    ));
}

#[test]
fn oversized_datagram_is_refused() {
    let mut datagram = b"/a\0\0,\0\0\0".to_vec();
    datagram.resize(RECV_BUF_LEN + 1, 0);
    assert!(!is_decode_safe(&datagram));
}
