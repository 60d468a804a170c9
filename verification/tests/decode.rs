use mqtt3::{
    ByteSource, Connack, Error, Header, Packet, PacketIdentifier, PacketType, Protocol, Publish,
    QoS, Subscribe, Unsubscribe, MULTIPLIER,
};
use std::sync::Arc;

fn remaining_length(bytes: Vec<u8>) -> Result<usize, Error> {
    ByteSource::new(bytes).read_remaining_length()
}

fn packet(bytes: Vec<u8>) -> Result<Packet, Error> {
    ByteSource::new(bytes).read_packet()
}

#[test]
fn remaining_length_of_one_byte() {
    assert_eq!(remaining_length(vec![0x00]), Ok(0));
    assert_eq!(remaining_length(vec![0x7F]), Ok(127));
}

#[test]
fn remaining_length_of_two_bytes() {
    assert_eq!(remaining_length(vec![0x80, 0x01]), Ok(128));
    assert_eq!(remaining_length(vec![0xFF, 0x7F]), Ok(16_383));
    assert_eq!(remaining_length(vec![0xC1, 0x02]), Ok(321));
}

#[test]
fn remaining_length_of_three_and_four_bytes() {
    assert_eq!(remaining_length(vec![0x80, 0x80, 0x01]), Ok(16_384));
    assert_eq!(remaining_length(vec![0xFF, 0xFF, 0x7F]), Ok(2_097_151));
    assert_eq!(remaining_length(vec![0x80, 0x80, 0x80, 0x01]), Ok(2_097_152));
    assert_eq!(remaining_length(vec![0xFF, 0xFF, 0xFF, 0x7F]), Ok(268_435_455));
    assert_eq!(MULTIPLIER, 268_435_456);
}

#[test]
fn remaining_length_with_a_fifth_byte_is_malformed() {
    assert_eq!(remaining_length(vec![0xFF, 0xFF, 0xFF, 0xFF]), Err(Error::MalformedRemainingLength));
    assert_eq!(
        remaining_length(vec![0x80, 0x80, 0x80, 0x80, 0x01]),
        Err(Error::MalformedRemainingLength)
    );
}

#[test]
fn remaining_length_cut_short_is_an_io_failure() {
    assert_eq!(remaining_length(vec![]), Err(Error::Io));
    assert_eq!(remaining_length(vec![0x80]), Err(Error::Io));
    assert_eq!(remaining_length(vec![0xFF, 0xFF, 0xFF]), Err(Error::Io));
}

#[test]
fn remaining_length_stops_at_its_last_byte() {
    let mut source = ByteSource::new(vec![0x80, 0x01, 0x55]);
    assert_eq!(source.read_remaining_length(), Ok(128));
    assert_eq!(source.pos(), 2);
    assert_eq!(source.read_u8(), Ok(0x55));
    assert_eq!(source.read_u8(), Err(Error::Io));
    assert_eq!(source.pos(), 3);
}

#[test]
fn pingreq_and_pingresp_have_no_body() {
    assert_eq!(packet(vec![0xC0, 0x00]), Ok(Packet::Pingreq));
    assert_eq!(packet(vec![0xD0, 0x00]), Ok(Packet::Pingresp));
}

#[test]
fn other_types_without_body_require_a_payload() {
    for code in 1u8..=14 {
        if code == 12 || code == 13 {
            continue;
        }
        for flags in [0u8, 2, 15] {
            assert_eq!(packet(vec![(code << 4) | flags, 0x00]), Err(Error::PayloadRequired));
        }
    }
}

#[test]
fn ping_with_flags_or_body_is_malformed() {
    assert_eq!(packet(vec![0xC1, 0x00]), Err(Error::IncorrectPacketFormat));
    assert_eq!(packet(vec![0xD8, 0x00]), Err(Error::IncorrectPacketFormat));
    assert_eq!(packet(vec![0xC0, 0x01, 0x00]), Err(Error::IncorrectPacketFormat));
    assert_eq!(packet(vec![0xD0, 0x01, 0x00]), Err(Error::IncorrectPacketFormat));
}

#[test]
fn reserved_and_undecoded_types_are_unsupported() {
    assert_eq!(packet(vec![0x00, 0x00]), Err(Error::UnsupportedPacketType));
    assert_eq!(packet(vec![0xF0, 0x02, 0, 0]), Err(Error::UnsupportedPacketType));
    assert_eq!(packet(vec![0x20, 0x02, 0, 0]), Err(Error::UnsupportedPacketType));
    assert_eq!(packet(vec![0x40, 0x02, 0, 1]), Err(Error::UnsupportedPacketType));
    assert_eq!(packet(vec![0xE0, 0x01, 0]), Err(Error::UnsupportedPacketType));
    let mut source = ByteSource::new(vec![0, 0]);
    let header = Header::new(0x20, 2).unwrap();
    assert_eq!(source.read_connack(header), Err::<Connack, Error>(Error::UnsupportedPacketType));
    assert_eq!(source.pos(), 0);
}

#[test]
fn reserved_flag_bits_are_checked() {
    // subscribe and unsubscribe carry 0010, connect carries 0000
    assert_eq!(packet(vec![0x80, 0x02, 0, 1]), Err(Error::IncorrectPacketFormat));
    assert_eq!(packet(vec![0xA0, 0x02, 0, 1]), Err(Error::IncorrectPacketFormat));
    assert_eq!(packet(vec![0x11, 0x02, 0, 1]), Err(Error::IncorrectPacketFormat));
    assert_eq!(
        packet(vec![0x82, 0x02, 0, 1]),
        Ok(Packet::Subscribe(Arc::new(Subscribe { pid: PacketIdentifier(1), topics: vec![] })))
    );
}

#[test]
fn header_fields() {
    let header = Header::new(0b0011_1011, 5).unwrap();
    assert_eq!(header.typ, PacketType::Publish);
    assert_eq!(header.len, 5);
    assert!(header.dup());
    assert!(header.retain());
    assert!(header.flags_valid());
    assert_eq!(header.qos(), Ok(QoS::AtLeastOnce));
    let header = Header::new(0b0011_0110, 5).unwrap();
    assert!(!header.dup());
    assert!(!header.retain());
    assert_eq!(header.qos(), Err(Error::InvalidQoS));
    assert_eq!(Header::new(0xE0, 0).unwrap().typ, PacketType::Disconnect);
    assert_eq!(Header::new(0xF0, 0), Err(Error::UnsupportedPacketType));
    assert_eq!(Header::new(0x0F, 0), Err(Error::UnsupportedPacketType));
    assert_eq!(PacketType::from_u8(8), Ok(PacketType::Subscribe));
    assert_eq!(PacketType::from_hd(0x62), Ok(PacketType::Pubrel));
    assert!(Header::new(0x62, 2).unwrap().flags_valid());
    assert!(!Header::new(0x60, 2).unwrap().flags_valid());
}

#[test]
fn qos_numbers() {
    assert_eq!(QoS::from_u8(0), Ok(QoS::AtMostOnce));
    assert_eq!(QoS::from_u8(1), Ok(QoS::AtLeastOnce));
    assert_eq!(QoS::from_u8(2), Ok(QoS::ExactlyOnce));
    assert_eq!(QoS::from_u8(3), Err(Error::InvalidQoS));
    assert_eq!(QoS::from_u8(200), Err(Error::InvalidQoS));
    for qos in [QoS::AtMostOnce, QoS::AtLeastOnce, QoS::ExactlyOnce] {
        assert_eq!(QoS::from_u8(qos.to_u8()), Ok(qos));
    }
}

#[test]
fn protocol_pairs() {
    assert_eq!(Protocol::new("MQTT".to_owned(), 4), Ok(Protocol::MQTT(4)));
    assert_eq!(Protocol::new("MQIsdp".to_owned(), 3), Ok(Protocol::MQIsdp(3)));
    assert_eq!(Protocol::new("MQTT".to_owned(), 3), Err(Error::InvalidProtocol));
    assert_eq!(Protocol::new("MQIsdp".to_owned(), 4), Err(Error::InvalidProtocol));
    assert_eq!(Protocol::new("mqtt".to_owned(), 4), Err(Error::InvalidProtocol));
    assert_eq!(Protocol::new(String::new(), 0), Err(Error::InvalidProtocol));
    assert_eq!(Protocol::MQTT(4).level(), 4);
}

#[test]
fn big_endian_numbers() {
    let mut source = ByteSource::new(vec![0x01, 0x04, 0xFF, 0xFE, 0x07]);
    assert_eq!(source.read_u16(), Ok(260));
    assert_eq!(source.read_u16(), Ok(0xFFFE));
    assert_eq!(source.read_u16(), Err(Error::Io));
    assert_eq!(source.pos(), 4);
    assert_eq!(source.u16_at(3), Ok((0xFE07, 5)));
    assert_eq!(source.u16_at(4), Err(Error::Io));
    assert_eq!(source.u8_at(4), Ok((7, 5)));
    assert_eq!(source.u8_at(5), Err(Error::Io));
}

#[test]
fn text_fields() {
    let mut source = ByteSource::new(vec![0, 3, b'a', b'/', b'b', 0, 0, 0, 2, 0xC3, 0xA9, 0, 2, b'x']);
    assert_eq!(source.read_mqtt_string(), Ok("a/b".to_owned()));
    assert_eq!(source.read_mqtt_string(), Ok(String::new()));
    assert_eq!(source.read_mqtt_string(), Ok("\u{e9}".to_owned()));
    assert_eq!(source.pos(), 11);
    // two bytes declared, one there
    assert_eq!(source.read_mqtt_string(), Err(Error::Io));
    assert_eq!(source.pos(), 11);
    assert_eq!(source.string_at(0), Ok(("a/b".to_owned(), 5)));
}

#[test]
fn text_that_is_not_utf8() {
    let mut source = ByteSource::new(vec![0, 2, 0xC3, 0x28]);
    assert_eq!(source.read_mqtt_string(), Err(Error::Utf8));
    assert_eq!(source.pos(), 0);
    let mut source = ByteSource::new(vec![0, 1, 0xFF]);
    assert_eq!(source.read_mqtt_string(), Err(Error::Utf8));
}

#[test]
fn payload_and_bounded_views() {
    let mut source = ByteSource::new(vec![1, 2, 3, 4, 5]);
    assert_eq!(source.len(), 5);
    assert_eq!(source.read_payload(2), Ok(Box::new(vec![1, 2])));
    assert_eq!(source.read_payload(4), Err(Error::Io));
    let mut view = source.take(2);
    assert_eq!(source.pos(), 4);
    assert_eq!(view.len(), 2);
    assert_eq!(view.read_u16(), Ok(0x0304));
    assert_eq!(view.read_u8(), Err(Error::Io));
    let mut view = source.take(9);
    assert_eq!(view.read_payload(1), Ok(Box::new(vec![5])));
    assert_eq!(source.pos(), 5);
    assert_eq!(source.bounded_at(1, 2).read_payload(2), Ok(Box::new(vec![2, 3])));
    assert_eq!(source.bytes_at(3, 2), Ok((vec![4, 5], 5)));
    source.seek(1);
    assert_eq!(source.read_u8(), Ok(2));
}

#[test]
fn packets_follow_one_another() {
    let mut source = ByteSource::new(vec![
        0xC0, 0x00,
        0x30, 0x05, 0x00, 0x01, b't', 0xAA, 0xBB,
        0xD0, 0x00,
    ]);
    assert_eq!(source.read_packet(), Ok(Packet::Pingreq));
    assert_eq!(source.pos(), 2);
    assert_eq!(
        source.read_packet(),
        Ok(Packet::Publish(Arc::new(Publish {
            dup: false,
            qos: QoS::AtMostOnce,
            retain: false,
            topic_name: "t".to_owned(),
            pid: None,
            payload: Arc::new(vec![0xAA, 0xBB]),
        })))
    );
    assert_eq!(source.pos(), 9);
    assert_eq!(source.read_packet(), Ok(Packet::Pingresp));
    assert_eq!(source.read_packet(), Err(Error::Io));
    assert_eq!(source.pos(), 11);
}

#[test]
fn publish_flags_come_from_the_header() {
    let decoded = packet(vec![0b0011_1101, 0x06, 0x00, 0x01, b't', 0x12, 0x34, 0x01]);
    assert_eq!(
        decoded,
        Ok(Packet::Publish(Arc::new(Publish {
            dup: true,
            qos: QoS::ExactlyOnce,
            retain: true,
            topic_name: "t".to_owned(),
            pid: Some(PacketIdentifier(0x1234)),
            payload: Arc::new(vec![0x01]),
        })))
    );
}

#[test]
fn publish_with_empty_payload() {
    let decoded = packet(vec![0x30, 0x03, 0x00, 0x01, b't']);
    match decoded {
        Ok(Packet::Publish(publish)) => {
            assert_eq!(publish.payload.len(), 0);
            assert_eq!(publish.pid, None);
        }
        other => panic!("unexpected {:?}", other),
    }
}

#[test]
fn publish_with_level_three_is_invalid() {
    assert_eq!(packet(vec![0b0011_0110, 0x05, 0x00, 0x01, b't', 0, 1]), Err(Error::InvalidQoS));
}

#[test]
fn publish_body_reads_no_further_than_declared() {
    let mut source = ByteSource::new(vec![0x00, 0x01, b't', 0xAA, 0xBB, 0xCC]);
    let header = Header::new(0x30, 4).unwrap();
    let publish = source.read_publish(header).unwrap();
    assert_eq!(*publish.payload, vec![0xAA]);
    assert_eq!(source.pos(), 4);
    let mut source = ByteSource::new(vec![0x00, 0x01, b't', 0xAA]);
    let header = Header::new(0x30, 2).unwrap();
    assert_eq!(source.read_publish(header), Err(Error::IncorrectPacketFormat));
    assert_eq!(source.pos(), 0);
}

#[test]
fn truncated_packets_fail() {
    let whole: Vec<u8> = vec![
        0x10, 39, 0x00, 0x04, b'M', b'Q', b'T', b'T', 0x04, 0b11001110, 0x00, 0x0a, 0x00, 0x04,
        b't', b'e', b's', b't', 0x00, 0x02, b'/', b'a', 0x00, 0x07, b'o', b'f', b'f', b'l', b'i',
        b'n', b'e', 0x00, 0x04, b'r', b'u', b's', b't', 0x00, 0x02, b'm', b'q',
    ];
    assert!(packet(whole.clone()).is_ok());
    for n in 0..whole.len() {
        let mut source = ByteSource::new(whole[..n].to_vec());
        assert_eq!(source.read_packet(), Err(Error::Io));
        assert_eq!(source.pos(), 0);
    }
    let publish: Vec<u8> = vec![0x32, 11, 0x00, 0x03, b'a', b'/', b'b', 0x00, 0x0a, 1, 2, 3, 4];
    for n in 0..publish.len() {
        assert_eq!(packet(publish[..n].to_vec()), Err(Error::Io));
    }
    let subscribe: Vec<u8> = vec![0x82, 8, 0x01, 0x04, 0x00, 0x03, b'a', b'/', b'+', 0x00];
    for n in 0..subscribe.len() {
        assert_eq!(packet(subscribe[..n].to_vec()), Err(Error::Io));
    }
}

#[test]
fn connect_shorter_than_declared_is_an_io_failure() {
    // the body decodes, but the header declares one byte more than is there
    let bytes = vec![
        0x10, 19, 0x00, 0x06, b'M', b'Q', b'I', b's', b'd', b'p', 0x03, 0x00, 0x00, 0x3c, 0x00,
        0x04, b't', b'e', b's', b't',
    ];
    assert_eq!(packet(bytes), Err(Error::Io));
}

#[test]
fn filter_longer_than_the_body_fails() {
    // the filter declares five bytes, the body has room for three
    let subscribe = vec![
        0x82, 8, 0x00, 0x01, 0x00, 0x05, b'a', b'/', b'b', b'/', b'c', 0x00, 0x82, 2, 0, 1,
    ];
    assert_eq!(packet(subscribe.clone()), Err(Error::Io));
    let mut source = ByteSource::new(subscribe[2..].to_vec());
    let header = Header::new(0x82, 8).unwrap();
    assert_eq!(source.read_subscribe(header), Err(Error::IncorrectPacketFormat));
    assert_eq!(source.pos(), 0);

    let unsubscribe = vec![0xA2, 6, 0x00, 0x01, 0x00, 0x05, b'a', b'/', b'b', b'/', b'c', 0xA2, 2];
    assert_eq!(packet(unsubscribe.clone()), Err(Error::Io));
    let mut source = ByteSource::new(unsubscribe[2..].to_vec());
    let header = Header::new(0xA2, 6).unwrap();
    assert_eq!(source.read_unsubscribe(header), Err(Error::IncorrectPacketFormat));
    assert_eq!(source.pos(), 0);
}

#[test]
fn body_shorter_than_its_identifier() {
    let header = Header::new(0x82, 1).unwrap();
    assert_eq!(ByteSource::new(vec![0, 1, 0]).read_subscribe(header), Err(Error::IncorrectPacketFormat));
    let header = Header::new(0xA2, 0).unwrap();
    assert_eq!(ByteSource::new(vec![0, 1, 0]).read_unsubscribe(header), Err(Error::IncorrectPacketFormat));
    assert_eq!(packet(vec![0x82, 1, 0]), Err(Error::Io));
}

#[test]
fn subscribe_consumes_its_body_exactly() {
    let mut source = ByteSource::new(vec![
        0x82, 20, 0x01, 0x04, 0x00, 0x03, b'a', b'/', b'+', 0x00, 0x00, 0x01, b'#', 0x01, 0x00,
        0x05, b'a', b'/', b'b', b'/', b'c', 0x02, 0xC0, 0x00,
    ]);
    assert!(source.read_packet().is_ok());
    assert_eq!(source.pos(), 22);
    assert_eq!(source.read_packet(), Ok(Packet::Pingreq));
}

#[test]
fn subscribe_keeps_duplicates_in_order() {
    let decoded = packet(vec![0x82, 10, 0, 7, 0, 1, b'x', 2, 0, 1, b'x', 0]);
    assert_eq!(
        decoded,
        Ok(Packet::Subscribe(Arc::new(Subscribe {
            pid: PacketIdentifier(7),
            topics: vec![("x".to_owned(), QoS::ExactlyOnce), ("x".to_owned(), QoS::AtMostOnce)],
        })))
    );
}

#[test]
fn subscribe_with_level_three_is_invalid() {
    assert_eq!(packet(vec![0x82, 6, 0, 7, 0, 1, b'x', 3]), Err(Error::InvalidQoS));
}

#[test]
fn unsubscribe_without_filters() {
    assert_eq!(
        packet(vec![0xA2, 2, 0, 9]),
        Ok(Packet::Unsubscribe(Arc::new(Unsubscribe { pid: PacketIdentifier(9), topics: vec![] })))
    );
}

fn connect_with(name: &[u8], level: u8, flags: u8, tail: &[u8]) -> Vec<u8> {
    let mut body: Vec<u8> = vec![0, name.len() as u8];
    body.extend_from_slice(name);
    body.push(level);
    body.push(flags);
    body.extend_from_slice(&[0, 60, 0, 2, b'i', b'd']);
    body.extend_from_slice(tail);
    let mut bytes = vec![0x10, body.len() as u8];
    bytes.extend_from_slice(&body);
    bytes
}

#[test]
fn connect_with_unknown_protocol_is_invalid() {
    assert_eq!(packet(connect_with(b"MQTT", 3, 0, &[])), Err(Error::InvalidProtocol));
    assert_eq!(packet(connect_with(b"MQIsdp", 4, 0, &[])), Err(Error::InvalidProtocol));
    assert_eq!(packet(connect_with(b"HTTP", 4, 0, &[])), Err(Error::InvalidProtocol));
}

#[test]
fn connect_with_will_bits_but_no_will_is_malformed() {
    assert_eq!(packet(connect_with(b"MQTT", 4, 0b0000_1000, &[])), Err(Error::IncorrectPacketFormat));
    assert_eq!(packet(connect_with(b"MQTT", 4, 0b0001_0000, &[])), Err(Error::IncorrectPacketFormat));
    assert_eq!(packet(connect_with(b"MQTT", 4, 0b0010_0000, &[])), Err(Error::IncorrectPacketFormat));
    assert!(packet(connect_with(b"MQTT", 4, 0b0000_0010, &[])).is_ok());
}

#[test]
fn connect_with_will_level_three_is_invalid() {
    let tail = [0, 1, b't', 0, 1, b'm'];
    assert_eq!(packet(connect_with(b"MQTT", 4, 0b0001_1100, &tail)), Err(Error::InvalidQoS));
}

#[test]
fn connect_with_retained_will_and_password_only() {
    let tail = [0, 1, b't', 0, 1, b'm', 0, 2, b'p', b'w'];
    match packet(connect_with(b"MQTT", 4, 0b0111_0100, &tail)) {
        Ok(Packet::Connect(connect)) => {
            let will = connect.last_will.clone().unwrap();
            assert!(will.retain);
            assert_eq!(will.qos, QoS::ExactlyOnce);
            assert_eq!(will.topic, "t");
            assert_eq!(will.message, "m");
            assert_eq!(connect.username, None);
            assert_eq!(connect.password, Some("pw".to_owned()));
            assert!(!connect.clean_session);
            assert_eq!(connect.keep_alive, 60);
            assert_eq!(connect.client_id, "id");
        }
        other => panic!("unexpected {:?}", other),
    }
}

#[test]
fn connect_with_missing_user_name_is_an_io_failure() {
    assert_eq!(packet(connect_with(b"MQTT", 4, 0b1000_0000, &[])), Err(Error::Io));
    assert_eq!(packet(connect_with(b"MQTT", 4, 0b0100_0000, &[0, 3, b'p'])), Err(Error::Io));
}

#[test]
fn connect_with_client_id_that_is_not_utf8() {
    let bytes = vec![0x10, 13, 0, 4, b'M', b'Q', b'T', b'T', 4, 0, 0, 60, 0, 1, 0x80];
    assert_eq!(packet(bytes), Err(Error::Utf8));
}

#[test]
fn wanted_bytes_lead_to_a_whole_packet() {
    let whole: Vec<u8> = vec![0x32, 11, 0x00, 0x03, b'a', b'/', b'b', 0x00, 0x0a, 1, 2, 3, 4, 0xC0];
    let mut source = ByteSource::new(Vec::new());
    assert_eq!(source.wanted(), 1);
    source.extend(&whole[..1]);
    assert_eq!(source.wanted(), 1);
    source.extend(&whole[1..2]);
    assert_eq!(source.wanted(), 11);
    source.extend(&whole[2..6]);
    assert_eq!(source.wanted(), 7);
    source.extend(&whole[6..13]);
    assert_eq!(source.wanted(), 0);
    assert_eq!(source.len(), 13);
    assert!(source.read_packet().is_ok());
    assert_eq!(source.pos(), 13);
    assert_eq!(source.wanted(), 1);
}

#[test]
fn nothing_is_wanted_behind_a_refused_header() {
    // a fifth length byte, a reserved type, flags that the type forbids
    assert_eq!(ByteSource::new(vec![0x30, 0xFF, 0xFF, 0xFF, 0xFF]).wanted(), 0);
    assert_eq!(ByteSource::new(vec![0xF0, 0x05]).wanted(), 0);
    assert_eq!(ByteSource::new(vec![0x81, 0x05]).wanted(), 0);
    assert_eq!(ByteSource::new(vec![0x30, 0xFF, 0xFF, 0xFF]).wanted(), 1);
    assert_eq!(ByteSource::new(vec![0x30, 0x80, 0x01]).wanted(), 128);
    assert_eq!(ByteSource::new(vec![0xC0, 0x00]).wanted(), 0);
}

#[test]
fn headers_without_body() {
    assert_eq!(mqtt3::read::empty_packet(Header::new(0xC0, 0).unwrap()), Ok(Packet::Pingreq));
    assert_eq!(mqtt3::read::empty_packet(Header::new(0xD0, 0).unwrap()), Ok(Packet::Pingresp));
    assert_eq!(
        mqtt3::read::empty_packet(Header::new(0xD4, 0).unwrap()),
        Err(Error::IncorrectPacketFormat)
    );
    assert_eq!(mqtt3::read::empty_packet(Header::new(0xE0, 0).unwrap()), Err(Error::PayloadRequired));
    assert_eq!(mqtt3::read::empty_packet(Header::new(0x30, 0).unwrap()), Err(Error::PayloadRequired));
}

#[test]
fn fields_of_a_connection_request_one_by_one() {
    let source = ByteSource::new(vec![
        0x00, 0x04, b'M', b'Q', b'T', b'T', 0x04, 0x00, 0x01, b't', 0x00, 0x01, b'm', 0x00,
    ]);
    assert_eq!(source.protocol_at(0), Ok((Protocol::MQTT(4), 7)));
    assert_eq!(source.protocol_at(7), Err(Error::InvalidProtocol));
    assert_eq!(source.optional_string_at(7, false), Ok((None, 7)));
    assert_eq!(source.optional_string_at(7, true), Ok((Some("t".to_owned()), 10)));
    assert_eq!(source.optional_string_at(13, true), Err(Error::Io));
    assert_eq!(source.last_will_at(7, 0b0000_0000), Ok((None, 7)));
    assert_eq!(source.last_will_at(7, 0b0000_1000), Err(Error::IncorrectPacketFormat));
    match source.last_will_at(7, 0b0010_1100) {
        Ok((Some(will), end)) => {
            assert_eq!(will.topic, "t");
            assert_eq!(will.message, "m");
            assert_eq!(will.qos, QoS::AtLeastOnce);
            assert!(will.retain);
            assert_eq!(end, 13);
        }
        other => panic!("unexpected {:?}", other),
    }
    assert_eq!(source.last_will_at(10, 0b0000_0100), Err(Error::Io));
}

#[test]
fn body_of_each_type() {
    let header = Header::new(0x10, 13).unwrap();
    let mut body = ByteSource::new(vec![0, 4, b'M', b'Q', b'T', b'T', 4, 2, 0, 5, 0, 1, b'c']);
    match body.read_body(header) {
        Ok(Packet::Connect(connect)) => {
            assert_eq!(connect.protocol, Protocol::MQTT(4));
            assert_eq!(connect.keep_alive, 5);
            assert_eq!(connect.client_id, "c");
            assert!(connect.clean_session);
            assert_eq!(connect.last_will, None);
        }
        other => panic!("unexpected {:?}", other),
    }
    assert_eq!(body.pos(), 13);
    let header = Header::new(0xC0, 1).unwrap();
    assert_eq!(ByteSource::new(vec![0]).read_body(header), Err(Error::IncorrectPacketFormat));
    let header = Header::new(0xB0, 2).unwrap();
    assert_eq!(ByteSource::new(vec![0, 1]).read_body(header), Err(Error::UnsupportedPacketType));
}
