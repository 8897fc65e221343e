use mqtt_codec::{ControlPacketType, FixedHeader, MqttError, Packet, QOS};

fn standard(packet_type: ControlPacketType) -> [u8; 2] {
    FixedHeader::new(packet_type).unwrap().encode().unwrap()
}

#[test]
fn test_encode_connect() {
    let header = FixedHeader::new(ControlPacketType::CONNECT).unwrap();
    let encoded = header.encode().unwrap();

    assert_eq!(encoded, [0b00010000, 0x00])
}

#[test]
fn test_encode_connack() {
    assert_eq!(standard(ControlPacketType::CONNACK), [0b00100000, 0x00])
}

#[test]
fn test_encode_publish() {
    let headers = [
        FixedHeader::new_publish(QOS::ATMOSTONCE, false).unwrap(),
        FixedHeader::new_publish(QOS::ATLEASTONCE, false).unwrap(),
        FixedHeader::new_publish(QOS::EXACTLYONCE, false).unwrap(),
        FixedHeader::new_publish(QOS::ATMOSTONCE, true).unwrap(),
        FixedHeader::new_publish(QOS::ATLEASTONCE, true).unwrap(),
        FixedHeader::new_publish(QOS::EXACTLYONCE, true).unwrap(),
    ];
    let expected_headers: [[u8; 2]; 6] = [
        [0b00110000, 0x00],
        [0b00110010, 0x00],
        [0b00110100, 0x00],
        [0b00111000, 0x00],
        [0b00111010, 0x00],
        [0b00111100, 0x00],
    ];

    for (i, header) in headers.iter().enumerate() {
        let encoded = header.encode().unwrap();
        assert_eq!(encoded, expected_headers[i]);
    }
}

#[test]
fn test_encode_puback() {
    assert_eq!(standard(ControlPacketType::PUBACK), [0b01000000, 0x00])
}

#[test]
fn test_encode_pubrec() {
    assert_eq!(standard(ControlPacketType::PUBREC), [0b01010000, 0x00])
}

#[test]
fn test_encode_pubrel() {
    assert_eq!(standard(ControlPacketType::PUBREL), [0b01100010, 0x00])
}

#[test]
fn test_encode_pubcomp() {
    assert_eq!(standard(ControlPacketType::PUBCOMP), [0b01110000, 0x00])
}

#[test]
fn test_encode_subscribe() {
    assert_eq!(standard(ControlPacketType::SUBSCRIBE), [0b10000010, 0x00])
}

#[test]
fn test_encode_suback() {
    assert_eq!(standard(ControlPacketType::SUBACK), [0b10010000, 0x00])
}

#[test]
fn test_encode_unsubscribe() {
    assert_eq!(standard(ControlPacketType::UNSUBSCRIBE), [0b10100010, 0x00])
}

#[test]
fn test_encode_unsuback() {
    assert_eq!(standard(ControlPacketType::UNSUBACK), [0b10110000, 0x00])
}

#[test]
fn test_encode_pingreq() {
    assert_eq!(standard(ControlPacketType::PINGREQ), [0b11000000, 0x00])
}

#[test]
fn test_encode_pingresp() {
    assert_eq!(standard(ControlPacketType::PINGRESP), [0b11010000, 0x00])
}

#[test]
fn test_encode_disconnect() {
    assert_eq!(standard(ControlPacketType::DISCONNECT), [0b11100000, 0x00])
}

#[test]
fn test_encode_auth() {
    assert_eq!(standard(ControlPacketType::AUTH), [0b11110000, 0x00])
}

#[test]
fn standard_header_refuses_reserved_and_publish() {
    assert!(matches!(
        FixedHeader::new(ControlPacketType::RESERVED),
        Err(MqttError::InvalidPacketType)
    ));
    assert!(matches!(
        FixedHeader::new(ControlPacketType::PUBLISH),
        Err(MqttError::InvalidPacketType)
    ));
}

#[test]
fn hand_built_standard_publish_header_does_not_encode() {
    let header = FixedHeader::Standard { packet_type: ControlPacketType::PUBLISH };
    assert_eq!(header.encode(), Err(MqttError::InvalidPacketType));
    let header = FixedHeader::Standard { packet_type: ControlPacketType::RESERVED };
    assert_eq!(header.encode(), Err(MqttError::InvalidPacketType));
}

#[test]
fn packet_holds_a_fixed_header() {
    let packet = Packet {
        fixed_header: FixedHeader::new_publish(QOS::ATLEASTONCE, false).unwrap(),
        variable_header: None,
        payload: None,
    };
    assert_eq!(packet.fixed_header.encode().unwrap(), [0b00110010, 0x00]);
    assert!(packet.variable_header.is_none());
    assert!(packet.payload.is_none());
}
