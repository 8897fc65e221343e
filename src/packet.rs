//! An MQTT control packet is made of three parts, in this order: the fixed
//! header (all packets), the variable header (some packets) and the payload
//! (some packets).
use crate::error::MqttError;
use vstd::prelude::*;

verus! {

const CONNECT_FLAGS: u8 = 0x00;
const CONNACK_FLAGS: u8 = 0x00;
const PUBACK_FLAGS: u8 = 0x00;
const PUBREC_FLAGS: u8 = 0x00;
const PUBREL_FLAGS: u8 = 0x02;
const PUBCOMP_FLAGS: u8 = 0x00;
const SUBSCRIBE_FLAGS: u8 = 0x02;
const SUBACK_FLAGS: u8 = 0x00;
const UNSUBSCRIBE_FLAGS: u8 = 0x02;
const UNSUBACK_FLAGS: u8 = 0x00;
const PINGREQ_FLAGS: u8 = 0x00;
const PINGRESP_FLAGS: u8 = 0x00;
const DISCONNECT_FLAGS: u8 = 0x00;
const AUTH_FLAGS: u8 = 0x00;

/// A control packet. Only the fixed header has content so far.
pub struct Packet {
    pub fixed_header: FixedHeader,
    pub variable_header: Option<VariableHeader>,
    pub payload: Option<Payload>,
}

/// Delivery guarantee of a published message.
#[derive(Debug, Clone, Copy, PartialEq, Eq, Structural)]
pub enum QOS {
    ATMOSTONCE,
    ATLEASTONCE,
    EXACTLYONCE,
}

/// The wire value of a QoS level.
pub open spec fn qos_code(q: QOS) -> u8 {
    match q {
        QOS::ATMOSTONCE => 0,
        QOS::ATLEASTONCE => 1,
        QOS::EXACTLYONCE => 2,
    }
}

impl QOS {
    fn code(self) -> (r: u8)
        ensures
            r == qos_code(self),
    {
        match self {
            QOS::ATMOSTONCE => 0,
            QOS::ATLEASTONCE => 1,
            QOS::EXACTLYONCE => 2,
        }
    }
}

/// The first bytes of a control packet. A standard header's flags follow from
/// its packet type; a publish header carries its QoS level and DUP flag.
pub enum FixedHeader {
    Standard { packet_type: ControlPacketType },
    Publish { packet_type: ControlPacketType, qos: QOS, dup: bool },
}

/// The fixed flag nibble of a standard header of type `t`; `None` for the
/// types that no standard header may have.
pub open spec fn standard_flags(t: ControlPacketType) -> Option<u8> {
    match t {
        ControlPacketType::RESERVED | ControlPacketType::PUBLISH => None,
        ControlPacketType::PUBREL | ControlPacketType::SUBSCRIBE
        | ControlPacketType::UNSUBSCRIBE => Some(2u8),
        _ => Some(0u8),
    }
}

/// Byte 0 of the encoding of `h`: the packet type in bits 7-4 and the flags
/// in bits 3-0 (for a publish header, DUP in bit 3 and QoS in bits 2-1);
/// `None` where `encode` refuses the header.
pub open spec fn first_byte(h: FixedHeader) -> Option<u8> {
    match h {
        FixedHeader::Standard { packet_type } => match standard_flags(packet_type) {
            Some(f) => Some((type_code(packet_type) * 16 + f) as u8),
            None => None,
        },
        FixedHeader::Publish { packet_type, qos, dup } => Some(
            (type_code(packet_type) * 16 + (if dup {
                8int
            } else {
                0int
            }) + qos_code(qos) * 2) as u8,
        ),
    }
}

impl FixedHeader {
    /// A standard header for `packet_type`. RESERVED is never a valid type,
    /// and a PUBLISH header must be made with `new_publish`.
    pub fn new(packet_type: ControlPacketType) -> (r: Result<Self, MqttError>)
        ensures
            packet_type == ControlPacketType::RESERVED || packet_type == ControlPacketType::PUBLISH
                ==> r == Err::<Self, _>(MqttError::InvalidPacketType),
            !(packet_type == ControlPacketType::RESERVED || packet_type
                == ControlPacketType::PUBLISH) ==> r == Ok::<Self, MqttError>(
                (FixedHeader::Standard { packet_type }),
            ),
    {
        match packet_type {
            ControlPacketType::RESERVED => Err(MqttError::InvalidPacketType),
            ControlPacketType::PUBLISH => Err(MqttError::InvalidPacketType),
            _ => Ok(FixedHeader::Standard { packet_type }),
        }
    }

    /// A PUBLISH header with QoS level `qos`; `dup` marks a re-sending.
    pub fn new_publish(qos: QOS, dup: bool) -> (r: Result<Self, MqttError>)
        ensures
            r == Ok::<Self, MqttError>(
                (FixedHeader::Publish { packet_type: ControlPacketType::PUBLISH, qos, dup }),
            ),
    {
        Ok(FixedHeader::Publish { packet_type: ControlPacketType::PUBLISH, qos: qos, dup: dup })
    }

    /// The two header bytes: byte 0 as `first_byte` gives it, and byte 1, the
    /// place of the remaining length, zero.
    pub fn encode(&self) -> (r: Result<[u8; 2], MqttError>)
        ensures
            match first_byte(*self) {
                Some(b) => (r matches Ok(a) && a@ == seq![b, 0u8]),
                None => r == Err::<[u8; 2], _>(MqttError::InvalidPacketType),
            },
    {
        let mut header: [u8; 2] = [0x00, 0x00];
        match self {
            FixedHeader::Standard { packet_type } => {
                let code = packet_type.code();
                let flags = match *packet_type {
                    ControlPacketType::CONNECT => CONNECT_FLAGS,
                    ControlPacketType::CONNACK => CONNACK_FLAGS,
                    ControlPacketType::PUBACK => PUBACK_FLAGS,
                    ControlPacketType::PUBREC => PUBREC_FLAGS,
                    ControlPacketType::PUBREL => PUBREL_FLAGS,
                    ControlPacketType::PUBCOMP => PUBCOMP_FLAGS,
                    ControlPacketType::SUBSCRIBE => SUBSCRIBE_FLAGS,
                    ControlPacketType::SUBACK => SUBACK_FLAGS,
                    ControlPacketType::UNSUBSCRIBE => UNSUBSCRIBE_FLAGS,
                    ControlPacketType::UNSUBACK => UNSUBACK_FLAGS,
                    ControlPacketType::PINGREQ => PINGREQ_FLAGS,
                    ControlPacketType::PINGRESP => PINGRESP_FLAGS,
                    ControlPacketType::DISCONNECT => DISCONNECT_FLAGS,
                    ControlPacketType::AUTH => AUTH_FLAGS,
                    _ => {
                        return Err(MqttError::InvalidPacketType);
                    },
                };
                // packet type in the high nibble, flags in the low one
                let byte = (code << 4) | flags;
                assert(byte == code * 16 + flags) by (bit_vector)
                    requires
                        code < 16,
                        flags < 16,
                        byte == (code << 4) | flags,
                ;
                header[0] = byte;
            },
            FixedHeader::Publish { packet_type, qos, dup } => {
                let code = packet_type.code();
                let q = qos.code();
                let mut byte = code << 4;
                // DUP flag in bit 3
                if *dup {
                    byte = byte | 0x08;
                }
                // QoS level in bits 2-1
                let with_qos = byte | (q << 1);
                assert(with_qos == code * 16 + (if *dup {
                    8u8
                } else {
                    0u8
                }) + q * 2) by (bit_vector)
                    requires
                        code < 16,
                        q < 4,
                        byte == (if *dup {
                            (code << 4) | 0x08
                        } else {
                            code << 4
                        }),
                        with_qos == byte | (q << 1),
                ;
                header[0] = with_qos;
            },
        }
        header[1] = 0x00;
        Ok(header)
    }
}

/// The variable header of a packet; no packet fills it yet.
pub struct VariableHeader {}

/// The payload of a packet; no packet fills it yet.
pub struct Payload {}

/// The kind of a control packet, numbered 0 to 15 on the wire.
#[derive(Debug, Clone, Copy, PartialEq, Eq, Structural)]
pub enum ControlPacketType {
    RESERVED,
    CONNECT,
    CONNACK,
    PUBLISH,
    PUBACK,
    PUBREC,
    PUBREL,
    PUBCOMP,
    SUBSCRIBE,
    SUBACK,
    UNSUBSCRIBE,
    UNSUBACK,
    PINGREQ,
    PINGRESP,
    DISCONNECT,
    AUTH,
}

/// The wire number of a packet type.
pub open spec fn type_code(t: ControlPacketType) -> u8 {
    match t {
        ControlPacketType::RESERVED => 0,
        ControlPacketType::CONNECT => 1,
        ControlPacketType::CONNACK => 2,
        ControlPacketType::PUBLISH => 3,
        ControlPacketType::PUBACK => 4,
        ControlPacketType::PUBREC => 5,
        ControlPacketType::PUBREL => 6,
        ControlPacketType::PUBCOMP => 7,
        ControlPacketType::SUBSCRIBE => 8,
        ControlPacketType::SUBACK => 9,
        ControlPacketType::UNSUBSCRIBE => 10,
        ControlPacketType::UNSUBACK => 11,
        ControlPacketType::PINGREQ => 12,
        ControlPacketType::PINGRESP => 13,
        ControlPacketType::DISCONNECT => 14,
        ControlPacketType::AUTH => 15,
    }
}

impl ControlPacketType {
    fn code(self) -> (r: u8)
        ensures
            r == type_code(self),
    {
        match self {
            ControlPacketType::RESERVED => 0,
            ControlPacketType::CONNECT => 1,
            ControlPacketType::CONNACK => 2,
            ControlPacketType::PUBLISH => 3,
            ControlPacketType::PUBACK => 4,
            ControlPacketType::PUBREC => 5,
            ControlPacketType::PUBREL => 6,
            ControlPacketType::PUBCOMP => 7,
            ControlPacketType::SUBSCRIBE => 8,
            ControlPacketType::SUBACK => 9,
            ControlPacketType::UNSUBSCRIBE => 10,
            ControlPacketType::UNSUBACK => 11,
            ControlPacketType::PINGREQ => 12,
            ControlPacketType::PINGRESP => 13,
            ControlPacketType::DISCONNECT => 14,
            ControlPacketType::AUTH => 15,
        }
    }
}

} // verus!
