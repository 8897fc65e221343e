//! Codec primitives for the MQTT wire protocol: fixed-width big-endian
//! integers, variable byte integers, length-prefixed UTF-8 strings held in
//! fixed-capacity buffers, and the fixed header of a control packet.
mod error;
mod errors;
mod fixed_str;
mod four_byte_int;
mod packet;
mod two_byte_int;
mod utf8_string;
mod variable_byte_int;

pub use error::MqttError;
pub use errors::DataRepresentationError;
pub use fixed_str::FixedStr;
pub use four_byte_int::{FourByteInt, be32, be32_bytes, lemma_four_byte_round_trip};
pub use packet::{
    ControlPacketType, FixedHeader, Packet, Payload, QOS, VariableHeader, first_byte, qos_code,
    standard_flags, type_code,
};
pub use two_byte_int::{TwoByteInt, be16, be16_bytes, lemma_two_byte_round_trip};
pub use utf8_string::{Utf8String, decode_outcome, lemma_string_round_trip, wire};
pub use variable_byte_int::{
    MAX_VALUE, VariableByteInt, decoded, digit_count, digits, encoded, lemma_round_trip,
    lemma_unterminated_rejected,
};
