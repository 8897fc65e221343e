use vstd::prelude::*;

verus! {

/// The value of two bytes read in big-endian order.
pub open spec fn be16(b: Seq<u8>) -> int
    recommends
        b.len() == 2,
{
    b[0] as int * 256 + b[1] as int
}

/// The two big-endian bytes of a 16-bit value.
pub open spec fn be16_bytes(v: u16) -> Seq<u8> {
    seq![(v / 256) as u8, (v % 256) as u8]
}

/// A 16-bit unsigned integer, carried on the wire as two big-endian bytes.
#[derive(Debug, Clone, Copy, PartialEq, Eq, Structural)]
pub struct TwoByteInt(pub u16);

impl TwoByteInt {
    pub fn from_bytes(bytes: [u8; 2]) -> (r: Self)
        ensures
            r.0 as int == be16(bytes@),
    {
        Self(bytes[0] as u16 * 256 + bytes[1] as u16)
    }

    pub fn to_bytes(self) -> (r: [u8; 2])
        ensures
            r@ == be16_bytes(self.0),
    {
        [(self.0 / 256) as u8, (self.0 % 256) as u8]
    }

    pub fn value(self) -> (r: u16)
        ensures
            r == self.0,
    {
        self.0
    }
}

impl From<u16> for TwoByteInt {
    fn from(value: u16) -> (r: Self)
        ensures
            r.0 == value,
    {
        Self(value)
    }
}

impl vstd::std_specs::convert::FromSpecImpl<u16> for TwoByteInt {
    open spec fn obeys_from_spec() -> bool {
        true
    }

    open spec fn from_spec(v: u16) -> Self {
        TwoByteInt(v)
    }
}

/// Reading back the two bytes that `to_bytes` writes gives the value again.
pub proof fn lemma_two_byte_round_trip(v: TwoByteInt)
    ensures
        be16(be16_bytes(v.0)) == v.0 as int,
{
}

} // verus!
