use vstd::prelude::*;

verus! {

/// The value of four bytes read in big-endian order.
pub open spec fn be32(b: Seq<u8>) -> int
    recommends
        b.len() == 4,
{
    b[0] as int * 0x1000000 + b[1] as int * 0x10000 + b[2] as int * 0x100 + b[3] as int
}

/// The four big-endian bytes of a 32-bit value.
pub open spec fn be32_bytes(v: u32) -> Seq<u8> {
    seq![
        (v / 0x1000000) as u8,
        (v / 0x10000 % 0x100) as u8,
        (v / 0x100 % 0x100) as u8,
        (v % 0x100) as u8,
    ]
}

/// A 32-bit unsigned integer, carried on the wire as four big-endian bytes.
#[derive(Debug, Clone, Copy, PartialEq, Eq, Structural)]
pub struct FourByteInt(pub u32);

impl FourByteInt {
    pub fn from_bytes(bytes: [u8; 4]) -> (r: Self)
        ensures
            r.0 as int == be32(bytes@),
    {
        Self(
            bytes[0] as u32 * 0x1000000 + bytes[1] as u32 * 0x10000 + bytes[2] as u32 * 0x100
                + bytes[3] as u32,
        )
    }

    pub fn to_bytes(self) -> (r: [u8; 4])
        ensures
            r@ == be32_bytes(self.0),
    {
        let v = self.0;
        [(v / 0x1000000) as u8, (v / 0x10000 % 0x100) as u8, (v / 0x100 % 0x100) as u8, (v % 0x100) as u8]
    }
}

/// Reading back the four bytes that `to_bytes` writes gives the value again.
pub proof fn lemma_four_byte_round_trip(v: FourByteInt)
    ensures
        be32(be32_bytes(v.0)) == v.0 as int,
{
}

} // verus!
