use crate::errors::DataRepresentationError;
use vstd::prelude::*;

verus! {

/// The largest value a variable byte integer can carry (28 bits).
pub const MAX_VALUE: u32 = 0x0FFF_FFFF;

/// Number of base-128 digits of `v` (at least one).
pub open spec fn digit_count(v: nat) -> nat
    decreases v,
{
    if v < 128 {
        1
    } else {
        1 + digit_count(v / 128)
    }
}

/// The base-128 digits of `v`, least significant first, each byte but the
/// last with its continuation bit (0x80) set.
pub open spec fn digits(v: nat) -> Seq<u8>
    decreases v,
{
    if v < 128 {
        seq![v as u8]
    } else {
        seq![(v % 128 + 128) as u8] + digits(v / 128)
    }
}

/// The four-byte output of `encode`: the digits of `v`, then zero bytes.
pub open spec fn encoded(v: nat) -> Seq<u8> {
    digits(v) + Seq::new((4 - digit_count(v)) as nat, |_i: int| 0u8)
}

/// The value read from the first `k` bytes of `b`: `None` when no byte among
/// them has its continuation bit clear.
pub open spec fn decoded(b: Seq<u8>, k: nat) -> Option<nat>
    decreases k,
{
    if k == 0 || b.len() == 0 {
        None
    } else if b[0] < 128 {
        Some(b[0] as nat)
    } else {
        match decoded(b.drop_first(), (k - 1) as nat) {
            Some(v) => Some((b[0] % 128) as nat + 128 * v),
            None => None,
        }
    }
}

/// `128` to the power `n`.
spec fn pow128(n: nat) -> nat
    decreases n,
{
    if n == 0 {
        1
    } else {
        128 * pow128((n - 1) as nat)
    }
}

/// `acc + scale * v` for a decoded `v`.
spec fn scaled(acc: nat, scale: nat, o: Option<nat>) -> Option<nat> {
    match o {
        Some(v) => Some(acc + scale * v),
        None => None,
    }
}

/// A value in `[0, MAX_VALUE]` with the number of bytes of its encoding.
#[derive(Debug, Clone, Copy, PartialEq, Eq, Structural)]
pub struct VariableByteInt {
    value: u32,
    length: usize,
}

proof fn lemma_digits_len(v: nat)
    ensures
        digits(v).len() == digit_count(v),
    decreases v,
{
    if v >= 128 {
        lemma_digits_len(v / 128);
    }
}

proof fn lemma_digit_count_max(v: nat)
    requires
        v <= MAX_VALUE,
    ensures
        1 <= digit_count(v) <= 4,
{
    reveal_with_fuel(digit_count, 5);
}

impl VariableByteInt {
    #[verifier::type_invariant]
    spec fn inv(self) -> bool {
        &&& self.value <= MAX_VALUE
        &&& self.length as nat == digit_count(self.value as nat)
    }

    /// The value carried.
    pub closed spec fn spec_value(self) -> nat {
        self.value as nat
    }

    /// The number of bytes of its encoding.
    pub closed spec fn spec_length(self) -> nat {
        self.length as nat
    }

    /// Wraps `value`, which must fit in 28 bits; the length is the number of
    /// its base-128 digits.
    pub fn new(value: u32) -> (r: Result<Self, DataRepresentationError>)
        ensures
            value > MAX_VALUE ==> r == Err::<Self, _>(
                DataRepresentationError::MalformedVariableByteInteger,
            ),
            value <= MAX_VALUE ==> (r matches Ok(x) && x.spec_value() == value && x.spec_length()
                == digit_count(value as nat)),
    {
        if value > MAX_VALUE {
            return Err(DataRepresentationError::MalformedVariableByteInteger);
        }
        let mut x = value;
        let mut length: usize = 1;
        while x >= 128
            invariant
                x <= value <= MAX_VALUE,
                1 <= length <= 4,
                length - 1 + digit_count(x as nat) == digit_count(value as nat),
            decreases x,
        {
            proof {
                lemma_digit_count_max(value as nat);
                assert(digit_count((x / 128) as nat) >= 1);
            }
            x = x / 128;
            length = length + 1;
        }
        if length > 4 {
            return Err(DataRepresentationError::VariableByteIntegerOutOfRange);
        }
        Ok(VariableByteInt { value, length })
    }

    pub fn value(self) -> (r: u32)
        ensures
            r == self.spec_value(),
    {
        self.value
    }

    pub fn length(self) -> (r: usize)
        ensures
            r == self.spec_length(),
    {
        self.length
    }

    /// The encoding of the value into four bytes: the first `length()` bytes
    /// are its digits and the rest are zero, not to be sent.
    pub fn encode(self) -> (r: [u8; 4])
        ensures
            r@ == encoded(self.spec_value()),
    {
        proof {
            use_type_invariant(self);
            lemma_digit_count_max(self.value as nat);
            lemma_digits_len(self.value as nat);
        }
        let mut x = self.value;
        let mut output = [0u8; 4];
        let mut i: usize = 0;
        while x >= 128
            invariant
                x <= self.value,
                i + digit_count(x as nat) == digit_count(self.value as nat) <= 4,
                digits(self.value as nat) == output@.subrange(0, i as int) + digits(x as nat),
                forall|j: int| i <= j < 4 ==> output@[j] == 0,
            decreases x,
        {
            proof {
                assert(digit_count((x / 128) as nat) >= 1);
            }
            let digit = (x % 128) as u8;
            // more digits follow: set the continuation bit
            let byte = digit | 0x80;
            assert(byte == digit + 128) by (bit_vector)
                requires
                    digit < 128,
                    byte == digit | 0x80,
            ;
            let ghost before = output@;
            output[i] = byte;
            assert(output@.subrange(0, i + 1) == before.subrange(0, i as int) + seq![byte]);
            x = x / 128;
            i = i + 1;
        }
        let ghost before = output@;
        output[i] = x as u8;
        proof {
            assert(output@.subrange(0, i + 1) == before.subrange(0, i as int) + seq![x as u8]);
            assert(output@.subrange(0, i + 1) == digits(self.value as nat));
            assert(output@ == encoded(self.value as nat));
        }
        output
    }

    /// Reads a variable byte integer from the start of `input`, looking at
    /// no more than four bytes; bytes after the last digit are ignored.
    /// The length of the result is the digit count of the value read.
    pub fn decode(input: &[u8]) -> (r: Result<Self, DataRepresentationError>)
        ensures
            match decoded(input@, 4) {
                Some(v) => r matches Ok(x) && x.spec_value() == v && x.spec_length()
                    == digit_count(v),
                None => r == Err::<Self, _>(
                    DataRepresentationError::MalformedVariableByteInteger,
                ),
            },
    {
        let mut multiplier: u32 = 1;
        let mut value: u32 = 0;
        let mut i: usize = 0;
        assert(input@.skip(0) == input@);
        while i < 4 && i < input.len()
            invariant
                i <= 4,
                i <= input.len(),
                multiplier as nat == pow128(i as nat),
                value < multiplier,
                decoded(input@, 4) == scaled(
                    value as nat,
                    multiplier as nat,
                    decoded(input@.skip(i as int), (4 - i) as nat),
                ),
            decreases 4 - i,
        {
            proof {
                reveal_with_fuel(pow128, 5);
            }
            let byte = input[i];
            let digit = (byte & 0x7f) as u32;
            assert(byte & 0x7f == byte % 128) by (bit_vector);
            assert(digit * multiplier <= 127 * multiplier) by (nonlinear_arith)
                requires
                    digit <= 127,
            ;
            let ghost rest = input@.skip(i as int);
            assert(rest[0] == byte);
            assert(rest.drop_first() == input@.skip(i + 1));
            if byte & 0x80 == 0 {
                assert(byte & 0x80 == 0 ==> byte < 128) by (bit_vector);
                assert(decoded(rest, (4 - i) as nat) == Some(byte as nat));
                assert(multiplier <= 0x200000);
                assert(digit as nat == byte as nat);
                value = value + digit * multiplier;
                assert(value <= MAX_VALUE);
                assert(decoded(input@, 4) == Some(value as nat));
                return Self::new(value);
            }
            assert(byte & 0x80 != 0 ==> byte >= 128) by (bit_vector);
            proof {
                let k = (4 - i) as nat;
                assert(decoded(rest, k) == scaled(
                    digit as nat,
                    128,
                    decoded(input@.skip(i + 1), (k - 1) as nat),
                ));
                let m = multiplier as nat;
                let d = digit as nat;
                let acc = value as nat;
                if let Some(v) = decoded(input@.skip(i + 1), (k - 1) as nat) {
                    assert(acc + m * (d + 128 * v) == (acc + m * d) + (m * 128) * v)
                        by (nonlinear_arith);
                }
            }
            value = value + digit * multiplier;
            multiplier = multiplier * 128;
            i = i + 1;
        }
        Err(DataRepresentationError::MalformedVariableByteInteger)
    }
}

proof fn lemma_decoded_digits(v: nat, tail: Seq<u8>, k: nat)
    requires
        digit_count(v) <= k,
    ensures
        decoded(digits(v) + tail, k) == Some(v),
    decreases v,
{
    let b = digits(v) + tail;
    if v < 128 {
        assert(b[0] == v as u8);
    } else {
        lemma_decoded_digits(v / 128, tail, (k - 1) as nat);
        assert(b.drop_first() == digits(v / 128) + tail);
        assert(b[0] == (v % 128 + 128) as u8);
    }
}

/// Decoding the output of `encode` gives back the value encoded; and since
/// the length of a decoded integer is the digit count of its value, it is
/// also the length that `new` gives that value.
pub proof fn lemma_round_trip(v: nat)
    requires
        v <= MAX_VALUE,
    ensures
        decoded(encoded(v), 4) == Some(v),
{
    lemma_digit_count_max(v);
    lemma_decoded_digits(v, Seq::new((4 - digit_count(v)) as nat, |_i: int| 0u8), 4);
}

/// Four bytes that all have their continuation bit set never decode, whatever
/// follows them.
pub proof fn lemma_unterminated_rejected(b: Seq<u8>)
    requires
        b.len() >= 4,
        forall|j: int| 0 <= j < 4 ==> b[j] >= 128,
    ensures
        decoded(b, 4) is None,
{
    let b1 = b.drop_first();
    let b2 = b1.drop_first();
    let b3 = b2.drop_first();
    assert(b1[0] == b[1] && b2[0] == b[2] && b3[0] == b[3]);
    assert(decoded(b3.drop_first(), 0) is None);
    assert(decoded(b3, 1) is None);
    assert(decoded(b2, 2) is None);
    assert(decoded(b1, 3) is None);
}

} // verus!
