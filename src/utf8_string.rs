use crate::errors::DataRepresentationError;
use crate::fixed_str::{FixedStr, str_from_utf8};
use crate::two_byte_int::{TwoByteInt, be16};
use vstd::prelude::*;
use vstd::slice::slice_subrange;
use vstd::string::StringSliceAdditionalSpecFns;
use vstd::utf8::valid_utf8;

verus! {

/// The largest length the two-byte prefix can state.
const MAX_STR_LEN: u16 = 65535;

/// The wire form of content `s`: its length as two big-endian bytes, then
/// the bytes themselves.
pub open spec fn wire(s: Seq<u8>) -> Seq<u8> {
    seq![(s.len() / 256) as u8, (s.len() % 256) as u8] + s
}

/// What `decode` makes of `b` for a string of capacity `n`: the content
/// bytes, or the error met first.
pub open spec fn decode_outcome(b: Seq<u8>, n: nat) -> Result<Seq<u8>, DataRepresentationError> {
    if b.len() < 2 {
        Err(DataRepresentationError::Utf8MalformedBuffer)
    } else {
        let l = be16(b.subrange(0, 2));
        if 2 + l > b.len() {
            Err(DataRepresentationError::Utf8MalformedBuffer)
        } else {
            let p = b.subrange(2, 2 + l);
            if !valid_utf8(p) {
                Err(DataRepresentationError::InvalidUTF8String)
            } else if p.contains(0u8) {
                Err(DataRepresentationError::NullTerminatorInString)
            } else if l > n {
                Err(DataRepresentationError::Utf8StringTooLong)
            } else {
                Ok(p)
            }
        }
    }
}

/// Whether some byte of `b` is zero.
fn contains_null(b: &[u8]) -> (r: bool)
    ensures
        r == b@.contains(0u8),
{
    let mut i: usize = 0;
    while i < b.len()
        invariant
            i <= b@.len(),
            forall|j: int| 0 <= j < i ==> b@[j] != 0u8,
        decreases b@.len() - i,
    {
        if b[i] == 0 {
            return true;
        }
        i = i + 1;
    }
    false
}

/// A protocol string: UTF-8 text of at most `N` (and at most 65535) bytes,
/// none of them zero, kept in a fixed-capacity buffer.
#[derive(Debug, PartialEq, Eq)]
pub struct Utf8String<const N: usize> {
    value: FixedStr<N>,
    length: u16,
}

impl<const N: usize> View for Utf8String<N> {
    type V = Seq<u8>;

    /// The content bytes.
    closed spec fn view(&self) -> Seq<u8> {
        self.value@
    }
}

impl<const N: usize> Clone for Utf8String<N> {
    fn clone(&self) -> (r: Self)
        ensures
            r@ == self@,
    {
        proof {
            use_type_invariant(self);
        }
        Self { value: self.value.clone(), length: self.length }
    }
}

impl<const N: usize> Utf8String<N> {
    #[verifier::type_invariant]
    spec fn inv(self) -> bool {
        &&& self.value@.len() == self.length as nat
        &&& self.value@.len() <= N
        &&& !self.value@.contains(0u8)
    }

    /// The empty string.
    pub fn new() -> (r: Self)
        ensures
            r@ == Seq::<u8>::empty(),
    {
        Self { value: FixedStr::new(), length: 0 }
    }

    /// Replaces the content with `value`. Text longer than the capacity (or
    /// than a length prefix can state) and text holding a zero byte are
    /// refused, leaving the string as it was.
    pub fn set(&mut self, value: &str) -> (r: Result<(), DataRepresentationError>)
        ensures
            ({
                let b = value.spec_bytes();
                &&& (b.len() > N || b.len() > 65535) ==> r == Err::<(), _>(
                    DataRepresentationError::Utf8StringTooLong,
                ) && final(self)@ == old(self)@
                &&& (b.len() <= N && b.len() <= 65535 && b.contains(0u8)) ==> r == Err::<(), _>(
                    DataRepresentationError::NullTerminatorInString,
                ) && final(self)@ == old(self)@
                &&& (b.len() <= N && b.len() <= 65535 && !b.contains(0u8)) ==> r == Ok::<
                    (),
                    DataRepresentationError,
                >(()) && final(self)@ == b
            }),
    {
        let bytes = value.as_bytes();
        if bytes.len() > N || bytes.len() > MAX_STR_LEN as usize {
            return Err(DataRepresentationError::Utf8StringTooLong);
        }
        if contains_null(bytes) {
            return Err(DataRepresentationError::NullTerminatorInString);
        }
        let mut content = FixedStr::new();
        match content.push_str(value) {
            Ok(()) => {
                *self = Self { value: content, length: bytes.len() as u16 };
                Ok(())
            },
            Err(e) => Err(e),
        }
    }

    /// The text held.
    pub fn as_str(&self) -> (r: &str)
        ensures
            r.spec_bytes() == self@,
    {
        self.value.as_str()
    }

    /// Writes the wire form (two-byte big-endian length, then the content)
    /// at the start of `buffer` and returns the number of bytes written; the
    /// rest of `buffer` is left as it was. A buffer too short for the wire
    /// form is refused and left untouched. The length never exceeds 65535:
    /// `set` refuses longer text.
    pub fn encode(&self, buffer: &mut [u8]) -> (r: Result<usize, DataRepresentationError>)
        ensures
            old(buffer)@.len() < self@.len() + 2 ==> r == Err::<usize, _>(
                DataRepresentationError::Utf8BufferOverflow,
            ) && final(buffer)@ == old(buffer)@,
            old(buffer)@.len() >= self@.len() + 2 ==> r == Ok::<usize, DataRepresentationError>(
                (self@.len() + 2) as usize,
            ) && final(buffer)@ == wire(self@) + old(buffer)@.skip(self@.len() + 2 as int),
    {
        proof {
            use_type_invariant(self);
        }
        let length = self.length as usize;
        if buffer.len() < length + 2 {
            return Err(DataRepresentationError::Utf8BufferOverflow);
        }
        let prefix = TwoByteInt::from(self.length).to_bytes();
        buffer[0] = prefix[0];
        buffer[1] = prefix[1];
        let content = self.value.as_str().as_bytes();
        let mut i: usize = 0;
        while i < length
            invariant
                length == content@.len() == self@.len(),
                length + 2 <= buffer@.len() == old(buffer)@.len() <= usize::MAX,
                i <= length,
                buffer@.subrange(0, 2) == wire(self@).subrange(0, 2),
                buffer@.subrange(2, 2 + i) == content@.subrange(0, i as int),
                buffer@.skip(length + 2 as int) == old(buffer)@.skip(length + 2 as int),
            decreases length - i,
        {
            buffer[2 + i] = content[i];
            i = i + 1;
            assert(buffer@.subrange(2, 2 + i) == content@.subrange(0, i as int));
        }
        assert(buffer@ == buffer@.subrange(0, 2) + buffer@.subrange(2, 2 + length) + buffer@.skip(
            length + 2,
        ));
        assert(content@.subrange(0, length as int) == content@);
        Ok(length + 2)
    }

    /// Reads a string in wire form from the start of `buffer`; bytes after it
    /// are ignored. See `decode_outcome` for the error met on each input.
    pub fn decode(buffer: &[u8]) -> (r: Result<Self, DataRepresentationError>)
        ensures
            match r {
                Ok(s) => decode_outcome(buffer@, N as nat) == Ok::<Seq<u8>, DataRepresentationError>(
                    s@,
                ),
                Err(e) => decode_outcome(buffer@, N as nat) == Err::<Seq<u8>, _>(e),
            },
    {
        if buffer.len() < 2 {
            return Err(DataRepresentationError::Utf8MalformedBuffer);
        }
        let len = TwoByteInt::from_bytes([buffer[0], buffer[1]]).value() as usize;
        assert(buffer@.subrange(0, 2) == seq![buffer@[0], buffer@[1]]);
        if len + 2 > buffer.len() {
            return Err(DataRepresentationError::Utf8MalformedBuffer);
        }
        let utf8_bytes = slice_subrange(buffer, 2, 2 + len);
        let utf8_str = match str_from_utf8(utf8_bytes) {
            Some(t) => t,
            None => {
                return Err(DataRepresentationError::InvalidUTF8String);
            },
        };
        proof {
            vstd::utf8::encode_utf8_valid_utf8(utf8_str@);
        }
        if contains_null(utf8_str.as_bytes()) {
            return Err(DataRepresentationError::NullTerminatorInString);
        }
        let mut utf8_string = Utf8String::new();
        match utf8_string.set(utf8_str) {
            Ok(()) => Ok(utf8_string),
            Err(e) => Err(e),
        }
    }
}

/// Decoding the wire form of any content that `set` accepts, whatever bytes
/// follow it, gives that content back.
pub proof fn lemma_string_round_trip(s: Seq<u8>, rest: Seq<u8>, n: nat)
    requires
        s.len() <= n,
        s.len() <= 65535,
        valid_utf8(s),
        !s.contains(0u8),
    ensures
        decode_outcome(wire(s) + rest, n) == Ok::<Seq<u8>, DataRepresentationError>(s),
{
    let b = wire(s) + rest;
    assert(b.subrange(0, 2) == seq![(s.len() / 256) as u8, (s.len() % 256) as u8]);
    assert(be16(b.subrange(0, 2)) == s.len());
    assert(b.subrange(2, 2 + s.len() as int) == s);
}

} // verus!
