use crate::errors::DataRepresentationError;
use vstd::prelude::*;
use vstd::slice::slice_subrange;
use vstd::string::StringSliceAdditionalSpecFns;
use vstd::utf8::{valid_utf8, valid_utf8_concat, encode_utf8_valid_utf8};

verus! {

/// Relies on core::str::from_utf8: it accepts exactly the well-formed UTF-8
/// byte sequences, and the text it returns is made of those same bytes.
#[verifier::external_body]
pub(crate) fn str_from_utf8(b: &[u8]) -> (r: Option<&str>)
    ensures
        match r {
            Some(s) => s.spec_bytes() == b@,
            None => !valid_utf8(b@),
        },
{
    core::str::from_utf8(b).ok()
}

/// A byte buffer of capacity `N` that holds UTF-8 text, with no allocation.
#[derive(Debug, PartialEq, Eq)]
pub struct FixedStr<const N: usize> {
    buffer: [u8; N],
    len: usize,
}

impl<const N: usize> View for FixedStr<N> {
    type V = Seq<u8>;

    /// The bytes held.
    closed spec fn view(&self) -> Seq<u8> {
        self.buffer@.subrange(0, self.len as int)
    }
}

impl<const N: usize> Clone for FixedStr<N> {
    fn clone(&self) -> (r: Self)
        ensures
            r@ == self@,
    {
        proof {
            use_type_invariant(self);
        }
        Self { buffer: self.buffer, len: self.len }
    }
}

impl<const N: usize> FixedStr<N> {
    #[verifier::type_invariant]
    spec fn inv(self) -> bool {
        &&& self.len <= N
        &&& valid_utf8(self.buffer@.subrange(0, self.len as int))
    }

    /// An empty buffer.
    pub fn new() -> (r: Self)
        ensures
            r@ == Seq::<u8>::empty(),
    {
        let r = Self { buffer: [0; N], len: 0 };
        assert(r.buffer@.subrange(0, 0) == Seq::<u8>::empty());
        r
    }

    /// Appends the bytes of `s` when they fit in the space left; otherwise
    /// leaves the buffer as it was.
    pub fn push_str(&mut self, s: &str) -> (r: Result<(), DataRepresentationError>)
        ensures
            old(self)@.len() + s.spec_bytes().len() > N ==> r == Err::<(), _>(
                DataRepresentationError::FixedStrBufferOverflow,
            ) && final(self)@ == old(self)@,
            old(self)@.len() + s.spec_bytes().len() <= N ==> r == Ok::<(), DataRepresentationError>(
                ()) && final(self)@ == old(self)@ + s.spec_bytes(),
    {
        proof {
            use_type_invariant(&*self);
        }
        let bytes = s.as_bytes();
        if bytes.len() > N - self.len {
            return Err(DataRepresentationError::FixedStrBufferOverflow);
        }
        let start = self.len;
        let mut buffer = self.buffer;
        let mut i: usize = 0;
        while i < bytes.len()
            invariant
                start + bytes@.len() <= N,
                i <= bytes@.len(),
                buffer@.len() == N,
                buffer@.subrange(0, start as int) == old(self)@,
                buffer@.subrange(start as int, start + i) == bytes@.subrange(0, i as int),
            decreases bytes@.len() - i,
        {
            buffer[start + i] = bytes[i];
            i = i + 1;
            assert(buffer@.subrange(start as int, start + i) == bytes@.subrange(0, i as int));
        }
        proof {
            assert(bytes@.subrange(0, bytes@.len() as int) == bytes@);
            let content = buffer@.subrange(0, start + bytes@.len());
            assert(content == old(self)@ + bytes@);
            encode_utf8_valid_utf8(s@);
            valid_utf8_concat(old(self)@, bytes@);
        }
        *self = Self { buffer, len: start + bytes.len() };
        Ok(())
    }

    /// The text held. Every writer appends whole UTF-8 text and the type's
    /// invariant keeps the content well-formed, so this cannot fail.
    pub fn as_str(&self) -> (r: &str)
        ensures
            r.spec_bytes() == self@,
    {
        proof {
            use_type_invariant(self);
        }
        let content = slice_subrange(self.buffer.as_slice(), 0, self.len);
        match str_from_utf8(content) {
            Some(s) => s,
            None => "",
        }
    }

    /// Empties the buffer.
    pub fn clear(&mut self)
        ensures
            final(self)@ == Seq::<u8>::empty(),
    {
        self.len = 0;
        assert(self.buffer@.subrange(0, 0) == Seq::<u8>::empty());
    }
}

} // verus!
