use vstd::prelude::*;

verus! {

/// Failures of the data representation codecs.
#[derive(Debug, Clone, Copy, PartialEq, Eq, Structural)]
pub enum DataRepresentationError {
    // variable byte integer
    MalformedVariableByteInteger,
    VariableByteIntegerOutOfRange,
    // fixed-capacity buffer
    FixedStrBufferOverflow,
    // length-prefixed UTF-8 string
    Utf8StringTooLong,
    NullTerminatorInString,
    Utf8BufferOverflow,
    Utf8MalformedBuffer,
    InvalidUTF8String,
}

} // verus!
