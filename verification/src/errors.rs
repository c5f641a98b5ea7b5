//! The error that callers of the library see.

use vstd::prelude::*;
use vstd::string::*;
use crate::codec::DecodeError;

verus! {

/// What went wrong in the library.
#[derive(Debug)]
pub enum WrcError {
    /// A datagram could not be decoded: `msg` says why in words, `source`
    /// is the codec's own error.
    DecodingError { msg: String, source: DecodeError },
}

/// The words for each way in which decoding fails.
pub open spec fn reason(source: DecodeError) -> Seq<char> {
    match source {
        DecodeError::Truncated => "the buffer is shorter than one record"@,
        DecodeError::Malformed => "a value that has to be finite is not, or the flag is not a flag"@,
    }
}

impl WrcError {
    /// Wraps a codec error, with its reason in words.
    pub fn decoding(source: DecodeError) -> (e: WrcError)
        ensures
            e matches WrcError::DecodingError { msg, source: s } && s == source && msg@ == reason(
                source,
            ),
    {
        let msg = match source {
            DecodeError::Truncated => String::from_str("the buffer is shorter than one record"),
            DecodeError::Malformed => String::from_str(
                "a value that has to be finite is not, or the flag is not a flag",
            ),
        };
        WrcError::DecodingError { msg, source }
    }

    /// The one-line description of the error.
    pub fn message(&self) -> (r: String)
        ensures
            r@ == "Could not decode the packet."@,
    {
        String::from_str("Could not decode the packet.")
    }

    /// The codec error underneath.
    pub fn source(&self) -> (r: DecodeError)
        ensures
            self matches WrcError::DecodingError { source, .. } && r == source,
    {
        match self {
            WrcError::DecodingError { source, .. } => *source,
        }
    }
}

} // verus!
