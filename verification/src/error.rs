use vstd::prelude::*;

verus! {

/// Why a beacon line, a payload, or a pattern string could not be decoded.
///
/// Every failure is deterministic in the input and is returned to the
/// immediate caller; nothing is retried or logged inside the library.
#[derive(Debug, Clone, Copy, PartialEq, Eq, Structural)]
pub enum DecodeError {
    /// The line does not split into three or four whitespace tokens.
    MalformedFrame,
    /// The satellite identifier or the call sign token does not match.
    BadHeader,
    /// The optional signal-quality token has a bad prefix, length, or digit.
    BadSignalQuality,
    /// The payload token is not exactly 16 characters long.
    BadPayloadLength,
    /// A payload character is not a hexadecimal digit; `position` is the
    /// index of the first such character within the payload token.
    BadHexDigit { position: usize },
    /// The payload decoder was handed other than 8 bytes.
    InvalidByteCount,
    /// A temperature formula was evaluated outside its valid input domain.
    OutOfDomain,
    /// A pattern handed to the substitution decoder has no mapping.
    UnknownPattern,
}

} // verus!
