use vstd::prelude::*;

verus! {

/// Why a decode call failed. Decoding is strict: an unknown wire identifier
/// or tag is a hard failure, never a silent default.
#[derive(Copy, Clone, PartialEq, Eq, Structural, Debug)]
pub enum DecodeError {
    /// The input ended before the field being read was complete.
    UnexpectedEnd,
    /// A variable-length integer did not fit in 32 bits.
    VarIntTooLarge,
    /// A length-prefixed string exceeded its declared bound.
    StringTooLong,
    /// A parser descriptor's wire identifier is not in the closed set.
    UnknownParserIdentifier,
    /// A string-description tag was not one of the known values.
    UnknownStringKind,
    /// A suggestions-type identifier is not in the closed set.
    UnknownSuggestionsType,
    /// A boolean byte was neither zero nor one.
    InvalidBool,
    /// A length-prefixed string held bytes that are not valid UTF-8 text.
    InvalidText,
}

} // verus!
