//! The closed, identifier-tagged set of argument parser descriptors and its
//! wire codec, together with the string-description and suggestions-type
//! enumerations it carries. Each descriptor is identified on the wire by a
//! textual identifier; decoding an identifier outside the closed set is a
//! hard failure, never a silent default. Numeric range payloads hold raw bit
//! patterns (two's complement for the integer kinds, IEEE 754 for the
//! fractional kinds), written as fixed-width big-endian bytes.

use vstd::prelude::*;
use vstd::string::*;

use crate::error::DecodeError;
use crate::flags::{EntitySelector, MinMax, ScoreHolderSelector};
use crate::wire::{
    be32_bytes, be32_read, be64_bytes, be64_read, bool_byte, bool_read, byte_read, bytes_eq, decode_be32, decode_be64,
    decode_bool, decode_byte, decode_string, decode_varint, encode_be32, encode_be64,
    encode_string, encode_varint, lemma_be32_round_trip, lemma_be64_round_trip,
    lemma_string_round_trip, lemma_subrange_split, lemma_varint_round_trip, string_bytes,
    string_read, string_size, varint_bytes, varint_read,
};

verus! {

/// How a string argument consumes tokens: one word, a quotable phrase, or
/// the whole rest of the input. Encoded as a variable-length integer tag.
#[derive(Copy, Clone, PartialEq, Eq, Debug)]
pub enum StringDescription {
    SingleWord,
    QuotablePhrase,
    GreedyPhrase,
}

impl StringDescription {
    /// The wire tag of this description.
    pub open spec fn spec_tag(self) -> u32 {
        match self {
            StringDescription::SingleWord => 0,
            StringDescription::QuotablePhrase => 1,
            StringDescription::GreedyPhrase => 2,
        }
    }

    /// The wire encoding of this description.
    pub open spec fn spec_enc(self) -> Seq<u8> {
        varint_bytes(self.spec_tag())
    }

    /// Reading a string description at `pos`; tags outside zero to two are
    /// rejected.
    pub open spec fn spec_read(bytes: Seq<u8>, pos: int) -> Result<
        (StringDescription, int),
        DecodeError,
    > {
        match varint_read(bytes, pos) {
            Err(e) => Err(e),
            Ok((v, end)) => {
                if v == 0 {
                    Ok((StringDescription::SingleWord, end))
                } else if v == 1 {
                    Ok((StringDescription::QuotablePhrase, end))
                } else if v == 2 {
                    Ok((StringDescription::GreedyPhrase, end))
                } else {
                    Err(DecodeError::UnknownStringKind)
                }
            },
        }
    }

    /// Decoding inverts encoding for every description.
    pub proof fn lemma_round_trip(bytes: Seq<u8>, pos: int, d: StringDescription)
        requires
            0 <= pos,
            pos + d.spec_enc().len() <= bytes.len(),
            bytes.subrange(pos, pos + d.spec_enc().len()) == d.spec_enc(),
        ensures
            StringDescription::spec_read(bytes, pos) == Ok::<(StringDescription, int), DecodeError>(
                (d, pos + d.spec_enc().len()),
            ),
    {
        lemma_varint_round_trip(bytes, pos, d.spec_tag());
    }

    /// Appends the wire encoding of this description.
    pub fn encode(&self, out: &mut Vec<u8>)
        ensures
            final(out)@ == old(out)@ + self.spec_enc(),
    {
        match self {
            StringDescription::SingleWord => encode_varint(0, out),
            StringDescription::QuotablePhrase => encode_varint(1, out),
            StringDescription::GreedyPhrase => encode_varint(2, out),
        }
    }

    /// The byte length of the wire encoding of this description.
    pub fn size(&self) -> (n: u64)
        ensures
            n == self.spec_enc().len(),
    {
        1
    }

    /// Reads a string description at `pos`, as `spec_read` describes.
    pub fn decode(bytes: &[u8], pos: usize) -> (r: Result<(StringDescription, usize), DecodeError>)
        ensures
            match r {
                Ok((d, end)) => StringDescription::spec_read(bytes@, pos as int) == Ok::<
                    (StringDescription, int),
                    DecodeError,
                >((d, end as int)),
                Err(e) => StringDescription::spec_read(bytes@, pos as int) == Err::<
                    (StringDescription, int),
                    DecodeError,
                >(e),
            },
    {
        match decode_varint(bytes, pos) {
            Err(e) => Err(e),
            Ok((v, end)) => {
                if v == 0 {
                    Ok((StringDescription::SingleWord, end))
                } else if v == 1 {
                    Ok((StringDescription::QuotablePhrase, end))
                } else if v == 2 {
                    Ok((StringDescription::GreedyPhrase, end))
                } else {
                    Err(DecodeError::UnknownStringKind)
                }
            },
        }
    }
}


/// Where a client should ask for completion suggestions. Encoded as one of a
/// closed set of wire identifiers.
#[derive(Copy, Clone, PartialEq, Eq, Debug)]
pub enum SuggestionsType {
    AskServer,
    AllRecipes,
    AvailableSounds,
    AvailableBiomes,
    SummonableEntities,
}

impl SuggestionsType {
    /// The wire identifier of this suggestions type.
    pub open spec fn spec_tag(self) -> Seq<u8> {
        match self {
            SuggestionsType::AskServer => ("minecraft:ask_server").spec_bytes(),
            SuggestionsType::AllRecipes => ("minecraft:all_recipes").spec_bytes(),
            SuggestionsType::AvailableSounds => ("minecraft:available_sounds").spec_bytes(),
            SuggestionsType::AvailableBiomes => ("minecraft:available_biomes").spec_bytes(),
            SuggestionsType::SummonableEntities => ("minecraft:summonable_entities").spec_bytes(),
        }
    }

    /// The wire encoding of this suggestions type: its identifier as a
    /// length-prefixed string.
    pub open spec fn spec_enc(self) -> Seq<u8> {
        string_bytes(self.spec_tag())
    }

    /// Reading a suggestions type at `pos`; identifiers outside the closed
    /// set are rejected.
    pub open spec fn spec_read(bytes: Seq<u8>, pos: int) -> Result<
        (SuggestionsType, int),
        DecodeError,
    > {
        match string_read(bytes, pos) {
            Err(e) => Err(e),
            Ok((ident, p)) => SuggestionsType::spec_dispatch(ident, p),
        }
    }

    /// Which suggestions type a decoded identifier names, if any.
    #[verifier::opaque]
    pub open spec fn spec_dispatch(ident: Seq<u8>, p: int) -> Result<
        (SuggestionsType, int),
        DecodeError,
    > {
        if ident.len() == 20 {
            if ident == ("minecraft:ask_server").spec_bytes() {
                Ok((SuggestionsType::AskServer, p))
            }
            else {
                Err(DecodeError::UnknownSuggestionsType)
            }
        }
        else if ident.len() == 21 {
            if ident == ("minecraft:all_recipes").spec_bytes() {
                Ok((SuggestionsType::AllRecipes, p))
            }
            else {
                Err(DecodeError::UnknownSuggestionsType)
            }
        }
        else if ident.len() == 26 {
            if ident == ("minecraft:available_sounds").spec_bytes() {
                Ok((SuggestionsType::AvailableSounds, p))
            }
            else if ident == ("minecraft:available_biomes").spec_bytes() {
                Ok((SuggestionsType::AvailableBiomes, p))
            }
            else {
                Err(DecodeError::UnknownSuggestionsType)
            }
        }
        else if ident.len() == 29 {
            if ident == ("minecraft:summonable_entities").spec_bytes() {
                Ok((SuggestionsType::SummonableEntities, p))
            }
            else {
                Err(DecodeError::UnknownSuggestionsType)
            }
        }
        else {
            Err(DecodeError::UnknownSuggestionsType)
        }
    }

    /// The byte lengths of the suggestions-type identifiers, and that no two
    /// of them are equal.
    pub proof fn lemma_tag_facts()
        ensures
            ("minecraft:ask_server").spec_bytes().len() == 20,
            ("minecraft:all_recipes").spec_bytes().len() == 21,
            ("minecraft:available_sounds").spec_bytes().len() == 26,
            ("minecraft:available_biomes").spec_bytes().len() == 26,
            ("minecraft:summonable_entities").spec_bytes().len() == 29,
            ("minecraft:available_sounds").spec_bytes() != ("minecraft:available_biomes").spec_bytes(),
    {
        broadcast use vstd::string::is_ascii_spec_bytes;

        reveal_strlit("minecraft:ask_server");
        reveal_strlit("minecraft:all_recipes");
        reveal_strlit("minecraft:available_sounds");
        reveal_strlit("minecraft:available_biomes");
        reveal_strlit("minecraft:summonable_entities");
        assert(is_ascii("minecraft:ask_server"));
        assert(is_ascii("minecraft:all_recipes"));
        assert(is_ascii("minecraft:available_sounds"));
        assert(is_ascii("minecraft:available_biomes"));
        assert(is_ascii("minecraft:summonable_entities"));
        assert(("minecraft:available_sounds").spec_bytes() != ("minecraft:available_biomes").spec_bytes()) by {
            assert(("minecraft:available_sounds")@[20] == 's');
            assert(("minecraft:available_biomes")@[20] == 'b');
            assert(("minecraft:available_sounds").spec_bytes()[20] == 's' as u8);
            assert(("minecraft:available_biomes").spec_bytes()[20] == 'b' as u8);
        }
    }

    /// Decoding inverts encoding for every suggestions type.
    pub proof fn lemma_round_trip(bytes: Seq<u8>, pos: int, s: SuggestionsType)
        requires
            0 <= pos,
            pos + s.spec_enc().len() <= bytes.len(),
            bytes.subrange(pos, pos + s.spec_enc().len()) == s.spec_enc(),
        ensures
            SuggestionsType::spec_read(bytes, pos) == Ok::<(SuggestionsType, int), DecodeError>(
                (s, pos + s.spec_enc().len()),
            ),
    {
        reveal(SuggestionsType::spec_dispatch);
        SuggestionsType::lemma_tag_facts();
        lemma_string_round_trip(bytes, pos, s.spec_tag());
    }

    /// Appends the wire encoding of this suggestions type.
    pub fn encode(&self, out: &mut Vec<u8>)
        ensures
            final(out)@ == old(out)@ + self.spec_enc(),
    {
        proof {
            SuggestionsType::lemma_tag_facts();
        }
        match self {
            SuggestionsType::AskServer => encode_string(("minecraft:ask_server").as_bytes(), out),
            SuggestionsType::AllRecipes => encode_string(("minecraft:all_recipes").as_bytes(), out),
            SuggestionsType::AvailableSounds => encode_string(("minecraft:available_sounds").as_bytes(), out),
            SuggestionsType::AvailableBiomes => encode_string(("minecraft:available_biomes").as_bytes(), out),
            SuggestionsType::SummonableEntities => encode_string(("minecraft:summonable_entities").as_bytes(), out),
        }
    }

    /// The byte length of the wire encoding of this suggestions type.
    pub fn size(&self) -> (n: u64)
        ensures
            n == self.spec_enc().len(),
            n <= 33,
    {
        proof {
            SuggestionsType::lemma_tag_facts();
        }
        match self {
            SuggestionsType::AskServer => string_size(("minecraft:ask_server").as_bytes().len()),
            SuggestionsType::AllRecipes => string_size(("minecraft:all_recipes").as_bytes().len()),
            SuggestionsType::AvailableSounds => string_size(("minecraft:available_sounds").as_bytes().len()),
            SuggestionsType::AvailableBiomes => string_size(("minecraft:available_biomes").as_bytes().len()),
            SuggestionsType::SummonableEntities => string_size(("minecraft:summonable_entities").as_bytes().len()),
        }
    }

    /// Reads a suggestions type at `pos`, as `spec_read` describes.
    pub fn decode(bytes: &[u8], pos: usize) -> (r: Result<(SuggestionsType, usize), DecodeError>)
        ensures
            match r {
                Ok((s, end)) => SuggestionsType::spec_read(bytes@, pos as int) == Ok::<
                    (SuggestionsType, int),
                    DecodeError,
                >((s, end as int)),
                Err(e) => SuggestionsType::spec_read(bytes@, pos as int) == Err::<
                    (SuggestionsType, int),
                    DecodeError,
                >(e),
            },
    {
        proof {
            reveal(SuggestionsType::spec_dispatch);
        }
        let (ident, p) = match decode_string(bytes, pos) {
            Ok(v) => v,
            Err(e) => {
                return Err(e);
            },
        };
        let n = ident.len();
        if n == 20 {
            if bytes_eq(ident.as_slice(), ("minecraft:ask_server").as_bytes()) {
                Ok((SuggestionsType::AskServer, p))
            }
            else {
                Err(DecodeError::UnknownSuggestionsType)
            }
        }
        else if n == 21 {
            if bytes_eq(ident.as_slice(), ("minecraft:all_recipes").as_bytes()) {
                Ok((SuggestionsType::AllRecipes, p))
            }
            else {
                Err(DecodeError::UnknownSuggestionsType)
            }
        }
        else if n == 26 {
            if bytes_eq(ident.as_slice(), ("minecraft:available_sounds").as_bytes()) {
                Ok((SuggestionsType::AvailableSounds, p))
            }
            else if bytes_eq(ident.as_slice(), ("minecraft:available_biomes").as_bytes()) {
                Ok((SuggestionsType::AvailableBiomes, p))
            }
            else {
                Err(DecodeError::UnknownSuggestionsType)
            }
        }
        else if n == 29 {
            if bytes_eq(ident.as_slice(), ("minecraft:summonable_entities").as_bytes()) {
                Ok((SuggestionsType::SummonableEntities, p))
            }
            else {
                Err(DecodeError::UnknownSuggestionsType)
            }
        }
        else {
            Err(DecodeError::UnknownSuggestionsType)
        }
    }
}

/// The payload bytes of a bit-gated numeric range: one flags byte, then the
/// minimum and the maximum, each present exactly when its bit is set.
pub open spec fn minmax32_bytes(bits: MinMax, min: Option<u32>, max: Option<u32>) -> Seq<u8> {
    seq![bits.spec_byte()] + (match min {
        Option::Some(v) => be32_bytes(v),
        Option::None => Seq::<u8>::empty(),
    }) + (match max {
        Option::Some(v) => be32_bytes(v),
        Option::None => Seq::<u8>::empty(),
    })
}

/// Reading the rest of a bit-gated numeric range payload once its flags and
/// minimum have been read.
pub open spec fn minmax32_finish(bytes: Seq<u8>, bits: MinMax, min: Option<u32>, p: int) -> Result<
    ((MinMax, Option<u32>, Option<u32>), int),
    DecodeError,
> {
    if bits.max {
        match be32_read(bytes, p) {
            Err(e) => Err(e),
            Ok((v, end)) => Ok(((bits, min, Option::Some(v)), end)),
        }
    } else {
        Ok(((bits, min, Option::<u32>::None), p))
    }
}

/// Reading a bit-gated numeric range payload at `pos`: the flags byte, then
/// each bound exactly when its bit is set.
pub open spec fn minmax32_read(bytes: Seq<u8>, pos: int) -> Result<
    ((MinMax, Option<u32>, Option<u32>), int),
    DecodeError,
> {
    match byte_read(bytes, pos) {
        Err(e) => Err(e),
        Ok((b, p1)) => {
            let bits = MinMax::spec_from_byte(b);
            if bits.min {
                match be32_read(bytes, p1) {
                    Err(e) => Err(e),
                    Ok((v, p2)) => minmax32_finish(bytes, bits, Option::Some(v), p2),
                }
            } else {
                minmax32_finish(bytes, bits, Option::<u32>::None, p1)
            }
        },
    }
}

/// Decoding inverts encoding for a bit-gated numeric range whose options
/// match its flag bits.
pub proof fn lemma_minmax32_round_trip(
    bytes: Seq<u8>,
    pos: int,
    bits: MinMax,
    min: Option<u32>,
    max: Option<u32>,
)
    requires
        0 <= pos,
        bits.min == (min is Some),
        bits.max == (max is Some),
        pos + minmax32_bytes(bits, min, max).len() <= bytes.len(),
        bytes.subrange(pos, pos + minmax32_bytes(bits, min, max).len()) == minmax32_bytes(
            bits,
            min,
            max,
        ),
    ensures
        minmax32_read(bytes, pos) == Ok::<((MinMax, Option<u32>, Option<u32>), int), DecodeError>(
            ((bits, min, max), pos + minmax32_bytes(bits, min, max).len()),
        ),
{
    let head = seq![bits.spec_byte()];
    let minb = match min {
        Option::Some(v) => be32_bytes(v),
        Option::None => Seq::<u8>::empty(),
    };
    let maxb = match max {
        Option::Some(v) => be32_bytes(v),
        Option::None => Seq::<u8>::empty(),
    };
    lemma_subrange_split(bytes, pos, head + minb, maxb);
    lemma_subrange_split(bytes, pos, head, minb);
    assert(bytes[pos] == bits.spec_byte()) by {
        assert(bytes.subrange(pos, pos + 1)[0] == head[0]);
    }
    MinMax::lemma_round_trip(bits);
    match min {
        Option::Some(v) => lemma_be32_round_trip(bytes, pos + 1, v),
        Option::None => {},
    }
    match max {
        Option::Some(v) => lemma_be32_round_trip(bytes, pos + 1 + minb.len(), v),
        Option::None => {},
    }
}

/// Appends a bit-gated numeric range payload whose options match its flag
/// bits.
pub fn encode_minmax32(bits: MinMax, min: Option<u32>, max: Option<u32>, out: &mut Vec<u8>)
    requires
        bits.min == (min is Some),
        bits.max == (max is Some),
    ensures
        final(out)@ == old(out)@ + minmax32_bytes(bits, min, max),
{
    let ghost prev = out@;
    bits.encode(out);
    match min {
        Option::Some(v) => encode_be32(v, out),
        Option::None => {},
    }
    match max {
        Option::Some(v) => encode_be32(v, out),
        Option::None => {},
    }
    assert(out@ =~= prev + minmax32_bytes(bits, min, max));
}

/// The byte length of a bit-gated numeric range payload.
pub fn minmax32_size(bits: MinMax, min: Option<u32>, max: Option<u32>) -> (n: u64)
    requires
        bits.min == (min is Some),
        bits.max == (max is Some),
    ensures
        n == minmax32_bytes(bits, min, max).len(),
        n <= 17,
{
    1 + (if min.is_some() {
        4u64
    } else {
        0u64
    }) + (if max.is_some() {
        4u64
    } else {
        0u64
    })
}

/// Reads a bit-gated numeric range payload at `pos`, as `minmax32_read`
/// describes.
pub fn read_minmax32(bytes: &[u8], pos: usize) -> (r: Result<
    ((MinMax, Option<u32>, Option<u32>), usize),
    DecodeError,
>)
    ensures
        match r {
            Ok(((bits, min, max), end)) => minmax32_read(bytes@, pos as int) == Ok::<
                ((MinMax, Option<u32>, Option<u32>), int),
                DecodeError,
            >(((bits, min, max), end as int)) && bits.min == (min is Some) && bits.max == (
            max is Some),
            Err(e) => minmax32_read(bytes@, pos as int) == Err::<
                ((MinMax, Option<u32>, Option<u32>), int),
                DecodeError,
            >(e),
        },
{
    let (b, p1) = match decode_byte(bytes, pos) {
        Ok(v) => v,
        Err(e) => {
            return Err(e);
        },
    };
    let bits = MinMax::from_byte(b);
    let (mn, p2) = if bits.min {
        match decode_be32(bytes, p1) {
            Ok((v, p)) => (Some(v), p),
            Err(e) => {
                return Err(e);
            },
        }
    } else {
        (None, p1)
    };
    let (mx, p3) = if bits.max {
        match decode_be32(bytes, p2) {
            Ok((v, p)) => (Some(v), p),
            Err(e) => {
                return Err(e);
            },
        }
    } else {
        (None, p2)
    };
    Ok(((bits, mn, mx), p3))
}

/// The payload bytes of a bit-gated numeric range: one flags byte, then the
/// minimum and the maximum, each present exactly when its bit is set.
pub open spec fn minmax64_bytes(bits: MinMax, min: Option<u64>, max: Option<u64>) -> Seq<u8> {
    seq![bits.spec_byte()] + (match min {
        Option::Some(v) => be64_bytes(v),
        Option::None => Seq::<u8>::empty(),
    }) + (match max {
        Option::Some(v) => be64_bytes(v),
        Option::None => Seq::<u8>::empty(),
    })
}

/// Reading the rest of a bit-gated numeric range payload once its flags and
/// minimum have been read.
pub open spec fn minmax64_finish(bytes: Seq<u8>, bits: MinMax, min: Option<u64>, p: int) -> Result<
    ((MinMax, Option<u64>, Option<u64>), int),
    DecodeError,
> {
    if bits.max {
        match be64_read(bytes, p) {
            Err(e) => Err(e),
            Ok((v, end)) => Ok(((bits, min, Option::Some(v)), end)),
        }
    } else {
        Ok(((bits, min, Option::<u64>::None), p))
    }
}

/// Reading a bit-gated numeric range payload at `pos`: the flags byte, then
/// each bound exactly when its bit is set.
pub open spec fn minmax64_read(bytes: Seq<u8>, pos: int) -> Result<
    ((MinMax, Option<u64>, Option<u64>), int),
    DecodeError,
> {
    match byte_read(bytes, pos) {
        Err(e) => Err(e),
        Ok((b, p1)) => {
            let bits = MinMax::spec_from_byte(b);
            if bits.min {
                match be64_read(bytes, p1) {
                    Err(e) => Err(e),
                    Ok((v, p2)) => minmax64_finish(bytes, bits, Option::Some(v), p2),
                }
            } else {
                minmax64_finish(bytes, bits, Option::<u64>::None, p1)
            }
        },
    }
}

/// Decoding inverts encoding for a bit-gated numeric range whose options
/// match its flag bits.
pub proof fn lemma_minmax64_round_trip(
    bytes: Seq<u8>,
    pos: int,
    bits: MinMax,
    min: Option<u64>,
    max: Option<u64>,
)
    requires
        0 <= pos,
        bits.min == (min is Some),
        bits.max == (max is Some),
        pos + minmax64_bytes(bits, min, max).len() <= bytes.len(),
        bytes.subrange(pos, pos + minmax64_bytes(bits, min, max).len()) == minmax64_bytes(
            bits,
            min,
            max,
        ),
    ensures
        minmax64_read(bytes, pos) == Ok::<((MinMax, Option<u64>, Option<u64>), int), DecodeError>(
            ((bits, min, max), pos + minmax64_bytes(bits, min, max).len()),
        ),
{
    let head = seq![bits.spec_byte()];
    let minb = match min {
        Option::Some(v) => be64_bytes(v),
        Option::None => Seq::<u8>::empty(),
    };
    let maxb = match max {
        Option::Some(v) => be64_bytes(v),
        Option::None => Seq::<u8>::empty(),
    };
    lemma_subrange_split(bytes, pos, head + minb, maxb);
    lemma_subrange_split(bytes, pos, head, minb);
    assert(bytes[pos] == bits.spec_byte()) by {
        assert(bytes.subrange(pos, pos + 1)[0] == head[0]);
    }
    MinMax::lemma_round_trip(bits);
    match min {
        Option::Some(v) => lemma_be64_round_trip(bytes, pos + 1, v),
        Option::None => {},
    }
    match max {
        Option::Some(v) => lemma_be64_round_trip(bytes, pos + 1 + minb.len(), v),
        Option::None => {},
    }
}

/// Appends a bit-gated numeric range payload whose options match its flag
/// bits.
pub fn encode_minmax64(bits: MinMax, min: Option<u64>, max: Option<u64>, out: &mut Vec<u8>)
    requires
        bits.min == (min is Some),
        bits.max == (max is Some),
    ensures
        final(out)@ == old(out)@ + minmax64_bytes(bits, min, max),
{
    let ghost prev = out@;
    bits.encode(out);
    match min {
        Option::Some(v) => encode_be64(v, out),
        Option::None => {},
    }
    match max {
        Option::Some(v) => encode_be64(v, out),
        Option::None => {},
    }
    assert(out@ =~= prev + minmax64_bytes(bits, min, max));
}

/// The byte length of a bit-gated numeric range payload.
pub fn minmax64_size(bits: MinMax, min: Option<u64>, max: Option<u64>) -> (n: u64)
    requires
        bits.min == (min is Some),
        bits.max == (max is Some),
    ensures
        n == minmax64_bytes(bits, min, max).len(),
        n <= 17,
{
    1 + (if min.is_some() {
        8u64
    } else {
        0u64
    }) + (if max.is_some() {
        8u64
    } else {
        0u64
    })
}

/// Reads a bit-gated numeric range payload at `pos`, as `minmax64_read`
/// describes.
pub fn read_minmax64(bytes: &[u8], pos: usize) -> (r: Result<
    ((MinMax, Option<u64>, Option<u64>), usize),
    DecodeError,
>)
    ensures
        match r {
            Ok(((bits, min, max), end)) => minmax64_read(bytes@, pos as int) == Ok::<
                ((MinMax, Option<u64>, Option<u64>), int),
                DecodeError,
            >(((bits, min, max), end as int)) && bits.min == (min is Some) && bits.max == (
            max is Some),
            Err(e) => minmax64_read(bytes@, pos as int) == Err::<
                ((MinMax, Option<u64>, Option<u64>), int),
                DecodeError,
            >(e),
        },
{
    let (b, p1) = match decode_byte(bytes, pos) {
        Ok(v) => v,
        Err(e) => {
            return Err(e);
        },
    };
    let bits = MinMax::from_byte(b);
    let (mn, p2) = if bits.min {
        match decode_be64(bytes, p1) {
            Ok((v, p)) => (Some(v), p),
            Err(e) => {
                return Err(e);
            },
        }
    } else {
        (None, p1)
    };
    let (mx, p3) = if bits.max {
        match decode_be64(bytes, p2) {
            Ok((v, p)) => (Some(v), p),
            Err(e) => {
                return Err(e);
            },
        }
    } else {
        (None, p2)
    };
    Ok(((bits, mn, mx), p3))
}

/// One argument kind of the command graph, identified on the wire by a
/// textual identifier from a closed set. Numeric range kinds carry raw bit
/// patterns: two's complement for `Integer` and `Long`, IEEE 754 for `Float`
/// and `Double`.
#[derive(Copy, Clone, PartialEq, Eq, Debug)]
pub enum Parser {
    Bool,
    Double { bits: MinMax, min: Option<u64>, max: Option<u64> },
    Float { bits: MinMax, min: Option<u32>, max: Option<u32> },
    Integer { bits: MinMax, min: Option<u32>, max: Option<u32> },
    Long { bits: MinMax, min: Option<u64>, max: Option<u64> },
    String { info: StringDescription },
    Entity { selector: EntitySelector },
    GameProfile,
    BlockPos,
    ColumnPos,
    Vec3,
    Vec2,
    BlockState,
    BlockPredicate,
    ItemStack,
    ItemPredicate,
    Color,
    Component,
    Message,
    Nbt,
    NbtPath,
    Objective,
    ObjectiveCriteria,
    Operation,
    Particle,
    Rotation,
    Angle,
    ScoreboardSlot,
    ScoreHolder { selector: ScoreHolderSelector },
    Swizzle,
    Team,
    ItemSlot,
    ResourceLocation,
    MobEffect,
    Function,
    EntityAnchor,
    Range { decimals: bool },
    IntRange,
    FloatRange,
    ItemEnchantment,
    EntitySummon,
    Dimension,
    Uuid,
    NbtTag,
    NbtCompoundTag,
    Time,
}

/// The byte length of every parser identifier in the closed set.
pub proof fn lemma_parser_tag_lens()
    ensures
        ("brigadier:bool").spec_bytes().len() == 14,
        ("brigadier:double").spec_bytes().len() == 16,
        ("brigadier:float").spec_bytes().len() == 15,
        ("brigadier:integer").spec_bytes().len() == 17,
        ("brigadier:long").spec_bytes().len() == 14,
        ("brigadier:string").spec_bytes().len() == 16,
        ("minecraft:entity").spec_bytes().len() == 16,
        ("minecraft:game_profile").spec_bytes().len() == 22,
        ("minecraft:block_pos").spec_bytes().len() == 19,
        ("minecraft:column_pos").spec_bytes().len() == 20,
        ("minecraft:vec3").spec_bytes().len() == 14,
        ("minecraft:vec2").spec_bytes().len() == 14,
        ("minecraft:block_state").spec_bytes().len() == 21,
        ("minecraft:block_predicate").spec_bytes().len() == 25,
        ("minecraft:item_stack").spec_bytes().len() == 20,
        ("minecraft:item_predicate").spec_bytes().len() == 24,
        ("minecraft:color").spec_bytes().len() == 15,
        ("minecraft:component").spec_bytes().len() == 19,
        ("minecraft:message").spec_bytes().len() == 17,
        ("minecraft:nbt").spec_bytes().len() == 13,
        ("minecraft:nbt_path").spec_bytes().len() == 18,
        ("minecraft:objective").spec_bytes().len() == 19,
        ("minecraft:objective_criteria").spec_bytes().len() == 28,
        ("minecraft:operation").spec_bytes().len() == 19,
        ("minecraft:particle").spec_bytes().len() == 18,
        ("minecraft:rotation").spec_bytes().len() == 18,
        ("minecraft:angle").spec_bytes().len() == 15,
        ("minecraft:scoreboard_slot").spec_bytes().len() == 25,
        ("minecraft:score_holder").spec_bytes().len() == 22,
        ("minecraft:swizzle").spec_bytes().len() == 17,
        ("minecraft:team").spec_bytes().len() == 14,
        ("minecraft:item_slot").spec_bytes().len() == 19,
        ("minecraft:resource_location").spec_bytes().len() == 27,
        ("minecraft:mob_effect").spec_bytes().len() == 20,
        ("minecraft:function").spec_bytes().len() == 18,
        ("minecraft:entity_anchor").spec_bytes().len() == 23,
        ("minecraft:range").spec_bytes().len() == 15,
        ("minecraft:int_range").spec_bytes().len() == 19,
        ("minecraft:float_range").spec_bytes().len() == 21,
        ("minecraft:item_enchantment").spec_bytes().len() == 26,
        ("minecraft:entity_summon").spec_bytes().len() == 23,
        ("minecraft:dimension").spec_bytes().len() == 19,
        ("minecraft:uuid").spec_bytes().len() == 14,
        ("minecraft:nbt_tag").spec_bytes().len() == 17,
        ("minecraft:nbt_compound_tag").spec_bytes().len() == 26,
        ("minecraft:time").spec_bytes().len() == 14,
{
    broadcast use vstd::string::is_ascii_spec_bytes;

    reveal_strlit("brigadier:bool");
    reveal_strlit("brigadier:double");
    reveal_strlit("brigadier:float");
    reveal_strlit("brigadier:integer");
    reveal_strlit("brigadier:long");
    reveal_strlit("brigadier:string");
    reveal_strlit("minecraft:entity");
    reveal_strlit("minecraft:game_profile");
    reveal_strlit("minecraft:block_pos");
    reveal_strlit("minecraft:column_pos");
    reveal_strlit("minecraft:vec3");
    reveal_strlit("minecraft:vec2");
    reveal_strlit("minecraft:block_state");
    reveal_strlit("minecraft:block_predicate");
    reveal_strlit("minecraft:item_stack");
    reveal_strlit("minecraft:item_predicate");
    reveal_strlit("minecraft:color");
    reveal_strlit("minecraft:component");
    reveal_strlit("minecraft:message");
    reveal_strlit("minecraft:nbt");
    reveal_strlit("minecraft:nbt_path");
    reveal_strlit("minecraft:objective");
    reveal_strlit("minecraft:objective_criteria");
    reveal_strlit("minecraft:operation");
    reveal_strlit("minecraft:particle");
    reveal_strlit("minecraft:rotation");
    reveal_strlit("minecraft:angle");
    reveal_strlit("minecraft:scoreboard_slot");
    reveal_strlit("minecraft:score_holder");
    reveal_strlit("minecraft:swizzle");
    reveal_strlit("minecraft:team");
    reveal_strlit("minecraft:item_slot");
    reveal_strlit("minecraft:resource_location");
    reveal_strlit("minecraft:mob_effect");
    reveal_strlit("minecraft:function");
    reveal_strlit("minecraft:entity_anchor");
    reveal_strlit("minecraft:range");
    reveal_strlit("minecraft:int_range");
    reveal_strlit("minecraft:float_range");
    reveal_strlit("minecraft:item_enchantment");
    reveal_strlit("minecraft:entity_summon");
    reveal_strlit("minecraft:dimension");
    reveal_strlit("minecraft:uuid");
    reveal_strlit("minecraft:nbt_tag");
    reveal_strlit("minecraft:nbt_compound_tag");
    reveal_strlit("minecraft:time");
    assert(is_ascii("brigadier:bool"));
    assert(is_ascii("brigadier:double"));
    assert(is_ascii("brigadier:float"));
    assert(is_ascii("brigadier:integer"));
    assert(is_ascii("brigadier:long"));
    assert(is_ascii("brigadier:string"));
    assert(is_ascii("minecraft:entity"));
    assert(is_ascii("minecraft:game_profile"));
    assert(is_ascii("minecraft:block_pos"));
    assert(is_ascii("minecraft:column_pos"));
    assert(is_ascii("minecraft:vec3"));
    assert(is_ascii("minecraft:vec2"));
    assert(is_ascii("minecraft:block_state"));
    assert(is_ascii("minecraft:block_predicate"));
    assert(is_ascii("minecraft:item_stack"));
    assert(is_ascii("minecraft:item_predicate"));
    assert(is_ascii("minecraft:color"));
    assert(is_ascii("minecraft:component"));
    assert(is_ascii("minecraft:message"));
    assert(is_ascii("minecraft:nbt"));
    assert(is_ascii("minecraft:nbt_path"));
    assert(is_ascii("minecraft:objective"));
    assert(is_ascii("minecraft:objective_criteria"));
    assert(is_ascii("minecraft:operation"));
    assert(is_ascii("minecraft:particle"));
    assert(is_ascii("minecraft:rotation"));
    assert(is_ascii("minecraft:angle"));
    assert(is_ascii("minecraft:scoreboard_slot"));
    assert(is_ascii("minecraft:score_holder"));
    assert(is_ascii("minecraft:swizzle"));
    assert(is_ascii("minecraft:team"));
    assert(is_ascii("minecraft:item_slot"));
    assert(is_ascii("minecraft:resource_location"));
    assert(is_ascii("minecraft:mob_effect"));
    assert(is_ascii("minecraft:function"));
    assert(is_ascii("minecraft:entity_anchor"));
    assert(is_ascii("minecraft:range"));
    assert(is_ascii("minecraft:int_range"));
    assert(is_ascii("minecraft:float_range"));
    assert(is_ascii("minecraft:item_enchantment"));
    assert(is_ascii("minecraft:entity_summon"));
    assert(is_ascii("minecraft:dimension"));
    assert(is_ascii("minecraft:uuid"));
    assert(is_ascii("minecraft:nbt_tag"));
    assert(is_ascii("minecraft:nbt_compound_tag"));
    assert(is_ascii("minecraft:time"));
}

/// No two parser identifiers of 14 bytes are equal.
pub proof fn lemma_parser_tags_distinct_14()
    ensures
        ("brigadier:bool").spec_bytes() != ("brigadier:long").spec_bytes(),
        ("brigadier:bool").spec_bytes() != ("minecraft:vec3").spec_bytes(),
        ("brigadier:bool").spec_bytes() != ("minecraft:vec2").spec_bytes(),
        ("brigadier:bool").spec_bytes() != ("minecraft:team").spec_bytes(),
        ("brigadier:bool").spec_bytes() != ("minecraft:uuid").spec_bytes(),
        ("brigadier:bool").spec_bytes() != ("minecraft:time").spec_bytes(),
        ("brigadier:long").spec_bytes() != ("minecraft:vec3").spec_bytes(),
        ("brigadier:long").spec_bytes() != ("minecraft:vec2").spec_bytes(),
        ("brigadier:long").spec_bytes() != ("minecraft:team").spec_bytes(),
        ("brigadier:long").spec_bytes() != ("minecraft:uuid").spec_bytes(),
        ("brigadier:long").spec_bytes() != ("minecraft:time").spec_bytes(),
        ("minecraft:vec3").spec_bytes() != ("minecraft:vec2").spec_bytes(),
        ("minecraft:vec3").spec_bytes() != ("minecraft:team").spec_bytes(),
        ("minecraft:vec3").spec_bytes() != ("minecraft:uuid").spec_bytes(),
        ("minecraft:vec3").spec_bytes() != ("minecraft:time").spec_bytes(),
        ("minecraft:vec2").spec_bytes() != ("minecraft:team").spec_bytes(),
        ("minecraft:vec2").spec_bytes() != ("minecraft:uuid").spec_bytes(),
        ("minecraft:vec2").spec_bytes() != ("minecraft:time").spec_bytes(),
        ("minecraft:team").spec_bytes() != ("minecraft:uuid").spec_bytes(),
        ("minecraft:team").spec_bytes() != ("minecraft:time").spec_bytes(),
        ("minecraft:uuid").spec_bytes() != ("minecraft:time").spec_bytes(),
{
    broadcast use vstd::string::is_ascii_spec_bytes;

    reveal_strlit("brigadier:bool");
    reveal_strlit("brigadier:long");
    reveal_strlit("minecraft:vec3");
    reveal_strlit("minecraft:vec2");
    reveal_strlit("minecraft:team");
    reveal_strlit("minecraft:uuid");
    reveal_strlit("minecraft:time");
    assert(is_ascii("brigadier:bool"));
    assert(is_ascii("brigadier:long"));
    assert(is_ascii("minecraft:vec3"));
    assert(is_ascii("minecraft:vec2"));
    assert(is_ascii("minecraft:team"));
    assert(is_ascii("minecraft:uuid"));
    assert(is_ascii("minecraft:time"));
    assert(("brigadier:bool").spec_bytes() != ("brigadier:long").spec_bytes()) by {
        assert(("brigadier:bool")@[10] == 'b');
        assert(("brigadier:long")@[10] == 'l');
        assert(("brigadier:bool").spec_bytes()[10] == 'b' as u8);
        assert(("brigadier:long").spec_bytes()[10] == 'l' as u8);
    }
    assert(("brigadier:bool").spec_bytes() != ("minecraft:vec3").spec_bytes()) by {
        assert(("brigadier:bool")@[0] == 'b');
        assert(("minecraft:vec3")@[0] == 'm');
        assert(("brigadier:bool").spec_bytes()[0] == 'b' as u8);
        assert(("minecraft:vec3").spec_bytes()[0] == 'm' as u8);
    }
    assert(("brigadier:bool").spec_bytes() != ("minecraft:vec2").spec_bytes()) by {
        assert(("brigadier:bool")@[0] == 'b');
        assert(("minecraft:vec2")@[0] == 'm');
        assert(("brigadier:bool").spec_bytes()[0] == 'b' as u8);
        assert(("minecraft:vec2").spec_bytes()[0] == 'm' as u8);
    }
    assert(("brigadier:bool").spec_bytes() != ("minecraft:team").spec_bytes()) by {
        assert(("brigadier:bool")@[0] == 'b');
        assert(("minecraft:team")@[0] == 'm');
        assert(("brigadier:bool").spec_bytes()[0] == 'b' as u8);
        assert(("minecraft:team").spec_bytes()[0] == 'm' as u8);
    }
    assert(("brigadier:bool").spec_bytes() != ("minecraft:uuid").spec_bytes()) by {
        assert(("brigadier:bool")@[0] == 'b');
        assert(("minecraft:uuid")@[0] == 'm');
        assert(("brigadier:bool").spec_bytes()[0] == 'b' as u8);
        assert(("minecraft:uuid").spec_bytes()[0] == 'm' as u8);
    }
    assert(("brigadier:bool").spec_bytes() != ("minecraft:time").spec_bytes()) by {
        assert(("brigadier:bool")@[0] == 'b');
        assert(("minecraft:time")@[0] == 'm');
        assert(("brigadier:bool").spec_bytes()[0] == 'b' as u8);
        assert(("minecraft:time").spec_bytes()[0] == 'm' as u8);
    }
    assert(("brigadier:long").spec_bytes() != ("minecraft:vec3").spec_bytes()) by {
        assert(("brigadier:long")@[0] == 'b');
        assert(("minecraft:vec3")@[0] == 'm');
        assert(("brigadier:long").spec_bytes()[0] == 'b' as u8);
        assert(("minecraft:vec3").spec_bytes()[0] == 'm' as u8);
    }
    assert(("brigadier:long").spec_bytes() != ("minecraft:vec2").spec_bytes()) by {
        assert(("brigadier:long")@[0] == 'b');
        assert(("minecraft:vec2")@[0] == 'm');
        assert(("brigadier:long").spec_bytes()[0] == 'b' as u8);
        assert(("minecraft:vec2").spec_bytes()[0] == 'm' as u8);
    }
    assert(("brigadier:long").spec_bytes() != ("minecraft:team").spec_bytes()) by {
        assert(("brigadier:long")@[0] == 'b');
        assert(("minecraft:team")@[0] == 'm');
        assert(("brigadier:long").spec_bytes()[0] == 'b' as u8);
        assert(("minecraft:team").spec_bytes()[0] == 'm' as u8);
    }
    assert(("brigadier:long").spec_bytes() != ("minecraft:uuid").spec_bytes()) by {
        assert(("brigadier:long")@[0] == 'b');
        assert(("minecraft:uuid")@[0] == 'm');
        assert(("brigadier:long").spec_bytes()[0] == 'b' as u8);
        assert(("minecraft:uuid").spec_bytes()[0] == 'm' as u8);
    }
    assert(("brigadier:long").spec_bytes() != ("minecraft:time").spec_bytes()) by {
        assert(("brigadier:long")@[0] == 'b');
        assert(("minecraft:time")@[0] == 'm');
        assert(("brigadier:long").spec_bytes()[0] == 'b' as u8);
        assert(("minecraft:time").spec_bytes()[0] == 'm' as u8);
    }
    assert(("minecraft:vec3").spec_bytes() != ("minecraft:vec2").spec_bytes()) by {
        assert(("minecraft:vec3")@[13] == '3');
        assert(("minecraft:vec2")@[13] == '2');
        assert(("minecraft:vec3").spec_bytes()[13] == '3' as u8);
        assert(("minecraft:vec2").spec_bytes()[13] == '2' as u8);
    }
    assert(("minecraft:vec3").spec_bytes() != ("minecraft:team").spec_bytes()) by {
        assert(("minecraft:vec3")@[10] == 'v');
        assert(("minecraft:team")@[10] == 't');
        assert(("minecraft:vec3").spec_bytes()[10] == 'v' as u8);
        assert(("minecraft:team").spec_bytes()[10] == 't' as u8);
    }
    assert(("minecraft:vec3").spec_bytes() != ("minecraft:uuid").spec_bytes()) by {
        assert(("minecraft:vec3")@[10] == 'v');
        assert(("minecraft:uuid")@[10] == 'u');
        assert(("minecraft:vec3").spec_bytes()[10] == 'v' as u8);
        assert(("minecraft:uuid").spec_bytes()[10] == 'u' as u8);
    }
    assert(("minecraft:vec3").spec_bytes() != ("minecraft:time").spec_bytes()) by {
        assert(("minecraft:vec3")@[10] == 'v');
        assert(("minecraft:time")@[10] == 't');
        assert(("minecraft:vec3").spec_bytes()[10] == 'v' as u8);
        assert(("minecraft:time").spec_bytes()[10] == 't' as u8);
    }
    assert(("minecraft:vec2").spec_bytes() != ("minecraft:team").spec_bytes()) by {
        assert(("minecraft:vec2")@[10] == 'v');
        assert(("minecraft:team")@[10] == 't');
        assert(("minecraft:vec2").spec_bytes()[10] == 'v' as u8);
        assert(("minecraft:team").spec_bytes()[10] == 't' as u8);
    }
    assert(("minecraft:vec2").spec_bytes() != ("minecraft:uuid").spec_bytes()) by {
        assert(("minecraft:vec2")@[10] == 'v');
        assert(("minecraft:uuid")@[10] == 'u');
        assert(("minecraft:vec2").spec_bytes()[10] == 'v' as u8);
        assert(("minecraft:uuid").spec_bytes()[10] == 'u' as u8);
    }
    assert(("minecraft:vec2").spec_bytes() != ("minecraft:time").spec_bytes()) by {
        assert(("minecraft:vec2")@[10] == 'v');
        assert(("minecraft:time")@[10] == 't');
        assert(("minecraft:vec2").spec_bytes()[10] == 'v' as u8);
        assert(("minecraft:time").spec_bytes()[10] == 't' as u8);
    }
    assert(("minecraft:team").spec_bytes() != ("minecraft:uuid").spec_bytes()) by {
        assert(("minecraft:team")@[10] == 't');
        assert(("minecraft:uuid")@[10] == 'u');
        assert(("minecraft:team").spec_bytes()[10] == 't' as u8);
        assert(("minecraft:uuid").spec_bytes()[10] == 'u' as u8);
    }
    assert(("minecraft:team").spec_bytes() != ("minecraft:time").spec_bytes()) by {
        assert(("minecraft:team")@[11] == 'e');
        assert(("minecraft:time")@[11] == 'i');
        assert(("minecraft:team").spec_bytes()[11] == 'e' as u8);
        assert(("minecraft:time").spec_bytes()[11] == 'i' as u8);
    }
    assert(("minecraft:uuid").spec_bytes() != ("minecraft:time").spec_bytes()) by {
        assert(("minecraft:uuid")@[10] == 'u');
        assert(("minecraft:time")@[10] == 't');
        assert(("minecraft:uuid").spec_bytes()[10] == 'u' as u8);
        assert(("minecraft:time").spec_bytes()[10] == 't' as u8);
    }
}

/// No two parser identifiers of 15 bytes are equal.
pub proof fn lemma_parser_tags_distinct_15()
    ensures
        ("brigadier:float").spec_bytes() != ("minecraft:color").spec_bytes(),
        ("brigadier:float").spec_bytes() != ("minecraft:angle").spec_bytes(),
        ("brigadier:float").spec_bytes() != ("minecraft:range").spec_bytes(),
        ("minecraft:color").spec_bytes() != ("minecraft:angle").spec_bytes(),
        ("minecraft:color").spec_bytes() != ("minecraft:range").spec_bytes(),
        ("minecraft:angle").spec_bytes() != ("minecraft:range").spec_bytes(),
{
    broadcast use vstd::string::is_ascii_spec_bytes;

    reveal_strlit("brigadier:float");
    reveal_strlit("minecraft:color");
    reveal_strlit("minecraft:angle");
    reveal_strlit("minecraft:range");
    assert(is_ascii("brigadier:float"));
    assert(is_ascii("minecraft:color"));
    assert(is_ascii("minecraft:angle"));
    assert(is_ascii("minecraft:range"));
    assert(("brigadier:float").spec_bytes() != ("minecraft:color").spec_bytes()) by {
        assert(("brigadier:float")@[0] == 'b');
        assert(("minecraft:color")@[0] == 'm');
        assert(("brigadier:float").spec_bytes()[0] == 'b' as u8);
        assert(("minecraft:color").spec_bytes()[0] == 'm' as u8);
    }
    assert(("brigadier:float").spec_bytes() != ("minecraft:angle").spec_bytes()) by {
        assert(("brigadier:float")@[0] == 'b');
        assert(("minecraft:angle")@[0] == 'm');
        assert(("brigadier:float").spec_bytes()[0] == 'b' as u8);
        assert(("minecraft:angle").spec_bytes()[0] == 'm' as u8);
    }
    assert(("brigadier:float").spec_bytes() != ("minecraft:range").spec_bytes()) by {
        assert(("brigadier:float")@[0] == 'b');
        assert(("minecraft:range")@[0] == 'm');
        assert(("brigadier:float").spec_bytes()[0] == 'b' as u8);
        assert(("minecraft:range").spec_bytes()[0] == 'm' as u8);
    }
    assert(("minecraft:color").spec_bytes() != ("minecraft:angle").spec_bytes()) by {
        assert(("minecraft:color")@[10] == 'c');
        assert(("minecraft:angle")@[10] == 'a');
        assert(("minecraft:color").spec_bytes()[10] == 'c' as u8);
        assert(("minecraft:angle").spec_bytes()[10] == 'a' as u8);
    }
    assert(("minecraft:color").spec_bytes() != ("minecraft:range").spec_bytes()) by {
        assert(("minecraft:color")@[10] == 'c');
        assert(("minecraft:range")@[10] == 'r');
        assert(("minecraft:color").spec_bytes()[10] == 'c' as u8);
        assert(("minecraft:range").spec_bytes()[10] == 'r' as u8);
    }
    assert(("minecraft:angle").spec_bytes() != ("minecraft:range").spec_bytes()) by {
        assert(("minecraft:angle")@[10] == 'a');
        assert(("minecraft:range")@[10] == 'r');
        assert(("minecraft:angle").spec_bytes()[10] == 'a' as u8);
        assert(("minecraft:range").spec_bytes()[10] == 'r' as u8);
    }
}

/// No two parser identifiers of 16 bytes are equal.
pub proof fn lemma_parser_tags_distinct_16()
    ensures
        ("brigadier:double").spec_bytes() != ("brigadier:string").spec_bytes(),
        ("brigadier:double").spec_bytes() != ("minecraft:entity").spec_bytes(),
        ("brigadier:string").spec_bytes() != ("minecraft:entity").spec_bytes(),
{
    broadcast use vstd::string::is_ascii_spec_bytes;

    reveal_strlit("brigadier:double");
    reveal_strlit("brigadier:string");
    reveal_strlit("minecraft:entity");
    assert(is_ascii("brigadier:double"));
    assert(is_ascii("brigadier:string"));
    assert(is_ascii("minecraft:entity"));
    assert(("brigadier:double").spec_bytes() != ("brigadier:string").spec_bytes()) by {
        assert(("brigadier:double")@[10] == 'd');
        assert(("brigadier:string")@[10] == 's');
        assert(("brigadier:double").spec_bytes()[10] == 'd' as u8);
        assert(("brigadier:string").spec_bytes()[10] == 's' as u8);
    }
    assert(("brigadier:double").spec_bytes() != ("minecraft:entity").spec_bytes()) by {
        assert(("brigadier:double")@[0] == 'b');
        assert(("minecraft:entity")@[0] == 'm');
        assert(("brigadier:double").spec_bytes()[0] == 'b' as u8);
        assert(("minecraft:entity").spec_bytes()[0] == 'm' as u8);
    }
    assert(("brigadier:string").spec_bytes() != ("minecraft:entity").spec_bytes()) by {
        assert(("brigadier:string")@[0] == 'b');
        assert(("minecraft:entity")@[0] == 'm');
        assert(("brigadier:string").spec_bytes()[0] == 'b' as u8);
        assert(("minecraft:entity").spec_bytes()[0] == 'm' as u8);
    }
}

/// No two parser identifiers of 17 bytes are equal.
pub proof fn lemma_parser_tags_distinct_17()
    ensures
        ("brigadier:integer").spec_bytes() != ("minecraft:message").spec_bytes(),
        ("brigadier:integer").spec_bytes() != ("minecraft:swizzle").spec_bytes(),
        ("brigadier:integer").spec_bytes() != ("minecraft:nbt_tag").spec_bytes(),
        ("minecraft:message").spec_bytes() != ("minecraft:swizzle").spec_bytes(),
        ("minecraft:message").spec_bytes() != ("minecraft:nbt_tag").spec_bytes(),
        ("minecraft:swizzle").spec_bytes() != ("minecraft:nbt_tag").spec_bytes(),
{
    broadcast use vstd::string::is_ascii_spec_bytes;

    reveal_strlit("brigadier:integer");
    reveal_strlit("minecraft:message");
    reveal_strlit("minecraft:swizzle");
    reveal_strlit("minecraft:nbt_tag");
    assert(is_ascii("brigadier:integer"));
    assert(is_ascii("minecraft:message"));
    assert(is_ascii("minecraft:swizzle"));
    assert(is_ascii("minecraft:nbt_tag"));
    assert(("brigadier:integer").spec_bytes() != ("minecraft:message").spec_bytes()) by {
        assert(("brigadier:integer")@[0] == 'b');
        assert(("minecraft:message")@[0] == 'm');
        assert(("brigadier:integer").spec_bytes()[0] == 'b' as u8);
        assert(("minecraft:message").spec_bytes()[0] == 'm' as u8);
    }
    assert(("brigadier:integer").spec_bytes() != ("minecraft:swizzle").spec_bytes()) by {
        assert(("brigadier:integer")@[0] == 'b');
        assert(("minecraft:swizzle")@[0] == 'm');
        assert(("brigadier:integer").spec_bytes()[0] == 'b' as u8);
        assert(("minecraft:swizzle").spec_bytes()[0] == 'm' as u8);
    }
    assert(("brigadier:integer").spec_bytes() != ("minecraft:nbt_tag").spec_bytes()) by {
        assert(("brigadier:integer")@[0] == 'b');
        assert(("minecraft:nbt_tag")@[0] == 'm');
        assert(("brigadier:integer").spec_bytes()[0] == 'b' as u8);
        assert(("minecraft:nbt_tag").spec_bytes()[0] == 'm' as u8);
    }
    assert(("minecraft:message").spec_bytes() != ("minecraft:swizzle").spec_bytes()) by {
        assert(("minecraft:message")@[10] == 'm');
        assert(("minecraft:swizzle")@[10] == 's');
        assert(("minecraft:message").spec_bytes()[10] == 'm' as u8);
        assert(("minecraft:swizzle").spec_bytes()[10] == 's' as u8);
    }
    assert(("minecraft:message").spec_bytes() != ("minecraft:nbt_tag").spec_bytes()) by {
        assert(("minecraft:message")@[10] == 'm');
        assert(("minecraft:nbt_tag")@[10] == 'n');
        assert(("minecraft:message").spec_bytes()[10] == 'm' as u8);
        assert(("minecraft:nbt_tag").spec_bytes()[10] == 'n' as u8);
    }
    assert(("minecraft:swizzle").spec_bytes() != ("minecraft:nbt_tag").spec_bytes()) by {
        assert(("minecraft:swizzle")@[10] == 's');
        assert(("minecraft:nbt_tag")@[10] == 'n');
        assert(("minecraft:swizzle").spec_bytes()[10] == 's' as u8);
        assert(("minecraft:nbt_tag").spec_bytes()[10] == 'n' as u8);
    }
}

/// No two parser identifiers of 18 bytes are equal.
pub proof fn lemma_parser_tags_distinct_18()
    ensures
        ("minecraft:nbt_path").spec_bytes() != ("minecraft:particle").spec_bytes(),
        ("minecraft:nbt_path").spec_bytes() != ("minecraft:rotation").spec_bytes(),
        ("minecraft:nbt_path").spec_bytes() != ("minecraft:function").spec_bytes(),
        ("minecraft:particle").spec_bytes() != ("minecraft:rotation").spec_bytes(),
        ("minecraft:particle").spec_bytes() != ("minecraft:function").spec_bytes(),
        ("minecraft:rotation").spec_bytes() != ("minecraft:function").spec_bytes(),
{
    broadcast use vstd::string::is_ascii_spec_bytes;

    reveal_strlit("minecraft:nbt_path");
    reveal_strlit("minecraft:particle");
    reveal_strlit("minecraft:rotation");
    reveal_strlit("minecraft:function");
    assert(is_ascii("minecraft:nbt_path"));
    assert(is_ascii("minecraft:particle"));
    assert(is_ascii("minecraft:rotation"));
    assert(is_ascii("minecraft:function"));
    assert(("minecraft:nbt_path").spec_bytes() != ("minecraft:particle").spec_bytes()) by {
        assert(("minecraft:nbt_path")@[10] == 'n');
        assert(("minecraft:particle")@[10] == 'p');
        assert(("minecraft:nbt_path").spec_bytes()[10] == 'n' as u8);
        assert(("minecraft:particle").spec_bytes()[10] == 'p' as u8);
    }
    assert(("minecraft:nbt_path").spec_bytes() != ("minecraft:rotation").spec_bytes()) by {
        assert(("minecraft:nbt_path")@[10] == 'n');
        assert(("minecraft:rotation")@[10] == 'r');
        assert(("minecraft:nbt_path").spec_bytes()[10] == 'n' as u8);
        assert(("minecraft:rotation").spec_bytes()[10] == 'r' as u8);
    }
    assert(("minecraft:nbt_path").spec_bytes() != ("minecraft:function").spec_bytes()) by {
        assert(("minecraft:nbt_path")@[10] == 'n');
        assert(("minecraft:function")@[10] == 'f');
        assert(("minecraft:nbt_path").spec_bytes()[10] == 'n' as u8);
        assert(("minecraft:function").spec_bytes()[10] == 'f' as u8);
    }
    assert(("minecraft:particle").spec_bytes() != ("minecraft:rotation").spec_bytes()) by {
        assert(("minecraft:particle")@[10] == 'p');
        assert(("minecraft:rotation")@[10] == 'r');
        assert(("minecraft:particle").spec_bytes()[10] == 'p' as u8);
        assert(("minecraft:rotation").spec_bytes()[10] == 'r' as u8);
    }
    assert(("minecraft:particle").spec_bytes() != ("minecraft:function").spec_bytes()) by {
        assert(("minecraft:particle")@[10] == 'p');
        assert(("minecraft:function")@[10] == 'f');
        assert(("minecraft:particle").spec_bytes()[10] == 'p' as u8);
        assert(("minecraft:function").spec_bytes()[10] == 'f' as u8);
    }
    assert(("minecraft:rotation").spec_bytes() != ("minecraft:function").spec_bytes()) by {
        assert(("minecraft:rotation")@[10] == 'r');
        assert(("minecraft:function")@[10] == 'f');
        assert(("minecraft:rotation").spec_bytes()[10] == 'r' as u8);
        assert(("minecraft:function").spec_bytes()[10] == 'f' as u8);
    }
}

/// No two parser identifiers of 19 bytes are equal.
pub proof fn lemma_parser_tags_distinct_19()
    ensures
        ("minecraft:block_pos").spec_bytes() != ("minecraft:component").spec_bytes(),
        ("minecraft:block_pos").spec_bytes() != ("minecraft:objective").spec_bytes(),
        ("minecraft:block_pos").spec_bytes() != ("minecraft:operation").spec_bytes(),
        ("minecraft:block_pos").spec_bytes() != ("minecraft:item_slot").spec_bytes(),
        ("minecraft:block_pos").spec_bytes() != ("minecraft:int_range").spec_bytes(),
        ("minecraft:block_pos").spec_bytes() != ("minecraft:dimension").spec_bytes(),
        ("minecraft:component").spec_bytes() != ("minecraft:objective").spec_bytes(),
        ("minecraft:component").spec_bytes() != ("minecraft:operation").spec_bytes(),
        ("minecraft:component").spec_bytes() != ("minecraft:item_slot").spec_bytes(),
        ("minecraft:component").spec_bytes() != ("minecraft:int_range").spec_bytes(),
        ("minecraft:component").spec_bytes() != ("minecraft:dimension").spec_bytes(),
        ("minecraft:objective").spec_bytes() != ("minecraft:operation").spec_bytes(),
        ("minecraft:objective").spec_bytes() != ("minecraft:item_slot").spec_bytes(),
        ("minecraft:objective").spec_bytes() != ("minecraft:int_range").spec_bytes(),
        ("minecraft:objective").spec_bytes() != ("minecraft:dimension").spec_bytes(),
        ("minecraft:operation").spec_bytes() != ("minecraft:item_slot").spec_bytes(),
        ("minecraft:operation").spec_bytes() != ("minecraft:int_range").spec_bytes(),
        ("minecraft:operation").spec_bytes() != ("minecraft:dimension").spec_bytes(),
        ("minecraft:item_slot").spec_bytes() != ("minecraft:int_range").spec_bytes(),
        ("minecraft:item_slot").spec_bytes() != ("minecraft:dimension").spec_bytes(),
        ("minecraft:int_range").spec_bytes() != ("minecraft:dimension").spec_bytes(),
{
    broadcast use vstd::string::is_ascii_spec_bytes;

    reveal_strlit("minecraft:block_pos");
    reveal_strlit("minecraft:component");
    reveal_strlit("minecraft:objective");
    reveal_strlit("minecraft:operation");
    reveal_strlit("minecraft:item_slot");
    reveal_strlit("minecraft:int_range");
    reveal_strlit("minecraft:dimension");
    assert(is_ascii("minecraft:block_pos"));
    assert(is_ascii("minecraft:component"));
    assert(is_ascii("minecraft:objective"));
    assert(is_ascii("minecraft:operation"));
    assert(is_ascii("minecraft:item_slot"));
    assert(is_ascii("minecraft:int_range"));
    assert(is_ascii("minecraft:dimension"));
    assert(("minecraft:block_pos").spec_bytes() != ("minecraft:component").spec_bytes()) by {
        assert(("minecraft:block_pos")@[10] == 'b');
        assert(("minecraft:component")@[10] == 'c');
        assert(("minecraft:block_pos").spec_bytes()[10] == 'b' as u8);
        assert(("minecraft:component").spec_bytes()[10] == 'c' as u8);
    }
    assert(("minecraft:block_pos").spec_bytes() != ("minecraft:objective").spec_bytes()) by {
        assert(("minecraft:block_pos")@[10] == 'b');
        assert(("minecraft:objective")@[10] == 'o');
        assert(("minecraft:block_pos").spec_bytes()[10] == 'b' as u8);
        assert(("minecraft:objective").spec_bytes()[10] == 'o' as u8);
    }
    assert(("minecraft:block_pos").spec_bytes() != ("minecraft:operation").spec_bytes()) by {
        assert(("minecraft:block_pos")@[10] == 'b');
        assert(("minecraft:operation")@[10] == 'o');
        assert(("minecraft:block_pos").spec_bytes()[10] == 'b' as u8);
        assert(("minecraft:operation").spec_bytes()[10] == 'o' as u8);
    }
    assert(("minecraft:block_pos").spec_bytes() != ("minecraft:item_slot").spec_bytes()) by {
        assert(("minecraft:block_pos")@[10] == 'b');
        assert(("minecraft:item_slot")@[10] == 'i');
        assert(("minecraft:block_pos").spec_bytes()[10] == 'b' as u8);
        assert(("minecraft:item_slot").spec_bytes()[10] == 'i' as u8);
    }
    assert(("minecraft:block_pos").spec_bytes() != ("minecraft:int_range").spec_bytes()) by {
        assert(("minecraft:block_pos")@[10] == 'b');
        assert(("minecraft:int_range")@[10] == 'i');
        assert(("minecraft:block_pos").spec_bytes()[10] == 'b' as u8);
        assert(("minecraft:int_range").spec_bytes()[10] == 'i' as u8);
    }
    assert(("minecraft:block_pos").spec_bytes() != ("minecraft:dimension").spec_bytes()) by {
        assert(("minecraft:block_pos")@[10] == 'b');
        assert(("minecraft:dimension")@[10] == 'd');
        assert(("minecraft:block_pos").spec_bytes()[10] == 'b' as u8);
        assert(("minecraft:dimension").spec_bytes()[10] == 'd' as u8);
    }
    assert(("minecraft:component").spec_bytes() != ("minecraft:objective").spec_bytes()) by {
        assert(("minecraft:component")@[10] == 'c');
        assert(("minecraft:objective")@[10] == 'o');
        assert(("minecraft:component").spec_bytes()[10] == 'c' as u8);
        assert(("minecraft:objective").spec_bytes()[10] == 'o' as u8);
    }
    assert(("minecraft:component").spec_bytes() != ("minecraft:operation").spec_bytes()) by {
        assert(("minecraft:component")@[10] == 'c');
        assert(("minecraft:operation")@[10] == 'o');
        assert(("minecraft:component").spec_bytes()[10] == 'c' as u8);
        assert(("minecraft:operation").spec_bytes()[10] == 'o' as u8);
    }
    assert(("minecraft:component").spec_bytes() != ("minecraft:item_slot").spec_bytes()) by {
        assert(("minecraft:component")@[10] == 'c');
        assert(("minecraft:item_slot")@[10] == 'i');
        assert(("minecraft:component").spec_bytes()[10] == 'c' as u8);
        assert(("minecraft:item_slot").spec_bytes()[10] == 'i' as u8);
    }
    assert(("minecraft:component").spec_bytes() != ("minecraft:int_range").spec_bytes()) by {
        assert(("minecraft:component")@[10] == 'c');
        assert(("minecraft:int_range")@[10] == 'i');
        assert(("minecraft:component").spec_bytes()[10] == 'c' as u8);
        assert(("minecraft:int_range").spec_bytes()[10] == 'i' as u8);
    }
    assert(("minecraft:component").spec_bytes() != ("minecraft:dimension").spec_bytes()) by {
        assert(("minecraft:component")@[10] == 'c');
        assert(("minecraft:dimension")@[10] == 'd');
        assert(("minecraft:component").spec_bytes()[10] == 'c' as u8);
        assert(("minecraft:dimension").spec_bytes()[10] == 'd' as u8);
    }
    assert(("minecraft:objective").spec_bytes() != ("minecraft:operation").spec_bytes()) by {
        assert(("minecraft:objective")@[11] == 'b');
        assert(("minecraft:operation")@[11] == 'p');
        assert(("minecraft:objective").spec_bytes()[11] == 'b' as u8);
        assert(("minecraft:operation").spec_bytes()[11] == 'p' as u8);
    }
    assert(("minecraft:objective").spec_bytes() != ("minecraft:item_slot").spec_bytes()) by {
        assert(("minecraft:objective")@[10] == 'o');
        assert(("minecraft:item_slot")@[10] == 'i');
        assert(("minecraft:objective").spec_bytes()[10] == 'o' as u8);
        assert(("minecraft:item_slot").spec_bytes()[10] == 'i' as u8);
    }
    assert(("minecraft:objective").spec_bytes() != ("minecraft:int_range").spec_bytes()) by {
        assert(("minecraft:objective")@[10] == 'o');
        assert(("minecraft:int_range")@[10] == 'i');
        assert(("minecraft:objective").spec_bytes()[10] == 'o' as u8);
        assert(("minecraft:int_range").spec_bytes()[10] == 'i' as u8);
    }
    assert(("minecraft:objective").spec_bytes() != ("minecraft:dimension").spec_bytes()) by {
        assert(("minecraft:objective")@[10] == 'o');
        assert(("minecraft:dimension")@[10] == 'd');
        assert(("minecraft:objective").spec_bytes()[10] == 'o' as u8);
        assert(("minecraft:dimension").spec_bytes()[10] == 'd' as u8);
    }
    assert(("minecraft:operation").spec_bytes() != ("minecraft:item_slot").spec_bytes()) by {
        assert(("minecraft:operation")@[10] == 'o');
        assert(("minecraft:item_slot")@[10] == 'i');
        assert(("minecraft:operation").spec_bytes()[10] == 'o' as u8);
        assert(("minecraft:item_slot").spec_bytes()[10] == 'i' as u8);
    }
    assert(("minecraft:operation").spec_bytes() != ("minecraft:int_range").spec_bytes()) by {
        assert(("minecraft:operation")@[10] == 'o');
        assert(("minecraft:int_range")@[10] == 'i');
        assert(("minecraft:operation").spec_bytes()[10] == 'o' as u8);
        assert(("minecraft:int_range").spec_bytes()[10] == 'i' as u8);
    }
    assert(("minecraft:operation").spec_bytes() != ("minecraft:dimension").spec_bytes()) by {
        assert(("minecraft:operation")@[10] == 'o');
        assert(("minecraft:dimension")@[10] == 'd');
        assert(("minecraft:operation").spec_bytes()[10] == 'o' as u8);
        assert(("minecraft:dimension").spec_bytes()[10] == 'd' as u8);
    }
    assert(("minecraft:item_slot").spec_bytes() != ("minecraft:int_range").spec_bytes()) by {
        assert(("minecraft:item_slot")@[11] == 't');
        assert(("minecraft:int_range")@[11] == 'n');
        assert(("minecraft:item_slot").spec_bytes()[11] == 't' as u8);
        assert(("minecraft:int_range").spec_bytes()[11] == 'n' as u8);
    }
    assert(("minecraft:item_slot").spec_bytes() != ("minecraft:dimension").spec_bytes()) by {
        assert(("minecraft:item_slot")@[10] == 'i');
        assert(("minecraft:dimension")@[10] == 'd');
        assert(("minecraft:item_slot").spec_bytes()[10] == 'i' as u8);
        assert(("minecraft:dimension").spec_bytes()[10] == 'd' as u8);
    }
    assert(("minecraft:int_range").spec_bytes() != ("minecraft:dimension").spec_bytes()) by {
        assert(("minecraft:int_range")@[10] == 'i');
        assert(("minecraft:dimension")@[10] == 'd');
        assert(("minecraft:int_range").spec_bytes()[10] == 'i' as u8);
        assert(("minecraft:dimension").spec_bytes()[10] == 'd' as u8);
    }
}

/// No two parser identifiers of 20 bytes are equal.
pub proof fn lemma_parser_tags_distinct_20()
    ensures
        ("minecraft:column_pos").spec_bytes() != ("minecraft:item_stack").spec_bytes(),
        ("minecraft:column_pos").spec_bytes() != ("minecraft:mob_effect").spec_bytes(),
        ("minecraft:item_stack").spec_bytes() != ("minecraft:mob_effect").spec_bytes(),
{
    broadcast use vstd::string::is_ascii_spec_bytes;

    reveal_strlit("minecraft:column_pos");
    reveal_strlit("minecraft:item_stack");
    reveal_strlit("minecraft:mob_effect");
    assert(is_ascii("minecraft:column_pos"));
    assert(is_ascii("minecraft:item_stack"));
    assert(is_ascii("minecraft:mob_effect"));
    assert(("minecraft:column_pos").spec_bytes() != ("minecraft:item_stack").spec_bytes()) by {
        assert(("minecraft:column_pos")@[10] == 'c');
        assert(("minecraft:item_stack")@[10] == 'i');
        assert(("minecraft:column_pos").spec_bytes()[10] == 'c' as u8);
        assert(("minecraft:item_stack").spec_bytes()[10] == 'i' as u8);
    }
    assert(("minecraft:column_pos").spec_bytes() != ("minecraft:mob_effect").spec_bytes()) by {
        assert(("minecraft:column_pos")@[10] == 'c');
        assert(("minecraft:mob_effect")@[10] == 'm');
        assert(("minecraft:column_pos").spec_bytes()[10] == 'c' as u8);
        assert(("minecraft:mob_effect").spec_bytes()[10] == 'm' as u8);
    }
    assert(("minecraft:item_stack").spec_bytes() != ("minecraft:mob_effect").spec_bytes()) by {
        assert(("minecraft:item_stack")@[10] == 'i');
        assert(("minecraft:mob_effect")@[10] == 'm');
        assert(("minecraft:item_stack").spec_bytes()[10] == 'i' as u8);
        assert(("minecraft:mob_effect").spec_bytes()[10] == 'm' as u8);
    }
}

/// No two parser identifiers of 21 bytes are equal.
pub proof fn lemma_parser_tags_distinct_21()
    ensures
        ("minecraft:block_state").spec_bytes() != ("minecraft:float_range").spec_bytes(),
{
    broadcast use vstd::string::is_ascii_spec_bytes;

    reveal_strlit("minecraft:block_state");
    reveal_strlit("minecraft:float_range");
    assert(is_ascii("minecraft:block_state"));
    assert(is_ascii("minecraft:float_range"));
    assert(("minecraft:block_state").spec_bytes() != ("minecraft:float_range").spec_bytes()) by {
        assert(("minecraft:block_state")@[10] == 'b');
        assert(("minecraft:float_range")@[10] == 'f');
        assert(("minecraft:block_state").spec_bytes()[10] == 'b' as u8);
        assert(("minecraft:float_range").spec_bytes()[10] == 'f' as u8);
    }
}

/// No two parser identifiers of 22 bytes are equal.
pub proof fn lemma_parser_tags_distinct_22()
    ensures
        ("minecraft:game_profile").spec_bytes() != ("minecraft:score_holder").spec_bytes(),
{
    broadcast use vstd::string::is_ascii_spec_bytes;

    reveal_strlit("minecraft:game_profile");
    reveal_strlit("minecraft:score_holder");
    assert(is_ascii("minecraft:game_profile"));
    assert(is_ascii("minecraft:score_holder"));
    assert(("minecraft:game_profile").spec_bytes() != ("minecraft:score_holder").spec_bytes()) by {
        assert(("minecraft:game_profile")@[10] == 'g');
        assert(("minecraft:score_holder")@[10] == 's');
        assert(("minecraft:game_profile").spec_bytes()[10] == 'g' as u8);
        assert(("minecraft:score_holder").spec_bytes()[10] == 's' as u8);
    }
}

/// No two parser identifiers of 23 bytes are equal.
pub proof fn lemma_parser_tags_distinct_23()
    ensures
        ("minecraft:entity_anchor").spec_bytes() != ("minecraft:entity_summon").spec_bytes(),
{
    broadcast use vstd::string::is_ascii_spec_bytes;

    reveal_strlit("minecraft:entity_anchor");
    reveal_strlit("minecraft:entity_summon");
    assert(is_ascii("minecraft:entity_anchor"));
    assert(is_ascii("minecraft:entity_summon"));
    assert(("minecraft:entity_anchor").spec_bytes() != ("minecraft:entity_summon").spec_bytes()) by {
        assert(("minecraft:entity_anchor")@[17] == 'a');
        assert(("minecraft:entity_summon")@[17] == 's');
        assert(("minecraft:entity_anchor").spec_bytes()[17] == 'a' as u8);
        assert(("minecraft:entity_summon").spec_bytes()[17] == 's' as u8);
    }
}

/// No two parser identifiers of 25 bytes are equal.
pub proof fn lemma_parser_tags_distinct_25()
    ensures
        ("minecraft:block_predicate").spec_bytes() != ("minecraft:scoreboard_slot").spec_bytes(),
{
    broadcast use vstd::string::is_ascii_spec_bytes;

    reveal_strlit("minecraft:block_predicate");
    reveal_strlit("minecraft:scoreboard_slot");
    assert(is_ascii("minecraft:block_predicate"));
    assert(is_ascii("minecraft:scoreboard_slot"));
    assert(("minecraft:block_predicate").spec_bytes() != ("minecraft:scoreboard_slot").spec_bytes()) by {
        assert(("minecraft:block_predicate")@[10] == 'b');
        assert(("minecraft:scoreboard_slot")@[10] == 's');
        assert(("minecraft:block_predicate").spec_bytes()[10] == 'b' as u8);
        assert(("minecraft:scoreboard_slot").spec_bytes()[10] == 's' as u8);
    }
}

/// No two parser identifiers of 26 bytes are equal.
pub proof fn lemma_parser_tags_distinct_26()
    ensures
        ("minecraft:item_enchantment").spec_bytes() != ("minecraft:nbt_compound_tag").spec_bytes(),
{
    broadcast use vstd::string::is_ascii_spec_bytes;

    reveal_strlit("minecraft:item_enchantment");
    reveal_strlit("minecraft:nbt_compound_tag");
    assert(is_ascii("minecraft:item_enchantment"));
    assert(is_ascii("minecraft:nbt_compound_tag"));
    assert(("minecraft:item_enchantment").spec_bytes() != ("minecraft:nbt_compound_tag").spec_bytes()) by {
        assert(("minecraft:item_enchantment")@[10] == 'i');
        assert(("minecraft:nbt_compound_tag")@[10] == 'n');
        assert(("minecraft:item_enchantment").spec_bytes()[10] == 'i' as u8);
        assert(("minecraft:nbt_compound_tag").spec_bytes()[10] == 'n' as u8);
    }
}

impl Parser {
    /// The wire identifier of this parser kind.
    pub open spec fn spec_tag(self) -> Seq<u8> {
        match self {
            Parser::Bool => ("brigadier:bool").spec_bytes(),
            Parser::Double { .. } => ("brigadier:double").spec_bytes(),
            Parser::Float { .. } => ("brigadier:float").spec_bytes(),
            Parser::Integer { .. } => ("brigadier:integer").spec_bytes(),
            Parser::Long { .. } => ("brigadier:long").spec_bytes(),
            Parser::String { .. } => ("brigadier:string").spec_bytes(),
            Parser::Entity { .. } => ("minecraft:entity").spec_bytes(),
            Parser::GameProfile => ("minecraft:game_profile").spec_bytes(),
            Parser::BlockPos => ("minecraft:block_pos").spec_bytes(),
            Parser::ColumnPos => ("minecraft:column_pos").spec_bytes(),
            Parser::Vec3 => ("minecraft:vec3").spec_bytes(),
            Parser::Vec2 => ("minecraft:vec2").spec_bytes(),
            Parser::BlockState => ("minecraft:block_state").spec_bytes(),
            Parser::BlockPredicate => ("minecraft:block_predicate").spec_bytes(),
            Parser::ItemStack => ("minecraft:item_stack").spec_bytes(),
            Parser::ItemPredicate => ("minecraft:item_predicate").spec_bytes(),
            Parser::Color => ("minecraft:color").spec_bytes(),
            Parser::Component => ("minecraft:component").spec_bytes(),
            Parser::Message => ("minecraft:message").spec_bytes(),
            Parser::Nbt => ("minecraft:nbt").spec_bytes(),
            Parser::NbtPath => ("minecraft:nbt_path").spec_bytes(),
            Parser::Objective => ("minecraft:objective").spec_bytes(),
            Parser::ObjectiveCriteria => ("minecraft:objective_criteria").spec_bytes(),
            Parser::Operation => ("minecraft:operation").spec_bytes(),
            Parser::Particle => ("minecraft:particle").spec_bytes(),
            Parser::Rotation => ("minecraft:rotation").spec_bytes(),
            Parser::Angle => ("minecraft:angle").spec_bytes(),
            Parser::ScoreboardSlot => ("minecraft:scoreboard_slot").spec_bytes(),
            Parser::ScoreHolder { .. } => ("minecraft:score_holder").spec_bytes(),
            Parser::Swizzle => ("minecraft:swizzle").spec_bytes(),
            Parser::Team => ("minecraft:team").spec_bytes(),
            Parser::ItemSlot => ("minecraft:item_slot").spec_bytes(),
            Parser::ResourceLocation => ("minecraft:resource_location").spec_bytes(),
            Parser::MobEffect => ("minecraft:mob_effect").spec_bytes(),
            Parser::Function => ("minecraft:function").spec_bytes(),
            Parser::EntityAnchor => ("minecraft:entity_anchor").spec_bytes(),
            Parser::Range { .. } => ("minecraft:range").spec_bytes(),
            Parser::IntRange => ("minecraft:int_range").spec_bytes(),
            Parser::FloatRange => ("minecraft:float_range").spec_bytes(),
            Parser::ItemEnchantment => ("minecraft:item_enchantment").spec_bytes(),
            Parser::EntitySummon => ("minecraft:entity_summon").spec_bytes(),
            Parser::Dimension => ("minecraft:dimension").spec_bytes(),
            Parser::Uuid => ("minecraft:uuid").spec_bytes(),
            Parser::NbtTag => ("minecraft:nbt_tag").spec_bytes(),
            Parser::NbtCompoundTag => ("minecraft:nbt_compound_tag").spec_bytes(),
            Parser::Time => ("minecraft:time").spec_bytes(),
        }
    }

    /// The payload bytes following this parser's identifier.
    pub open spec fn spec_payload(self) -> Seq<u8> {
        match self {
            Parser::Bool => Seq::<u8>::empty(),
            Parser::Double { bits, min, max } => minmax64_bytes(bits, min, max),
            Parser::Float { bits, min, max } => minmax32_bytes(bits, min, max),
            Parser::Integer { bits, min, max } => minmax32_bytes(bits, min, max),
            Parser::Long { bits, min, max } => minmax64_bytes(bits, min, max),
            Parser::String { info } => info.spec_enc(),
            Parser::Entity { selector } => seq![selector.spec_byte()],
            Parser::GameProfile => Seq::<u8>::empty(),
            Parser::BlockPos => Seq::<u8>::empty(),
            Parser::ColumnPos => Seq::<u8>::empty(),
            Parser::Vec3 => Seq::<u8>::empty(),
            Parser::Vec2 => Seq::<u8>::empty(),
            Parser::BlockState => Seq::<u8>::empty(),
            Parser::BlockPredicate => Seq::<u8>::empty(),
            Parser::ItemStack => Seq::<u8>::empty(),
            Parser::ItemPredicate => Seq::<u8>::empty(),
            Parser::Color => Seq::<u8>::empty(),
            Parser::Component => Seq::<u8>::empty(),
            Parser::Message => Seq::<u8>::empty(),
            Parser::Nbt => Seq::<u8>::empty(),
            Parser::NbtPath => Seq::<u8>::empty(),
            Parser::Objective => Seq::<u8>::empty(),
            Parser::ObjectiveCriteria => Seq::<u8>::empty(),
            Parser::Operation => Seq::<u8>::empty(),
            Parser::Particle => Seq::<u8>::empty(),
            Parser::Rotation => Seq::<u8>::empty(),
            Parser::Angle => Seq::<u8>::empty(),
            Parser::ScoreboardSlot => Seq::<u8>::empty(),
            Parser::ScoreHolder { selector } => seq![selector.spec_byte()],
            Parser::Swizzle => Seq::<u8>::empty(),
            Parser::Team => Seq::<u8>::empty(),
            Parser::ItemSlot => Seq::<u8>::empty(),
            Parser::ResourceLocation => Seq::<u8>::empty(),
            Parser::MobEffect => Seq::<u8>::empty(),
            Parser::Function => Seq::<u8>::empty(),
            Parser::EntityAnchor => Seq::<u8>::empty(),
            Parser::Range { decimals } => seq![bool_byte(decimals)],
            Parser::IntRange => Seq::<u8>::empty(),
            Parser::FloatRange => Seq::<u8>::empty(),
            Parser::ItemEnchantment => Seq::<u8>::empty(),
            Parser::EntitySummon => Seq::<u8>::empty(),
            Parser::Dimension => Seq::<u8>::empty(),
            Parser::Uuid => Seq::<u8>::empty(),
            Parser::NbtTag => Seq::<u8>::empty(),
            Parser::NbtCompoundTag => Seq::<u8>::empty(),
            Parser::Time => Seq::<u8>::empty(),
        }
    }

    /// The wire encoding of this parser: its identifier as a length-prefixed
    /// string, then its payload.
    pub open spec fn spec_enc(self) -> Seq<u8> {
        string_bytes(self.spec_tag()) + self.spec_payload()
    }

    /// Whether the bit-gated optional bounds agree with their flag bits. An
    /// encodable parser satisfies this; decoding always establishes it.
    pub open spec fn wf(self) -> bool {
        match self {
            Parser::Double { bits, min, max } => bits.min == (min is Some) && bits.max == (
            max is Some),
            Parser::Float { bits, min, max } => bits.min == (min is Some) && bits.max == (
            max is Some),
            Parser::Integer { bits, min, max } => bits.min == (min is Some) && bits.max == (
            max is Some),
            Parser::Long { bits, min, max } => bits.min == (min is Some) && bits.max == (
            max is Some),
            _ => true,
        }
    }

    /// Reading a parser at `pos`: its identifier, then the payload the
    /// identifier calls for. Identifiers outside the closed set are rejected.
    pub open spec fn spec_read(bytes: Seq<u8>, pos: int) -> Result<(Parser, int), DecodeError> {
        match string_read(bytes, pos) {
            Err(e) => Err(e),
            Ok((ident, p)) => Parser::spec_dispatch(ident, bytes, p),
        }
    }

    /// Which parser a decoded identifier calls for, and its payload read
    /// from `p` onward.
    #[verifier::opaque]
    pub open spec fn spec_dispatch(ident: Seq<u8>, bytes: Seq<u8>, p: int) -> Result<
        (Parser, int),
        DecodeError,
    > {
        if ident.len() == 13 {
            if ident == ("minecraft:nbt").spec_bytes() {
                Ok((Parser::Nbt, p))
            }
            else {
                Err(DecodeError::UnknownParserIdentifier)
            }
        }
        else if ident.len() == 14 {
            if ident == ("brigadier:bool").spec_bytes() {
                Ok((Parser::Bool, p))
            }
            else if ident == ("brigadier:long").spec_bytes() {
                match minmax64_read(bytes, p) {
                    Err(e) => Err(e),
                    Ok(((bits, min, max), end)) => Ok((Parser::Long { bits, min, max }, end)),
                }
            }
            else if ident == ("minecraft:vec3").spec_bytes() {
                Ok((Parser::Vec3, p))
            }
            else if ident == ("minecraft:vec2").spec_bytes() {
                Ok((Parser::Vec2, p))
            }
            else if ident == ("minecraft:team").spec_bytes() {
                Ok((Parser::Team, p))
            }
            else if ident == ("minecraft:uuid").spec_bytes() {
                Ok((Parser::Uuid, p))
            }
            else if ident == ("minecraft:time").spec_bytes() {
                Ok((Parser::Time, p))
            }
            else {
                Err(DecodeError::UnknownParserIdentifier)
            }
        }
        else if ident.len() == 15 {
            if ident == ("brigadier:float").spec_bytes() {
                match minmax32_read(bytes, p) {
                    Err(e) => Err(e),
                    Ok(((bits, min, max), end)) => Ok((Parser::Float { bits, min, max }, end)),
                }
            }
            else if ident == ("minecraft:color").spec_bytes() {
                Ok((Parser::Color, p))
            }
            else if ident == ("minecraft:angle").spec_bytes() {
                Ok((Parser::Angle, p))
            }
            else if ident == ("minecraft:range").spec_bytes() {
                match bool_read(bytes, p) {
                    Err(e) => Err(e),
                    Ok((v, end)) => Ok((Parser::Range { decimals: v }, end)),
                }
            }
            else {
                Err(DecodeError::UnknownParserIdentifier)
            }
        }
        else if ident.len() == 16 {
            if ident == ("brigadier:double").spec_bytes() {
                match minmax64_read(bytes, p) {
                    Err(e) => Err(e),
                    Ok(((bits, min, max), end)) => Ok((Parser::Double { bits, min, max }, end)),
                }
            }
            else if ident == ("brigadier:string").spec_bytes() {
                match StringDescription::spec_read(bytes, p) {
                    Err(e) => Err(e),
                    Ok((info, end)) => Ok((Parser::String { info }, end)),
                }
            }
            else if ident == ("minecraft:entity").spec_bytes() {
                match byte_read(bytes, p) {
                    Err(e) => Err(e),
                    Ok((b, end)) => Ok((Parser::Entity { selector: EntitySelector::spec_from_byte(b) }, end)),
                }
            }
            else {
                Err(DecodeError::UnknownParserIdentifier)
            }
        }
        else if ident.len() == 17 {
            if ident == ("brigadier:integer").spec_bytes() {
                match minmax32_read(bytes, p) {
                    Err(e) => Err(e),
                    Ok(((bits, min, max), end)) => Ok((Parser::Integer { bits, min, max }, end)),
                }
            }
            else if ident == ("minecraft:message").spec_bytes() {
                Ok((Parser::Message, p))
            }
            else if ident == ("minecraft:swizzle").spec_bytes() {
                Ok((Parser::Swizzle, p))
            }
            else if ident == ("minecraft:nbt_tag").spec_bytes() {
                Ok((Parser::NbtTag, p))
            }
            else {
                Err(DecodeError::UnknownParserIdentifier)
            }
        }
        else if ident.len() == 18 {
            if ident == ("minecraft:nbt_path").spec_bytes() {
                Ok((Parser::NbtPath, p))
            }
            else if ident == ("minecraft:particle").spec_bytes() {
                Ok((Parser::Particle, p))
            }
            else if ident == ("minecraft:rotation").spec_bytes() {
                Ok((Parser::Rotation, p))
            }
            else if ident == ("minecraft:function").spec_bytes() {
                Ok((Parser::Function, p))
            }
            else {
                Err(DecodeError::UnknownParserIdentifier)
            }
        }
        else if ident.len() == 19 {
            if ident == ("minecraft:block_pos").spec_bytes() {
                Ok((Parser::BlockPos, p))
            }
            else if ident == ("minecraft:component").spec_bytes() {
                Ok((Parser::Component, p))
            }
            else if ident == ("minecraft:objective").spec_bytes() {
                Ok((Parser::Objective, p))
            }
            else if ident == ("minecraft:operation").spec_bytes() {
                Ok((Parser::Operation, p))
            }
            else if ident == ("minecraft:item_slot").spec_bytes() {
                Ok((Parser::ItemSlot, p))
            }
            else if ident == ("minecraft:int_range").spec_bytes() {
                Ok((Parser::IntRange, p))
            }
            else if ident == ("minecraft:dimension").spec_bytes() {
                Ok((Parser::Dimension, p))
            }
            else {
                Err(DecodeError::UnknownParserIdentifier)
            }
        }
        else if ident.len() == 20 {
            if ident == ("minecraft:column_pos").spec_bytes() {
                Ok((Parser::ColumnPos, p))
            }
            else if ident == ("minecraft:item_stack").spec_bytes() {
                Ok((Parser::ItemStack, p))
            }
            else if ident == ("minecraft:mob_effect").spec_bytes() {
                Ok((Parser::MobEffect, p))
            }
            else {
                Err(DecodeError::UnknownParserIdentifier)
            }
        }
        else if ident.len() == 21 {
            if ident == ("minecraft:block_state").spec_bytes() {
                Ok((Parser::BlockState, p))
            }
            else if ident == ("minecraft:float_range").spec_bytes() {
                Ok((Parser::FloatRange, p))
            }
            else {
                Err(DecodeError::UnknownParserIdentifier)
            }
        }
        else if ident.len() == 22 {
            if ident == ("minecraft:game_profile").spec_bytes() {
                Ok((Parser::GameProfile, p))
            }
            else if ident == ("minecraft:score_holder").spec_bytes() {
                match byte_read(bytes, p) {
                    Err(e) => Err(e),
                    Ok((b, end)) => Ok((Parser::ScoreHolder { selector: ScoreHolderSelector::spec_from_byte(b) }, end)),
                }
            }
            else {
                Err(DecodeError::UnknownParserIdentifier)
            }
        }
        else if ident.len() == 23 {
            if ident == ("minecraft:entity_anchor").spec_bytes() {
                Ok((Parser::EntityAnchor, p))
            }
            else if ident == ("minecraft:entity_summon").spec_bytes() {
                Ok((Parser::EntitySummon, p))
            }
            else {
                Err(DecodeError::UnknownParserIdentifier)
            }
        }
        else if ident.len() == 24 {
            if ident == ("minecraft:item_predicate").spec_bytes() {
                Ok((Parser::ItemPredicate, p))
            }
            else {
                Err(DecodeError::UnknownParserIdentifier)
            }
        }
        else if ident.len() == 25 {
            if ident == ("minecraft:block_predicate").spec_bytes() {
                Ok((Parser::BlockPredicate, p))
            }
            else if ident == ("minecraft:scoreboard_slot").spec_bytes() {
                Ok((Parser::ScoreboardSlot, p))
            }
            else {
                Err(DecodeError::UnknownParserIdentifier)
            }
        }
        else if ident.len() == 26 {
            if ident == ("minecraft:item_enchantment").spec_bytes() {
                Ok((Parser::ItemEnchantment, p))
            }
            else if ident == ("minecraft:nbt_compound_tag").spec_bytes() {
                Ok((Parser::NbtCompoundTag, p))
            }
            else {
                Err(DecodeError::UnknownParserIdentifier)
            }
        }
        else if ident.len() == 27 {
            if ident == ("minecraft:resource_location").spec_bytes() {
                Ok((Parser::ResourceLocation, p))
            }
            else {
                Err(DecodeError::UnknownParserIdentifier)
            }
        }
        else if ident.len() == 28 {
            if ident == ("minecraft:objective_criteria").spec_bytes() {
                Ok((Parser::ObjectiveCriteria, p))
            }
            else {
                Err(DecodeError::UnknownParserIdentifier)
            }
        }
        else {
            Err(DecodeError::UnknownParserIdentifier)
        }
    }

    /// Appends the wire encoding of this parser.
    pub fn encode(&self, out: &mut Vec<u8>)
        requires
            self.wf(),
        ensures
            final(out)@ == old(out)@ + self.spec_enc(),
    {
        proof {
            lemma_parser_tag_lens();
        }
        let ghost prev = out@;
        match self {
            Parser::Bool => {
                encode_string(("brigadier:bool").as_bytes(), out);
                assert(out@ =~= prev + self.spec_enc());
            },
            Parser::Double { bits, min, max } => {
                encode_string(("brigadier:double").as_bytes(), out);
                encode_minmax64(*bits, *min, *max, out);
                assert(out@ =~= prev + self.spec_enc());
            },
            Parser::Float { bits, min, max } => {
                encode_string(("brigadier:float").as_bytes(), out);
                encode_minmax32(*bits, *min, *max, out);
                assert(out@ =~= prev + self.spec_enc());
            },
            Parser::Integer { bits, min, max } => {
                encode_string(("brigadier:integer").as_bytes(), out);
                encode_minmax32(*bits, *min, *max, out);
                assert(out@ =~= prev + self.spec_enc());
            },
            Parser::Long { bits, min, max } => {
                encode_string(("brigadier:long").as_bytes(), out);
                encode_minmax64(*bits, *min, *max, out);
                assert(out@ =~= prev + self.spec_enc());
            },
            Parser::String { info } => {
                encode_string(("brigadier:string").as_bytes(), out);
                info.encode(out);
                assert(out@ =~= prev + self.spec_enc());
            },
            Parser::Entity { selector } => {
                encode_string(("minecraft:entity").as_bytes(), out);
                selector.encode(out);
                assert(out@ =~= prev + self.spec_enc());
            },
            Parser::GameProfile => {
                encode_string(("minecraft:game_profile").as_bytes(), out);
                assert(out@ =~= prev + self.spec_enc());
            },
            Parser::BlockPos => {
                encode_string(("minecraft:block_pos").as_bytes(), out);
                assert(out@ =~= prev + self.spec_enc());
            },
            Parser::ColumnPos => {
                encode_string(("minecraft:column_pos").as_bytes(), out);
                assert(out@ =~= prev + self.spec_enc());
            },
            Parser::Vec3 => {
                encode_string(("minecraft:vec3").as_bytes(), out);
                assert(out@ =~= prev + self.spec_enc());
            },
            Parser::Vec2 => {
                encode_string(("minecraft:vec2").as_bytes(), out);
                assert(out@ =~= prev + self.spec_enc());
            },
            Parser::BlockState => {
                encode_string(("minecraft:block_state").as_bytes(), out);
                assert(out@ =~= prev + self.spec_enc());
            },
            Parser::BlockPredicate => {
                encode_string(("minecraft:block_predicate").as_bytes(), out);
                assert(out@ =~= prev + self.spec_enc());
            },
            Parser::ItemStack => {
                encode_string(("minecraft:item_stack").as_bytes(), out);
                assert(out@ =~= prev + self.spec_enc());
            },
            Parser::ItemPredicate => {
                encode_string(("minecraft:item_predicate").as_bytes(), out);
                assert(out@ =~= prev + self.spec_enc());
            },
            Parser::Color => {
                encode_string(("minecraft:color").as_bytes(), out);
                assert(out@ =~= prev + self.spec_enc());
            },
            Parser::Component => {
                encode_string(("minecraft:component").as_bytes(), out);
                assert(out@ =~= prev + self.spec_enc());
            },
            Parser::Message => {
                encode_string(("minecraft:message").as_bytes(), out);
                assert(out@ =~= prev + self.spec_enc());
            },
            Parser::Nbt => {
                encode_string(("minecraft:nbt").as_bytes(), out);
                assert(out@ =~= prev + self.spec_enc());
            },
            Parser::NbtPath => {
                encode_string(("minecraft:nbt_path").as_bytes(), out);
                assert(out@ =~= prev + self.spec_enc());
            },
            Parser::Objective => {
                encode_string(("minecraft:objective").as_bytes(), out);
                assert(out@ =~= prev + self.spec_enc());
            },
            Parser::ObjectiveCriteria => {
                encode_string(("minecraft:objective_criteria").as_bytes(), out);
                assert(out@ =~= prev + self.spec_enc());
            },
            Parser::Operation => {
                encode_string(("minecraft:operation").as_bytes(), out);
                assert(out@ =~= prev + self.spec_enc());
            },
            Parser::Particle => {
                encode_string(("minecraft:particle").as_bytes(), out);
                assert(out@ =~= prev + self.spec_enc());
            },
            Parser::Rotation => {
                encode_string(("minecraft:rotation").as_bytes(), out);
                assert(out@ =~= prev + self.spec_enc());
            },
            Parser::Angle => {
                encode_string(("minecraft:angle").as_bytes(), out);
                assert(out@ =~= prev + self.spec_enc());
            },
            Parser::ScoreboardSlot => {
                encode_string(("minecraft:scoreboard_slot").as_bytes(), out);
                assert(out@ =~= prev + self.spec_enc());
            },
            Parser::ScoreHolder { selector } => {
                encode_string(("minecraft:score_holder").as_bytes(), out);
                selector.encode(out);
                assert(out@ =~= prev + self.spec_enc());
            },
            Parser::Swizzle => {
                encode_string(("minecraft:swizzle").as_bytes(), out);
                assert(out@ =~= prev + self.spec_enc());
            },
            Parser::Team => {
                encode_string(("minecraft:team").as_bytes(), out);
                assert(out@ =~= prev + self.spec_enc());
            },
            Parser::ItemSlot => {
                encode_string(("minecraft:item_slot").as_bytes(), out);
                assert(out@ =~= prev + self.spec_enc());
            },
            Parser::ResourceLocation => {
                encode_string(("minecraft:resource_location").as_bytes(), out);
                assert(out@ =~= prev + self.spec_enc());
            },
            Parser::MobEffect => {
                encode_string(("minecraft:mob_effect").as_bytes(), out);
                assert(out@ =~= prev + self.spec_enc());
            },
            Parser::Function => {
                encode_string(("minecraft:function").as_bytes(), out);
                assert(out@ =~= prev + self.spec_enc());
            },
            Parser::EntityAnchor => {
                encode_string(("minecraft:entity_anchor").as_bytes(), out);
                assert(out@ =~= prev + self.spec_enc());
            },
            Parser::Range { decimals } => {
                encode_string(("minecraft:range").as_bytes(), out);
                out.push(if *decimals { 1u8 } else { 0u8 });
                assert(out@ =~= prev + self.spec_enc());
            },
            Parser::IntRange => {
                encode_string(("minecraft:int_range").as_bytes(), out);
                assert(out@ =~= prev + self.spec_enc());
            },
            Parser::FloatRange => {
                encode_string(("minecraft:float_range").as_bytes(), out);
                assert(out@ =~= prev + self.spec_enc());
            },
            Parser::ItemEnchantment => {
                encode_string(("minecraft:item_enchantment").as_bytes(), out);
                assert(out@ =~= prev + self.spec_enc());
            },
            Parser::EntitySummon => {
                encode_string(("minecraft:entity_summon").as_bytes(), out);
                assert(out@ =~= prev + self.spec_enc());
            },
            Parser::Dimension => {
                encode_string(("minecraft:dimension").as_bytes(), out);
                assert(out@ =~= prev + self.spec_enc());
            },
            Parser::Uuid => {
                encode_string(("minecraft:uuid").as_bytes(), out);
                assert(out@ =~= prev + self.spec_enc());
            },
            Parser::NbtTag => {
                encode_string(("minecraft:nbt_tag").as_bytes(), out);
                assert(out@ =~= prev + self.spec_enc());
            },
            Parser::NbtCompoundTag => {
                encode_string(("minecraft:nbt_compound_tag").as_bytes(), out);
                assert(out@ =~= prev + self.spec_enc());
            },
            Parser::Time => {
                encode_string(("minecraft:time").as_bytes(), out);
                assert(out@ =~= prev + self.spec_enc());
            },
        }
    }

    /// The byte length of the wire encoding of this parser.
    pub fn size(&self) -> (n: u64)
        requires
            self.wf(),
        ensures
            n == self.spec_enc().len(),
            n <= 50,
    {
        proof {
            lemma_parser_tag_lens();
        }
        match self {
            Parser::Bool => string_size(("brigadier:bool").as_bytes().len()),
            Parser::Double { bits, min, max } => string_size(("brigadier:double").as_bytes().len()) + minmax64_size(*bits, *min, *max),
            Parser::Float { bits, min, max } => string_size(("brigadier:float").as_bytes().len()) + minmax32_size(*bits, *min, *max),
            Parser::Integer { bits, min, max } => string_size(("brigadier:integer").as_bytes().len()) + minmax32_size(*bits, *min, *max),
            Parser::Long { bits, min, max } => string_size(("brigadier:long").as_bytes().len()) + minmax64_size(*bits, *min, *max),
            Parser::String { info } => string_size(("brigadier:string").as_bytes().len()) + info.size(),
            Parser::Entity { selector } => string_size(("minecraft:entity").as_bytes().len()) + 1,
            Parser::GameProfile => string_size(("minecraft:game_profile").as_bytes().len()),
            Parser::BlockPos => string_size(("minecraft:block_pos").as_bytes().len()),
            Parser::ColumnPos => string_size(("minecraft:column_pos").as_bytes().len()),
            Parser::Vec3 => string_size(("minecraft:vec3").as_bytes().len()),
            Parser::Vec2 => string_size(("minecraft:vec2").as_bytes().len()),
            Parser::BlockState => string_size(("minecraft:block_state").as_bytes().len()),
            Parser::BlockPredicate => string_size(("minecraft:block_predicate").as_bytes().len()),
            Parser::ItemStack => string_size(("minecraft:item_stack").as_bytes().len()),
            Parser::ItemPredicate => string_size(("minecraft:item_predicate").as_bytes().len()),
            Parser::Color => string_size(("minecraft:color").as_bytes().len()),
            Parser::Component => string_size(("minecraft:component").as_bytes().len()),
            Parser::Message => string_size(("minecraft:message").as_bytes().len()),
            Parser::Nbt => string_size(("minecraft:nbt").as_bytes().len()),
            Parser::NbtPath => string_size(("minecraft:nbt_path").as_bytes().len()),
            Parser::Objective => string_size(("minecraft:objective").as_bytes().len()),
            Parser::ObjectiveCriteria => string_size(("minecraft:objective_criteria").as_bytes().len()),
            Parser::Operation => string_size(("minecraft:operation").as_bytes().len()),
            Parser::Particle => string_size(("minecraft:particle").as_bytes().len()),
            Parser::Rotation => string_size(("minecraft:rotation").as_bytes().len()),
            Parser::Angle => string_size(("minecraft:angle").as_bytes().len()),
            Parser::ScoreboardSlot => string_size(("minecraft:scoreboard_slot").as_bytes().len()),
            Parser::ScoreHolder { selector } => string_size(("minecraft:score_holder").as_bytes().len()) + 1,
            Parser::Swizzle => string_size(("minecraft:swizzle").as_bytes().len()),
            Parser::Team => string_size(("minecraft:team").as_bytes().len()),
            Parser::ItemSlot => string_size(("minecraft:item_slot").as_bytes().len()),
            Parser::ResourceLocation => string_size(("minecraft:resource_location").as_bytes().len()),
            Parser::MobEffect => string_size(("minecraft:mob_effect").as_bytes().len()),
            Parser::Function => string_size(("minecraft:function").as_bytes().len()),
            Parser::EntityAnchor => string_size(("minecraft:entity_anchor").as_bytes().len()),
            Parser::Range { decimals } => string_size(("minecraft:range").as_bytes().len()) + 1,
            Parser::IntRange => string_size(("minecraft:int_range").as_bytes().len()),
            Parser::FloatRange => string_size(("minecraft:float_range").as_bytes().len()),
            Parser::ItemEnchantment => string_size(("minecraft:item_enchantment").as_bytes().len()),
            Parser::EntitySummon => string_size(("minecraft:entity_summon").as_bytes().len()),
            Parser::Dimension => string_size(("minecraft:dimension").as_bytes().len()),
            Parser::Uuid => string_size(("minecraft:uuid").as_bytes().len()),
            Parser::NbtTag => string_size(("minecraft:nbt_tag").as_bytes().len()),
            Parser::NbtCompoundTag => string_size(("minecraft:nbt_compound_tag").as_bytes().len()),
            Parser::Time => string_size(("minecraft:time").as_bytes().len()),
        }
    }

    /// Reads a parser at `pos`, as `spec_read` describes. Whatever comes
    /// back is well formed.
    pub fn decode(bytes: &[u8], pos: usize) -> (r: Result<(Parser, usize), DecodeError>)
        ensures
            match r {
                Ok((p, end)) => Parser::spec_read(bytes@, pos as int) == Ok::<
                    (Parser, int),
                    DecodeError,
                >((p, end as int)) && p.wf(),
                Err(e) => Parser::spec_read(bytes@, pos as int) == Err::<
                    (Parser, int),
                    DecodeError,
                >(e),
            },
    {
        proof {
            reveal(Parser::spec_dispatch);
        }
        let (ident, p) = match decode_string(bytes, pos) {
            Ok(v) => v,
            Err(e) => {
                return Err(e);
            },
        };
        let n = ident.len();
        if n == 13 {
            if bytes_eq(ident.as_slice(), ("minecraft:nbt").as_bytes()) {
                Ok((Parser::Nbt, p))
            }
            else {
                Err(DecodeError::UnknownParserIdentifier)
            }
        }
        else if n == 14 {
            if bytes_eq(ident.as_slice(), ("brigadier:bool").as_bytes()) {
                Ok((Parser::Bool, p))
            }
            else if bytes_eq(ident.as_slice(), ("brigadier:long").as_bytes()) {
                match read_minmax64(bytes, p) {
                    Err(e) => Err(e),
                    Ok(((bits, min, max), end)) => Ok((Parser::Long { bits, min, max }, end)),
                }
            }
            else if bytes_eq(ident.as_slice(), ("minecraft:vec3").as_bytes()) {
                Ok((Parser::Vec3, p))
            }
            else if bytes_eq(ident.as_slice(), ("minecraft:vec2").as_bytes()) {
                Ok((Parser::Vec2, p))
            }
            else if bytes_eq(ident.as_slice(), ("minecraft:team").as_bytes()) {
                Ok((Parser::Team, p))
            }
            else if bytes_eq(ident.as_slice(), ("minecraft:uuid").as_bytes()) {
                Ok((Parser::Uuid, p))
            }
            else if bytes_eq(ident.as_slice(), ("minecraft:time").as_bytes()) {
                Ok((Parser::Time, p))
            }
            else {
                Err(DecodeError::UnknownParserIdentifier)
            }
        }
        else if n == 15 {
            if bytes_eq(ident.as_slice(), ("brigadier:float").as_bytes()) {
                match read_minmax32(bytes, p) {
                    Err(e) => Err(e),
                    Ok(((bits, min, max), end)) => Ok((Parser::Float { bits, min, max }, end)),
                }
            }
            else if bytes_eq(ident.as_slice(), ("minecraft:color").as_bytes()) {
                Ok((Parser::Color, p))
            }
            else if bytes_eq(ident.as_slice(), ("minecraft:angle").as_bytes()) {
                Ok((Parser::Angle, p))
            }
            else if bytes_eq(ident.as_slice(), ("minecraft:range").as_bytes()) {
                match decode_bool(bytes, p) {
                    Err(e) => Err(e),
                    Ok((v, end)) => Ok((Parser::Range { decimals: v }, end)),
                }
            }
            else {
                Err(DecodeError::UnknownParserIdentifier)
            }
        }
        else if n == 16 {
            if bytes_eq(ident.as_slice(), ("brigadier:double").as_bytes()) {
                match read_minmax64(bytes, p) {
                    Err(e) => Err(e),
                    Ok(((bits, min, max), end)) => Ok((Parser::Double { bits, min, max }, end)),
                }
            }
            else if bytes_eq(ident.as_slice(), ("brigadier:string").as_bytes()) {
                match StringDescription::decode(bytes, p) {
                    Err(e) => Err(e),
                    Ok((info, end)) => Ok((Parser::String { info }, end)),
                }
            }
            else if bytes_eq(ident.as_slice(), ("minecraft:entity").as_bytes()) {
                match decode_byte(bytes, p) {
                    Err(e) => Err(e),
                    Ok((b, end)) => Ok((Parser::Entity { selector: EntitySelector::from_byte(b) }, end)),
                }
            }
            else {
                Err(DecodeError::UnknownParserIdentifier)
            }
        }
        else if n == 17 {
            if bytes_eq(ident.as_slice(), ("brigadier:integer").as_bytes()) {
                match read_minmax32(bytes, p) {
                    Err(e) => Err(e),
                    Ok(((bits, min, max), end)) => Ok((Parser::Integer { bits, min, max }, end)),
                }
            }
            else if bytes_eq(ident.as_slice(), ("minecraft:message").as_bytes()) {
                Ok((Parser::Message, p))
            }
            else if bytes_eq(ident.as_slice(), ("minecraft:swizzle").as_bytes()) {
                Ok((Parser::Swizzle, p))
            }
            else if bytes_eq(ident.as_slice(), ("minecraft:nbt_tag").as_bytes()) {
                Ok((Parser::NbtTag, p))
            }
            else {
                Err(DecodeError::UnknownParserIdentifier)
            }
        }
        else if n == 18 {
            if bytes_eq(ident.as_slice(), ("minecraft:nbt_path").as_bytes()) {
                Ok((Parser::NbtPath, p))
            }
            else if bytes_eq(ident.as_slice(), ("minecraft:particle").as_bytes()) {
                Ok((Parser::Particle, p))
            }
            else if bytes_eq(ident.as_slice(), ("minecraft:rotation").as_bytes()) {
                Ok((Parser::Rotation, p))
            }
            else if bytes_eq(ident.as_slice(), ("minecraft:function").as_bytes()) {
                Ok((Parser::Function, p))
            }
            else {
                Err(DecodeError::UnknownParserIdentifier)
            }
        }
        else if n == 19 {
            if bytes_eq(ident.as_slice(), ("minecraft:block_pos").as_bytes()) {
                Ok((Parser::BlockPos, p))
            }
            else if bytes_eq(ident.as_slice(), ("minecraft:component").as_bytes()) {
                Ok((Parser::Component, p))
            }
            else if bytes_eq(ident.as_slice(), ("minecraft:objective").as_bytes()) {
                Ok((Parser::Objective, p))
            }
            else if bytes_eq(ident.as_slice(), ("minecraft:operation").as_bytes()) {
                Ok((Parser::Operation, p))
            }
            else if bytes_eq(ident.as_slice(), ("minecraft:item_slot").as_bytes()) {
                Ok((Parser::ItemSlot, p))
            }
            else if bytes_eq(ident.as_slice(), ("minecraft:int_range").as_bytes()) {
                Ok((Parser::IntRange, p))
            }
            else if bytes_eq(ident.as_slice(), ("minecraft:dimension").as_bytes()) {
                Ok((Parser::Dimension, p))
            }
            else {
                Err(DecodeError::UnknownParserIdentifier)
            }
        }
        else if n == 20 {
            if bytes_eq(ident.as_slice(), ("minecraft:column_pos").as_bytes()) {
                Ok((Parser::ColumnPos, p))
            }
            else if bytes_eq(ident.as_slice(), ("minecraft:item_stack").as_bytes()) {
                Ok((Parser::ItemStack, p))
            }
            else if bytes_eq(ident.as_slice(), ("minecraft:mob_effect").as_bytes()) {
                Ok((Parser::MobEffect, p))
            }
            else {
                Err(DecodeError::UnknownParserIdentifier)
            }
        }
        else if n == 21 {
            if bytes_eq(ident.as_slice(), ("minecraft:block_state").as_bytes()) {
                Ok((Parser::BlockState, p))
            }
            else if bytes_eq(ident.as_slice(), ("minecraft:float_range").as_bytes()) {
                Ok((Parser::FloatRange, p))
            }
            else {
                Err(DecodeError::UnknownParserIdentifier)
            }
        }
        else if n == 22 {
            if bytes_eq(ident.as_slice(), ("minecraft:game_profile").as_bytes()) {
                Ok((Parser::GameProfile, p))
            }
            else if bytes_eq(ident.as_slice(), ("minecraft:score_holder").as_bytes()) {
                match decode_byte(bytes, p) {
                    Err(e) => Err(e),
                    Ok((b, end)) => Ok((Parser::ScoreHolder { selector: ScoreHolderSelector::from_byte(b) }, end)),
                }
            }
            else {
                Err(DecodeError::UnknownParserIdentifier)
            }
        }
        else if n == 23 {
            if bytes_eq(ident.as_slice(), ("minecraft:entity_anchor").as_bytes()) {
                Ok((Parser::EntityAnchor, p))
            }
            else if bytes_eq(ident.as_slice(), ("minecraft:entity_summon").as_bytes()) {
                Ok((Parser::EntitySummon, p))
            }
            else {
                Err(DecodeError::UnknownParserIdentifier)
            }
        }
        else if n == 24 {
            if bytes_eq(ident.as_slice(), ("minecraft:item_predicate").as_bytes()) {
                Ok((Parser::ItemPredicate, p))
            }
            else {
                Err(DecodeError::UnknownParserIdentifier)
            }
        }
        else if n == 25 {
            if bytes_eq(ident.as_slice(), ("minecraft:block_predicate").as_bytes()) {
                Ok((Parser::BlockPredicate, p))
            }
            else if bytes_eq(ident.as_slice(), ("minecraft:scoreboard_slot").as_bytes()) {
                Ok((Parser::ScoreboardSlot, p))
            }
            else {
                Err(DecodeError::UnknownParserIdentifier)
            }
        }
        else if n == 26 {
            if bytes_eq(ident.as_slice(), ("minecraft:item_enchantment").as_bytes()) {
                Ok((Parser::ItemEnchantment, p))
            }
            else if bytes_eq(ident.as_slice(), ("minecraft:nbt_compound_tag").as_bytes()) {
                Ok((Parser::NbtCompoundTag, p))
            }
            else {
                Err(DecodeError::UnknownParserIdentifier)
            }
        }
        else if n == 27 {
            if bytes_eq(ident.as_slice(), ("minecraft:resource_location").as_bytes()) {
                Ok((Parser::ResourceLocation, p))
            }
            else {
                Err(DecodeError::UnknownParserIdentifier)
            }
        }
        else if n == 28 {
            if bytes_eq(ident.as_slice(), ("minecraft:objective_criteria").as_bytes()) {
                Ok((Parser::ObjectiveCriteria, p))
            }
            else {
                Err(DecodeError::UnknownParserIdentifier)
            }
        }
        else {
            Err(DecodeError::UnknownParserIdentifier)
        }
    }
}

/// Decoding inverts encoding for every well-formed parser: wherever an
/// encoded parser sits inside a larger buffer, reading at its start yields
/// the parser back and stops exactly at its end.
pub proof fn lemma_parser_round_trip(bytes: Seq<u8>, pos: int, p: Parser)
    requires
        0 <= pos,
        p.wf(),
        pos + p.spec_enc().len() <= bytes.len(),
        bytes.subrange(pos, pos + p.spec_enc().len()) == p.spec_enc(),
    ensures
        Parser::spec_read(bytes, pos) == Ok::<(Parser, int), DecodeError>((
            p,
            pos + p.spec_enc().len(),
        )),
{
    reveal(Parser::spec_dispatch);
    lemma_parser_tag_lens();
    let ts = string_bytes(p.spec_tag());
    let pay = p.spec_payload();
    lemma_subrange_split(bytes, pos, ts, pay);
    lemma_string_round_trip(bytes, pos, p.spec_tag());
    let p1 = pos + ts.len();
    match p {
        Parser::Bool => {
            lemma_parser_tags_distinct_14();
        },
        Parser::Double { bits, min, max } => {
            lemma_parser_tags_distinct_16();
            lemma_minmax64_round_trip(bytes, p1, bits, min, max);
        },
        Parser::Float { bits, min, max } => {
            lemma_parser_tags_distinct_15();
            lemma_minmax32_round_trip(bytes, p1, bits, min, max);
        },
        Parser::Integer { bits, min, max } => {
            lemma_parser_tags_distinct_17();
            lemma_minmax32_round_trip(bytes, p1, bits, min, max);
        },
        Parser::Long { bits, min, max } => {
            lemma_parser_tags_distinct_14();
            lemma_minmax64_round_trip(bytes, p1, bits, min, max);
        },
        Parser::String { info } => {
            lemma_parser_tags_distinct_16();
            StringDescription::lemma_round_trip(bytes, p1, info);
        },
        Parser::Entity { selector } => {
            lemma_parser_tags_distinct_16();
            assert(bytes[p1] == selector.spec_byte()) by {
                assert(bytes.subrange(p1, p1 + 1)[0] == selector.spec_byte());
            }
            EntitySelector::lemma_round_trip(selector);
        },
        Parser::GameProfile => {
            lemma_parser_tags_distinct_22();
        },
        Parser::BlockPos => {
            lemma_parser_tags_distinct_19();
        },
        Parser::ColumnPos => {
            lemma_parser_tags_distinct_20();
        },
        Parser::Vec3 => {
            lemma_parser_tags_distinct_14();
        },
        Parser::Vec2 => {
            lemma_parser_tags_distinct_14();
        },
        Parser::BlockState => {
            lemma_parser_tags_distinct_21();
        },
        Parser::BlockPredicate => {
            lemma_parser_tags_distinct_25();
        },
        Parser::ItemStack => {
            lemma_parser_tags_distinct_20();
        },
        Parser::ItemPredicate => {
        },
        Parser::Color => {
            lemma_parser_tags_distinct_15();
        },
        Parser::Component => {
            lemma_parser_tags_distinct_19();
        },
        Parser::Message => {
            lemma_parser_tags_distinct_17();
        },
        Parser::Nbt => {
        },
        Parser::NbtPath => {
            lemma_parser_tags_distinct_18();
        },
        Parser::Objective => {
            lemma_parser_tags_distinct_19();
        },
        Parser::ObjectiveCriteria => {
        },
        Parser::Operation => {
            lemma_parser_tags_distinct_19();
        },
        Parser::Particle => {
            lemma_parser_tags_distinct_18();
        },
        Parser::Rotation => {
            lemma_parser_tags_distinct_18();
        },
        Parser::Angle => {
            lemma_parser_tags_distinct_15();
        },
        Parser::ScoreboardSlot => {
            lemma_parser_tags_distinct_25();
        },
        Parser::ScoreHolder { selector } => {
            lemma_parser_tags_distinct_22();
            assert(bytes[p1] == selector.spec_byte()) by {
                assert(bytes.subrange(p1, p1 + 1)[0] == selector.spec_byte());
            }
            ScoreHolderSelector::lemma_round_trip(selector);
        },
        Parser::Swizzle => {
            lemma_parser_tags_distinct_17();
        },
        Parser::Team => {
            lemma_parser_tags_distinct_14();
        },
        Parser::ItemSlot => {
            lemma_parser_tags_distinct_19();
        },
        Parser::ResourceLocation => {
        },
        Parser::MobEffect => {
            lemma_parser_tags_distinct_20();
        },
        Parser::Function => {
            lemma_parser_tags_distinct_18();
        },
        Parser::EntityAnchor => {
            lemma_parser_tags_distinct_23();
        },
        Parser::Range { decimals } => {
            lemma_parser_tags_distinct_15();
            assert(bytes[p1] == bool_byte(decimals)) by {
                assert(bytes.subrange(p1, p1 + 1)[0] == bool_byte(decimals));
            }
        },
        Parser::IntRange => {
            lemma_parser_tags_distinct_19();
        },
        Parser::FloatRange => {
            lemma_parser_tags_distinct_21();
        },
        Parser::ItemEnchantment => {
            lemma_parser_tags_distinct_26();
        },
        Parser::EntitySummon => {
            lemma_parser_tags_distinct_23();
        },
        Parser::Dimension => {
            lemma_parser_tags_distinct_19();
        },
        Parser::Uuid => {
            lemma_parser_tags_distinct_14();
        },
        Parser::NbtTag => {
            lemma_parser_tags_distinct_17();
        },
        Parser::NbtCompoundTag => {
            lemma_parser_tags_distinct_26();
        },
        Parser::Time => {
            lemma_parser_tags_distinct_14();
        },
    }
}

} // verus!
