//! Byte-level wire primitives: variable-length 32-bit integers, bounded
//! length-prefixed byte strings, fixed-width big-endian integers and booleans.
//! Every `encode` appends to a byte buffer exactly the bytes its spec-level
//! counterpart describes; every `decode` agrees with its spec-level reader.

use vstd::prelude::*;

use crate::error::DecodeError;

verus! {

/// Greatest byte length a length-prefixed wire string may have.
pub const MAX_STRING_LEN: usize = 32767;

/// The wire encoding of a 32-bit integer as a variable-length quantity:
/// seven bits per byte, least-significant group first, and the high bit set
/// on every byte except the last.
pub open spec fn varint_bytes(v: u32) -> Seq<u8>
    decreases v,
{
    if v < 128 {
        seq![v as u8]
    } else {
        seq![(v % 128 + 128) as u8] + varint_bytes(v / 128)
    }
}

/// Reading a variable-length integer at `pos`: the value and the position
/// one past its final byte, or the error the malformed input produces.
pub open spec fn varint_read(bytes: Seq<u8>, pos: int) -> Result<(u32, int), DecodeError>
    decreases bytes.len() - pos,
{
    if pos < 0 || pos >= bytes.len() {
        Err(DecodeError::UnexpectedEnd)
    } else if bytes[pos] < 128 {
        Ok((bytes[pos] as u32, pos + 1))
    } else {
        match varint_read(bytes, pos + 1) {
            Err(e) => Err(e),
            Ok((rest, end)) => {
                if (bytes[pos] - 128) + 128 * (rest as int) <= u32::MAX {
                    Ok((((bytes[pos] - 128) + 128 * (rest as int)) as u32, end))
                } else {
                    Err(DecodeError::VarIntTooLarge)
                }
            },
        }
    }
}

pub proof fn lemma_varint_bytes_len(v: u32)
    ensures
        1 <= varint_bytes(v).len() <= 5,
{
    reveal_with_fuel(varint_bytes, 6);
    assert(v / 128 / 128 / 128 / 128 < 128) by (nonlinear_arith);
}

/// Decoding is a left inverse of encoding: wherever an encoded integer sits
/// inside a larger buffer, reading at its start yields the integer back and
/// stops exactly at its end.
pub proof fn lemma_varint_round_trip(bytes: Seq<u8>, pos: int, v: u32)
    requires
        0 <= pos,
        pos + varint_bytes(v).len() <= bytes.len(),
        bytes.subrange(pos, pos + varint_bytes(v).len()) == varint_bytes(v),
    ensures
        varint_read(bytes, pos) == Ok::<(u32, int), DecodeError>((
            v,
            pos + varint_bytes(v).len(),
        )),
    decreases v,
{
    let enc = varint_bytes(v);
    assert(bytes[pos] == bytes.subrange(pos, pos + enc.len())[0]);
    if v < 128 {
        assert(bytes[pos] == v as u8);
    } else {
        assert(bytes[pos] == (v % 128 + 128) as u8);
        let tail = varint_bytes(v / 128);
        assert(bytes.subrange(pos + 1, pos + 1 + tail.len()) =~= tail) by {
            assert(forall|i: int|
                0 <= i < tail.len() ==> bytes.subrange(pos, pos + enc.len())[i + 1] == tail[i]);
        }
        lemma_varint_round_trip(bytes, pos + 1, v / 128);
        assert((bytes[pos] - 128) + 128 * ((v / 128) as int) == v) by {
            assert(v % 128 + 128 * (v / 128) == v) by (nonlinear_arith);
        }
    }
}

/// Appends the variable-length encoding of `v`.
pub fn encode_varint(v: u32, out: &mut Vec<u8>)
    ensures
        final(out)@ == old(out)@ + varint_bytes(v),
    decreases v,
{
    if v < 128 {
        out.push(v as u8);
        assert(out@ =~= old(out)@ + varint_bytes(v));
    } else {
        let ghost prev = out@;
        out.push((v % 128 + 128) as u8);
        encode_varint(v / 128, out);
        assert(out@ =~= prev + varint_bytes(v));
    }
}

/// The byte length of the variable-length encoding of `v`.
pub fn varint_size(v: u32) -> (n: u64)
    ensures
        n == varint_bytes(v).len(),
        1 <= n <= 5,
    decreases v,
{
    proof {
        lemma_varint_bytes_len(v);
    }
    if v < 128 {
        1
    } else {
        1 + varint_size(v / 128)
    }
}

/// Reads a variable-length integer at `pos`, as `varint_read` describes.
pub fn decode_varint(bytes: &[u8], pos: usize) -> (r: Result<(u32, usize), DecodeError>)
    ensures
        match r {
            Ok((v, end)) => varint_read(bytes@, pos as int) == Ok::<(u32, int), DecodeError>((
                v,
                end as int,
            )) && pos < end <= bytes@.len(),
            Err(e) => varint_read(bytes@, pos as int) == Err::<(u32, int), DecodeError>(e),
        },
    decreases bytes@.len() - pos,
{
    if pos >= bytes.len() {
        return Err(DecodeError::UnexpectedEnd);
    }
    let b = bytes[pos];
    if b < 128 {
        Ok((b as u32, pos + 1))
    } else {
        match decode_varint(bytes, pos + 1) {
            Err(e) => Err(e),
            Ok((rest, end)) => {
                let low = (b - 128) as u32;
                if rest <= (u32::MAX - low) / 128 {
                    assert(low + 128 * (rest as int) <= u32::MAX) by (nonlinear_arith)
                        requires
                            rest <= (u32::MAX - low) / 128,
                            low < 128,
                    ;
                    Ok((low + 128 * rest, end))
                } else {
                    assert(low + 128 * (rest as int) > u32::MAX) by (nonlinear_arith)
                        requires
                            rest > (u32::MAX - low) / 128,
                            low < 128,
                    ;
                    Err(DecodeError::VarIntTooLarge)
                }
            },
        }
    }
}

/// The wire encoding of a byte string: its length as a variable-length
/// integer, then its bytes.
pub open spec fn string_bytes(s: Seq<u8>) -> Seq<u8> {
    varint_bytes(s.len() as u32) + s
}

/// Reading a bounded length-prefixed byte string at `pos`.
pub open spec fn string_read(bytes: Seq<u8>, pos: int) -> Result<(Seq<u8>, int), DecodeError> {
    match varint_read(bytes, pos) {
        Err(e) => Err(e),
        Ok((n, p)) => {
            if n > MAX_STRING_LEN {
                Err(DecodeError::StringTooLong)
            } else if p + n > bytes.len() {
                Err(DecodeError::UnexpectedEnd)
            } else {
                Ok((bytes.subrange(p, p + n), p + n))
            }
        },
    }
}

/// Decoding is a left inverse of encoding for bounded byte strings.
pub proof fn lemma_string_round_trip(bytes: Seq<u8>, pos: int, s: Seq<u8>)
    requires
        0 <= pos,
        s.len() <= MAX_STRING_LEN,
        pos + string_bytes(s).len() <= bytes.len(),
        bytes.subrange(pos, pos + string_bytes(s).len()) == string_bytes(s),
    ensures
        string_read(bytes, pos) == Ok::<(Seq<u8>, int), DecodeError>((
            s,
            pos + string_bytes(s).len(),
        )),
{
    let n = s.len() as u32;
    let pre = varint_bytes(n);
    assert(bytes.subrange(pos, pos + pre.len()) =~= pre) by {
        assert(forall|i: int|
            0 <= i < pre.len() ==> bytes.subrange(pos, pos + string_bytes(s).len())[i] == pre[i]);
    }
    lemma_varint_round_trip(bytes, pos, n);
    let p = pos + pre.len();
    assert(bytes.subrange(p, p + s.len()) =~= s) by {
        assert(forall|i: int|
            0 <= i < s.len() ==> bytes.subrange(pos, pos + string_bytes(s).len())[pre.len() + i]
                == s[i]);
    }
}

/// Appends the length-prefixed encoding of the byte string `s`.
pub fn encode_string(s: &[u8], out: &mut Vec<u8>)
    requires
        s@.len() <= MAX_STRING_LEN,
    ensures
        final(out)@ == old(out)@ + string_bytes(s@),
{
    let ghost prev = out@;
    encode_varint(s.len() as u32, out);
    out.extend_from_slice(s);
    assert(out@ =~= prev + string_bytes(s@));
}

/// The byte length of the length-prefixed encoding of a string of `n` bytes.
pub fn string_size(n: usize) -> (r: u64)
    requires
        n <= MAX_STRING_LEN,
    ensures
        r == varint_bytes(n as u32).len() + n,
        r <= n + 5,
{
    varint_size(n as u32) + (n as u64)
}

/// Splits knowledge of a two-part subrange into its halves.
pub proof fn lemma_subrange_split(bytes: Seq<u8>, pos: int, a: Seq<u8>, b: Seq<u8>)
    requires
        0 <= pos,
        pos + a.len() + b.len() <= bytes.len(),
        bytes.subrange(pos, pos + a.len() + b.len()) == a + b,
    ensures
        bytes.subrange(pos, pos + a.len()) == a,
        bytes.subrange(pos + a.len(), pos + a.len() + b.len()) == b,
{
    assert forall|i: int| 0 <= i < a.len() implies bytes.subrange(pos, pos + a.len())[i]
        == a[i] by {
        assert(bytes.subrange(pos, pos + a.len() + b.len())[i] == (a + b)[i]);
    }
    assert(bytes.subrange(pos, pos + a.len()) =~= a);
    assert forall|i: int| 0 <= i < b.len() implies bytes.subrange(
        pos + a.len(),
        pos + a.len() + b.len(),
    )[i] == b[i] by {
        assert(bytes.subrange(pos + a.len(), pos + a.len() + b.len())[i] == bytes[pos + a.len()
            + i]);
        assert(bytes.subrange(pos, pos + a.len() + b.len())[a.len() + i] == bytes[pos + a.len()
            + i]);
        assert((a + b)[a.len() + i] == b[i]);
    }
    assert(bytes.subrange(pos + a.len(), pos + a.len() + b.len()) =~= b);
}

/// Reads a bounded length-prefixed byte string at `pos`, as `string_read`
/// describes.
pub fn decode_string(bytes: &[u8], pos: usize) -> (r: Result<(Vec<u8>, usize), DecodeError>)
    ensures
        match r {
            Ok((s, end)) => string_read(bytes@, pos as int) == Ok::<(Seq<u8>, int), DecodeError>((
                s@,
                end as int,
            )) && s@.len() <= MAX_STRING_LEN,
            Err(e) => string_read(bytes@, pos as int) == Err::<(Seq<u8>, int), DecodeError>(e),
        },
{
    let (n, p) = match decode_varint(bytes, pos) {
        Ok(v) => v,
        Err(e) => {
            return Err(e);
        },
    };
    if n > MAX_STRING_LEN as u32 {
        return Err(DecodeError::StringTooLong);
    }
    let n = n as usize;
    if n > bytes.len() - p {
        return Err(DecodeError::UnexpectedEnd);
    }
    let mut s: Vec<u8> = Vec::new();
    let mut i: usize = 0;
    while i < n
        invariant
            i <= n,
            p + n <= bytes.len(),
            s@ == bytes@.subrange(p as int, p + i as int),
        decreases n - i,
    {
        s.push(bytes[p + i]);
        i = i + 1;
        assert(s@ =~= bytes@.subrange(p as int, p + i as int));
    }
    Ok((s, p + n))
}

/// The four bytes of `v`, most significant first.
pub open spec fn be32_bytes(v: u32) -> Seq<u8> {
    seq![
        ((v >> 24) & 0xff) as u8,
        ((v >> 16) & 0xff) as u8,
        ((v >> 8) & 0xff) as u8,
        (v & 0xff) as u8,
    ]
}

/// Reading a fixed four-byte big-endian integer at `pos`.
pub open spec fn be32_read(bytes: Seq<u8>, pos: int) -> Result<(u32, int), DecodeError> {
    if pos < 0 || pos + 4 > bytes.len() {
        Err(DecodeError::UnexpectedEnd)
    } else {
        Ok(
            (
                ((bytes[pos] as u32) << 24) | ((bytes[pos + 1] as u32) << 16) | ((bytes[pos + 2]
                    as u32) << 8) | (bytes[pos + 3] as u32),
                pos + 4,
            ),
        )
    }
}

pub proof fn lemma_be32_round_trip(bytes: Seq<u8>, pos: int, v: u32)
    requires
        0 <= pos,
        pos + 4 <= bytes.len(),
        bytes.subrange(pos, pos + 4) == be32_bytes(v),
    ensures
        be32_read(bytes, pos) == Ok::<(u32, int), DecodeError>((v, pos + 4)),
{
    assert(forall|i: int| 0 <= i < 4 ==> bytes[pos + i] == be32_bytes(v)[i]);
    let b0 = ((v >> 24) & 0xff) as u8;
    let b1 = ((v >> 16) & 0xff) as u8;
    let b2 = ((v >> 8) & 0xff) as u8;
    let b3 = (v & 0xff) as u8;
    assert(((b0 as u32) << 24) | ((b1 as u32) << 16) | ((b2 as u32) << 8) | (b3 as u32) == v)
        by (bit_vector)
        requires
            b0 == ((v >> 24) & 0xff) as u8,
            b1 == ((v >> 16) & 0xff) as u8,
            b2 == ((v >> 8) & 0xff) as u8,
            b3 == (v & 0xff) as u8,
    ;
}

/// Appends the four big-endian bytes of `v`.
pub fn encode_be32(v: u32, out: &mut Vec<u8>)
    ensures
        final(out)@ == old(out)@ + be32_bytes(v),
{
    assert((v >> 24) & 0xff < 256 && (v >> 16) & 0xff < 256 && (v >> 8) & 0xff < 256 && v & 0xff
        < 256) by (bit_vector);
    out.push(((v >> 24) & 0xff) as u8);
    out.push(((v >> 16) & 0xff) as u8);
    out.push(((v >> 8) & 0xff) as u8);
    out.push((v & 0xff) as u8);
    assert(out@ =~= old(out)@ + be32_bytes(v));
}

/// Reads a four-byte big-endian integer at `pos`, as `be32_read` describes.
pub fn decode_be32(bytes: &[u8], pos: usize) -> (r: Result<(u32, usize), DecodeError>)
    ensures
        match r {
            Ok((v, end)) => be32_read(bytes@, pos as int) == Ok::<(u32, int), DecodeError>((
                v,
                end as int,
            )),
            Err(e) => be32_read(bytes@, pos as int) == Err::<(u32, int), DecodeError>(e),
        },
{
    if bytes.len() < 4 || pos > bytes.len() - 4 {
        return Err(DecodeError::UnexpectedEnd);
    }
    let v = ((bytes[pos] as u32) << 24) | ((bytes[pos + 1] as u32) << 16) | ((bytes[pos + 2]
        as u32) << 8) | (bytes[pos + 3] as u32);
    Ok((v, pos + 4))
}

/// The eight bytes of `v`, most significant first.
pub open spec fn be64_bytes(v: u64) -> Seq<u8> {
    seq![
        ((v >> 56) & 0xff) as u8,
        ((v >> 48) & 0xff) as u8,
        ((v >> 40) & 0xff) as u8,
        ((v >> 32) & 0xff) as u8,
        ((v >> 24) & 0xff) as u8,
        ((v >> 16) & 0xff) as u8,
        ((v >> 8) & 0xff) as u8,
        (v & 0xff) as u8,
    ]
}

/// Reading a fixed eight-byte big-endian integer at `pos`.
pub open spec fn be64_read(bytes: Seq<u8>, pos: int) -> Result<(u64, int), DecodeError> {
    if pos < 0 || pos + 8 > bytes.len() {
        Err(DecodeError::UnexpectedEnd)
    } else {
        Ok(
            (
                ((bytes[pos] as u64) << 56) | ((bytes[pos + 1] as u64) << 48) | ((bytes[pos + 2]
                    as u64) << 40) | ((bytes[pos + 3] as u64) << 32) | ((bytes[pos + 4] as u64)
                    << 24) | ((bytes[pos + 5] as u64) << 16) | ((bytes[pos + 6] as u64) << 8) | (
                bytes[pos + 7] as u64),
                pos + 8,
            ),
        )
    }
}

pub proof fn lemma_be64_round_trip(bytes: Seq<u8>, pos: int, v: u64)
    requires
        0 <= pos,
        pos + 8 <= bytes.len(),
        bytes.subrange(pos, pos + 8) == be64_bytes(v),
    ensures
        be64_read(bytes, pos) == Ok::<(u64, int), DecodeError>((v, pos + 8)),
{
    assert(forall|i: int| 0 <= i < 8 ==> bytes[pos + i] == be64_bytes(v)[i]);
    let b0 = ((v >> 56) & 0xff) as u8;
    let b1 = ((v >> 48) & 0xff) as u8;
    let b2 = ((v >> 40) & 0xff) as u8;
    let b3 = ((v >> 32) & 0xff) as u8;
    let b4 = ((v >> 24) & 0xff) as u8;
    let b5 = ((v >> 16) & 0xff) as u8;
    let b6 = ((v >> 8) & 0xff) as u8;
    let b7 = (v & 0xff) as u8;
    assert(((b0 as u64) << 56) | ((b1 as u64) << 48) | ((b2 as u64) << 40) | ((b3 as u64) << 32)
        | ((b4 as u64) << 24) | ((b5 as u64) << 16) | ((b6 as u64) << 8) | (b7 as u64) == v)
        by (bit_vector)
        requires
            b0 == ((v >> 56) & 0xff) as u8,
            b1 == ((v >> 48) & 0xff) as u8,
            b2 == ((v >> 40) & 0xff) as u8,
            b3 == ((v >> 32) & 0xff) as u8,
            b4 == ((v >> 24) & 0xff) as u8,
            b5 == ((v >> 16) & 0xff) as u8,
            b6 == ((v >> 8) & 0xff) as u8,
            b7 == (v & 0xff) as u8,
    ;
}

/// Appends the eight big-endian bytes of `v`.
pub fn encode_be64(v: u64, out: &mut Vec<u8>)
    ensures
        final(out)@ == old(out)@ + be64_bytes(v),
{
    assert((v >> 56) & 0xff < 256 && (v >> 48) & 0xff < 256 && (v >> 40) & 0xff < 256 && (v >> 32)
        & 0xff < 256 && (v >> 24) & 0xff < 256 && (v >> 16) & 0xff < 256 && (v >> 8) & 0xff < 256
        && v & 0xff < 256) by (bit_vector);
    out.push(((v >> 56) & 0xff) as u8);
    out.push(((v >> 48) & 0xff) as u8);
    out.push(((v >> 40) & 0xff) as u8);
    out.push(((v >> 32) & 0xff) as u8);
    out.push(((v >> 24) & 0xff) as u8);
    out.push(((v >> 16) & 0xff) as u8);
    out.push(((v >> 8) & 0xff) as u8);
    out.push((v & 0xff) as u8);
    assert(out@ =~= old(out)@ + be64_bytes(v));
}

/// Reads an eight-byte big-endian integer at `pos`, as `be64_read` describes.
pub fn decode_be64(bytes: &[u8], pos: usize) -> (r: Result<(u64, usize), DecodeError>)
    ensures
        match r {
            Ok((v, end)) => be64_read(bytes@, pos as int) == Ok::<(u64, int), DecodeError>((
                v,
                end as int,
            )),
            Err(e) => be64_read(bytes@, pos as int) == Err::<(u64, int), DecodeError>(e),
        },
{
    if bytes.len() < 8 || pos > bytes.len() - 8 {
        return Err(DecodeError::UnexpectedEnd);
    }
    let v = ((bytes[pos] as u64) << 56) | ((bytes[pos + 1] as u64) << 48) | ((bytes[pos + 2]
        as u64) << 40) | ((bytes[pos + 3] as u64) << 32) | ((bytes[pos + 4] as u64) << 24) | ((
    bytes[pos + 5] as u64) << 16) | ((bytes[pos + 6] as u64) << 8) | (bytes[pos + 7] as u64);
    Ok((v, pos + 8))
}

/// The single wire byte of a boolean.
pub open spec fn bool_byte(b: bool) -> u8 {
    if b {
        1
    } else {
        0
    }
}

/// Reading a boolean at `pos`: only the bytes zero and one are accepted.
pub open spec fn bool_read(bytes: Seq<u8>, pos: int) -> Result<(bool, int), DecodeError> {
    if pos < 0 || pos >= bytes.len() {
        Err(DecodeError::UnexpectedEnd)
    } else if bytes[pos] == 0 {
        Ok((false, pos + 1))
    } else if bytes[pos] == 1 {
        Ok((true, pos + 1))
    } else {
        Err(DecodeError::InvalidBool)
    }
}

/// Reads a boolean byte at `pos`, as `bool_read` describes.
pub fn decode_bool(bytes: &[u8], pos: usize) -> (r: Result<(bool, usize), DecodeError>)
    ensures
        match r {
            Ok((v, end)) => bool_read(bytes@, pos as int) == Ok::<(bool, int), DecodeError>((
                v,
                end as int,
            )),
            Err(e) => bool_read(bytes@, pos as int) == Err::<(bool, int), DecodeError>(e),
        },
{
    if pos >= bytes.len() {
        return Err(DecodeError::UnexpectedEnd);
    }
    let b = bytes[pos];
    if b == 0 {
        Ok((false, pos + 1))
    } else if b == 1 {
        Ok((true, pos + 1))
    } else {
        Err(DecodeError::InvalidBool)
    }
}

/// Reading one raw byte at `pos`.
pub open spec fn byte_read(bytes: Seq<u8>, pos: int) -> Result<(u8, int), DecodeError> {
    if pos < 0 || pos >= bytes.len() {
        Err(DecodeError::UnexpectedEnd)
    } else {
        Ok((bytes[pos], pos + 1))
    }
}

/// Reads one raw byte at `pos`, as `byte_read` describes.
pub fn decode_byte(bytes: &[u8], pos: usize) -> (r: Result<(u8, usize), DecodeError>)
    ensures
        match r {
            Ok((v, end)) => byte_read(bytes@, pos as int) == Ok::<(u8, int), DecodeError>((
                v,
                end as int,
            )),
            Err(e) => byte_read(bytes@, pos as int) == Err::<(u8, int), DecodeError>(e),
        },
{
    if pos >= bytes.len() {
        Err(DecodeError::UnexpectedEnd)
    } else {
        Ok((bytes[pos], pos + 1))
    }
}

/// Whether two byte slices hold the same bytes.
pub fn bytes_eq(a: &[u8], b: &[u8]) -> (r: bool)
    ensures
        r == (a@ == b@),
{
    if a.len() != b.len() {
        assert(a@ != b@);
        return false;
    }
    let n = a.len();
    let mut i: usize = 0;
    while i < n
        invariant
            i <= n,
            n == a@.len() == b@.len(),
            forall|j: int| 0 <= j < i ==> a@[j] == b@[j],
        decreases n - i,
    {
        if a[i] != b[i] {
            return false;
        }
        i = i + 1;
    }
    assert(a@ =~= b@);
    true
}

} // verus!
