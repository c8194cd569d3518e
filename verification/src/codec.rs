//! Big-number display codecs: byte blobs decoded little-endian into big
//! unsigned integers for the byte-dump cells, hex-encoded checksums, and
//! hex-encoded credit balances parsed into decimal text.
//!
//! The arbitrary-precision arithmetic itself comes from `num_bigint`; each
//! call into it stands behind a trusted item whose contract ties it to the
//! spec functions of `lebytes` and of this module.

use crate::lebytes::chunks_of;
use crate::lebytes::le_bytes_min;
use crate::lebytes::le_nat;
use crate::lebytes::lemma_le_bytes_pad;
use crate::lebytes::lemma_le_nat_bound;
use crate::lebytes::lemma_le_roundtrip;
use crate::lebytes::lemma_zero_bytes;
use crate::lebytes::min_le_bytes;
use crate::strutil::dec_string;
use num_bigint::BigUint;
use vstd::prelude::*;
use vstd::slice::slice_subrange;

verus! {

#[verifier::external_type_specification]
#[verifier::external_body]
pub struct ExBigUint(BigUint);

/// The natural number a `BigUint` holds.
pub uninterp spec fn biguint_nat(n: BigUint) -> nat;

/// Relies on `num_bigint::BigUint::from_bytes_le`: the bytes are read as one
/// little-endian number.
#[verifier::external_body]
pub fn biguint_from_bytes_le(b: &[u8]) -> (r: BigUint)
    ensures
        biguint_nat(r) == le_nat(b@),
{
    BigUint::from_bytes_le(b)
}

/// Relies on `num_bigint::BigUint::to_bytes_le`: the little-endian bytes of
/// the number with no trailing zero byte, except a single `0` for zero.
#[verifier::external_body]
pub fn biguint_to_bytes_le(n: &BigUint) -> (r: Vec<u8>)
    ensures
        r@ == min_le_bytes(biguint_nat(*n)),
{
    n.to_bytes_le()
}

/// Relies on `num_bigint::BigUint`'s `Display` implementation: it renders
/// the number in decimal with no leading zeros.
#[verifier::external_body]
pub fn biguint_to_decimal(n: &BigUint) -> (r: String)
    ensures
        r@ == dec_string(biguint_nat(*n)),
{
    format!("{n}")
}

/// Relies on `num_bigint::BigUint`'s `UpperHex` implementation with the
/// alternate flag: a `0x` prefix, then the hexadecimal digits in upper case
/// with no leading zeros.
#[verifier::external_body]
pub fn biguint_to_hex_upper(n: &BigUint) -> (r: String)
    ensures
        r@ == hex_prefixed_upper(biguint_nat(*n)),
{
    format!("{n:#X}")
}

/// Relies on `num_bigint::BigUint::parse_bytes` with radix 16: a non-empty
/// string of hexadecimal digits parses to the number it denotes.
#[verifier::external_body]
fn biguint_parse_hex(s: &str) -> (r: BigUint)
    requires
        s@.len() > 0,
        forall|i: int| 0 <= i < s@.len() ==> is_hex_digit(s@[i]),
    ensures
        biguint_nat(r) == hex_val(s@),
{
    BigUint::parse_bytes(s.as_bytes(), 16).unwrap()
}

/// The upper-case hexadecimal digit character for a value below sixteen.
pub open spec fn hex_upper_digit(d: nat) -> char {
    if d == 0 {
        '0'
    } else if d == 1 {
        '1'
    } else if d == 2 {
        '2'
    } else if d == 3 {
        '3'
    } else if d == 4 {
        '4'
    } else if d == 5 {
        '5'
    } else if d == 6 {
        '6'
    } else if d == 7 {
        '7'
    } else if d == 8 {
        '8'
    } else if d == 9 {
        '9'
    } else if d == 10 {
        'A'
    } else if d == 11 {
        'B'
    } else if d == 12 {
        'C'
    } else if d == 13 {
        'D'
    } else if d == 14 {
        'E'
    } else {
        'F'
    }
}

/// Upper-case hexadecimal rendering of a natural number, most significant
/// digit first, no leading zeros (a single `'0'` for zero).
pub open spec fn hex_upper_string(n: nat) -> Seq<char>
    decreases n,
{
    if n < 16 {
        seq![hex_upper_digit(n)]
    } else {
        hex_upper_string(n / 16).push(hex_upper_digit(n % 16))
    }
}

/// The `0x`-prefixed upper-case hexadecimal rendering.
pub open spec fn hex_prefixed_upper(n: nat) -> Seq<char> {
    seq!['0', 'x'] + hex_upper_string(n)
}

/// Whether a character is a hexadecimal digit, in either case.
pub open spec fn is_hex_digit(c: char) -> bool {
    ('0' <= c && c <= '9') || ('a' <= c && c <= 'f') || ('A' <= c && c <= 'F')
}

/// The value of one hexadecimal digit character.
pub open spec fn hex_digit_val(c: char) -> nat {
    if '0' <= c && c <= '9' {
        ((c as nat) - ('0' as nat)) as nat
    } else if 'a' <= c && c <= 'f' {
        ((c as nat) - ('a' as nat) + 10) as nat
    } else if 'A' <= c && c <= 'F' {
        ((c as nat) - ('A' as nat) + 10) as nat
    } else {
        0
    }
}

/// The number a string of hexadecimal digits denotes, most significant
/// digit first.
pub open spec fn hex_val(s: Seq<char>) -> nat
    decreases s.len(),
{
    if s.len() == 0 {
        0
    } else {
        (16 * hex_val(s.drop_last()) + hex_digit_val(s.last())) as nat
    }
}

/// The width a byte-dump cell cuts its blob into: the declared chunk size,
/// or 32 bytes when none is declared.
pub open spec fn chunk_width(chunksize: Option<usize>) -> nat {
    match chunksize {
        Some(c) => c as nat,
        None => 32,
    }
}

/// Decodes a blob into one big unsigned integer per chunk, little-endian,
/// as the byte-dump cells display it.
pub fn bytes_to_bigint(data: &[u8], chunksize: Option<usize>) -> (r: Vec<BigUint>)
    requires
        chunksize matches Some(c) ==> c > 0,
    ensures
        r@.len() == chunks_of(data@, chunk_width(chunksize)).len(),
        forall|j: int|
            0 <= j < r@.len() ==> biguint_nat(r@[j]) == le_nat(
                chunks_of(data@, chunk_width(chunksize))[j],
            ),
{
    let c: usize = match chunksize {
        Some(c) => c,
        None => 32,
    };
    let ghost cw = chunk_width(chunksize);
    let mut r: Vec<BigUint> = Vec::new();
    let ghost mut done: Seq<Seq<u8>> = Seq::empty();
    let mut i: usize = 0;
    proof {
        assert(data@.skip(0) =~= data@);
    }
    while i < data.len()
        invariant
            c == cw,
            c > 0,
            i <= data@.len(),
            done.len() == r@.len(),
            forall|j: int| 0 <= j < r@.len() ==> biguint_nat(r@[j]) == le_nat(done[j]),
            chunks_of(data@, cw) =~= done + chunks_of(data@.skip(i as int), cw),
        decreases data@.len() - i,
    {
        let end = if data.len() - i < c {
            data.len()
        } else {
            i + c
        };
        let chunk = slice_subrange(data, i, end);
        let n = biguint_from_bytes_le(chunk);
        proof {
            let rem = data@.skip(i as int);
            if rem.len() <= cw {
                assert(chunk@ =~= rem);
                assert(data@.skip(end as int).len() == 0);
                assert(chunks_of(data@.skip(end as int), cw) =~= Seq::<Seq<u8>>::empty());
                assert(chunks_of(rem, cw) =~= seq![chunk@] + chunks_of(data@.skip(end as int), cw));
            } else {
                assert(chunk@ =~= rem.take(cw as int));
                assert(rem.skip(cw as int) =~= data@.skip(end as int));
                assert(chunks_of(rem, cw) =~= seq![chunk@] + chunks_of(data@.skip(end as int), cw));
            }
            assert((done + chunks_of(data@.skip(i as int), cw)) =~= (done.push(chunk@)
                + chunks_of(data@.skip(end as int), cw)));
        }
        r.push(n);
        proof {
            done = done.push(chunk@);
        }
        i = end;
    }
    proof {
        assert(data@.skip(i as int).len() == 0);
        assert(chunks_of(data@.skip(i as int), cw) =~= Seq::<Seq<u8>>::empty());
        assert(chunks_of(data@, cw) =~= done);
    }
    r
}

/// An absent blob stays absent; a present one is read as a single
/// little-endian number and rendered in decimal.
pub fn bytes_to_num_string(bytes: Option<Vec<u8>>) -> (r: Option<String>)
    ensures
        match bytes {
            Some(b) => r matches Some(s) && s@ == dec_string(le_nat(b@)),
            None => r is None,
        },
{
    match bytes {
        Some(b) => {
            let n = biguint_from_bytes_le(b.as_slice());
            Some(biguint_to_decimal(&n))
        },
        None => None,
    }
}

/// Whether a string is `0x` followed by at least one hexadecimal digit:
/// the shape `hex_to_num_string` accepts.
pub open spec fn is_hex_quantity(s: Seq<char>) -> bool {
    &&& s.len() > 2
    &&& s[0] == '0'
    &&& s[1] == 'x'
    &&& forall|i: int| 2 <= i < s.len() ==> is_hex_digit(s[i])
}

/// The decimal rendering of the value a `0x`-prefixed hex quantity denotes.
pub open spec fn dec_string_of_hex(s: Seq<char>) -> Seq<char> {
    dec_string(hex_val(s.skip(2)))
}

/// Reads a `0x`-prefixed hexadecimal quantity and renders its value in
/// decimal; anything of another shape yields nothing.
pub fn hex_to_num_string(inp: &str) -> (r: Option<String>)
    ensures
        r matches Some(s) ==> is_hex_quantity(inp@) && s@ == dec_string_of_hex(inp@),
        r is None ==> !is_hex_quantity(inp@),
{
    let l = inp.unicode_len();
    if l <= 2 {
        return None;
    }
    if inp.get_char(0) != '0' || inp.get_char(1) != 'x' {
        return None;
    }
    let mut j: usize = 2;
    while j < l
        invariant
            2 <= j <= l,
            l == inp@.len(),
            forall|i: int| 2 <= i < j ==> is_hex_digit(inp@[i]),
        decreases l - j,
    {
        let ch = inp.get_char(j);
        let ok = (ch >= '0' && ch <= '9') || (ch >= 'a' && ch <= 'f') || (ch >= 'A' && ch <= 'F');
        if !ok {
            return None;
        }
        j += 1;
    }
    let digits = inp.substring_char(2, l);
    let n = biguint_parse_hex(digits);
    Some(biguint_to_decimal(&n))
}

/// The lower-case hexadecimal digit character for a value below sixteen.
pub open spec fn hex_lower_digit(d: nat) -> char {
    if d == 10 {
        'a'
    } else if d == 11 {
        'b'
    } else if d == 12 {
        'c'
    } else if d == 13 {
        'd'
    } else if d == 14 {
        'e'
    } else if d == 15 {
        'f'
    } else {
        hex_upper_digit(d)
    }
}

/// The lower-case hexadecimal encoding of a byte string: two digits per
/// byte, high nibble first.
pub open spec fn hex_bytes(b: Seq<u8>) -> Seq<char>
    decreases b.len(),
{
    if b.len() == 0 {
        Seq::empty()
    } else {
        seq![
            hex_lower_digit((b[0] / 16) as nat),
            hex_lower_digit((b[0] % 16) as nat),
        ] + hex_bytes(b.drop_first())
    }
}

/// Relies on `hex::encode`: two lower-case digits per byte, high nibble
/// first.
#[verifier::external_body]
pub fn hex_encode(b: &[u8]) -> (r: String)
    ensures
        r@ == hex_bytes(b@),
{
    hex::encode(b)
}

/// The hex texts a byte-dump cell shows: one `0x`-prefixed upper-case
/// rendering per chunk.
pub open spec fn hex_chunk_strings(data: Seq<u8>, chunksize: Option<usize>) -> Seq<Seq<char>> {
    chunks_of(data, chunk_width(chunksize)).map_values(
        |ch: Seq<u8>| hex_prefixed_upper(le_nat(ch)),
    )
}

/// Renders a blob as the byte-dump cells show it: split into chunks, each
/// decoded little-endian and written in prefixed upper-case hex.
pub fn bytes_to_hex_chunks(data: &[u8], chunksize: Option<usize>) -> (r: Vec<String>)
    requires
        chunksize matches Some(c) ==> c > 0,
    ensures
        r@.len() == hex_chunk_strings(data@, chunksize).len(),
        forall|j: int| 0 <= j < r@.len() ==> r@[j]@ == hex_chunk_strings(data@, chunksize)[j],
{
    let nums = bytes_to_bigint(data, chunksize);
    let mut r: Vec<String> = Vec::new();
    let mut i: usize = 0;
    while i < nums.len()
        invariant
            i <= nums@.len(),
            r@.len() == i,
            nums@.len() == chunks_of(data@, chunk_width(chunksize)).len(),
            forall|j: int|
                0 <= j < nums@.len() ==> biguint_nat(nums@[j]) == le_nat(
                    chunks_of(data@, chunk_width(chunksize))[j],
                ),
            forall|j: int| 0 <= j < i ==> r@[j]@ == hex_chunk_strings(data@, chunksize)[j],
        decreases nums@.len() - i,
    {
        let s = biguint_to_hex_upper(&nums[i]);
        r.push(s);
        i += 1;
    }
    r
}

/// A non-empty byte string is its own minimal little-endian encoding
/// followed by zero bytes.
proof fn lemma_min_encoding_prefix(ch: Seq<u8>)
    requires
        ch.len() > 0,
    ensures
        min_le_bytes(le_nat(ch)).len() <= ch.len(),
        min_le_bytes(le_nat(ch)) =~= ch.take(min_le_bytes(le_nat(ch)).len() as int),
        forall|k: int| min_le_bytes(le_nat(ch)).len() <= k < ch.len() ==> ch[k] == 0,
{
    let n = le_nat(ch);
    let w = ch.len();
    lemma_le_nat_bound(ch);
    lemma_le_roundtrip(ch);
    if n == 0 {
        lemma_zero_bytes(w);
        assert(ch =~= Seq::new(w, |k: int| 0u8));
        assert(min_le_bytes(0) =~= ch.take(1));
    } else {
        lemma_le_bytes_pad(n, w);
        let m = le_bytes_min(n);
        assert(ch =~= m + Seq::new((w - m.len()) as nat, |k: int| 0u8));
        assert(m =~= ch.take(m.len() as int));
    }
}

/// Splits a blob into chunks, decodes each chunk little-endian, re-encodes
/// every value at its chunk's width, and concatenates: the result is the
/// blob itself, byte for byte.
pub fn chunk_roundtrip(data: &[u8], chunksize: usize) -> (r: Vec<u8>)
    requires
        chunksize > 0,
    ensures
        r@ =~= data@,
{
    let mut out: Vec<u8> = Vec::new();
    let mut i: usize = 0;
    while i < data.len()
        invariant
            chunksize > 0,
            i <= data@.len(),
            out@ =~= data@.take(i as int),
        decreases data@.len() - i,
    {
        let end = if data.len() - i < chunksize {
            data.len()
        } else {
            i + chunksize
        };
        let chunk = slice_subrange(data, i, end);
        let n = biguint_from_bytes_le(chunk);
        let mut enc = biguint_to_bytes_le(&n);
        proof {
            lemma_min_encoding_prefix(chunk@);
        }
        while enc.len() < end - i
            invariant
                i < end <= data@.len(),
                end - i == chunk@.len(),
                chunk@ =~= data@.subrange(i as int, end as int),
                min_le_bytes(le_nat(chunk@)).len() <= enc@.len() <= chunk@.len(),
                enc@ =~= chunk@.take(enc@.len() as int),
            decreases end - i - enc@.len(),
        {
            let ghost before = enc@;
            enc.push(0u8);
            proof {
                lemma_min_encoding_prefix(chunk@);
                assert(chunk@[before.len() as int] == 0);
                assert(enc@ =~= chunk@.take(enc@.len() as int));
            }
        }
        proof {
            assert(enc@ =~= chunk@);
        }
        out.append(&mut enc);
        proof {
            assert(out@ =~= data@.take(end as int));
        }
        i = end;
    }
    proof {
        assert(data@.take(i as int) =~= data@);
    }
    out
}

} // verus!
