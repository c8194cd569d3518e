//! The little-endian byte encoding of unbounded naturals, and the
//! chunk-splitting scheme the byte-dump cells use: a blob is cut into
//! fixed-width chunks and each chunk is read as a little-endian number.
//! The round-trip lemmas here state that this display scheme loses nothing.

use vstd::arithmetic::div_mod::lemma_div_multiples_vanish_fancy;
use vstd::arithmetic::div_mod::lemma_mod_multiples_vanish;
use vstd::arithmetic::div_mod::lemma_small_mod;
use vstd::arithmetic::power::pow;
use vstd::prelude::*;

verus! {

/// The number a byte string denotes when read little-endian.
pub open spec fn le_nat(b: Seq<u8>) -> nat
    decreases b.len(),
{
    if b.len() == 0 {
        0
    } else {
        (b[0] + 256 * le_nat(b.drop_first())) as nat
    }
}

/// The little-endian encoding of `n` at exactly `width` bytes.
pub open spec fn le_bytes(n: nat, width: nat) -> Seq<u8>
    decreases width,
{
    if width == 0 {
        Seq::empty()
    } else {
        seq![(n % 256) as u8] + le_bytes(n / 256, (width - 1) as nat)
    }
}

/// The little-endian encoding of `n` with no trailing zero bytes (empty for
/// zero).
pub open spec fn le_bytes_min(n: nat) -> Seq<u8>
    decreases n,
{
    if n == 0 {
        Seq::empty()
    } else {
        seq![(n % 256) as u8] + le_bytes_min(n / 256)
    }
}

/// The byte string `BigUint::to_bytes_le` produces: minimal, except that
/// zero is rendered as the single byte `0`.
pub open spec fn min_le_bytes(n: nat) -> Seq<u8> {
    if n == 0 {
        seq![0u8]
    } else {
        le_bytes_min(n)
    }
}

/// A number below `256^w` has its quotient by 256 below `256^(w-1)`.
proof fn lemma_shift_bound(n: nat, width: nat)
    requires
        width > 0,
        n < pow(256, width),
    ensures
        n / 256 < pow(256, (width - 1) as nat),
{
    reveal(pow);
    assert(pow(256, width) == 256 * pow(256, (width - 1) as nat));
    vstd::arithmetic::div_mod::lemma_multiply_divide_lt(
        n as int,
        256,
        pow(256, (width - 1) as nat),
    );
}

/// A little-endian reading is bounded by the width of its source.
pub proof fn lemma_le_nat_bound(b: Seq<u8>)
    ensures
        le_nat(b) < pow(256, b.len()),
    decreases b.len(),
{
    reveal(pow);
    if b.len() == 0 {
    } else {
        let rest = b.drop_first();
        lemma_le_nat_bound(rest);
        assert(pow(256, b.len()) == 256 * pow(256, rest.len()));
        assert(256 * le_nat(rest) <= 256 * (pow(256, rest.len()) - 1)) by {
            vstd::arithmetic::mul::lemma_mul_inequality(
                le_nat(rest) as int,
                pow(256, rest.len()) - 1,
                256,
            );
        }
    }
}

/// Law: re-encoding a little-endian reading at the source's own width
/// reproduces the source exactly.
pub proof fn lemma_le_roundtrip(b: Seq<u8>)
    ensures
        le_bytes(le_nat(b), b.len()) =~= b,
    decreases b.len(),
{
    if b.len() == 0 {
    } else {
        let rest = b.drop_first();
        let n = le_nat(b);
        lemma_mod_multiples_vanish(le_nat(rest) as int, b[0] as int, 256);
        lemma_small_mod(b[0] as nat, 256);
        lemma_div_multiples_vanish_fancy(le_nat(rest) as int, b[0] as int, 256);
        assert(n % 256 == b[0]);
        assert(n / 256 == le_nat(rest));
        lemma_le_roundtrip(rest);
        assert(le_bytes(n, b.len()) =~= b);
    }
}

/// Law: decoding an encoding gives the number back, for every number that
/// fits the width.
pub proof fn lemma_le_bytes_value(n: nat, width: nat)
    requires
        n < pow(256, width),
    ensures
        le_nat(le_bytes(n, width)) == n,
    decreases width,
{
    reveal(pow);
    if width == 0 {
    } else {
        let enc = le_bytes(n, width);
        assert(enc.drop_first() =~= le_bytes(n / 256, (width - 1) as nat));
        lemma_shift_bound(n, width);
        lemma_le_bytes_value(n / 256, (width - 1) as nat);
        assert(le_nat(enc) == (n % 256) + 256 * le_nat(enc.drop_first()));
        vstd::arithmetic::div_mod::lemma_fundamental_div_mod(n as int, 256);
    }
}

/// The minimal encoding never exceeds a width the number fits in.
pub proof fn lemma_le_bytes_min_len(n: nat, width: nat)
    requires
        n < pow(256, width),
    ensures
        le_bytes_min(n).len() <= width,
    decreases width,
{
    reveal(pow);
    if n == 0 {
    } else {
        assert(width > 0) by {
            vstd::arithmetic::power::lemma_pow0(256);
        }
        lemma_shift_bound(n, width);
        lemma_le_bytes_min_len(n / 256, (width - 1) as nat);
    }
}

/// Padding the minimal encoding with zero bytes up to `width` gives the
/// fixed-width encoding.
pub proof fn lemma_le_bytes_pad(n: nat, width: nat)
    requires
        n < pow(256, width),
    ensures
        le_bytes_min(n).len() <= width,
        le_bytes(n, width) =~= le_bytes_min(n) + Seq::new(
            (width - le_bytes_min(n).len()) as nat,
            |i: int| 0u8,
        ),
    decreases width,
{
    reveal(pow);
    lemma_le_bytes_min_len(n, width);
    if width == 0 {
    } else if n == 0 {
        assert(le_bytes(0, width) =~= Seq::new(width, |i: int| 0u8)) by {
            lemma_zero_bytes(width);
        }
    } else {
        lemma_shift_bound(n, width);
        lemma_le_bytes_pad(n / 256, (width - 1) as nat);
    }
}

/// The fixed-width encoding of zero is all zero bytes.
pub proof fn lemma_zero_bytes(width: nat)
    ensures
        le_bytes(0, width) =~= Seq::new(width, |i: int| 0u8),
    decreases width,
{
    if width == 0 {
    } else {
        lemma_zero_bytes((width - 1) as nat);
    }
}

/// The byte string cut into chunks of `c` bytes; the last chunk may be
/// shorter, and every chunk is non-empty.
pub open spec fn chunks_of(b: Seq<u8>, c: nat) -> Seq<Seq<u8>>
    decreases b.len(),
    when c > 0
{
    if b.len() == 0 {
        Seq::empty()
    } else if b.len() <= c {
        seq![b]
    } else {
        seq![b.take(c as int)] + chunks_of(b.skip(c as int), c)
    }
}

/// Concatenation of a sequence of byte strings.
pub open spec fn concat_all(s: Seq<Seq<u8>>) -> Seq<u8>
    decreases s.len(),
{
    if s.len() == 0 {
        Seq::empty()
    } else {
        s[0] + concat_all(s.drop_first())
    }
}

/// Chunking loses nothing: the chunks concatenate back to the source.
pub proof fn lemma_chunks_concat(b: Seq<u8>, c: nat)
    requires
        c > 0,
    ensures
        concat_all(chunks_of(b, c)) =~= b,
    decreases b.len(),
{
    if b.len() == 0 {
    } else if b.len() <= c {
        assert(chunks_of(b, c) == seq![b]);
        assert(seq![b].drop_first() =~= Seq::<Seq<u8>>::empty());
        assert(concat_all(Seq::<Seq<u8>>::empty()) =~= Seq::<u8>::empty());
        assert(concat_all(seq![b]) =~= b + Seq::<u8>::empty());
        assert(concat_all(chunks_of(b, c)) =~= b);
    } else {
        lemma_chunks_concat(b.skip(c as int), c);
        assert((seq![b.take(c as int)] + chunks_of(b.skip(c as int), c)).drop_first() =~= chunks_of(
            b.skip(c as int),
            c,
        ));
        assert(concat_all(chunks_of(b, c)) =~= b.take(c as int) + b.skip(c as int));
        assert(b.take(c as int) + b.skip(c as int) =~= b);
    }
}

/// Law: splitting a blob into chunks of any positive size, reading each
/// chunk as a little-endian number, re-encoding every number at its chunk's
/// width, and concatenating, reproduces the blob.
pub proof fn lemma_chunk_le_roundtrip(b: Seq<u8>, c: nat)
    requires
        c > 0,
    ensures
        concat_all(chunks_of(b, c).map_values(|ch: Seq<u8>| le_bytes(le_nat(ch), ch.len()))) =~= b,
{
    lemma_chunk_le_roundtrip_aux(chunks_of(b, c));
    lemma_chunks_concat(b, c);
}

proof fn lemma_chunk_le_roundtrip_aux(s: Seq<Seq<u8>>)
    ensures
        concat_all(s.map_values(|ch: Seq<u8>| le_bytes(le_nat(ch), ch.len()))) =~= concat_all(s),
    decreases s.len(),
{
    let m = s.map_values(|ch: Seq<u8>| le_bytes(le_nat(ch), ch.len()));
    if s.len() == 0 {
        assert(m =~= Seq::<Seq<u8>>::empty());
    } else {
        lemma_le_roundtrip(s[0]);
        lemma_chunk_le_roundtrip_aux(s.drop_first());
        assert(m.drop_first() =~= s.drop_first().map_values(
            |ch: Seq<u8>| le_bytes(le_nat(ch), ch.len()),
        ));
        assert(concat_all(m) =~= s[0] + concat_all(
            s.drop_first().map_values(|ch: Seq<u8>| le_bytes(le_nat(ch), ch.len())),
        ));
    }
}

} // verus!
