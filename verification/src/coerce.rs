//! Width coercion for plaintext scalar operands.
//!
//! A scalar operand arrives as raw big-endian bytes of any length.  Before it
//! can stand beside a ciphertext of a fixed bit-width, it is coerced to that
//! width: truncated to the low bits when too long, zero-extended on the left
//! when too short.  The coercion is pure and total for every supported width.

use vstd::prelude::*;

verus! {

use vstd::arithmetic::div_mod::{
    lemma_mod_mod,
    lemma_mod_multiples_vanish,
    lemma_mul_mod_noop_left,
    lemma_add_mod_noop,
    lemma_small_mod,
};
use vstd::arithmetic::power2::{
    lemma_pow2_adds,
    lemma_pow2_pos,
    lemma_pow2_strictly_increases,
    lemma2_to64,
    pow2,
};

/// The ciphertext bit-widths a scalar can be coerced to.
#[derive(Clone, Copy, Debug, PartialEq, Eq, Structural)]
pub enum BitWidth {
    W4,
    W8,
    W16,
    W32,
    W64,
    W128,
    W160,
    W256,
    W512,
    W1024,
    W2048,
}

/// The width in bits.
pub open spec fn bit_width(w: BitWidth) -> nat {
    match w {
        BitWidth::W4 => 4,
        BitWidth::W8 => 8,
        BitWidth::W16 => 16,
        BitWidth::W32 => 32,
        BitWidth::W64 => 64,
        BitWidth::W128 => 128,
        BitWidth::W160 => 160,
        BitWidth::W256 => 256,
        BitWidth::W512 => 512,
        BitWidth::W1024 => 1024,
        BitWidth::W2048 => 2048,
    }
}

/// How many bytes the fixed-width encoding occupies.
pub open spec fn byte_width(w: BitWidth) -> nat {
    match w {
        BitWidth::W4 => 1,
        BitWidth::W8 => 1,
        BitWidth::W16 => 2,
        BitWidth::W32 => 4,
        BitWidth::W64 => 8,
        BitWidth::W128 => 16,
        BitWidth::W160 => 20,
        BitWidth::W256 => 32,
        BitWidth::W512 => 64,
        BitWidth::W1024 => 128,
        BitWidth::W2048 => 256,
    }
}

/// The number a big-endian byte string denotes.
pub open spec fn be_value(s: Seq<u8>) -> nat
    decreases s.len(),
{
    if s.len() == 0 {
        0
    } else {
        (be_value(s.drop_last()) * 256 + s.last()) as nat
    }
}

/// `k` zero bytes.
pub open spec fn zero_bytes(k: nat) -> Seq<u8> {
    Seq::new(k, |i: int| 0u8)
}

/// The fixed-width big-endian encoding of `raw` at width `w`: the last
/// `byte_width(w)` bytes, left-padded with zeros when `raw` is shorter, with
/// the top byte masked down when the width is not a whole number of bytes.
pub open spec fn coerced(raw: Seq<u8>, w: BitWidth) -> Seq<u8> {
    let nb = byte_width(w) as int;
    let ext: Seq<u8> = if raw.len() >= nb {
        raw.skip(raw.len() - nb)
    } else {
        zero_bytes((nb - raw.len()) as nat) + raw
    };
    if w == BitWidth::W4 {
        ext.update(0, ext[0] % 16)
    } else {
        ext
    }
}

/// A big-endian byte string denotes less than `pow2` of its bit length.
pub proof fn lemma_be_value_bound(s: Seq<u8>)
    ensures
        be_value(s) < pow2(8 * s.len()),
    decreases s.len(),
{
    if s.len() == 0 {
        lemma2_to64();
    } else {
        lemma_be_value_bound(s.drop_last());
        lemma_pow2_adds(8 * (s.len() - 1) as nat, 8);
        lemma2_to64();
    }
}

/// The leading byte carries the highest power of the base.
pub proof fn lemma_be_value_first(s: Seq<u8>)
    requires
        s.len() > 0,
    ensures
        be_value(s) == s[0] * pow2(8 * (s.len() - 1) as nat) + be_value(s.drop_first()),
    decreases s.len(),
{
    lemma2_to64();
    if s.len() == 1 {
        assert(s.drop_last() =~= Seq::<u8>::empty());
        assert(s.drop_first() =~= Seq::<u8>::empty());
        assert(be_value(Seq::<u8>::empty()) == 0);
        assert(pow2(8 * (s.len() - 1) as nat) == 1);
    } else {
        let t = s.drop_last();
        lemma_be_value_first(t);
        assert(s.drop_first().drop_last() =~= t.drop_first());
        assert(be_value(s.drop_first()) == be_value(t.drop_first()) * 256 + s.last());
        lemma_pow2_adds(8 * (s.len() - 2) as nat, 8);
        let p = pow2(8 * (s.len() - 2) as nat) as int;
        assert(pow2(8 * (s.len() - 1) as nat) == p * 256);
        assert(be_value(t) == s[0] * p + be_value(t.drop_first()));
        assert(be_value(s) == (s[0] * p + be_value(t.drop_first())) * 256 + s.last());
        assert((s[0] * p + be_value(t.drop_first())) * 256 == s[0] * (p * 256) + be_value(
            t.drop_first(),
        ) * 256) by (nonlinear_arith);
    }
}

/// Prepending zero bytes does not change the denoted number.
pub proof fn lemma_be_value_zero_extend(k: nat, s: Seq<u8>)
    ensures
        be_value(zero_bytes(k) + s) == be_value(s),
    decreases k,
{
    if k == 0 {
        assert(zero_bytes(0) + s =~= s);
    } else {
        let whole = zero_bytes(k) + s;
        lemma_be_value_first(whole);
        assert(whole[0] == 0);
        assert(whole.drop_first() =~= zero_bytes((k - 1) as nat) + s);
        lemma_be_value_zero_extend((k - 1) as nat, s);
    }
}

/// Keeping only the last bytes of a big-endian string reduces the denoted
/// number modulo the matching power of two.
pub proof fn lemma_be_value_skip_mod(s: Seq<u8>, d: int)
    requires
        0 <= d <= s.len(),
    ensures
        be_value(s.skip(d)) == be_value(s) % pow2(8 * (s.len() - d) as nat),
    decreases d,
{
    if d == 0 {
        assert(s.skip(0) =~= s);
        lemma_be_value_bound(s);
        lemma_small_mod(be_value(s), pow2(8 * s.len()));
    } else {
        let rest = s.drop_first();
        lemma_be_value_skip_mod(rest, d - 1);
        assert(s.skip(d) =~= rest.skip(d - 1));
        lemma_be_value_first(s);
        let m = pow2(8 * (s.len() - d) as nat) as int;
        let q = pow2(8 * (d - 1) as nat) as int;
        lemma_pow2_adds(8 * (s.len() - d) as nat, 8 * (d - 1) as nat);
        assert(s[0] * (m * q) == m * (s[0] * q)) by (nonlinear_arith);
        lemma_pow2_pos(8 * (s.len() - d) as nat);
        lemma_mod_multiples_vanish(s[0] * q, be_value(rest) as int, m);
    }
}

/// Width-coercion round trip: reading the coerced encoding back as a
/// big-endian number reproduces the original value truncated or
/// zero-extended to the target width, for every supported width.
pub proof fn lemma_coercion_round_trip(raw: Seq<u8>, w: BitWidth)
    ensures
        coerced(raw, w).len() == byte_width(w),
        be_value(coerced(raw, w)) == be_value(raw) % pow2(bit_width(w)),
{
    lemma2_to64();
    let nb = byte_width(w) as int;
    if raw.len() >= nb {
        let ext = raw.skip(raw.len() - nb);
        lemma_be_value_skip_mod(raw, raw.len() - nb);
        if w == BitWidth::W4 {
            let masked = ext.update(0, ext[0] % 16);
            assert(masked =~= seq![(ext[0] % 16) as u8]);
            assert(masked.drop_last() =~= Seq::<u8>::empty());
            assert(ext.drop_last() =~= Seq::<u8>::empty());
            assert(be_value(masked) == ext[0] % 16);
            assert(be_value(ext) == ext[0]);
            lemma_mod_mod(be_value(raw) as int, 16, 16);
        }
    } else {
        let ext = zero_bytes((nb - raw.len()) as nat) + raw;
        lemma_be_value_zero_extend((nb - raw.len()) as nat, raw);
        lemma_be_value_bound(raw);
        if w == BitWidth::W4 {
            assert(raw.len() == 0);
            assert(ext =~= seq![0u8]);
            assert(ext.update(0, ext[0] % 16) =~= seq![0u8]);
            assert(seq![0u8].drop_last() =~= Seq::<u8>::empty());
            assert(be_value(seq![0u8]) == 0);
            lemma_small_mod(0, 16);
        } else {
            if 8 * raw.len() < bit_width(w) {
                lemma_pow2_strictly_increases(8 * raw.len(), bit_width(w));
            }
            lemma_small_mod(be_value(raw), pow2(bit_width(w)));
        }
    }
}

/// The byte length of the fixed-width encoding at width `w`.
pub fn byte_width_of(w: BitWidth) -> (n: usize)
    ensures
        n == byte_width(w),
{
    match w {
        BitWidth::W4 => 1,
        BitWidth::W8 => 1,
        BitWidth::W16 => 2,
        BitWidth::W32 => 4,
        BitWidth::W64 => 8,
        BitWidth::W128 => 16,
        BitWidth::W160 => 20,
        BitWidth::W256 => 32,
        BitWidth::W512 => 64,
        BitWidth::W1024 => 128,
        BitWidth::W2048 => 256,
    }
}

/// Coerce raw scalar bytes to the fixed-width big-endian encoding of `w`,
/// truncating or zero-extending as needed.
pub fn coerce_to_width(raw: &Vec<u8>, width: BitWidth) -> (out: Vec<u8>)
    ensures
        out@ == coerced(raw@, width),
{
    let nb: usize = byte_width_of(width);
    let have: usize = raw.len();
    let mut out: Vec<u8> = Vec::new();
    let ghost goal = coerced(raw@, width);
    proof {
        assert(goal.len() == nb);
    }
    let mut i: usize = 0;
    while i < nb
        invariant
            i <= nb,
            nb == byte_width(width),
            have == raw@.len(),
            goal == coerced(raw@, width),
            goal.len() == nb,
            out@ =~= goal.take(i as int),
        decreases nb - i,
    {
        let mut b: u8 = if have >= nb {
            raw[have - nb + i]
        } else if i < nb - have {
            0
        } else {
            raw[i - (nb - have)]
        };
        if i == 0 && width == BitWidth::W4 {
            b = b % 16;
        }
        out.push(b);
        proof {
            assert(goal[i as int] == b);
            assert(out@ =~= goal.take(i as int + 1));
        }
        i = i + 1;
    }
    proof {
        assert(goal.take(nb as int) =~= goal);
    }
    out
}

/// Read scalar bytes as a big-endian number truncated to 16 bits, the form
/// in which type tags are carried.
pub fn read_be_u16(bytes: &Vec<u8>) -> (r: u16)
    ensures
        r == be_value(bytes@) % 0x10000,
{
    let mut r: u16 = 0;
    let mut i: usize = 0;
    while i < bytes.len()
        invariant
            i <= bytes@.len(),
            r == be_value(bytes@.take(i as int)) % 0x10000,
        decreases bytes@.len() - i,
    {
        let shifted: u32 = (r as u32) * 256 + (bytes[i] as u32);
        proof {
            let prefix = bytes@.take(i as int);
            let longer = bytes@.take(i as int + 1);
            assert(longer.drop_last() =~= prefix);
            assert(be_value(longer) == be_value(prefix) * 256 + bytes@[i as int]);
            lemma_mul_mod_noop_left(be_value(prefix) as int, 256, 0x10000);
            lemma_add_mod_noop((be_value(prefix) % 0x10000) as int * 256, bytes@[i as int] as int, 0x10000);
            lemma_add_mod_noop(be_value(prefix) as int * 256, bytes@[i as int] as int, 0x10000);
        }
        r = (shifted % 0x10000) as u16;
        i = i + 1;
    }
    proof {
        assert(bytes@.take(bytes@.len() as int) =~= bytes@);
    }
    r
}

} // verus!
