//! Fixed-width little-endian codec for the 128-bit amounts that a funds
//! record carries as its data payload.
use vstd::prelude::*;

use crate::error::Error;

verus! {

/// Width in bytes of an encoded amount.
pub const AMOUNT_LEN: usize = 16;

/// `256^n`.
pub open spec fn pow256(n: nat) -> nat
    decreases n,
{
    if n == 0 {
        1
    } else {
        256 * pow256((n - 1) as nat)
    }
}

/// The unsigned integer that the bytes `s` denote, least significant byte first.
pub open spec fn le_value(s: Seq<u8>) -> nat
    decreases s.len(),
{
    if s.len() == 0 {
        0
    } else {
        s[0] as nat + 256 * le_value(s.drop_first())
    }
}

/// What decoding the payload `s` yields.
pub open spec fn decoded(s: Seq<u8>) -> Result<u128, Error> {
    if s.len() == AMOUNT_LEN {
        Ok(le_value(s) as u128)
    } else {
        Err(Error::Encoding)
    }
}

pub proof fn lemma_pow256_pos(n: nat)
    ensures
        pow256(n) >= 1,
    decreases n,
{
    if n > 0 {
        lemma_pow256_pos((n - 1) as nat);
    }
}

/// A value read from `n` bytes is below `256^n`.
pub proof fn lemma_le_value_bound(s: Seq<u8>)
    ensures
        le_value(s) < pow256(s.len()),
    decreases s.len(),
{
    if s.len() > 0 {
        lemma_le_value_bound(s.drop_first());
        let r = le_value(s.drop_first());
        let p = pow256((s.len() - 1) as nat);
        assert(r + 1 <= p);
        assert(256 * r + 256 <= 256 * p) by (nonlinear_arith)
            requires
                r + 1 <= p,
        ;
    }
}

/// Appending a byte adds it at the weight of its position.
pub proof fn lemma_le_value_push(s: Seq<u8>, b: u8)
    ensures
        le_value(s.push(b)) == le_value(s) + pow256(s.len()) * b,
    decreases s.len(),
{
    if s.len() == 0 {
        assert(s.push(b).drop_first() =~= Seq::<u8>::empty());
        assert(le_value(Seq::<u8>::empty()) == 0);
        assert(pow256(0) == 1);
        assert(s.push(b)[0] == b);
    } else {
        assert(s.push(b).drop_first() =~= s.drop_first().push(b));
        lemma_le_value_push(s.drop_first(), b);
        let p = pow256((s.len() - 1) as nat);
        assert(s.push(b)[0] == s[0]);
        assert(pow256(s.len()) == 256 * p);
        assert(256 * (p * b) == (256 * p) * b) by (nonlinear_arith);
    }
}

pub proof fn lemma_pow256_16()
    ensures
        pow256(16) == 0x1_0000_0000_0000_0000_0000_0000_0000_0000,
{
    reveal_with_fuel(pow256, 17);
}

/// Reads a 16-byte little-endian amount; fails with `Encoding` when the
/// payload has any other length.
pub fn decode_amount(data: &[u8]) -> (r: Result<u128, Error>)
    ensures
        r == decoded(data@),
{
    if data.len() != AMOUNT_LEN {
        return Err(Error::Encoding);
    }
    proof {
        lemma_pow256_16();
    }
    let mut acc: u128 = 0;
    let mut i: usize = AMOUNT_LEN;
    while i > 0
        invariant
            data@.len() == AMOUNT_LEN,
            i <= AMOUNT_LEN,
            acc as nat == le_value(data@.subrange(i as int, AMOUNT_LEN as int)),
            pow256(16) == 0x1_0000_0000_0000_0000_0000_0000_0000_0000,
        decreases i,
    {
        let ghost tail = data@.subrange(i as int, AMOUNT_LEN as int);
        let ghost next = data@.subrange(i - 1, AMOUNT_LEN as int);
        proof {
            assert(next.drop_first() =~= tail);
            lemma_le_value_bound(next);
            assert(pow256((AMOUNT_LEN - i + 1) as nat) <= pow256(16)) by {
                lemma_pow256_mono((AMOUNT_LEN - i + 1) as nat, 16);
            }
        }
        acc = acc * 256 + data[i - 1] as u128;
        i = i - 1;
    }
    assert(data@.subrange(0, AMOUNT_LEN as int) =~= data@);
    Ok(acc)
}

pub proof fn lemma_pow256_mono(a: nat, b: nat)
    requires
        a <= b,
    ensures
        pow256(a) <= pow256(b),
    decreases b,
{
    if a < b {
        lemma_pow256_mono(a, (b - 1) as nat);
        lemma_pow256_pos((b - 1) as nat);
    }
}

/// Writes `v` as 16 bytes, least significant first.
pub fn encode_amount(v: u128) -> (r: Vec<u8>)
    ensures
        r@.len() == AMOUNT_LEN,
        le_value(r@) == v,
{
    let mut out: Vec<u8> = Vec::new();
    let mut x: u128 = v;
    let mut i: usize = 0;
    proof {
        lemma_pow256_16();
        assert(le_value(out@) == 0);
        assert(pow256(0) == 1);
    }
    while i < AMOUNT_LEN
        invariant
            i <= AMOUNT_LEN,
            out@.len() == i,
            v == le_value(out@) + pow256(i as nat) * x,
            x < pow256((AMOUNT_LEN - i) as nat),
            pow256(16) == 0x1_0000_0000_0000_0000_0000_0000_0000_0000,
        decreases AMOUNT_LEN - i,
    {
        let b: u8 = (x % 256) as u8;
        proof {
            lemma_le_value_push(out@, b);
            let p = pow256(i as nat);
            let q = pow256((AMOUNT_LEN - i - 1) as nat);
            assert(x == 256 * (x / 256) + x % 256);
            assert(p * x == p * b + (256 * p) * (x / 256)) by (nonlinear_arith)
                requires
                    x == 256 * (x / 256) + b,
            ;
            assert(x / 256 < q) by (nonlinear_arith)
                requires
                    x < 256 * q,
            ;
        }
        out.push(b);
        x = x / 256;
        i = i + 1;
    }
    proof {
        assert(pow256(0) == 1);
    }
    out
}

/// Decoding what encoding wrote gives the value back, and a payload of any
/// length other than sixteen bytes does not decode.
pub proof fn lemma_codec_round_trip(v: u128, bytes: Seq<u8>)
    ensures
        forall|s: Seq<u8>| s.len() == AMOUNT_LEN && le_value(s) == v ==> decoded(s) == Ok::<u128, Error>(v),
        bytes.len() != AMOUNT_LEN ==> decoded(bytes) == Err::<u128, Error>(Error::Encoding),
{
}

} // verus!
