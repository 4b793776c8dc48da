//! Big-endian decoding of the entropy sample.

use vstd::prelude::*;

verus! {

/// The unsigned value of `s` read as a big-endian number.
pub open spec fn be_value(s: Seq<u8>) -> nat
    decreases s.len(),
{
    if s.len() == 0 {
        0
    } else {
        be_value(s.drop_last()) * 256 + s.last() as nat
    }
}

/// `256` to the power `n`.
pub open spec fn radix_pow(n: nat) -> nat
    decreases n,
{
    if n == 0 {
        1
    } else {
        radix_pow((n - 1) as nat) * 256
    }
}

/// The `u64` that the first eight bytes of `s` encode, most significant first.
pub open spec fn be_u64(s: Seq<u8>) -> nat {
    be_value(s.take(8))
}

/// A big-endian number of `n` bytes is below `256^n`.
pub proof fn lemma_be_value_bound(s: Seq<u8>)
    ensures
        be_value(s) < radix_pow(s.len()),
    decreases s.len(),
{
    if s.len() > 0 {
        let p = s.drop_last();
        lemma_be_value_bound(p);
        let v = be_value(p);
        let q = radix_pow(p.len());
        let b = s.last() as nat;
        assert(v * 256 + b < q * 256) by (nonlinear_arith)
            requires
                v < q,
                b < 256,
        ;
    }
}

/// Reads the first eight bytes of `b` as a big-endian `u64`.
pub fn u64_from_be_prefix(b: &[u8]) -> (r: u64)
    requires
        b@.len() >= 8,
    ensures
        r as nat == be_u64(b@),
{
    let mut acc: u64 = 0;
    let mut i: usize = 0;
    while i < 8
        invariant
            i <= 8,
            b@.len() >= 8,
            acc as nat == be_value(b@.take(i as int)),
        decreases 8 - i,
    {
        let ghost prefix = b@.take(i as int);
        proof {
            lemma_be_value_bound(prefix);
            reveal_with_fuel(radix_pow, 8);
            assert(radix_pow(7) == 0x100000000000000);
            assert(acc < radix_pow(7)) by {
                if i < 7 {
                    lemma_radix_pow_monotone(i as nat, 7);
                }
            }
            assert(b@.take(i + 1).drop_last() =~= prefix);
        }
        acc = acc * 256 + b[i] as u64;
        i = i + 1;
    }
    acc
}

/// `radix_pow` grows with its exponent.
proof fn lemma_radix_pow_monotone(m: nat, n: nat)
    requires
        m <= n,
    ensures
        radix_pow(m) <= radix_pow(n),
    decreases n - m,
{
    if m < n {
        lemma_radix_pow_monotone(m, (n - 1) as nat);
    }
}

} // verus!
