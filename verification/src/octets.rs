//! Big-endian integers in octet sequences.
use vstd::prelude::*;

verus! {

/// The big-endian value of the `n` octets of `buf` from `p` on.
pub open spec fn be_value(buf: Seq<u8>, p: int, n: nat) -> nat
    decreases n,
{
    if n == 0 { 0 } else { be_value(buf, p, (n - 1) as nat) * 256 + buf[p + n - 1] as nat }
}

/// The `n` big-endian octets of `v` (modulo 256^n).
pub open spec fn be_octets(v: nat, n: nat) -> Seq<u8>
    decreases n,
{
    if n == 0 { Seq::empty() } else { be_octets(v / 256, (n - 1) as nat).push((v % 256) as u8) }
}

/// 256 to the power `k`.
pub open spec fn pow256(k: nat) -> nat
    decreases k,
{
    if k == 0 { 1 } else { 256 * pow256((k - 1) as nat) }
}

pub proof fn lemma_pow256_bound(k: nat)
    requires
        k < 8,
    ensures
        pow256(k) * 256 == pow256(k + 1),
        pow256(k + 1) <= 0x1_0000_0000_0000_0000,
{
    reveal_with_fuel(pow256, 9);
    assert(pow256(8) == 0x1_0000_0000_0000_0000);
    if k < 7 {
        assert(pow256(k + 1) <= pow256(7));
    }
}

/// Reading back the big-endian octets of `v` (below 256^n) gives `v`.
pub proof fn lemma_be_roundtrip(buf: Seq<u8>, p: int, v: nat, n: nat)
    requires
        0 <= p,
        p + n <= buf.len(),
        buf.subrange(p, p + n) == be_octets(v, n),
        v < pow256(n),
    ensures
        be_value(buf, p, n) == v,
    decreases n,
{
    if n > 0 {
        assert(be_octets(v, n) == be_octets(v / 256, (n - 1) as nat).push((v % 256) as u8));
        assert(be_octets(v, n).drop_last() =~= be_octets(v / 256, (n - 1) as nat));
        assert(buf.subrange(p, p + n - 1) =~= buf.subrange(p, p + n).drop_last());
        assert(buf[p + n - 1] == buf.subrange(p, p + n)[n - 1]);
        assert(v / 256 < pow256((n - 1) as nat)) by (nonlinear_arith)
            requires v < pow256(n), pow256(n) == 256 * pow256((n - 1) as nat);
        lemma_be_roundtrip(buf, p, v / 256, (n - 1) as nat);
    }
}

pub proof fn lemma_be_octets_len(v: nat, n: nat)
    ensures
        be_octets(v, n).len() == n,
    decreases n,
{
    if n > 0 {
        lemma_be_octets_len(v / 256, (n - 1) as nat);
    }
}

/// Reads the `n` big-endian octets of `buf` from `p` on.
pub fn read_be(buf: &[u8], p: usize, n: usize) -> (r: u64)
    requires
        p + n <= buf@.len(),
        n <= 8,
    ensures
        r == be_value(buf@, p as int, n as nat),
{
    let mut v: u64 = 0;
    let mut k: usize = 0;
    let blen = buf.len();
    while k < n
        invariant
            blen == buf@.len(),
            p + n <= buf@.len(),
            n <= 8,
            k <= n,
            v == be_value(buf@, p as int, k as nat),
            v < pow256(k as nat),
        decreases n - k,
    {
        proof {
            lemma_pow256_bound(k as nat);
        }
        v = v * 256 + buf[p + k] as u64;
        k += 1;
    }
    v
}

/// Appends the `n` big-endian octets of `v`.
pub fn push_be(buf: &mut Vec<u8>, v: u64, n: usize)
    requires
        n <= 8,
    ensures
        final(buf)@ == old(buf)@ + be_octets(v as nat, n as nat),
    decreases n,
{
    if n > 0 {
        push_be(buf, v / 256, n - 1);
        buf.push((v % 256) as u8);
    }
    assert(final(buf)@ =~= old(buf)@ + be_octets(v as nat, n as nat));
}

} // verus!
