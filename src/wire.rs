//! Big-endian integers on the wire.
use vstd::prelude::*;

verus! {

/// `256` raised to `n`: the number of distinct values held by `n` bytes.
pub open spec fn pow256(n: nat) -> nat
    decreases n,
{
    if n == 0 {
        1
    } else {
        256 * pow256((n - 1) as nat)
    }
}

/// The unsigned integer that the bytes `s` spell, most significant byte first.
pub open spec fn be_value(s: Seq<u8>) -> nat
    decreases s.len(),
{
    if s.len() == 0 {
        0
    } else {
        (be_value(s.drop_last()) * 256 + s.last()) as nat
    }
}

/// The `n` bytes that spell `v` (modulo `256^n`), most significant byte first.
pub open spec fn be_encode(v: nat, n: nat) -> Seq<u8>
    decreases n,
{
    if n == 0 {
        Seq::empty()
    } else {
        be_encode(v / 256, (n - 1) as nat).push((v % 256) as u8)
    }
}

pub proof fn lemma_pow256_positive(n: nat)
    ensures
        pow256(n) >= 1,
    decreases n,
{
    if n > 0 {
        lemma_pow256_positive((n - 1) as nat);
    }
}

pub proof fn lemma_pow256_values()
    ensures
        pow256(1) == 0x100,
        pow256(2) == 0x1_0000,
        pow256(4) == 0x1_0000_0000,
        pow256(8) == 0x1_0000_0000_0000_0000,
{
    reveal_with_fuel(pow256, 9);
}

pub proof fn lemma_pow256_monotone(a: nat, b: nat)
    requires
        a <= b,
    ensures
        pow256(a) <= pow256(b),
    decreases b,
{
    if a < b {
        lemma_pow256_monotone(a, (b - 1) as nat);
        lemma_pow256_positive((b - 1) as nat);
    }
}

pub proof fn lemma_be_encode_len(v: nat, n: nat)
    ensures
        be_encode(v, n).len() == n,
    decreases n,
{
    if n > 0 {
        lemma_be_encode_len(v / 256, (n - 1) as nat);
    }
}

pub proof fn lemma_be_value_bound(s: Seq<u8>)
    ensures
        be_value(s) < pow256(s.len()),
    decreases s.len(),
{
    if s.len() > 0 {
        let p = s.drop_last();
        lemma_be_value_bound(p);
        let a = be_value(p);
        let b = pow256(p.len());
        let l = s.last() as nat;
        assert(a * 256 + l < b * 256) by (nonlinear_arith)
            requires
                a < b,
                l < 256,
        ;
    }
}

/// Encoding a value that fits in `n` bytes and reading it back gives the value.
pub proof fn lemma_be_round_trip(v: nat, n: nat)
    requires
        v < pow256(n),
    ensures
        be_encode(v, n).len() == n,
        be_value(be_encode(v, n)) == v,
    decreases n,
{
    lemma_be_encode_len(v, n);
    if n > 0 {
        let q = v / 256;
        let p = pow256((n - 1) as nat);
        assert(q < p) by (nonlinear_arith)
            requires
                v < 256 * p,
                q == v / 256,
        ;
        lemma_be_round_trip(q, (n - 1) as nat);
        let e = be_encode(v, n);
        assert(e.drop_last() =~= be_encode(q, (n - 1) as nat));
        assert(q * 256 + v % 256 == v) by (nonlinear_arith)
            requires
                q == v / 256,
        ;
    }
}

/// Appends the `n` big-endian bytes of `v` to `dst`.
pub fn push_be(dst: &mut Vec<u8>, v: u64, n: usize)
    requires
        n <= 8,
        (v as nat) < pow256(n as nat),
    ensures
        final(dst)@ == old(dst)@ + be_encode(v as nat, n as nat),
    decreases n,
{
    if n == 0 {
        assert(old(dst)@ + be_encode(v as nat, 0) =~= old(dst)@);
    } else {
        let q = v / 256;
        proof {
            let p = pow256((n - 1) as nat);
            assert((q as nat) < p) by (nonlinear_arith)
                requires
                    (v as nat) < 256 * p,
                    q == v / 256,
            ;
        }
        push_be(dst, q, n - 1);
        dst.push((v % 256) as u8);
        assert(final(dst)@ =~= old(dst)@ + be_encode(v as nat, n as nat));
    }
}

/// Reads the big-endian integer held by the `n` bytes of `s` from `start` on.
pub fn read_be(s: &Vec<u8>, start: usize, n: usize) -> (r: u64)
    requires
        n <= 8,
        start + n <= s@.len(),
    ensures
        r as nat == be_value(s@.subrange(start as int, start + n)),
{
    let mut acc: u64 = 0;
    let mut i: usize = 0;
    proof {
        assert(s@.subrange(start as int, start as int) =~= Seq::<u8>::empty());
    }
    while i < n
        invariant
            i <= n,
            n <= 8,
            start + n <= s@.len(),
            start + n <= s.len(),
            acc as nat == be_value(s@.subrange(start as int, start + i)),
        decreases n - i,
    {
        let ghost prev = s@.subrange(start as int, start + i);
        let ghost next = s@.subrange(start as int, start + i + 1);
        proof {
            assert(next.drop_last() =~= prev);
            lemma_be_value_bound(next);
            lemma_pow256_monotone((i + 1) as nat, 8);
            lemma_pow256_values();
        }
        acc = acc * 256 + s[start + i] as u64;
        i = i + 1;
    }
    acc
}

} // verus!
