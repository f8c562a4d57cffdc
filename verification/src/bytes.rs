//! Fixed-width big-endian encoding of bounded integers, together with the
//! small byte-vector helpers that the memo body layouts share.

use vstd::prelude::*;

verus! {

/// `256^n`: one more than the largest value a big-endian field of `n` bytes
/// can hold.
pub open spec fn pow256(n: nat) -> int
    decreases n,
{
    if n == 0 {
        1
    } else {
        256 * pow256((n - 1) as nat)
    }
}

/// The integer a byte sequence denotes when read in big-endian order.
pub open spec fn be_val(s: Seq<u8>) -> int
    decreases s.len(),
{
    if s.len() == 0 {
        0
    } else {
        256 * be_val(s.drop_last()) + s.last()
    }
}

/// The `n`-byte big-endian encoding of `v`; faithful when `0 <= v < pow256(n)`.
pub open spec fn be_seq(v: int, n: nat) -> Seq<u8>
    decreases n,
{
    if n == 0 {
        Seq::empty()
    } else {
        be_seq(v / 256, (n - 1) as nat).push((v % 256) as u8)
    }
}

/// A run of `n` zero bytes.
pub open spec fn zeros(n: nat) -> Seq<u8> {
    Seq::new(n, |i: int| 0u8)
}

/// The first `n` entries of `s`, as a sequence of length exactly `n`.
pub open spec fn prefix(s: Seq<u8>, n: nat) -> Seq<u8> {
    Seq::new(n, |i: int| s[i])
}

pub proof fn lemma_pow256_pos(n: nat)
    ensures
        pow256(n) >= 1,
    decreases n,
{
    if n > 0 {
        lemma_pow256_pos((n - 1) as nat);
    }
}

pub proof fn lemma_pow256_mono(m: nat, n: nat)
    requires
        m <= n,
    ensures
        pow256(m) <= pow256(n),
    decreases n,
{
    if m < n {
        lemma_pow256_mono(m, (n - 1) as nat);
        lemma_pow256_pos((n - 1) as nat);
    }
}

/// `pow256(7)` and `pow256(8)` as literals, for overflow bounds.
pub proof fn lemma_pow256_values()
    ensures
        pow256(7) == 0x100_0000_0000_0000,
        pow256(8) == 0x1_0000_0000_0000_0000,
{
    reveal_with_fuel(pow256, 9);
}

pub proof fn lemma_be_seq_len(v: int, n: nat)
    ensures
        be_seq(v, n).len() == n,
    decreases n,
{
    if n > 0 {
        lemma_be_seq_len(v / 256, (n - 1) as nat);
    }
}

pub proof fn lemma_be_val_bound(s: Seq<u8>)
    ensures
        0 <= be_val(s) < pow256(s.len()),
    decreases s.len(),
{
    if s.len() > 0 {
        lemma_be_val_bound(s.drop_last());
    }
}

/// Decoding recovers the encoded value: big-endian encoding loses nothing.
pub proof fn lemma_be_seq_val(v: int, n: nat)
    requires
        0 <= v < pow256(n),
    ensures
        be_val(be_seq(v, n)) == v,
    decreases n,
{
    if n > 0 {
        assert(v / 256 < pow256((n - 1) as nat));
        lemma_be_seq_val(v / 256, (n - 1) as nat);
        let s = be_seq(v / 256, (n - 1) as nat);
        let b = (v % 256) as u8;
        assert(s.push(b).drop_last() =~= s);
        assert(s.push(b).last() == b);
    }
}

/// Writes `v` as exactly `n` big-endian bytes.
pub fn be_encode(v: u64, n: usize) -> (r: Vec<u8>)
    requires
        (v as int) < pow256(n as nat),
    ensures
        r@ =~= be_seq(v as int, n as nat),
        r@.len() == n,
    decreases n,
{
    if n == 0 {
        Vec::new()
    } else {
        proof {
            assert((v as int) / 256 < pow256((n - 1) as nat));
        }
        let mut r = be_encode(v / 256, n - 1);
        r.push((v % 256) as u8);
        proof {
            assert(r@ =~= be_seq(v as int, n as nat));
        }
        r
    }
}

/// Reads the `n` bytes of `s` starting at `start` as a big-endian value.
pub fn be_decode(s: &Vec<u8>, start: usize, n: usize) -> (r: u64)
    requires
        start + n <= s@.len(),
        n <= 8,
    ensures
        r as int == be_val(s@.subrange(start as int, start as int + n as int)),
        (r as int) < pow256(n as nat),
{
    let slen: usize = s.len();
    let mut acc: u64 = 0;
    let mut i: usize = 0;
    while i < n
        invariant
            start + n <= s@.len(),
            s@.len() == slen,
            n <= 8,
            i <= n,
            acc as int == be_val(s@.subrange(start as int, start as int + i as int)),
            (acc as int) < pow256(i as nat),
        decreases n - i,
    {
        proof {
            lemma_pow256_mono(i as nat, 7);
            lemma_pow256_values();
            assert(s@.subrange(start as int, start as int + i as int + 1).drop_last() =~= s@
                .subrange(start as int, start as int + i as int));
        }
        acc = acc * 256 + (s[start + i] as u64);
        i = i + 1;
    }
    proof {
        lemma_be_val_bound(s@.subrange(start as int, start as int + n as int));
    }
    acc
}

/// A vector of `n` zero bytes.
pub fn zero_vec(n: usize) -> (r: Vec<u8>)
    ensures
        r@ =~= zeros(n as nat),
{
    let r = vec![0u8; n];
    proof {
        assert(r@ =~= zeros(n as nat));
    }
    r
}

/// Copies a byte vector, keeping its contents.
pub fn clone_bytes(v: &Vec<u8>) -> (r: Vec<u8>)
    ensures
        r@ == v@,
{
    let r = v.clone();
    proof {
        assert forall|i: int| 0 <= i < v@.len() implies r@[i] == v@[i] by {
            assert(cloned::<u8>(v@[i], r@[i]));
        }
        assert(r@ =~= v@);
    }
    r
}

/// Copies `s[start..end]` out into a fresh vector.
pub fn sub_vec(s: &Vec<u8>, start: usize, end: usize) -> (r: Vec<u8>)
    requires
        start <= end,
        end <= s@.len(),
    ensures
        r@ =~= s@.subrange(start as int, end as int),
{
    let mut r: Vec<u8> = Vec::new();
    let mut i: usize = start;
    while i < end
        invariant
            start <= i <= end,
            end <= s@.len(),
            r@ =~= s@.subrange(start as int, i as int),
        decreases end - i,
    {
        r.push(s[i]);
        proof {
            assert(r@ =~= s@.subrange(start as int, i as int + 1));
        }
        i = i + 1;
    }
    r
}

/// Copies the first `n` bytes of `s` out into a fresh vector.
pub fn prefix_vec(s: &Vec<u8>, n: usize) -> (r: Vec<u8>)
    requires
        n <= s@.len(),
    ensures
        r@ =~= prefix(s@, n as nat),
{
    let r = sub_vec(s, 0, n);
    proof {
        assert(r@ =~= prefix(s@, n as nat));
    }
    r
}

} // verus!
