//! Little-endian integer fields and byte-range helpers used by the
//! record and instruction codecs.

use vstd::prelude::*;

use vstd::arithmetic::div_mod::lemma_fundamental_div_mod;
use vstd::arithmetic::power::{lemma_pow_increases, pow};

verus! {

/// The `k` little-endian bytes of `n` (low byte first).
pub open spec fn le_bytes(n: int, k: nat) -> Seq<u8>
    decreases k,
{
    if k == 0 {
        Seq::empty()
    } else {
        seq![(n % 256) as u8] + le_bytes(n / 256, (k - 1) as nat)
    }
}

/// The integer read little-endian from `s` (low byte first).
pub open spec fn from_le(s: Seq<u8>) -> int
    decreases s.len(),
{
    if s.len() == 0 {
        0
    } else {
        s[0] + 256 * from_le(s.drop_first())
    }
}

pub proof fn lemma_le_bytes_len(n: int, k: nat)
    ensures
        le_bytes(n, k).len() == k,
    decreases k,
{
    if k > 0 {
        lemma_le_bytes_len(n / 256, (k - 1) as nat);
    }
}

pub proof fn lemma_from_le_bound(s: Seq<u8>)
    ensures
        0 <= from_le(s) < pow(256, s.len()),
    decreases s.len(),
{
    reveal(pow);
    if s.len() == 0 {
    } else {
        lemma_from_le_bound(s.drop_first());
        assert(pow(256, s.len()) == 256 * pow(256, (s.len() - 1) as nat));
    }
}

/// Reading back the little-endian bytes of `n` recovers `n`.
pub proof fn lemma_le_round_trip(n: int, k: nat)
    requires
        0 <= n < pow(256, k),
    ensures
        from_le(le_bytes(n, k)) == n,
    decreases k,
{
    reveal(pow);
    if k == 0 {
        assert(pow(256, 0) == 1);
    } else {
        lemma_fundamental_div_mod(n, 256);
        assert(pow(256, k) == 256 * pow(256, (k - 1) as nat));
        assert(n / 256 < pow(256, (k - 1) as nat)) by {
            if n / 256 >= pow(256, (k - 1) as nat) {
                assert(256 * (n / 256) >= 256 * pow(256, (k - 1) as nat)) by (nonlinear_arith)
                    requires
                        n / 256 >= pow(256, (k - 1) as nat),
                ;
            }
        }
        lemma_le_round_trip(n / 256, (k - 1) as nat);
        let s = le_bytes(n, k);
        assert(s.drop_first() =~= le_bytes(n / 256, (k - 1) as nat));
    }
}

/// The largest value a `count`-byte field can hold, as `pow` sees it.
pub proof fn lemma_pow256_values()
    ensures
        pow(256, 4) == 0x1_0000_0000,
        pow(256, 7) == 0x100_0000_0000_0000,
        pow(256, 8) == 0x1_0000_0000_0000_0000,
{
    reveal_with_fuel(pow, 9);
}

/// Reads a `count`-byte little-endian unsigned integer at `pos`.
pub fn read_le_uint(b: &Vec<u8>, pos: usize, count: usize) -> (r: u64)
    requires
        count <= 8,
        pos + count <= b@.len(),
    ensures
        r == from_le(b@.subrange(pos as int, pos + count)),
{
    let len: usize = b.len();
    let mut r: u64 = 0;
    let mut i: usize = 0;
    proof {
        lemma_pow256_values();
    }
    while i < count
        invariant
            i <= count,
            count <= 8,
            pos + count <= len,
            len == b@.len(),
            r == from_le(b@.subrange(pos + count - i, pos + count)),
            pow(256, 7 as nat) == 0x100_0000_0000_0000,
            pow(256, 8 as nat) == 0x1_0000_0000_0000_0000,
        decreases count - i,
    {
        let byte = b[pos + (count - 1 - i)];
        proof {
            let tail = b@.subrange(pos + count - i, pos + count);
            lemma_from_le_bound(tail);
            lemma_pow_increases(256, i as nat, 7);
            let s = b@.subrange(pos + count - (i + 1), pos + count);
            assert(s[0] == b@[pos + (count - 1 - i)]);
            assert(s.drop_first() =~= tail);
        }
        r = r * 256 + (byte as u64);
        i = i + 1;
    }
    proof {
        assert(b@.subrange(pos as int, pos + count) =~= b@.subrange(
            pos + count - count,
            pos + count,
        ));
    }
    r
}

/// Appends the `count` little-endian bytes of `n`.
pub fn push_le_uint(out: &mut Vec<u8>, n: u64, count: usize)
    requires
        count <= 8,
        old(out)@.len() + count <= usize::MAX,
    ensures
        final(out)@ == old(out)@ + le_bytes(n as int, count as nat),
{
    let ghost orig = out@;
    let mut x: u64 = n;
    let mut i: usize = 0;
    while i < count
        invariant
            i <= count,
            out@ + le_bytes(x as int, (count - i) as nat) =~= orig + le_bytes(
                n as int,
                count as nat,
            ),
        decreases count - i,
    {
        let ghost prev = out@;
        let ghost xv = x as int;
        out.push((x % 256) as u8);
        proof {
            assert(le_bytes(xv, (count - i) as nat) == seq![(xv % 256) as u8] + le_bytes(
                xv / 256,
                (count - i - 1) as nat,
            ));
            assert(out@ + le_bytes(xv / 256, (count - i - 1) as nat) =~= prev + le_bytes(
                xv,
                (count - i) as nat,
            ));
        }
        x = x / 256;
        i = i + 1;
    }
    proof {
        assert(le_bytes(x as int, 0) =~= Seq::<u8>::empty());
        assert(out@ =~= orig + le_bytes(n as int, count as nat));
    }
}

/// Appends all of `v`.
pub fn push_bytes(out: &mut Vec<u8>, v: &Vec<u8>)
    ensures
        final(out)@ == old(out)@ + v@,
{
    let ghost orig = out@;
    let mut i: usize = 0;
    while i < v.len()
        invariant
            i <= v@.len(),
            out@ == orig + v@.subrange(0, i as int),
        decreases v@.len() - i,
    {
        out.push(v[i]);
        proof {
            assert(out@ =~= orig + v@.subrange(0, i + 1));
        }
        i = i + 1;
    }
    proof {
        assert(out@ =~= orig + v@);
    }
}

/// Copies `count` bytes starting at `start`.
pub fn copy_range(v: &Vec<u8>, start: usize, count: usize) -> (r: Vec<u8>)
    requires
        start + count <= v@.len(),
    ensures
        r@ == v@.subrange(start as int, start + count),
{
    let len: usize = v.len();
    let mut r: Vec<u8> = Vec::new();
    let mut i: usize = 0;
    while i < count
        invariant
            i <= count,
            start + count <= len,
            len == v@.len(),
            r@ == v@.subrange(start as int, start + i),
        decreases count - i,
    {
        r.push(v[start + i]);
        proof {
            assert(r@ =~= v@.subrange(start as int, start + i + 1));
        }
        i = i + 1;
    }
    r
}

} // verus!
