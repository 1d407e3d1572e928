//! Big-endian byte packing: the mathematical model of the protocol's
//! multi-byte wire integers, and verified readers and writers for them.

use vstd::arithmetic::div_mod::{lemma_fundamental_div_mod, lemma_multiply_divide_lt};
use vstd::prelude::*;

verus! {

/// `256^n`: the number of distinct values that `n` bytes can carry.
pub open spec fn pow256(n: nat) -> int
    decreases n,
{
    if n == 0 {
        1
    } else {
        256 * pow256((n - 1) as nat)
    }
}

/// The value of `s` read as one big-endian unsigned integer.
pub open spec fn be_val(s: Seq<u8>) -> int
    decreases s.len(),
{
    if s.len() == 0 {
        0
    } else {
        be_val(s.drop_last()) * 256 + s.last()
    }
}

/// The `n` big-endian bytes of `v`, most significant first.
pub open spec fn be_bytes(v: int, n: nat) -> Seq<u8>
    decreases n,
{
    if n == 0 {
        Seq::empty()
    } else {
        be_bytes(v / 256, (n - 1) as nat).push((v % 256) as u8)
    }
}

pub proof fn lemma_pow256_values()
    ensures
        pow256(0) == 1,
        pow256(1) == 0x100,
        pow256(2) == 0x1_0000,
        pow256(3) == 0x100_0000,
        pow256(4) == 0x1_0000_0000,
        pow256(5) == 0x100_0000_0000,
        pow256(6) == 0x1_0000_0000_0000,
        pow256(7) == 0x100_0000_0000_0000,
        pow256(8) == 0x1_0000_0000_0000_0000,
{
    reveal_with_fuel(pow256, 9);
}

pub proof fn lemma_pow256_pos(n: nat)
    ensures
        pow256(n) >= 1,
    decreases n,
{
    if n > 0 {
        lemma_pow256_pos((n - 1) as nat);
    }
}

pub proof fn lemma_pow256_increases(a: nat, b: nat)
    requires
        a <= b,
    ensures
        pow256(a) <= pow256(b),
    decreases b,
{
    if a < b {
        lemma_pow256_increases(a, (b - 1) as nat);
        lemma_pow256_pos((b - 1) as nat);
    }
}

pub proof fn lemma_be_bytes_len(v: int, n: nat)
    ensures
        be_bytes(v, n).len() == n,
    decreases n,
{
    if n > 0 {
        lemma_be_bytes_len(v / 256, (n - 1) as nat);
    }
}

pub proof fn lemma_be_val_bounds(s: Seq<u8>)
    ensures
        0 <= be_val(s) < pow256(s.len()),
    decreases s.len(),
{
    if s.len() > 0 {
        lemma_be_val_bounds(s.drop_last());
    }
}

/// Reading back the big-endian bytes of a value in range gives that value.
pub proof fn lemma_be_val_of_be_bytes(v: int, n: nat)
    requires
        0 <= v < pow256(n),
    ensures
        be_val(be_bytes(v, n)) == v,
    decreases n,
{
    if n > 0 {
        assert(pow256(n) == 256 * pow256((n - 1) as nat));
        lemma_multiply_divide_lt(v, 256, pow256((n - 1) as nat));
        lemma_be_val_of_be_bytes(v / 256, (n - 1) as nat);
        let bs = be_bytes(v / 256, (n - 1) as nat);
        let s = bs.push((v % 256) as u8);
        lemma_be_bytes_len(v / 256, (n - 1) as nat);
        assert(s.drop_last() =~= bs);
        assert(s.last() == (v % 256) as u8);
        lemma_fundamental_div_mod(v, 256);
    }
}

/// Read `n` big-endian bytes of `b` starting at `off` as one unsigned integer.
pub fn be_read(b: &Vec<u8>, off: usize, n: usize) -> (r: u64)
    requires
        n <= 8,
        off + n <= b@.len(),
    ensures
        r as int == be_val(b@.subrange(off as int, off as int + n as int)),
        (r as int) < pow256(n as nat),
{
    let blen = b.len();
    let mut acc: u64 = 0;
    let mut i: usize = 0;
    proof {
        assert(b@.subrange(off as int, off as int) =~= Seq::<u8>::empty());
    }
    while i < n
        invariant
            i <= n,
            n <= 8,
            blen == b@.len(),
            off + n <= blen,
            acc as int == be_val(b@.subrange(off as int, off as int + i as int)),
            (acc as int) < pow256(i as nat),
        decreases n - i,
    {
        proof {
            let s1 = b@.subrange(off as int, off as int + i as int);
            let s2 = b@.subrange(off as int, off as int + i as int + 1);
            assert(s2.drop_last() =~= s1);
            assert(s2.last() == b@[off as int + i as int]);
            lemma_pow256_values();
            lemma_pow256_increases(i as nat, 7);
        }
        let byte = b[off + i];
        acc = acc * 256 + (byte as u64);
        i = i + 1;
    }
    acc
}

/// Append the `n` big-endian bytes of `x` to `v`.
pub fn push_be(v: &mut Vec<u8>, x: u64, n: usize)
    requires
        n <= 8,
        (x as int) < pow256(n as nat),
    ensures
        final(v)@ == old(v)@ + be_bytes(x as int, n as nat),
    decreases n,
{
    if n == 0 {
        proof {
            assert(v@ =~= v@ + be_bytes(x as int, 0));
        }
    } else {
        proof {
            assert(pow256(n as nat) == 256 * pow256((n - 1) as nat));
            lemma_multiply_divide_lt(x as int, 256, pow256((n - 1) as nat));
        }
        push_be(v, x / 256, n - 1);
        v.push((x % 256) as u8);
        proof {
            assert(v@ =~= old(v)@ + be_bytes(x as int, n as nat)) by {
                assert(be_bytes(x as int, n as nat) == be_bytes(x as int / 256, (n - 1) as nat).push(
                    (x as int % 256) as u8,
                ));
            };
        }
    }
}

pub fn be_u16_at(b: &Vec<u8>, off: usize) -> (r: u16)
    requires
        off + 2 <= b@.len(),
    ensures
        r as int == be_val(b@.subrange(off as int, off as int + 2)),
{
    proof {
        lemma_pow256_values();
    }
    let r = be_read(b, off, 2);
    r as u16
}

pub fn be_u32_at(b: &Vec<u8>, off: usize) -> (r: u32)
    requires
        off + 4 <= b@.len(),
    ensures
        r as int == be_val(b@.subrange(off as int, off as int + 4)),
{
    proof {
        lemma_pow256_values();
    }
    let r = be_read(b, off, 4);
    r as u32
}

pub fn be_u64_at(b: &Vec<u8>, off: usize) -> (r: u64)
    requires
        off + 8 <= b@.len(),
    ensures
        r as int == be_val(b@.subrange(off as int, off as int + 8)),
{
    be_read(b, off, 8)
}

pub fn push_be_u16(v: &mut Vec<u8>, x: u16)
    ensures
        final(v)@ == old(v)@ + be_bytes(x as int, 2),
{
    proof {
        lemma_pow256_values();
    }
    push_be(v, x as u64, 2);
}

pub fn push_be_u32(v: &mut Vec<u8>, x: u32)
    ensures
        final(v)@ == old(v)@ + be_bytes(x as int, 4),
{
    proof {
        lemma_pow256_values();
    }
    push_be(v, x as u64, 4);
}

pub fn push_be_u64(v: &mut Vec<u8>, x: u64)
    ensures
        final(v)@ == old(v)@ + be_bytes(x as int, 8),
{
    proof {
        lemma_pow256_values();
    }
    push_be(v, x, 8);
}

} // verus!
