//! Fixed-width little-endian integers on byte sequences.

use vstd::prelude::*;

verus! {

/// 256 to the power `k`.
pub open spec fn pow256(k: nat) -> nat
    decreases k,
{
    if k == 0 {
        1
    } else {
        256 * pow256((k - 1) as nat)
    }
}

/// The `width` low bytes of `x`, least significant first.
pub open spec fn le_bytes(x: nat, width: nat) -> Seq<u8>
    decreases width,
{
    if width == 0 {
        Seq::empty()
    } else {
        seq![(x % 256) as u8] + le_bytes(x / 256, (width - 1) as nat)
    }
}

/// The number that `s` spells, least significant byte first.
pub open spec fn le_value(s: Seq<u8>) -> nat
    decreases s.len(),
{
    if s.len() == 0 {
        0
    } else {
        s[0] as nat + 256 * le_value(s.drop_first())
    }
}

/// `le_bytes` yields exactly `width` bytes.
pub proof fn lemma_le_bytes_len(x: nat, width: nat)
    ensures
        le_bytes(x, width).len() == width,
    decreases width,
{
    if width > 0 {
        lemma_le_bytes_len(x / 256, (width - 1) as nat);
    }
}

/// A sequence of `n` bytes spells a number below `256^n`.
pub proof fn lemma_le_value_bound(s: Seq<u8>)
    ensures
        le_value(s) < pow256(s.len()),
    decreases s.len(),
{
    if s.len() > 0 {
        lemma_le_value_bound(s.drop_first());
        let t = le_value(s.drop_first());
        let p = pow256((s.len() - 1) as nat);
        assert(s[0] as nat + 256 * t < 256 * p) by (nonlinear_arith)
            requires
                t < p,
                (s[0] as nat) < 256,
        ;
    }
}

/// Reading back what was written gives the number, when it fits the width.
pub proof fn lemma_le_value_of_bytes(x: nat, width: nat)
    requires
        x < pow256(width),
    ensures
        le_value(le_bytes(x, width)) == x,
    decreases width,
{
    if width > 0 {
        let rest = (width - 1) as nat;
        assert(x / 256 < pow256(rest)) by (nonlinear_arith)
            requires
                x < 256 * pow256(rest),
        ;
        lemma_le_value_of_bytes(x / 256, rest);
        let s = le_bytes(x, width);
        assert(s.drop_first() =~= le_bytes(x / 256, rest));
        assert(x % 256 + 256 * (x / 256) == x) by (nonlinear_arith);
    }
}

/// Writing the number that a sequence spells gives the sequence back.
pub proof fn lemma_le_bytes_of_value(s: Seq<u8>)
    ensures
        le_bytes(le_value(s), s.len()) == s,
    decreases s.len(),
{
    if s.len() > 0 {
        let t = le_value(s.drop_first());
        let x = le_value(s);
        lemma_le_bytes_of_value(s.drop_first());
        assert(x % 256 == s[0] as nat && x / 256 == t) by (nonlinear_arith)
            requires
                x == s[0] as nat + 256 * t,
                (s[0] as nat) < 256,
        ;
        assert(le_bytes(x, s.len()) =~= s);
    } else {
        assert(le_bytes(le_value(s), s.len()) =~= s);
    }
}

/// The powers of 256 up to the eighth, which is `2^64`.
pub proof fn lemma_pow256_values()
    ensures
        pow256(0) == 1,
        pow256(1) == 0x100,
        pow256(2) == 0x1_0000,
        pow256(3) == 0x100_0000,
        pow256(4) == 0x1_0000_0000,
        pow256(5) == 0x100_0000_0000,
        pow256(6) == 0x1_0000_0000_0000,
        pow256(7) == 0x100_0000_0000_0000,
        pow256(8) == 0x1_0000_0000_0000_0000,
{
    reveal_with_fuel(pow256, 10);
}

/// Appends the `width` low bytes of `x` to `buf`, least significant first.
pub fn put_le(buf: &mut Vec<u8>, x: u64, width: usize)
    requires
        width <= 8,
    ensures
        final(buf)@ == old(buf)@ + le_bytes(x as nat, width as nat),
{
    let mut rest: u64 = x;
    let mut i: usize = 0;
    proof {
        assert(buf@ =~= old(buf)@ + Seq::<u8>::empty());
    }
    while i < width
        invariant
            i <= width <= 8,
            buf@.len() == old(buf)@.len() + i,
            buf@.subrange(0, old(buf)@.len() as int) == old(buf)@,
            buf@.subrange(old(buf)@.len() as int, buf@.len() as int) + le_bytes(
                rest as nat,
                (width - i) as nat,
            ) == le_bytes(x as nat, width as nat),
        decreases width - i,
    {
        let ghost before = buf@;
        let ghost tail = before.subrange(old(buf)@.len() as int, before.len() as int);
        let low: u8 = (rest % 256) as u8;
        buf.push(low);
        proof {
            let after = buf@;
            let new_tail = after.subrange(old(buf)@.len() as int, after.len() as int);
            assert(new_tail =~= tail + seq![low]);
            assert(after.subrange(0, old(buf)@.len() as int) =~= before.subrange(
                0,
                old(buf)@.len() as int,
            ));
            assert(new_tail + le_bytes((rest / 256) as nat, (width - i - 1) as nat) =~= tail
                + le_bytes(rest as nat, (width - i) as nat));
        }
        rest = rest / 256;
        i = i + 1;
    }
    proof {
        let start = old(buf)@.len() as int;
        assert(le_bytes(rest as nat, 0) =~= Seq::<u8>::empty());
        assert(buf@ =~= buf@.subrange(0, start) + buf@.subrange(start, buf@.len() as int));
        assert(buf@.subrange(start, buf@.len() as int) =~= le_bytes(x as nat, width as nat));
    }
}

/// Reads the number that the `width` bytes from `at` on spell.
pub fn get_le(bytes: &[u8], at: usize, width: usize) -> (x: u64)
    requires
        width <= 8,
        at + width <= bytes@.len(),
    ensures
        x as nat == le_value(bytes@.subrange(at as int, at + width)),
{
    let n: usize = bytes.len();
    let mut acc: u64 = 0;
    let mut i: usize = width;
    proof {
        assert(bytes@.subrange(at + width, at + width) =~= Seq::<u8>::empty());
    }
    while i > 0
        invariant
            i <= width <= 8,
            at + width <= bytes@.len(),
            n == bytes@.len(),
            acc as nat == le_value(bytes@.subrange(at + i, at + width)),
        decreases i,
    {
        let b: u8 = bytes[at + (i - 1)];
        proof {
            let inner = bytes@.subrange(at + i, at + width);
            let outer = bytes@.subrange(at + i - 1, at + width);
            assert(outer.drop_first() =~= inner);
            assert(outer[0] == b);
            lemma_le_value_bound(outer);
            lemma_pow256_values();
            assert(pow256(outer.len()) <= pow256(8)) by {
                lemma_pow256_monotonic(outer.len(), 8);
            }
        }
        acc = acc * 256 + b as u64;
        i = i - 1;
    }
    acc
}

/// A higher power of 256 is no smaller.
pub proof fn lemma_pow256_monotonic(a: nat, b: nat)
    requires
        a <= b,
    ensures
        pow256(a) <= pow256(b),
        pow256(a) >= 1,
    decreases b,
{
    if a < b {
        lemma_pow256_monotonic(a, (b - 1) as nat);
    } else if a > 0 {
        lemma_pow256_monotonic((a - 1) as nat, (a - 1) as nat);
    }
}

} // verus!
