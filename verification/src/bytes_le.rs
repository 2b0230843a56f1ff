//! Little-endian encoding of machine integers into byte sequences, the common
//! ground of every element layout in a tensor buffer.

use vstd::prelude::*;

verus! {

/// The first `w` little-endian bytes of `x`: lowest byte first.
pub open spec fn le_seq(x: u64, w: nat) -> Seq<u8>
    decreases w,
{
    if w == 0 {
        Seq::empty()
    } else {
        seq![(x % 256) as u8] + le_seq(x / 256, (w - 1) as nat)
    }
}

/// The value of a little-endian byte sequence.
pub open spec fn le_val(s: Seq<u8>) -> nat
    decreases s.len(),
{
    if s.len() == 0 {
        0
    } else {
        (s[0] + 256 * le_val(s.drop_first())) as nat
    }
}

/// 256 to the `w`-th power: the number of values `w` bytes can hold.
pub open spec fn pow256(w: nat) -> nat
    decreases w,
{
    if w == 0 {
        1
    } else {
        256 * pow256((w - 1) as nat)
    }
}

pub proof fn lemma_le_seq_len(x: u64, w: nat)
    ensures
        le_seq(x, w).len() == w,
    decreases w,
{
    if w > 0 {
        lemma_le_seq_len(x / 256, (w - 1) as nat);
    }
}

pub proof fn lemma_le_val_bound(s: Seq<u8>)
    ensures
        le_val(s) < pow256(s.len()),
    decreases s.len(),
{
    if s.len() > 0 {
        lemma_le_val_bound(s.drop_first());
    }
}

/// Decoding the encoding of a value small enough for its width gives the
/// value back.
pub proof fn lemma_le_roundtrip(x: u64, w: nat)
    requires
        x < pow256(w),
    ensures
        le_val(le_seq(x, w)) == x,
    decreases w,
{
    if w > 0 {
        assert(x / 256 < pow256((w - 1) as nat)) by {
            assert(x < 256 * pow256((w - 1) as nat));
        }
        lemma_le_roundtrip(x / 256, (w - 1) as nat);
        assert(le_seq(x, w).drop_first() =~= le_seq(x / 256, (w - 1) as nat));
    }
}

pub proof fn lemma_pow256_le_u64(w: nat)
    requires
        w <= 8,
    ensures
        pow256(w) <= 0x1_0000_0000_0000_0000,
    decreases 8 - w,
{
    if w == 8 {
        assert(pow256(1) == 256 * pow256(0));
        assert(pow256(2) == 256 * pow256(1));
        assert(pow256(3) == 256 * pow256(2));
        assert(pow256(4) == 256 * pow256(3));
        assert(pow256(5) == 256 * pow256(4));
        assert(pow256(6) == 256 * pow256(5));
        assert(pow256(7) == 256 * pow256(6));
        assert(pow256(8) == 256 * pow256(7));
    } else {
        lemma_pow256_le_u64(w + 1);
        lemma_pow256_pos(w);
        assert(pow256(w + 1) == 256 * pow256(w));
    }
}

pub proof fn lemma_pow256_pos(w: nat)
    ensures
        pow256(w) >= 1,
    decreases w,
{
    if w > 0 {
        lemma_pow256_pos((w - 1) as nat);
    }
}

/// Appends the `w` little-endian bytes of `x` to `out`.
pub fn push_le(out: &mut Vec<u8>, x: u64, w: usize)
    ensures
        final(out)@ == old(out)@ + le_seq(x, w as nat),
    decreases w,
{
    if w == 0 {
        assert(old(out)@ + le_seq(x, 0) =~= old(out)@);
    } else {
        out.push((x % 256) as u8);
        push_le(out, x / 256, w - 1);
        assert(out@ =~= old(out)@ + le_seq(x, w as nat));
    }
}

/// Reads the value of the `w` bytes of `bytes` starting at `start`,
/// little-endian.
pub fn read_le(bytes: &Vec<u8>, start: usize, w: usize) -> (r: u64)
    requires
        start + w <= bytes.len(),
        w <= 8,
    ensures
        r == le_val(bytes@.subrange(start as int, start + w)),
    decreases w,
{
    let ghost s = bytes@.subrange(start as int, start + w);
    if w == 0 {
        0
    } else {
        let tail = read_le(bytes, start + 1, w - 1);
        proof {
            assert(s.drop_first() =~= bytes@.subrange(start + 1, start + w));
            lemma_le_val_bound(s.drop_first());
            lemma_pow256_le_u64(w as nat);
            assert(pow256(w as nat) == 256 * pow256((w - 1) as nat));
            assert(256 * le_val(s.drop_first()) + 255 < pow256(w as nat)) by (nonlinear_arith)
                requires
                    le_val(s.drop_first()) < pow256((w - 1) as nat),
                    pow256(w as nat) == 256 * pow256((w - 1) as nat);
        }
        bytes[start] as u64 + 256 * tail
    }
}

} // verus!
