//! Downmixing interleaved multi-channel blocks to mono, and the loudness of a block.

use vstd::prelude::*;
use vstd::arithmetic::div_mod::lemma_fundamental_div_mod_converse;
use crate::sample::{magnitude, sample_magnitude};

verus! {

pub open spec fn sum_seq(s: Seq<i32>) -> int
    decreases s.len(),
{
    if s.len() == 0 {
        0
    } else {
        sum_seq(s.drop_last()) + s.last()
    }
}

/// `sum / c`, rounded toward zero.
pub open spec fn avg_toward_zero(sum: int, c: int) -> int
    recommends
        c > 0,
{
    if sum >= 0 {
        sum / c
    } else {
        -((-sum) / c)
    }
}

/// Frame `f` of an interleaved block of `c` channels.
pub open spec fn frame(block: Seq<i32>, c: nat, f: int) -> Seq<i32> {
    block.subrange(f * c, f * c + c)
}

/// One mono sample per complete frame: the average of the frame's channel
/// values. A trailing partial frame is dropped.
pub open spec fn downmixed(block: Seq<i32>, c: nat) -> Seq<i32>
    recommends
        c > 0,
{
    Seq::new(block.len() / c, |f: int| avg_toward_zero(sum_seq(frame(block, c, f)), c as int) as i32)
}

/// The mono samples of a block of `channels` interleaved channels.
pub open spec fn mono_samples(block: Seq<i32>, channels: u16) -> Seq<i32> {
    if channels <= 1 {
        block
    } else {
        downmixed(block, channels as nat)
    }
}

/// Largest magnitude among the samples of a block; 0 for an empty block.
pub open spec fn block_peak(s: Seq<i32>) -> nat
    decreases s.len(),
{
    if s.len() == 0 {
        0
    } else {
        let p = block_peak(s.drop_last());
        let m = magnitude(s.last());
        if m > p {
            m
        } else {
            p
        }
    }
}

proof fn lemma_avg_in_range(sum: int, c: int)
    requires
        c > 0,
        -0x8000_0000 * c <= sum <= 0x7fff_ffff * c,
    ensures
        i32::MIN <= avg_toward_zero(sum, c) <= i32::MAX,
{
    if sum >= 0 {
        assert(sum / c <= 0x7fff_ffff) by (nonlinear_arith)
            requires
                c > 0,
                0 <= sum <= 0x7fff_ffff * c,
        ;
        assert(sum / c >= 0) by (nonlinear_arith)
            requires
                c > 0,
                0 <= sum,
        ;
    } else {
        assert((-sum) / c <= 0x8000_0000) by (nonlinear_arith)
            requires
                c > 0,
                0 <= -sum <= 0x8000_0000 * c,
        ;
        assert((-sum) / c >= 0) by (nonlinear_arith)
            requires
                c > 0,
                0 <= -sum,
        ;
    }
}

/// Averages each frame of `c` interleaved channel values into one sample.
fn downmix(block: &[i32], c: u16) -> (r: Vec<i32>)
    requires
        c >= 2,
    ensures
        r@ == downmixed(block@, c as nat),
{
    let n = block.len();
    let cu = c as usize;
    let mut out: Vec<i32> = Vec::new();
    let mut base: usize = 0;
    let ghost mut f: int = 0;
    while base <= n && cu <= n - base
        invariant
            n == block@.len(),
            cu == c as int,
            c >= 2,
            0 <= f,
            base == f * cu,
            base <= n,
            out@.len() == f,
            forall|g: int|
                0 <= g < f ==> #[trigger] out@[g] == avg_toward_zero(
                    sum_seq(frame(block@, c as nat, g)),
                    c as int,
                ) as i32,
        decreases n - base,
    {
        let mut sum: i64 = 0;
        let mut k: usize = 0;
        while k < cu
            invariant
                n == block@.len(),
                cu == c as int,
                base + cu <= n,
                0 <= k <= cu,
                sum == sum_seq(block@.subrange(base as int, base + k)),
                -0x8000_0000 * k <= sum <= 0x7fff_ffff * k,
            decreases cu - k,
        {
            assert(block@.subrange(base as int, base + k + 1).drop_last() =~= block@.subrange(
                base as int,
                base + k,
            ));
            sum = sum + block[base + k] as i64;
            k = k + 1;
        }
        proof {
            lemma_avg_in_range(sum as int, c as int);
            assert(frame(block@, c as nat, f) == block@.subrange(base as int, base + cu));
        }
        let avg: i64 = if sum >= 0 {
            sum / (c as i64)
        } else {
            -((-sum) / (c as i64))
        };
        out.push(avg as i32);
        proof {
            assert((f + 1) * cu == f * cu + cu) by (nonlinear_arith);
            f = f + 1;
        }
        base = base + cu;
    }
    proof {
        lemma_fundamental_div_mod_converse(n as int, c as int, f, n - base);
    }
    assert(out@ =~= downmixed(block@, c as nat));
    out
}

/// The mono samples of a block: the block itself for one channel, otherwise
/// the average of each frame of `channels` interleaved values.
pub fn to_mono(block: &[i32], channels: u16) -> (r: Vec<i32>)
    ensures
        r@ == mono_samples(block@, channels),
{
    if channels <= 1 {
        let mut out: Vec<i32> = Vec::with_capacity(block.len());
        let mut i: usize = 0;
        while i < block.len()
            invariant
                0 <= i <= block@.len(),
                out@ == block@.subrange(0, i as int),
            decreases block@.len() - i,
        {
            out.push(block[i]);
            assert(block@.subrange(0, i + 1) =~= block@.subrange(0, i as int).push(block@[i as int]));
            i = i + 1;
        }
        assert(block@.subrange(0, block@.len() as int) =~= block@);
        out
    } else {
        downmix(block, channels)
    }
}

/// Largest sample magnitude in a block.
pub fn peak_of(s: &[i32]) -> (r: u32)
    ensures
        r as nat == block_peak(s@),
{
    let mut p: u32 = 0;
    let mut i: usize = 0;
    while i < s.len()
        invariant
            0 <= i <= s@.len(),
            p as nat == block_peak(s@.subrange(0, i as int)),
        decreases s@.len() - i,
    {
        assert(s@.subrange(0, i + 1).drop_last() =~= s@.subrange(0, i as int));
        let m = sample_magnitude(s[i]);
        if m > p {
            p = m;
        }
        i = i + 1;
    }
    assert(s@.subrange(0, s@.len() as int) =~= s@);
    p
}

} // verus!
