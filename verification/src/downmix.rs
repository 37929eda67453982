//! Channel downmixer: converts an interleaved multichannel sample frame
//! into interleaved stereo.
//!
//! A frame with at most two channels passes through unchanged. For more
//! channels, each time-step of `channels` consecutive samples is folded
//! into one stereo pair: the samples at even channel indices are summed
//! into the left value, those at odd indices into the right, and each sum
//! is divided by `channels / 2`. The division truncates toward zero and
//! the quotient saturates to the 16-bit range; both policies are fixed
//! here so that odd channel counts behave consistently.

use vstd::prelude::*;
use vstd::arithmetic::div_mod::lemma_small_mod;
use vstd::arithmetic::div_mod::lemma_sub_mod_noop;
use vstd::arithmetic::mul::lemma_mul_inequality;

verus! {

/// An interleaved frame is well formed when its length is a whole number
/// of time-steps of `channels` samples.
pub open spec fn frame_well_formed(s: Seq<i16>, channels: nat) -> bool {
    channels > 0 && s.len() % channels == 0
}

/// Sum of the samples at even indices of `g`.
pub open spec fn sum_even(g: Seq<i16>) -> int
    decreases g.len(),
{
    if g.len() == 0 {
        0
    } else {
        g[0] + sum_odd(g.drop_first())
    }
}

/// Sum of the samples at odd indices of `g`.
pub open spec fn sum_odd(g: Seq<i16>) -> int
    decreases g.len(),
{
    if g.len() == 0 {
        0
    } else {
        sum_even(g.drop_first())
    }
}

/// Division truncating toward zero, as the hardware integer division does.
pub open spec fn tdiv(a: int, b: int) -> int
    recommends
        b > 0,
{
    if a >= 0 {
        a / b
    } else {
        -((-a) / b)
    }
}

/// Saturates a value to the signed 16-bit range.
pub open spec fn clamp_i16(x: int) -> int {
    if x < -32768 {
        -32768
    } else if x > 32767 {
        32767
    } else {
        x
    }
}

/// The stereo pair that one time-step of `channels` samples folds into.
pub open spec fn mixed_pair(g: Seq<i16>, channels: nat) -> Seq<i16>
    recommends
        channels > 2,
        g.len() == channels,
{
    seq![
        clamp_i16(tdiv(sum_even(g), channels as int / 2)) as i16,
        clamp_i16(tdiv(sum_odd(g), channels as int / 2)) as i16,
    ]
}

/// The downmix of an interleaved frame: unchanged for one or two channels,
/// otherwise one stereo pair per time-step, in time order.
pub open spec fn downmix_spec(s: Seq<i16>, channels: nat) -> Seq<i16>
    decreases s.len(),
{
    if channels <= 2 {
        s
    } else if s.len() < channels {
        Seq::empty()
    } else {
        mixed_pair(s.take(channels as int), channels) + downmix_spec(
            s.skip(channels as int),
            channels,
        )
    }
}

/// Appending one sample extends the even sum when the sequence length is
/// even, and the odd sum when it is odd.
proof fn lemma_sum_push(s: Seq<i16>, x: i16)
    ensures
        sum_even(s.push(x)) == if s.len() % 2 == 0 {
            sum_even(s) + x
        } else {
            sum_even(s)
        },
        sum_odd(s.push(x)) == if s.len() % 2 == 1 {
            sum_odd(s) + x
        } else {
            sum_odd(s)
        },
    decreases s.len(),
{
    if s.len() == 0 {
        assert(s.push(x) =~= seq![x]);
        assert(seq![x].drop_first() =~= Seq::<i16>::empty());
    } else {
        lemma_sum_push(s.drop_first(), x);
        assert(s.push(x).drop_first() =~= s.drop_first().push(x));
    }
}

/// The even and odd sums of a sequence of 16-bit samples are bounded by
/// the extreme sample values times the length.
proof fn lemma_sum_bounds(s: Seq<i16>)
    ensures
        -32768 * s.len() <= sum_even(s) <= 32767 * s.len(),
        -32768 * s.len() <= sum_odd(s) <= 32767 * s.len(),
    decreases s.len(),
{
    if s.len() > 0 {
        lemma_sum_bounds(s.drop_first());
    }
}

/// Downmixing distributes over concatenation when the split lies on a
/// time-step boundary: a frame may be fed in any batches without changing
/// the result, as long as each batch holds whole time-steps.
pub proof fn lemma_downmix_concat(a: Seq<i16>, b: Seq<i16>, channels: nat)
    requires
        channels > 0,
        a.len() as int % (channels as int) == 0,
    ensures
        downmix_spec(a + b, channels) == downmix_spec(a, channels) + downmix_spec(b, channels),
    decreases a.len(),
{
    if channels <= 2 {
        assert(downmix_spec(a + b, channels) =~= downmix_spec(a, channels) + downmix_spec(
            b,
            channels,
        ));
    } else if a.len() == 0 {
        assert(a + b =~= b);
        assert(downmix_spec(a, channels) + downmix_spec(b, channels) =~= downmix_spec(b, channels));
    } else {
        if a.len() < channels {
            lemma_small_mod(a.len(), channels);
            assert(false);
        }
        assert((a + b).len() >= channels);
        assert((a + b).take(channels as int) =~= a.take(channels as int));
        assert((a + b).skip(channels as int) =~= a.skip(channels as int) + b);
        assert(a.skip(channels as int).len() as int % (channels as int) == 0) by {
            vstd::arithmetic::div_mod::lemma_mod_multiples_vanish(
                1,
                a.len() - channels,
                channels as int,
            );
        }
        lemma_downmix_concat(a.skip(channels as int), b, channels);
        assert(downmix_spec(a, channels) + downmix_spec(b, channels) =~= mixed_pair(
            a.take(channels as int),
            channels,
        ) + (downmix_spec(a.skip(channels as int), channels) + downmix_spec(b, channels)));
    }
}

/// A frame of exactly one time-step downmixes to its stereo pair alone.
proof fn lemma_downmix_single_group(g: Seq<i16>, channels: nat)
    requires
        channels > 2,
        g.len() == channels,
    ensures
        downmix_spec(g, channels) == mixed_pair(g, channels),
{
    assert(g.take(channels as int) =~= g);
    assert(downmix_spec(g.skip(channels as int), channels) =~= Seq::<i16>::empty());
    assert(downmix_spec(g, channels) =~= mixed_pair(g, channels));
}

/// Divides a bounded sum by a positive divisor, truncating toward zero.
fn div_trunc(sum: i64, d: u64) -> (q: i64)
    requires
        d >= 1,
        -0x1_0000_0000i64 <= sum <= 0x1_0000_0000i64,
    ensures
        q == tdiv(sum as int, d as int),
{
    if sum >= 0 {
        ((sum as u64) / d) as i64
    } else {
        let m: u64 = (-sum) as u64;
        -((m / d) as i64)
    }
}

/// Saturates a quotient to the signed 16-bit range.
fn clamp_sample(q: i64) -> (r: i16)
    ensures
        r == clamp_i16(q as int),
{
    if q < -32768 {
        -32768
    } else if q > 32767 {
        32767
    } else {
        q as i16
    }
}

/// Downmixes an interleaved frame to interleaved stereo. A frame of one
/// or two channels passes through unchanged; otherwise every time-step
/// folds into one stereo pair, in time order.
pub fn downmix(frame: &Vec<i16>, channels: usize) -> (r: Vec<i16>)
    requires
        1 <= channels <= 0xffff,
        frame_well_formed(frame@, channels as nat),
    ensures
        r@ == downmix_spec(frame@, channels as nat),
        channels <= 2 ==> r@ == frame@,
{
    if channels <= 2 {
        let mut out: Vec<i16> = Vec::new();
        let mut i: usize = 0;
        while i < frame.len()
            invariant
                i <= frame@.len(),
                out@ == frame@.take(i as int),
            decreases frame@.len() - i,
        {
            out.push(frame[i]);
            assert(out@ =~= frame@.take(i + 1 as int));
            i = i + 1;
        }
        assert(out@ =~= frame@);
        out
    } else {
        let d: u64 = (channels / 2) as u64;
        let mut out: Vec<i16> = Vec::new();
        let mut i: usize = 0;
        while frame.len() - i >= channels
            invariant
                2 < channels <= 0xffff,
                d == channels as int / 2,
                i <= frame@.len(),
                i as int % (channels as int) == 0,
                frame_well_formed(frame@, channels as nat),
                out@ == downmix_spec(frame@.take(i as int), channels as nat),
            decreases frame@.len() - i,
        {
            let ghost g: Seq<i16> = frame@.subrange(i as int, i + channels);
            let mut left: i64 = 0;
            let mut right: i64 = 0;
            let mut c: usize = 0;
            while c < channels
                invariant
                    2 < channels <= 0xffff,
                    c <= channels,
                    i + channels <= frame@.len() <= usize::MAX,
                    g == frame@.subrange(i as int, i + channels),
                    left == sum_even(g.take(c as int)),
                    right == sum_odd(g.take(c as int)),
                decreases channels - c,
            {
                let s: i16 = frame[i + c];
                assert(g.take(c + 1 as int) =~= g.take(c as int).push(s));
                proof {
                    lemma_sum_bounds(g.take(c as int));
                    assert(g.take(c as int).len() == c);
                    assert(-32768 * c >= -32768 * 0xffff) by {
                        lemma_mul_inequality(c as int, 0xffff, 32768);
                    }
                    assert(32767 * c <= 32767 * 0xffff) by {
                        lemma_mul_inequality(c as int, 0xffff, 32767);
                    }
                    lemma_sum_push(g.take(c as int), s);
                }
                if c % 2 == 0 {
                    left = left + s as i64;
                } else {
                    right = right + s as i64;
                }
                c = c + 1;
            }
            proof {
                assert(g.take(channels as int) =~= g);
                lemma_sum_bounds(g);
                lemma_mul_inequality(g.len() as int, 0xffff, 32768);
                lemma_mul_inequality(g.len() as int, 0xffff, 32767);
            }
            let lq: i64 = div_trunc(left, d);
            let rq: i64 = div_trunc(right, d);
            out.push(clamp_sample(lq));
            out.push(clamp_sample(rq));
            proof {
                let ch = channels as int;
                assert(frame@.take(i + ch).take(i as int) =~= frame@.take(i as int));
                assert(frame@.take(i + ch).skip(i as int) =~= g);
                lemma_downmix_concat(frame@.take(i as int), g, channels as nat);
                assert(frame@.take(i as int) + g =~= frame@.take(i + ch));
                lemma_downmix_single_group(g, channels as nat);
                assert(out@ =~= downmix_spec(frame@.take(i as int), channels as nat) + mixed_pair(
                    g,
                    channels as nat,
                ));
            }
            proof {
                vstd::arithmetic::div_mod::lemma_mod_multiples_vanish(
                    1,
                    i as int,
                    channels as int,
                );
            }
            i = i + channels;
        }
        proof {
            assert((frame@.len() - i) % (channels as int) == 0) by {
                lemma_sub_mod_noop(frame@.len() as int, i as int, channels as int);
            }
            if frame@.len() - i > 0 {
                lemma_small_mod((frame@.len() - i) as nat, channels as nat);
            }
            assert(i == frame@.len());
            assert(frame@.take(i as int) =~= frame@);
        }
        out
    }
}

} // verus!
