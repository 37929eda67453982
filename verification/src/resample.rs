//! Resampler adapter framing: the integer half of rate conversion.
//!
//! The rate converter proper works on per-channel planar buffers, so an
//! interleaved block is first split into one plane per channel and the
//! filtered planes are woven back together afterwards. The filter itself
//! runs on normalized floating-point samples and lives outside the
//! verified library; the framing here guarantees that splitting and
//! weaving lose no sample and keep every channel aligned.

use vstd::prelude::*;
use vstd::arithmetic::div_mod::lemma_fundamental_div_mod;
use vstd::arithmetic::div_mod::lemma_fundamental_div_mod_converse;
use vstd::arithmetic::div_mod::lemma_mod_bound;
use crate::downmix::frame_well_formed;

verus! {

/// The samples of channel `c` in an interleaved frame, in time order.
pub open spec fn plane_of(s: Seq<i16>, channels: nat, c: int) -> Seq<i16>
    recommends
        channels > 0,
        0 <= c < channels,
{
    Seq::new(s.len() / channels, |t: int| s[t * (channels as int) + c])
}

/// The planar decomposition of an interleaved frame: one plane per
/// channel.
pub open spec fn deinterleave_spec(s: Seq<i16>, channels: nat) -> Seq<Seq<i16>>
    recommends
        channels > 0,
{
    Seq::new(channels, |c: int| plane_of(s, channels, c))
}

/// The interleaved frame woven from equally long planes: sample `t` of
/// plane `c` lands at index `t * planes.len() + c`.
pub open spec fn interleave_spec(planes: Seq<Seq<i16>>) -> Seq<i16>
    recommends
        planes.len() > 0,
{
    let ch = planes.len() as int;
    Seq::new((planes.len() * planes[0].len()) as nat, |i: int| planes[i % ch][i / ch])
}

/// Weaving the planar decomposition back together restores the original
/// interleaved frame exactly.
pub proof fn lemma_planar_round_trip(s: Seq<i16>, channels: nat)
    requires
        channels >= 1,
        s.len() % channels == 0,
    ensures
        interleave_spec(deinterleave_spec(s, channels)) == s,
{
    let ch = channels as int;
    let planes = deinterleave_spec(s, channels);
    let m = s.len() / channels;
    lemma_fundamental_div_mod(s.len() as int, ch);
    assert(planes[0] == plane_of(s, channels, 0));
    assert(planes[0].len() == m);
    assert(interleave_spec(planes).len() == s.len());
    assert forall|i: int| 0 <= i < s.len() implies interleave_spec(planes)[i] == s[i] by {
        lemma_fundamental_div_mod(i, ch);
        lemma_mod_bound(i, ch);
        assert(planes[i % ch] == plane_of(s, channels, i % ch));
        assert(0 <= i / ch < m) by {
            assert(i == ch * (i / ch) + i % ch);
            assert(s.len() == ch * m);
            assert(ch * (i / ch) < ch * m ==> i / ch < m) by (nonlinear_arith)
                requires
                    ch >= 1,
            ;
            assert(ch * (i / ch) < ch * m);
        }
        assert(plane_of(s, channels, i % ch)[i / ch] == s[(i / ch) * ch + i % ch]);
        assert((i / ch) * ch + i % ch == i) by {
            assert(ch * (i / ch) == (i / ch) * ch) by (nonlinear_arith);
        }
    }
    assert(interleave_spec(planes) =~= s);
}

/// Splits an interleaved frame into one plane per channel, each holding
/// that channel's samples in time order.
pub fn deinterleave(frame: &Vec<i16>, channels: usize) -> (planes: Vec<Vec<i16>>)
    requires
        1 <= channels <= 0xffff,
        frame_well_formed(frame@, channels as nat),
    ensures
        planes@.len() == channels as int,
        forall|c: int|
            0 <= c < channels ==> (#[trigger] planes@[c])@ == plane_of(
                frame@,
                channels as nat,
                c,
            ),
{
    let steps = frame.len() / channels;
    proof {
        lemma_fundamental_div_mod(frame@.len() as int, channels as int);
    }
    let mut planes: Vec<Vec<i16>> = Vec::new();
    let mut c: usize = 0;
    while c < channels
        invariant
            c <= channels,
            steps == frame@.len() as int / channels as int,
            frame@.len() == channels as int * steps,
            frame@.len() <= usize::MAX,
            1 <= channels <= 0xffff,
            planes@.len() == c,
            forall|k: int|
                0 <= k < c ==> (#[trigger] planes@[k])@ == plane_of(frame@, channels as nat, k),
        decreases channels - c,
    {
        let mut plane: Vec<i16> = Vec::new();
        let mut t: usize = 0;
        while t < steps
            invariant
                t <= steps,
                c < channels,
                steps == frame@.len() as int / channels as int,
                frame@.len() == channels as int * steps,
                frame@.len() <= usize::MAX,
                1 <= channels <= 0xffff,
                plane@.len() == t,
                forall|j: int|
                    0 <= j < t ==> (#[trigger] plane@[j]) == frame@[j * (channels as int) + c],
            decreases steps - t,
        {
            proof {
                assert(t * channels + c < frame@.len()) by (nonlinear_arith)
                    requires
                        t < steps,
                        c < channels,
                        channels >= 1,
                        frame@.len() == channels as int * steps,
                ;
            }
            plane.push(frame[t * channels + c]);
            t = t + 1;
        }
        proof {
            assert(plane@ =~= plane_of(frame@, channels as nat, c as int));
        }
        planes.push(plane);
        c = c + 1;
    }
    planes
}

/// Weaves equally long per-channel planes back into one interleaved
/// frame.
pub fn interleave(planes: &Vec<Vec<i16>>) -> (frame: Vec<i16>)
    requires
        1 <= planes@.len() <= 0xffff,
        forall|c: int|
            0 <= c < planes@.len() ==> (#[trigger] planes@[c])@.len() == planes@[0]@.len(),
        planes@.len() * planes@[0]@.len() <= usize::MAX,
    ensures
        frame@ == interleave_spec(planes@.map_values(|p: Vec<i16>| p@)),
        frame_well_formed(frame@, planes@.len() as nat),
{
    let ghost view = planes@.map_values(|p: Vec<i16>| p@);
    let channels = planes.len();
    let steps = planes[0].len();
    let mut frame: Vec<i16> = Vec::new();
    let mut t: usize = 0;
    while t < steps
        invariant
            t <= steps,
            view == planes@.map_values(|p: Vec<i16>| p@),
            1 <= channels == planes@.len() <= 0xffff,
            steps == planes@[0]@.len(),
            forall|c: int| 0 <= c < channels ==> (#[trigger] planes@[c])@.len() == steps,
            channels * steps <= usize::MAX,
            frame@.len() == t * channels,
            forall|i: int|
                0 <= i < frame@.len() ==> (#[trigger] frame@[i]) == view[i % (channels as int)][i
                    / (channels as int)],
        decreases steps - t,
    {
        let mut c: usize = 0;
        while c < channels
            invariant
                c <= channels,
                t < steps,
                view == planes@.map_values(|p: Vec<i16>| p@),
                1 <= channels == planes@.len() <= 0xffff,
                steps == planes@[0]@.len(),
                forall|k: int| 0 <= k < channels ==> (#[trigger] planes@[k])@.len() == steps,
                channels * steps <= usize::MAX,
                frame@.len() == t * channels + c,
                forall|i: int|
                    0 <= i < frame@.len() ==> (#[trigger] frame@[i]) == view[i % (
                    channels as int)][i / (channels as int)],
            decreases channels - c,
        {
            proof {
                assert(t * channels + c < channels * steps) by (nonlinear_arith)
                    requires
                        t < steps,
                        c < channels,
                        channels >= 1,
                ;
            }
            frame.push(planes[c][t]);
            proof {
                let i = t * (channels as int) + c;
                lemma_fundamental_div_mod_converse(i, channels as int, t as int, c as int);
                assert(frame@[i] == view[i % (channels as int)][i / (channels as int)]);
            }
            c = c + 1;
        }
        proof {
            assert((t + 1) * channels == t * channels + channels) by (nonlinear_arith);
        }
        t = t + 1;
    }
    proof {
        assert(frame@.len() == steps * channels) by (nonlinear_arith)
            requires
                frame@.len() == t * channels,
                t == steps,
        ;
        assert(steps * channels == channels * steps) by (nonlinear_arith);
        assert(view[0] == planes@[0]@);
        assert(frame@ =~= interleave_spec(view));
        assert(frame@.len() as int % (planes@.len() as int) == 0) by {
            lemma_fundamental_div_mod_converse(
                frame@.len() as int,
                planes@.len() as int,
                steps as int,
                0,
            );
        }
    }
    frame
}

} // verus!
