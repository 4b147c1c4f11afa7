//! Channel layout conversions between a device's interleaved frames and the
//! engine's interleaved stereo. Samples are moved, never computed on, except for
//! the mono downmix, which the caller supplies.

use vstd::prelude::*;
use vstd::arithmetic::div_mod::lemma_fundamental_div_mod_converse;

verus! {

/// Number of frames of `ch` samples in `n` samples (the last may be partial).
pub open spec fn frame_count(n: int, ch: int) -> int {
    (n + ch - 1) / ch
}

/// Right sample of the stereo pair taken from the device frame that starts at
/// `b`: the frame's second sample when the frame has one, else its first.
pub open spec fn right_of_frame<T>(s: Seq<T>, ch: int, b: int) -> T {
    if ch >= 2 && b + 1 < s.len() {
        s[b + 1]
    } else {
        s[b]
    }
}

/// Sample `i` of the stereo conversion of device frames of `ch` channels:
/// frame `i / 2` gives its first sample as left and its second (or first) as right.
pub open spec fn to_stereo_sample<T>(s: Seq<T>, ch: int, i: int) -> T {
    if i % 2 == 0 {
        s[(i / 2) * ch]
    } else {
        right_of_frame(s, ch, (i / 2) * ch)
    }
}

/// Sample `k` of output frame `f` when stereo is spread over `ch >= 3` channels:
/// left, right (or left for a lone last sample), then silence.
pub open spec fn spread_sample<T>(s: Seq<T>, f: int, k: int, silence: T) -> T {
    if k == 0 {
        s[2 * f]
    } else if k == 1 {
        right_of_frame(s, 2, 2 * f)
    } else {
        silence
    }
}

proof fn lemma_frame_count(n: int, ch: int, f: int)
    requires
        ch >= 1,
        n >= 0,
        f >= 0,
        f * ch >= n,
        f == 0 || (f - 1) * ch < n,
    ensures
        f == frame_count(n, ch),
{
    if f == 0 {
        lemma_fundamental_div_mod_converse(n + ch - 1, ch, 0, n + ch - 1);
    } else {
        assert((f - 1) * ch == f * ch - ch) by (nonlinear_arith);
        lemma_fundamental_div_mod_converse(n + ch - 1, ch, f, n + ch - 1 - f * ch);
    }
}

/// Converts interleaved frames of `channels` channels to interleaved stereo: mono
/// is duplicated to both sides, stereo is copied as it is, and wider layouts keep
/// their first two channels (a lone sample in a partial last frame goes to both).
pub fn to_stereo_interleaved<T: Copy>(samples: &[T], channels: u16) -> (out: Vec<T>)
    requires
        channels >= 1,
    ensures
        channels == 2 ==> out@ == samples@,
        channels != 2 ==> out@.len() == 2 * frame_count(samples@.len() as int, channels as int),
        channels != 2 ==> forall|i: int|
            0 <= i < out@.len() ==> #[trigger] out@[i] == to_stereo_sample(
                samples@,
                channels as int,
                i,
            ),
{
    let n = samples.len();
    let mut out: Vec<T> = Vec::new();
    if channels == 2 {
        let mut i: usize = 0;
        while i < n
            invariant
                n == samples@.len(),
                i <= n,
                out@ =~= samples@.take(i as int),
            decreases n - i,
        {
            out.push(samples[i]);
            i = i + 1;
        }
        assert(samples@.take(n as int) =~= samples@);
        return out;
    }
    let ch = channels as usize;
    let ghost chi = channels as int;
    let mut remaining: usize = n;
    let ghost mut f: int = 0;
    while remaining > 0
        invariant
            n == samples@.len(),
            ch == chi,
            chi >= 1,
            chi != 2,
            remaining <= n,
            f >= 0,
            out@.len() == 2 * f,
            remaining > 0 ==> n - remaining == f * chi,
            remaining == 0 ==> f * chi >= n,
            f == 0 || (f - 1) * chi < n,
            forall|i: int| 0 <= i < out@.len() ==> #[trigger] out@[i] == to_stereo_sample(
                samples@,
                chi,
                i,
            ),
        decreases remaining,
    {
        let b = n - remaining;
        let left = samples[b];
        let right = if ch >= 2 && b + 1 < n {
            samples[b + 1]
        } else {
            samples[b]
        };
        proof {
            let i0 = 2 * f;
            let i1 = 2 * f + 1;
            assert(i0 / 2 == f && i0 % 2 == 0);
            assert(i1 / 2 == f && i1 % 2 == 1);
        }
        out.push(left);
        out.push(right);
        proof {
            assert((f + 1) * chi == f * chi + chi) by (nonlinear_arith);
        }
        if remaining > ch {
            remaining = remaining - ch;
        } else {
            remaining = 0;
        }
        proof {
            f = f + 1;
        }
    }
    proof {
        lemma_frame_count(n as int, chi, f);
    }
    out
}

/// Converts interleaved stereo to a device layout of `channels` channels: mono
/// takes `downmix` of each pair (a lone last sample is paired with itself),
/// stereo is copied as it is, wider layouts get left, right, then `silence`, and
/// zero channels give nothing.
pub fn from_stereo_interleaved<T: Copy, F: Fn(T, T) -> T>(
    stereo: &[T],
    channels: u16,
    silence: T,
    downmix: F,
) -> (out: Vec<T>)
    requires
        forall|l: T, r: T| downmix.requires((l, r)),
    ensures
        channels == 2 ==> out@ == stereo@,
        channels == 0 ==> out@.len() == 0,
        channels == 1 ==> out@.len() == frame_count(stereo@.len() as int, 2),
        channels == 1 ==> forall|i: int|
            0 <= i < out@.len() ==> downmix.ensures(
                (stereo@[2 * i], right_of_frame(stereo@, 2, 2 * i)),
                #[trigger] out@[i],
            ),
        channels >= 3 ==> out@.len() == frame_count(stereo@.len() as int, 2) * channels,
        channels >= 3 ==> forall|i: int|
            0 <= i < out@.len() ==> #[trigger] out@[i] == spread_sample(
                stereo@,
                i / (channels as int),
                i % (channels as int),
                silence,
            ),
{
    let n = stereo.len();
    let mut out: Vec<T> = Vec::new();
    if channels == 2 {
        let mut i: usize = 0;
        while i < n
            invariant
                n == stereo@.len(),
                i <= n,
                out@ =~= stereo@.take(i as int),
            decreases n - i,
        {
            out.push(stereo[i]);
            i = i + 1;
        }
        assert(stereo@.take(n as int) =~= stereo@);
        return out;
    }
    if channels == 0 {
        return out;
    }
    let ch = channels as usize;
    let ghost chi = channels as int;
    let mut remaining: usize = n;
    let ghost mut f: int = 0;
    while remaining > 0
        invariant
            n == stereo@.len(),
            ch == chi,
            chi >= 1,
            chi != 2,
            remaining <= n,
            remaining > 0 ==> n - remaining == 2 * f,
            remaining == 0 ==> 2 * f >= n,
            f == 0 || 2 * (f - 1) < n,
            f >= 0,
            forall|l: T, r: T| downmix.requires((l, r)),
            chi == 1 ==> out@.len() == f,
            chi == 1 ==> forall|i: int|
                0 <= i < out@.len() ==> downmix.ensures(
                    (stereo@[2 * i], right_of_frame(stereo@, 2, 2 * i)),
                    #[trigger] out@[i],
                ),
            chi >= 3 ==> out@.len() == f * chi,
            chi >= 3 ==> forall|i: int|
                0 <= i < out@.len() ==> #[trigger] out@[i] == spread_sample(
                    stereo@,
                    i / chi,
                    i % chi,
                    silence,
                ),
        decreases remaining,
    {
        let b = n - remaining;
        let left = stereo[b];
        let right = if b + 1 < n {
            stereo[b + 1]
        } else {
            stereo[b]
        };
        if ch == 1 {
            let m = downmix(left, right);
            out.push(m);
        } else {
            let mut k: usize = 0;
            while k < ch
                invariant
                    n == stereo@.len(),
                    ch == chi,
                    chi >= 3,
                    b == 2 * f,
                    b < n,
                    f >= 0,
                    k <= ch,
                    left == stereo@[b as int],
                    right == right_of_frame(stereo@, 2, b as int),
                    out@.len() == f * chi + k,
                    forall|i: int|
                        0 <= i < out@.len() ==> #[trigger] out@[i] == spread_sample(
                            stereo@,
                            i / chi,
                            i % chi,
                            silence,
                        ),
                decreases ch - k,
            {
                let v = if k == 0 {
                    left
                } else if k == 1 {
                    right
                } else {
                    silence
                };
                proof {
                    let j = f * chi + k;
                    lemma_fundamental_div_mod_converse(j, chi, f, k as int);
                }
                out.push(v);
                k = k + 1;
            }
            proof {
                assert(f * chi + chi == (f + 1) * chi) by (nonlinear_arith);
            }
        }
        if remaining > 2 {
            remaining = remaining - 2;
        } else {
            remaining = 0;
        }
        proof {
            f = f + 1;
        }
    }
    proof {
        lemma_frame_count(n as int, 2, f);
    }
    out
}

/// Spreading a stereo block of whole frames over a device layout of three or more
/// channels (as `from_stereo_interleaved` states it) and reading those device
/// frames back as stereo (as `to_stereo_interleaved` states it) gives the block back.
pub proof fn law_wide_layout_round_trip<T>(
    stereo: Seq<T>,
    ch: int,
    silence: T,
    device: Seq<T>,
    back: Seq<T>,
)
    requires
        ch >= 3,
        stereo.len() % 2 == 0,
        device.len() == frame_count(stereo.len() as int, 2) * ch,
        forall|i: int|
            0 <= i < device.len() ==> #[trigger] device[i] == spread_sample(stereo, i / ch, i % ch, silence),
        back.len() == 2 * frame_count(device.len() as int, ch),
        forall|i: int| 0 <= i < back.len() ==> #[trigger] back[i] == to_stereo_sample(device, ch, i),
    ensures
        back == stereo,
{
    let frames: int = stereo.len() as int / 2;
    assert(frame_count(stereo.len() as int, 2) == frames);
    lemma_fundamental_div_mod_converse(frames * ch + ch - 1, ch, frames, ch - 1);
    assert(back.len() == stereo.len());
    assert forall|i: int| 0 <= i < back.len() implies back[i] == stereo[i] by {
        let q = i / 2;
        let b = q * ch;
        assert(q + 1 <= frames);
        assert(b + ch <= frames * ch) by (nonlinear_arith)
            requires
                q + 1 <= frames,
                b == q * ch,
                ch >= 3,
        ;
        lemma_fundamental_div_mod_converse(b, ch, q, 0);
        lemma_fundamental_div_mod_converse(b + 1, ch, q, 1);
        assert(device[b] == spread_sample(stereo, q, 0, silence));
        assert(device[b + 1] == spread_sample(stereo, q, 1, silence));
        if i % 2 == 0 {
            assert(i == 2 * q);
        } else {
            assert(i == 2 * q + 1);
        }
    }
    assert(back =~= stereo);
}

} // verus!
