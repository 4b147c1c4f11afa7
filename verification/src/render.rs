//! The output callbacks: each fills a device buffer from the ring buffers, in the
//! device's channel layout. Sample arithmetic (clipping, listen volume, downmix)
//! is supplied by the caller; the block structure, buffering and channel mapping
//! are here.

use vstd::prelude::*;

use crate::channel_map::{frame_count, from_stereo_interleaved, right_of_frame, spread_sample};
use crate::mixer::MixControls;
use crate::ring_buffer::{read_block, SpscRingBuffer};

verus! {

/// `block` laid out for a device with `ch` channels, as `from_stereo_interleaved`
/// states it: a copy for stereo, `downmix` of each pair for mono, left, right and
/// `silence` for wider layouts.
pub open spec fn laid_out<T, D: Fn(T, T) -> T>(
    block: Seq<T>,
    ch: int,
    silence: T,
    downmix: D,
    out: Seq<T>,
) -> bool {
    &&& ch == 2 ==> out == block
    &&& ch == 1 ==> out.len() == frame_count(block.len() as int, 2) && forall|i: int|
        0 <= i < out.len() ==> downmix.ensures(
            (block[2 * i], right_of_frame(block, 2, 2 * i)),
            #[trigger] out[i],
        )
    &&& ch >= 3 ==> out.len() == frame_count(block.len() as int, 2) * ch && forall|i: int|
        0 <= i < out.len() ==> #[trigger] out[i] == spread_sample(block, i / ch, i % ch, silence)
}

/// Copies `src` into `out`, which has the same length.
fn copy_into<T: Copy>(out: &mut [T], src: &Vec<T>)
    requires
        old(out)@.len() == src@.len(),
    ensures
        final(out)@ == src@,
{
    let n = out.len();
    let mut i: usize = 0;
    while i < n
        invariant
            n == out@.len(),
            n == src@.len(),
            i <= n,
            forall|k: int| 0 <= k < i ==> out@[k] == src@[k],
        decreases n - i,
    {
        out[i] = src[i];
        i = i + 1;
    }
    assert(out@ =~= src@);
}

/// Each sample of `block` passed through `level`, in order.
fn map_samples<T: Copy, G: Fn(T) -> T>(block: &Vec<T>, level: G) -> (r: Vec<T>)
    requires
        forall|x: T| level.requires((x,)),
    ensures
        r@.len() == block@.len(),
        forall|k: int| 0 <= k < block@.len() ==> level.ensures((block@[k],), #[trigger] r@[k]),
{
    let n = block.len();
    let mut r: Vec<T> = Vec::new();
    let mut i: usize = 0;
    while i < n
        invariant
            n == block@.len(),
            i <= n,
            r@.len() == i,
            forall|x: T| level.requires((x,)),
            forall|k: int| 0 <= k < i ==> level.ensures((block@[k],), #[trigger] r@[k]),
        decreases n - i,
    {
        let s = level(block[i]);
        r.push(s);
        i = i + 1;
    }
    r
}

/// A block of `len` copies of `v`.
fn filled<T: Copy>(len: usize, v: T) -> (r: Vec<T>)
    ensures
        r@ == Seq::new(len as nat, |k: int| v),
{
    let mut r: Vec<T> = Vec::new();
    let mut i: usize = 0;
    while i < len
        invariant
            i <= len,
            r@ =~= Seq::new(i as nat, |k: int| v),
        decreases len - i,
    {
        r.push(v);
        i = i + 1;
    }
    r
}

/// Fills the virtual-mic device buffer: reads one stereo block (as many frames as
/// the device buffer holds) from the voice buffer, passes every sample through
/// `level` (the voice gains and the clipping to the sample range), copies the block to the
/// monitor buffer when the monitor is on, and lays the block out in the device's
/// channels.
pub fn render_voice<T: Copy, G: Fn(T) -> T, D: Fn(T, T) -> T>(
    out: &mut [T],
    out_channels: u16,
    controls: &MixControls,
    voice_rb: &mut SpscRingBuffer<T>,
    monitor_rb: &mut SpscRingBuffer<T>,
    level: G,
    downmix: D,
)
    requires
        out_channels >= 1,
        (old(out)@.len() as int) % (out_channels as int) == 0,
        2 * ((old(out)@.len() as int) / (out_channels as int)) <= usize::MAX,
        old(voice_rb).well_formed(),
        old(monitor_rb).well_formed(),
        forall|x: T| level.requires((x,)),
        forall|l: T, r: T| downmix.requires((l, r)),
    ensures
        ({
            let len = 2 * ((old(out)@.len() as int) / (out_channels as int));
            let block = read_block(old(voice_rb)@, len, old(voice_rb).spec_silence());
            exists|stereo: Seq<T>|
                {
                    &&& stereo.len() == len
                    &&& forall|i: int| 0 <= i < len ==> level.ensures((block[i],), #[trigger] stereo[i])
                    &&& laid_out(stereo, out_channels as int, old(voice_rb).spec_silence(), downmix, final(out)@)
                    &&& (controls.spec_monitor_enabled() ==> final(monitor_rb)@ == old(monitor_rb)@ + stereo.take(
                        vstd::math::min(len, old(monitor_rb).spec_capacity() - old(monitor_rb)@.len()),
                    ))
                    &&& (!controls.spec_monitor_enabled() ==> final(monitor_rb)@ == old(monitor_rb)@)
                }
        }),
        final(out)@.len() == old(out)@.len(),
        final(voice_rb)@ == old(voice_rb)@.skip(
            vstd::math::min(2 * ((old(out)@.len() as int) / (out_channels as int)), old(voice_rb)@.len() as int),
        ),
        final(voice_rb).well_formed(),
        final(monitor_rb).well_formed(),
        final(voice_rb).spec_capacity() == old(voice_rb).spec_capacity(),
        final(voice_rb).spec_silence() == old(voice_rb).spec_silence(),
        final(monitor_rb).spec_capacity() == old(monitor_rb).spec_capacity(),
        final(monitor_rb).spec_silence() == old(monitor_rb).spec_silence(),
{
    let ch = out_channels as usize;
    let frames = out.len() / ch;
    let stereo_len = frames * 2;
    let silence = voice_rb.silence();
    let mut voice = filled(stereo_len, silence);
    let ghost before = voice_rb@;
    let count = voice_rb.pop_into(voice.as_mut_slice());
    assert(voice@ =~= read_block(before, stereo_len as int, silence));
    let stereo = map_samples(&voice, level);
    if controls.monitor_enabled() {
        monitor_rb.push(stereo.as_slice());
    }
    let mapped = from_stereo_interleaved(stereo.as_slice(), out_channels, silence, downmix);
    proof {
        let n = stereo@.len() as int;
        let chi = out_channels as int;
        let len = old(out)@.len() as int;
        assert(len == (len / chi) * chi) by {
            vstd::arithmetic::div_mod::lemma_fundamental_div_mod(len, chi);
        }
        if chi == 1 {
            assert(frame_count(n, 2) == len / chi);
        } else if chi >= 3 {
            assert(frame_count(n, 2) == len / chi);
            assert(frame_count(n, 2) * chi == len);
        }
    }
    copy_into(out, &mapped);
    proof {
        let len = stereo_len as int;
        let block = read_block(before, len, silence);
        assert(block == voice@);
        assert(forall|i: int| 0 <= i < len ==> level.ensures((block[i],), #[trigger] stereo@[i]));
        assert(laid_out(stereo@, out_channels as int, silence, downmix, out@));
    }
}

/// Fills the headphone device buffer: silence while the monitor is off, whatever
/// the buffer's size and channel count; otherwise one stereo block from the monitor buffer, each sample passed through `level`
/// (the listen volume), laid out in the device's channels.
pub fn render_monitor<T: Copy, G: Fn(T) -> T, D: Fn(T, T) -> T>(
    out: &mut [T],
    out_channels: u16,
    controls: &MixControls,
    monitor_rb: &mut SpscRingBuffer<T>,
    level: G,
    downmix: D,
)
    requires
        controls.spec_monitor_enabled() ==> {
            &&& out_channels >= 1
            &&& (old(out)@.len() as int) % (out_channels as int) == 0
            &&& 2 * ((old(out)@.len() as int) / (out_channels as int)) <= usize::MAX
        },
        old(monitor_rb).well_formed(),
        forall|x: T| level.requires((x,)),
        forall|l: T, r: T| downmix.requires((l, r)),
    ensures
        final(out)@.len() == old(out)@.len(),
        !controls.spec_monitor_enabled() ==> final(out)@ == Seq::new(
            old(out)@.len(),
            |k: int| old(monitor_rb).spec_silence(),
        ) && final(monitor_rb)@ == old(monitor_rb)@,
        controls.spec_monitor_enabled() ==> ({
            let len = 2 * ((old(out)@.len() as int) / (out_channels as int));
            let block = read_block(old(monitor_rb)@, len, old(monitor_rb).spec_silence());
            &&& exists|leveled: Seq<T>|
                {
                    &&& leveled.len() == len
                    &&& forall|i: int| 0 <= i < len ==> level.ensures((block[i],), #[trigger] leveled[i])
                    &&& laid_out(leveled, out_channels as int, old(monitor_rb).spec_silence(), downmix, final(out)@)
                }
            &&& final(monitor_rb)@ == old(monitor_rb)@.skip(vstd::math::min(len, old(monitor_rb)@.len() as int))
        }),
        final(monitor_rb).well_formed(),
        final(monitor_rb).spec_capacity() == old(monitor_rb).spec_capacity(),
        final(monitor_rb).spec_silence() == old(monitor_rb).spec_silence(),
{
    let silence = monitor_rb.silence();
    if !controls.monitor_enabled() {
        let quiet = filled(out.len(), silence);
        copy_into(out, &quiet);
        return;
    }
    let ch = out_channels as usize;
    let frames = out.len() / ch;
    let stereo_len = frames * 2;
    let mut block = filled(stereo_len, silence);
    let ghost before = monitor_rb@;
    let count = monitor_rb.pop_into(block.as_mut_slice());
    assert(block@ =~= read_block(before, stereo_len as int, silence));
    let leveled = map_samples(&block, level);
    let mapped = from_stereo_interleaved(leveled.as_slice(), out_channels, silence, downmix);
    proof {
        let n = leveled@.len() as int;
        let chi = out_channels as int;
        let len = old(out)@.len() as int;
        assert(len == (len / chi) * chi) by {
            vstd::arithmetic::div_mod::lemma_fundamental_div_mod(len, chi);
        }
        if chi == 1 {
            assert(frame_count(n, 2) == len / chi);
        } else if chi >= 3 {
            assert(frame_count(n, 2) == len / chi);
            assert(frame_count(n, 2) * chi == len);
        }
    }
    copy_into(out, &mapped);
    proof {
        let len = stereo_len as int;
        let b = read_block(before, len, silence);
        assert(b == block@);
        assert(forall|i: int| 0 <= i < len ==> level.ensures((b[i],), #[trigger] leveled@[i]));
        assert(laid_out(leveled@, out_channels as int, silence, downmix, out@));
    }
}

} // verus!
