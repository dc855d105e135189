//! Channel reduction of captured PCM and the native capture format.

use vstd::prelude::*;
use vstd::arithmetic::div_mod::{
    lemma_div_is_ordered,
    lemma_div_multiples_vanish,
    lemma_fundamental_div_mod_converse,
    lemma_hoist_over_denominator,
};

verus! {

/// Native capture format of an input device.
#[derive(Clone, Copy, Debug, PartialEq, Eq, Structural)]
pub struct DeviceFormat {
    pub sample_rate: u32,
    pub channels: u16,
}

/// Sum of a sequence of samples.
pub open spec fn sample_sum(s: Seq<i16>) -> int
    decreases s.len(),
{
    if s.len() == 0 {
        0
    } else {
        sample_sum(s.drop_last()) + s.last()
    }
}

/// Frame `i` of interleaved samples with `n` channels.
pub open spec fn frame(s: Seq<i16>, n: nat, i: int) -> Seq<i16> {
    s.subrange(i * n, i * n + n)
}

/// Interleaved stereo reduced to mono: sample `i` is the mean of the two
/// channels of frame `i`, rounded down; a trailing half frame is dropped.
pub open spec fn stereo_mono(s: Seq<i16>) -> Seq<i16> {
    Seq::new(s.len() / 2, |i: int| ((s[2 * i] + s[2 * i + 1]) / 2) as i16)
}

/// Interleaved samples with `n` channels reduced to mono: sample `i` is the
/// mean of all channels of frame `i`, rounded down; an incomplete trailing
/// frame is dropped.
pub open spec fn mix_down(s: Seq<i16>, n: nat) -> Seq<i16>
    recommends
        n > 0,
{
    Seq::new(s.len() / n, |i: int| (sample_sum(frame(s, n, i)) / (n as int)) as i16)
}

/// The channel step from `native` to `desired` channels: none when they are
/// equal, a stereo downmix from two channels to one, a mean over all
/// channels from more than two, and none otherwise.
pub open spec fn channel_step(s: Seq<i16>, native: u16, desired: u16) -> Seq<i16> {
    if native == desired {
        s
    } else if native == 2 && desired == 1 {
        stereo_mono(s)
    } else if native > 2 {
        mix_down(s, native as nat)
    } else {
        s
    }
}

/// Number of channels that the channel step leaves.
pub open spec fn channels_after(native: u16, desired: u16) -> u16 {
    if native == desired {
        native
    } else if native == 2 && desired == 1 {
        1
    } else if native > 2 {
        1
    } else {
        native
    }
}

/// Number of channels that the channel step leaves.
pub fn reduced_channels(native: u16, desired: u16) -> (r: u16)
    ensures
        r == channels_after(native, desired),
{
    if native == desired {
        native
    } else if native == 2 && desired == 1 {
        1
    } else if native > 2 {
        1
    } else {
        native
    }
}

/// Reduces interleaved stereo to mono by averaging the two channels of each
/// frame.
pub fn stereo_to_mono(stereo_data: &[i16]) -> (mono_data: Vec<i16>)
    ensures
        mono_data@ == stereo_mono(stereo_data@),
        mono_data@.len() == stereo_data@.len() / 2,
        forall|i: int|
            0 <= i < mono_data@.len() ==> #[trigger] mono_data@[i] as int == (stereo_data@[2 * i]
                + stereo_data@[2 * i + 1]) / 2,
{
    let len = stereo_data.len();
    let frames = len / 2;
    let mut mono_data: Vec<i16> = Vec::with_capacity(frames);
    let mut i: usize = 0;
    while i < frames
        invariant
            len == stereo_data@.len(),
            frames == stereo_data@.len() / 2,
            i <= frames,
            mono_data@.len() == i,
            forall|k: int|
                0 <= k < i ==> #[trigger] mono_data@[k] as int == (stereo_data@[2 * k]
                    + stereo_data@[2 * k + 1]) / 2,
        decreases frames - i,
    {
        let left = stereo_data[2 * i] as i32;
        let right = stereo_data[2 * i + 1] as i32;
        let shifted: u32 = (left + right + 65536) as u32;
        let average = ((shifted / 2) as i32 - 32768) as i16;
        mono_data.push(average);
        i = i + 1;
    }
    proof {
        assert(mono_data@ =~= stereo_mono(stereo_data@));
    }
    mono_data
}

/// Sum of one frame, by a loop over its channels.
fn frame_sum(data: &[i16], base: usize, n: usize) -> (sum: i64)
    requires
        base + n <= data@.len(),
        n <= u16::MAX,
    ensures
        sum == sample_sum(data@.subrange(base as int, base + n)),
        -32768 * n <= sum <= 32767 * n,
{
    let len = data.len();
    let mut sum: i64 = 0;
    let mut j: usize = 0;
    while j < n
        invariant
            len == data@.len(),
            base + n <= data@.len(),
            n <= u16::MAX,
            j <= n,
            sum == sample_sum(data@.subrange(base as int, base + j)),
            -32768 * j <= sum <= 32767 * j,
        decreases n - j,
    {
        proof {
            assert(data@.subrange(base as int, base + j + 1).drop_last() =~= data@.subrange(
                base as int,
                base + j,
            ));
        }
        sum = sum + data[base + j] as i64;
        j = j + 1;
    }
    sum
}

/// Reduces interleaved samples with `channels` channels to mono by taking
/// the mean of each frame.
pub fn mix_to_mono(data: &[i16], channels: u16) -> (mono_data: Vec<i16>)
    requires
        channels > 0,
    ensures
        mono_data@ == mix_down(data@, channels as nat),
{
    let n = channels as usize;
    let len = data.len();
    let frames = len / n;
    let mut mono_data: Vec<i16> = Vec::with_capacity(frames);
    let mut i: usize = 0;
    while i < frames
        invariant
            len == data@.len(),
            n == channels as nat,
            n > 0,
            frames == data@.len() as int / (n as int),
            i <= frames,
            mono_data@.len() == i,
            forall|k: int|
                0 <= k < i ==> #[trigger] mono_data@[k] == (sample_sum(frame(data@, n as nat, k))
                    / (n as int)) as i16,
        decreases frames - i,
    {
        proof {
            assert((i + 1) * n <= frames * n) by (nonlinear_arith)
                requires
                    i < frames,
                    n > 0,
            ;
            assert(frames * n <= data@.len()) by (nonlinear_arith)
                requires
                    frames == data@.len() as int / (n as int),
                    n > 0,
            ;
            assert((i + 1) * n == i * n + n) by (nonlinear_arith);
            assert(i * n <= (i + 1) * n) by (nonlinear_arith);
        }
        let base = i * n;
        let sum = frame_sum(data, base, n);
        let ghost s = sum as int;
        let shifted: u64 = (sum + 32768 * (n as i64)) as u64;
        let mean = ((shifted / (n as u64)) as i64 - 32768) as i64;
        proof {
            lemma_hoist_over_denominator(s, 32768, n as nat);
            assert(32768 * (n as int) == 32768int * (n as nat)) by (nonlinear_arith);
            lemma_div_is_ordered(-32768 * (n as int), s, n as int);
            lemma_div_is_ordered(s, 32767 * (n as int), n as int);
            lemma_div_multiples_vanish(-32768, n as int);
            lemma_div_multiples_vanish(32767, n as int);
            assert((n as int) * -32768 == -32768 * (n as int)) by (nonlinear_arith);
            assert((n as int) * 32767 == 32767 * (n as int)) by (nonlinear_arith);
            assert(mean == s / (n as int));
        }
        mono_data.push(mean as i16);
        i = i + 1;
    }
    proof {
        assert(mono_data@ =~= mix_down(data@, n as nat));
    }
    mono_data
}

/// Applies the channel step from `native` to `desired` channels.
pub fn reduce_channels(samples: Vec<i16>, native: u16, desired: u16) -> (r: Vec<i16>)
    ensures
        r@ == channel_step(samples@, native, desired),
{
    if native == desired {
        samples
    } else if native == 2 && desired == 1 {
        stereo_to_mono(samples.as_slice())
    } else if native > 2 {
        mix_to_mono(samples.as_slice(), native)
    } else {
        samples
    }
}

} // verus!
