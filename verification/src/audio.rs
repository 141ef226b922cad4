//! Integer audio conversion (multi-channel to mono, 32-bit to 16-bit) and
//! the reaction to a change of the audio devices.
use vstd::prelude::*;

use crate::commands::audio::RecordingState;
use crate::text::{decimal, decimal_string, push_str, str_eq, to_lowercase, unicode_lowercase};

verus! {

/// Whether a file extension names a WAV file (case ignored).
pub fn is_wav_extension(ext: Option<&str>) -> (b: bool)
    ensures
        b == (ext matches Some(e) && unicode_lowercase(e@) == "wav"@),
{
    match ext {
        Some(e) => {
            let l = to_lowercase(e);
            str_eq(l.as_str(), "wav")
        },
        None => false,
    }
}

/// The name of a converted file, from the time of conversion in seconds.
pub fn converted_file_name(timestamp: u64) -> (r: String)
    ensures
        r@ == "converted_"@ + decimal(timestamp as nat) + ".wav"@,
{
    let mut r = "converted_".to_owned();
    let d = decimal_string(timestamp);
    push_str(&mut r, d.as_str());
    push_str(&mut r, ".wav");
    r
}

/// Integer division rounding toward zero (Rust's `/` on integers).
pub open spec fn div_toward_zero(a: int, b: int) -> int {
    if a >= 0 {
        a / b
    } else {
        -((-a) / b)
    }
}

/// The sum of a run of samples.
pub open spec fn sample_sum(s: Seq<i16>) -> int
    decreases s.len(),
{
    if s.len() == 0 {
        0
    } else {
        sample_sum(s.drop_last()) + s.last() as int
    }
}

/// Frame `k` of interleaved audio: `channels` samples, fewer for a last,
/// partial frame.
pub open spec fn frame(samples: Seq<i16>, channels: int, k: int) -> Seq<i16> {
    let end = if (k + 1) * channels <= samples.len() {
        (k + 1) * channels
    } else {
        samples.len() as int
    };
    samples.subrange(k * channels, end)
}

/// How many frames interleaved audio holds (a partial last frame counts).
pub open spec fn frame_count(n: int, channels: int) -> int {
    (n + channels - 1) / channels
}

/// A sum of at most `n` samples lies within `n` times the sample range.
proof fn lemma_sum_bounds(s: Seq<i16>)
    ensures
        -32768 * s.len() <= sample_sum(s) <= 32767 * s.len(),
    decreases s.len(),
{
    if s.len() > 0 {
        lemma_sum_bounds(s.drop_last());
    }
}

/// Mono audio from interleaved audio: each frame's samples summed and divided
/// by the channel count, rounding toward zero (a partial last frame too).
pub fn downmix_to_mono(samples: &Vec<i16>, channels: usize) -> (r: Vec<i16>)
    requires
        1 <= channels <= 32768,
    ensures
        r@.len() == frame_count(samples@.len() as int, channels as int),
        forall|k: int|
            0 <= k < r@.len() ==> #[trigger] r@[k] as int == div_toward_zero(
                sample_sum(frame(samples@, channels as int, k)),
                channels as int,
            ),
{
    let n = samples.len();
    let mut r: Vec<i16> = Vec::new();
    let mut start: usize = 0;
    let ghost mut k: int = 0;
    assert(frame_count(0, channels as int) == 0) by (nonlinear_arith)
        requires channels >= 1;
    while start < n
        invariant
            1 <= channels <= 32768,
            n == samples@.len(),
            start <= n,
            start < n ==> start as int == k * channels,
            r@.len() == k,
            k == frame_count(start as int, channels as int),
            forall|m: int|
                0 <= m < k ==> #[trigger] r@[m] as int == div_toward_zero(
                    sample_sum(frame(samples@, channels as int, m)),
                    channels as int,
                ),
        decreases n - start,
    {
        let end = if n - start >= channels {
            start + channels
        } else {
            n
        };
        let ghost fr = samples@.subrange(start as int, end as int);
        assert(fr == frame(samples@, channels as int, k)) by {
            assert((k + 1) * channels == k * channels + channels) by (nonlinear_arith);
        }
        let mut sum: i32 = 0;
        let mut j: usize = start;
        while j < end
            invariant
                start <= j <= end,
                end <= n,
                n == samples@.len(),
                end - start <= channels,
                channels <= 32768,
                sum as int == sample_sum(samples@.subrange(start as int, j as int)),
            decreases end - j,
        {
            proof {
                lemma_sum_bounds(samples@.subrange(start as int, j as int));
                assert(samples@.subrange(start as int, j + 1).drop_last() =~= samples@.subrange(
                    start as int,
                    j as int,
                ));
                assert((j - start) <= 32768);
                assert(-32768 * (j - start) >= -32768 * 32768) by (nonlinear_arith)
                    requires (j - start) <= 32768, (j - start) >= 0;
                assert(32767 * (j - start) <= 32767 * 32768) by (nonlinear_arith)
                    requires (j - start) <= 32768, (j - start) >= 0;
            }
            sum = sum + samples[j] as i32;
            j = j + 1;
        }
        let c = channels as i32;
        proof {
            lemma_sum_bounds(fr);
            assert(fr.len() <= channels);
            assert(-32768 * fr.len() >= -32768 * (channels as int)) by (nonlinear_arith)
                requires fr.len() <= channels;
            assert(32767 * fr.len() <= 32767 * (channels as int)) by (nonlinear_arith)
                requires fr.len() <= channels;
        }
        let q: i32 = if sum >= 0 {
            sum / c
        } else {
            0 - ((0 - sum) / c)
        };
        proof {
            let si: int = sum as int;
            let ci: int = c as int;
            if si >= 0 {
                assert(si / ci <= 32767) by (nonlinear_arith)
                    requires si <= 32767 * ci, ci >= 1, si >= 0;
            } else {
                assert((-si) / ci <= 32768) by (nonlinear_arith)
                    requires -si <= 32768 * ci, ci >= 1, -si > 0;
            }
        }
        r.push(q as i16);
        proof {
            assert(frame_count(end as int, channels as int) == k + 1) by (nonlinear_arith)
                requires
                    start == k * channels,
                    end > start,
                    end <= start + channels,
                    channels >= 1,
            ;
        }
        start = end;
        proof {
            k = k + 1;
            if end < n {
                assert(k * channels == (k - 1) * channels + channels) by (nonlinear_arith);
            }
        }
    }
    r
}

/// A 32-bit sample as 16 bits: its top half (`sample >> 16`).
pub fn s32_to_i16(sample: i32) -> (r: i16)
    ensures
        r as int == (sample as int) / 65536,
{
    let shifted: i32 = sample >> 16;
    assert(-32768 <= shifted <= 32767 && shifted * 65536 <= sample && sample < shifted * 65536
        + 65536) by (bit_vector)
        requires shifted == sample >> 16;
    shifted as i16
}

/// What to do when the selected microphone may have been removed.
#[derive(Debug, Clone, Copy, PartialEq, Eq, Structural)]
pub enum MicrophoneFallback {
    /// The selected microphone is still there (or none is selected).
    Keep,
    /// It is gone, but a recording is under way: decide later.
    Defer,
    /// It is gone: fall back to the default microphone.
    ResetToDefault,
}

/// A recording is starting, running, stopping or being transcribed.
pub open spec fn recording_in_progress(s: RecordingState) -> bool {
    s == RecordingState::Starting || s == RecordingState::Recording || s
        == RecordingState::Stopping || s == RecordingState::Transcribing
}

/// The reaction to a new list of input devices.
pub fn microphone_fallback(
    selected: Option<&str>,
    devices: &Vec<String>,
    state: RecordingState,
) -> (r: MicrophoneFallback)
    ensures
        r == (match selected {
            None => MicrophoneFallback::Keep,
            Some(s) => if exists|i: int| 0 <= i < devices@.len() && (#[trigger] devices@[i])@ == s@ {
                MicrophoneFallback::Keep
            } else if recording_in_progress(state) {
                MicrophoneFallback::Defer
            } else {
                MicrophoneFallback::ResetToDefault
            },
        }),
{
    match selected {
        None => MicrophoneFallback::Keep,
        Some(s) => {
            let mut i: usize = 0;
            while i < devices.len()
                invariant
                    selected == Some(s),
                    i <= devices@.len(),
                    forall|j: int| 0 <= j < i ==> (#[trigger] devices@[j])@ != s@,
                decreases devices@.len() - i,
            {
                if str_eq(devices[i].as_str(), s) {
                    assert(devices@[i as int]@ == s@);
                    return MicrophoneFallback::Keep;
                }
                i = i + 1;
            }
            match state {
                RecordingState::Starting | RecordingState::Recording | RecordingState::Stopping
                | RecordingState::Transcribing => MicrophoneFallback::Defer,
                _ => MicrophoneFallback::ResetToDefault,
            }
        },
    }
}

} // verus!
