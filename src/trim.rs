//! Trimming leading and trailing silence, and the 16-bit PCM payload of a recording.

use vstd::prelude::*;
use crate::sample::{is_loud, pcm16_of, sample_is_loud, to_pcm16};

verus! {

/// Some sample of `d` is above the threshold.
pub open spec fn has_sound(d: Seq<i32>, threshold: u32) -> bool {
    exists|i: int| 0 <= i < d.len() && #[trigger] is_loud(d[i], threshold)
}

/// `i` is the first index of `d` whose sample is above the threshold.
pub open spec fn is_first_loud(d: Seq<i32>, threshold: u32, i: int) -> bool {
    &&& 0 <= i < d.len()
    &&& is_loud(d[i], threshold)
    &&& forall|j: int| 0 <= j < i ==> !#[trigger] is_loud(d[j], threshold)
}

/// `i` is the last index of `d` whose sample is above the threshold.
pub open spec fn is_last_loud(d: Seq<i32>, threshold: u32, i: int) -> bool {
    &&& 0 <= i < d.len()
    &&& is_loud(d[i], threshold)
    &&& forall|j: int| i < j < d.len() ==> !#[trigger] is_loud(d[j], threshold)
}

pub open spec fn first_loud(d: Seq<i32>, threshold: u32) -> int {
    choose|i: int| is_first_loud(d, threshold, i)
}

pub open spec fn last_loud(d: Seq<i32>, threshold: u32) -> int {
    choose|i: int| is_last_loud(d, threshold, i)
}

/// Start of the kept window: `keep` samples before the first sound, not before 0.
pub open spec fn trim_start(d: Seq<i32>, threshold: u32, keep: nat) -> int {
    let i0 = first_loud(d, threshold);
    if i0 >= keep {
        i0 - keep
    } else {
        0
    }
}

/// End (exclusive) of the kept window: `keep` samples after the last sound, not past the end.
pub open spec fn trim_end(d: Seq<i32>, threshold: u32, keep: nat) -> int {
    let i1 = last_loud(d, threshold);
    if i1 + keep + 1 <= d.len() {
        i1 + keep + 1
    } else {
        d.len() as int
    }
}

/// The samples kept by trimming `d`.
pub open spec fn trimmed(d: Seq<i32>, threshold: u32, keep: nat) -> Seq<i32> {
    d.subrange(trim_start(d, threshold, keep), trim_end(d, threshold, keep))
}

/// A sequence with a sound has exactly one first and one last sound.
pub proof fn lemma_loud_bounds(d: Seq<i32>, threshold: u32)
    requires
        has_sound(d, threshold),
    ensures
        is_first_loud(d, threshold, first_loud(d, threshold)),
        is_last_loud(d, threshold, last_loud(d, threshold)),
        first_loud(d, threshold) <= last_loud(d, threshold),
{
    let k = choose|k: int| 0 <= k < d.len() && #[trigger] is_loud(d[k], threshold);
    lemma_first_loud_exists(d, threshold, k);
    lemma_last_loud_exists(d, threshold, k);
}

proof fn lemma_first_loud_exists(d: Seq<i32>, threshold: u32, k: int)
    requires
        0 <= k < d.len(),
        is_loud(d[k], threshold),
    ensures
        is_first_loud(d, threshold, first_loud(d, threshold)),
        first_loud(d, threshold) <= k,
    decreases k,
{
    if forall|j: int| 0 <= j < k ==> !#[trigger] is_loud(d[j], threshold) {
        assert(is_first_loud(d, threshold, k));
    } else {
        let j = choose|j: int| 0 <= j < k && #[trigger] is_loud(d[j], threshold);
        lemma_first_loud_exists(d, threshold, j);
    }
    lemma_first_loud_unique(d, threshold, first_loud(d, threshold), k);
}

proof fn lemma_last_loud_exists(d: Seq<i32>, threshold: u32, k: int)
    requires
        0 <= k < d.len(),
        is_loud(d[k], threshold),
    ensures
        is_last_loud(d, threshold, last_loud(d, threshold)),
        last_loud(d, threshold) >= k,
    decreases d.len() - k,
{
    if forall|j: int| k < j < d.len() ==> !#[trigger] is_loud(d[j], threshold) {
        assert(is_last_loud(d, threshold, k));
    } else {
        let j = choose|j: int| k < j < d.len() && #[trigger] is_loud(d[j], threshold);
        lemma_last_loud_exists(d, threshold, j);
    }
}

proof fn lemma_first_loud_unique(d: Seq<i32>, threshold: u32, i: int, k: int)
    requires
        is_first_loud(d, threshold, i),
        0 <= k < d.len(),
        is_loud(d[k], threshold),
    ensures
        i <= k,
{
}

/// Trimming is idempotent: trimming an already trimmed recording with the
/// same threshold and padding keeps all of it.
pub proof fn lemma_trim_idempotent(d: Seq<i32>, threshold: u32, keep: nat)
    requires
        has_sound(d, threshold),
    ensures
        has_sound(trimmed(d, threshold, keep), threshold),
        trim_start(trimmed(d, threshold, keep), threshold, keep) == 0,
        trim_end(trimmed(d, threshold, keep), threshold, keep) == trimmed(d, threshold, keep).len(),
        trimmed(trimmed(d, threshold, keep), threshold, keep) == trimmed(d, threshold, keep),
{
    lemma_loud_bounds(d, threshold);
    let i0 = first_loud(d, threshold);
    let i1 = last_loud(d, threshold);
    let s = trim_start(d, threshold, keep);
    let e = trim_end(d, threshold, keep);
    let t = trimmed(d, threshold, keep);
    assert(t[i0 - s] == d[i0]);
    assert(is_loud(t[i0 - s], threshold));
    assert(has_sound(t, threshold));
    assert(is_first_loud(t, threshold, i0 - s)) by {
        assert forall|j: int| 0 <= j < i0 - s implies !#[trigger] is_loud(t[j], threshold) by {
            assert(t[j] == d[j + s]);
        }
    }
    assert(is_last_loud(t, threshold, i1 - s)) by {
        assert(t[i1 - s] == d[i1]);
        assert forall|j: int| i1 - s < j < t.len() implies !#[trigger] is_loud(t[j], threshold) by {
            assert(t[j] == d[j + s]);
        }
    }
    lemma_loud_bounds(t, threshold);
    lemma_first_loud_unique(t, threshold, first_loud(t, threshold), i0 - s);
    lemma_first_loud_unique(t, threshold, i0 - s, first_loud(t, threshold));
    assert(last_loud(t, threshold) == i1 - s) by {
        let l = last_loud(t, threshold);
        if l < i1 - s {
            assert(!is_loud(t[i1 - s], threshold));
        } else if l > i1 - s {
            assert(!is_loud(t[l], threshold));
        }
    }
    assert(t.subrange(0, t.len() as int) =~= t);
}

/// Finds the kept window `[start, end)` of `data`, or `None` when no sample
/// is above the threshold.
pub fn trim_bounds(data: &[i32], threshold: u32, keep: usize) -> (r: Option<(usize, usize)>)
    ensures
        r is None <==> !has_sound(data@, threshold),
        r matches Some((s, e)) ==> s == trim_start(data@, threshold, keep as nat)
            && e == trim_end(data@, threshold, keep as nat),
{
    let n = data.len();
    let mut i: usize = 0;
    while i < n && !sample_is_loud(data[i], threshold)
        invariant
            n == data@.len(),
            0 <= i <= n,
            forall|j: int| 0 <= j < i ==> !#[trigger] is_loud(data@[j], threshold),
        decreases n - i,
    {
        i = i + 1;
    }
    if i == n {
        assert(!has_sound(data@, threshold));
        return None;
    }
    let i0 = i;
    assert(is_loud(data@[i0 as int], threshold));
    assert(has_sound(data@, threshold));
    let mut k: usize = n - 1;
    while !sample_is_loud(data[k], threshold)
        invariant
            n == data@.len(),
            i0 <= k < n,
            is_loud(data@[i0 as int], threshold),
            forall|j: int| k < j < n ==> !#[trigger] is_loud(data@[j], threshold),
        decreases k,
    {
        k = k - 1;
    }
    let i1 = k;
    proof {
        lemma_loud_bounds(data@, threshold);
        assert(is_first_loud(data@, threshold, i0 as int));
        lemma_first_loud_unique(data@, threshold, i0 as int, first_loud(data@, threshold));
        lemma_first_loud_unique(data@, threshold, first_loud(data@, threshold), i0 as int);
        let l = last_loud(data@, threshold);
        if l < i1 {
            assert(!is_loud(data@[i1 as int], threshold));
        } else if l > i1 {
            assert(!is_loud(data@[l], threshold));
        }
    }
    let start: usize = if i0 >= keep {
        i0 - keep
    } else {
        0
    };
    let end: usize = if keep < n - i1 {
        i1 + keep + 1
    } else {
        n
    };
    Some((start, end))
}

/// The samples of `data` kept by trimming, or nothing when all of it is silence.
pub fn trim_leading_silence(data: &[i32], threshold: u32, keep: usize) -> (r: Vec<i32>)
    ensures
        has_sound(data@, threshold) ==> r@ == trimmed(data@, threshold, keep as nat),
        !has_sound(data@, threshold) ==> r@.len() == 0,
{
    match trim_bounds(data, threshold, keep) {
        None => Vec::new(),
        Some((start, end)) => {
            proof {
                lemma_loud_bounds(data@, threshold);
            }
            let mut out: Vec<i32> = Vec::with_capacity(end - start);
            let mut i: usize = start;
            while i < end
                invariant
                    0 <= start <= i <= end <= data@.len(),
                    out@ == data@.subrange(start as int, i as int),
                decreases end - i,
            {
                out.push(data[i]);
                assert(data@.subrange(start as int, i + 1) =~= data@.subrange(start as int, i as int).push(data@[i as int]));
                i = i + 1;
            }
            out
        },
    }
}

/// What went wrong turning a recording into a waveform file.
#[derive(Debug, Clone, PartialEq, Eq)]
pub enum SaveError {
    /// Nothing was recorded, or every sample is at or below the threshold.
    EmptyAudio,
    /// The temporary file could not be created.
    TempFile(String),
    /// A sample could not be written.
    Encoding(String),
    /// The file could not be finalized.
    Finalize(String),
}

/// A mono 16-bit PCM recording, ready to be written as a waveform file.
#[derive(Debug, Clone, PartialEq, Eq)]
pub struct WavPayload {
    pub channels: u16,
    pub sample_rate: u32,
    pub bits_per_sample: u16,
    pub samples: Vec<i16>,
}

/// Padding kept around the sound: a fifth of a second of samples.
pub open spec fn keep_samples(sample_rate: u32) -> nat {
    (sample_rate / 5) as nat
}

/// The PCM values of a sequence of samples.
pub open spec fn pcm16_seq(d: Seq<i32>) -> Seq<int> {
    d.map_values(|s: i32| pcm16_of(s))
}

/// Converts every sample to 16-bit PCM.
pub fn samples_to_pcm16(data: &[i32]) -> (r: Vec<i16>)
    ensures
        r@.len() == data@.len(),
        forall|i: int| 0 <= i < data@.len() ==> #[trigger] r@[i] as int == pcm16_of(data@[i]),
{
    let mut out: Vec<i16> = Vec::with_capacity(data.len());
    let mut i: usize = 0;
    while i < data.len()
        invariant
            0 <= i <= data@.len(),
            out@.len() == i,
            forall|j: int| 0 <= j < i ==> #[trigger] out@[j] as int == pcm16_of(data@[j]),
        decreases data@.len() - i,
    {
        out.push(to_pcm16(data[i]));
        i = i + 1;
    }
    out
}

/// `r` is the outcome of turning the recording `audio` into a waveform: an
/// `EmptyAudio` error exactly when no sample is above the threshold, else
/// mono 16-bit PCM at `sample_rate` of the trimmed samples.
pub open spec fn is_wav_of(r: Result<WavPayload, SaveError>, audio: Seq<i32>, sample_rate: u32, threshold: u32) -> bool {
    &&& r is Err <==> !has_sound(audio, threshold)
    &&& r matches Err(e) ==> e == SaveError::EmptyAudio
    &&& r matches Ok(p) ==> {
        &&& p.channels == 1
        &&& p.sample_rate == sample_rate
        &&& p.bits_per_sample == 16
        &&& p.samples@.map_values(|v: i16| v as int) == pcm16_seq(
            trimmed(audio, threshold, keep_samples(sample_rate)),
        )
    }
}

/// Trims silence from a recording, keeping a fifth of a second around the
/// sound, and converts what is kept to mono 16-bit PCM at `sample_rate`.
pub fn prepare_wav(audio_data: &[i32], sample_rate: u32, threshold: u32) -> (r: Result<WavPayload, SaveError>)
    ensures
        is_wav_of(r, audio_data@, sample_rate, threshold),
{
    let keep: usize = (sample_rate / 5) as usize;
    let kept = trim_leading_silence(audio_data, threshold, keep);
    if kept.len() == 0 {
        proof {
            if has_sound(audio_data@, threshold) {
                lemma_loud_bounds(audio_data@, threshold);
            }
        }
        return Err(SaveError::EmptyAudio);
    }
    let samples = samples_to_pcm16(kept.as_slice());
    assert(samples@.map_values(|v: i16| v as int) =~= pcm16_seq(kept@));
    Ok(WavPayload { channels: 1, sample_rate, bits_per_sample: 16, samples })
}

} // verus!
