//! The capture session: its lifecycle, the shared buffer and the silence
//! state that the delivery path updates and the control side polls.
//!
//! Times are microseconds on a monotonic clock supplied by the caller; a
//! new recorder counts its last sound at time 0.

use vstd::prelude::*;
use crate::device::{negotiation_plan, negotiation_strategies, CaptureConfig, CaptureError, SampleFormat};
use crate::mix::{block_peak, mono_samples, peak_of, to_mono};
use crate::trim::{has_sound, is_wav_of, prepare_wav, SaveError, WavPayload};
use crate::sample::{is_loud, sample_is_loud};

verus! {

/// Silence is never reported in the first three seconds of a recording.
pub const GRACE_PERIOD_US: u64 = 3_000_000;

/// The displayed peak keeps 95 percent of its value per delivered block.
pub const PEAK_DECAY_PERCENT: u64 = 95;

/// Lifecycle of a capture session.
#[derive(Debug, Clone, Copy, PartialEq, Eq, Structural)]
pub enum SessionState {
    Idle,
    Negotiating,
    Capturing,
    Stopped,
}

/// What a recorder holds, as the contracts see it.
pub struct RecorderView {
    pub state: SessionState,
    pub buffer: Seq<i32>,
    pub config: Option<CaptureConfig>,
    pub threshold: u32,
    pub last_sound: u64,
    pub recording_start: Option<u64>,
    pub peak: u32,
}

/// One capture session with its recorded samples and silence state.
pub struct AudioRecorder {
    state: SessionState,
    audio_buffer: Vec<i32>,
    config: Option<CaptureConfig>,
    silence_threshold: u32,
    last_sound_time: u64,
    recording_start_time: Option<u64>,
    current_max_amplitude: u32,
}

impl View for AudioRecorder {
    type V = RecorderView;

    closed spec fn view(&self) -> RecorderView {
        RecorderView {
            state: self.state,
            buffer: self.audio_buffer@,
            config: self.config,
            threshold: self.silence_threshold,
            last_sound: self.last_sound_time,
            recording_start: self.recording_start_time,
            peak: self.current_max_amplitude,
        }
    }
}

/// Time from `since` to `now`; none when `now` is earlier.
pub open spec fn elapsed(now: u64, since: u64) -> nat {
    if now >= since {
        (now - since) as nat
    } else {
        0
    }
}

pub open spec fn in_grace_period(v: RecorderView, now: u64) -> bool {
    v.recording_start matches Some(s) && elapsed(now, s) < GRACE_PERIOD_US
}

/// Silence has lasted `trigger` microseconds, outside the grace period.
pub open spec fn silent_at(v: RecorderView, now: u64, trigger: u64) -> bool {
    !in_grace_period(v, now) && elapsed(now, v.last_sound) >= trigger
}

/// The tracked peak after a block whose largest magnitude is `block_max`:
/// the larger of the two, decayed by 5 percent.
pub open spec fn decayed_peak(old_peak: nat, block_max: nat) -> nat {
    (if block_max > old_peak {
        block_max
    } else {
        old_peak
    }) * PEAK_DECAY_PERCENT as nat / 100
}

/// Channels of a delivered block: those of the negotiated layout.
pub open spec fn capture_channels(v: RecorderView) -> u16 {
    match v.config {
        Some(c) => c.channels,
        None => 1,
    }
}

pub open spec fn sample_rate_of(v: RecorderView) -> u32 {
    match v.config {
        Some(c) => c.sample_rate,
        None => 0,
    }
}

/// The recorder after a block has been delivered while capturing.
pub open spec fn after_block(v: RecorderView, now: u64, block: Seq<i32>) -> RecorderView {
    let mono = mono_samples(block, capture_channels(v));
    RecorderView {
        buffer: v.buffer + mono,
        last_sound: if has_sound(mono, v.threshold) && now > v.last_sound {
            now
        } else {
            v.last_sound
        },
        peak: decayed_peak(v.peak as nat, block_peak(mono)) as u32,
        ..v
    }
}

/// Absent a louder block, the tracked peak only decays: each block leaves
/// 95 percent (rounded down) of the prior value. A louder block sets it to
/// 95 percent of the block's own peak.
pub proof fn lemma_peak_decay(old_peak: nat, block_max: nat)
    ensures
        block_max <= old_peak ==> decayed_peak(old_peak, block_max) == old_peak * 95 / 100,
        block_max <= old_peak ==> decayed_peak(old_peak, block_max) <= old_peak,
        block_max > old_peak ==> decayed_peak(old_peak, block_max) == block_max * 95 / 100,
{
}

/// The last sound only moves forward as blocks are delivered; a block with
/// no sample above the threshold leaves it where it was.
pub proof fn lemma_last_sound_monotonic(v: RecorderView, now: u64, block: Seq<i32>)
    ensures
        after_block(v, now, block).last_sound >= v.last_sound,
        !has_sound(mono_samples(block, capture_channels(v)), v.threshold) ==> after_block(
            v,
            now,
            block,
        ).last_sound == v.last_sound,
{
}

/// A block with sound delivered at `t` (no earlier than the last sound)
/// holds off silence for `trigger` microseconds: every poll before
/// `t + trigger` finds no silence.
pub proof fn lemma_sound_postpones_silence(v: RecorderView, t: u64, block: Seq<i32>, now: u64, trigger: u64)
    requires
        has_sound(mono_samples(block, capture_channels(v)), v.threshold),
        v.last_sound <= t <= now,
        now - t < trigger,
    ensures
        after_block(v, t, block).last_sound == t,
        !silent_at(after_block(v, t, block), now, trigger),
{
}

/// Once the grace period is over, silence is reported exactly when
/// `trigger` microseconds have passed since the last sound.
pub proof fn lemma_silence_after_grace(v: RecorderView, now: u64, trigger: u64)
    requires
        v.recording_start matches Some(s) && s <= now && now - s >= GRACE_PERIOD_US,
    ensures
        silent_at(v, now, trigger) <==> elapsed(now, v.last_sound) >= trigger,
{
}

impl AudioRecorder {
    /// A recorder in the idle state that counts a sample as sound when its
    /// magnitude is above `silence_threshold`.
    pub fn new(silence_threshold: u32) -> (r: Result<AudioRecorder, String>)
        ensures
            r matches Ok(rec) && rec@ == (RecorderView {
                state: SessionState::Idle,
                buffer: Seq::empty(),
                config: None,
                threshold: silence_threshold,
                last_sound: 0,
                recording_start: None,
                peak: 0,
            }),
    {
        Ok(
            AudioRecorder {
                state: SessionState::Idle,
                audio_buffer: Vec::new(),
                config: None,
                silence_threshold,
                last_sound_time: 0,
                recording_start_time: None,
                current_max_amplitude: 0,
            },
        )
    }

    pub fn get_state(&self) -> (r: SessionState)
        ensures
            r == self@.state,
    {
        self.state
    }

    /// The decayed peak amplitude, for display.
    pub fn get_max_amplitude(&self) -> (r: u32)
        ensures
            r == self@.peak,
    {
        self.current_max_amplitude
    }

    pub fn get_silence_threshold(&self) -> (r: u32)
        ensures
            r == self@.threshold,
    {
        self.silence_threshold
    }

    /// Number of samples recorded in the current session.
    pub fn get_buffer_size(&self) -> (r: usize)
        ensures
            r == self@.buffer.len(),
    {
        self.audio_buffer.len()
    }

    /// The negotiated sample rate; 0 before any negotiation succeeded.
    pub fn get_sample_rate(&self) -> (r: u32)
        ensures
            r == sample_rate_of(self@),
    {
        match self.config {
            Some(c) => c.sample_rate,
            None => 0,
        }
    }

    /// The negotiated stream layout, once capture has begun.
    pub fn get_capture_config(&self) -> (r: Option<CaptureConfig>)
        ensures
            r == self@.config,
    {
        self.config
    }

    /// Whether silence has lasted `silence_duration_us` at time `now_us`.
    /// Within three seconds of the start of a recording it never has.
    pub fn is_silent(&self, now_us: u64, silence_duration_us: u64) -> (r: bool)
        ensures
            r == silent_at(self@, now_us, silence_duration_us),
            in_grace_period(self@, now_us) ==> !r,
    {
        match self.recording_start_time {
            Some(start) => {
                if now_us < start || now_us - start < GRACE_PERIOD_US {
                    return false;
                }
            },
            None => {},
        }
        self.get_silence_duration(now_us) >= silence_duration_us
    }

    /// Time since the last sound.
    pub fn get_silence_duration(&self, now_us: u64) -> (r: u64)
        ensures
            r == elapsed(now_us, self@.last_sound),
    {
        if now_us >= self.last_sound_time {
            now_us - self.last_sound_time
        } else {
            0
        }
    }

    /// Counts a sound at `now_us`.
    pub fn reset_silence_timer(&mut self, now_us: u64)
        ensures
            final(self)@ == (RecorderView { last_sound: now_us, ..old(self)@ }),
    {
        self.last_sound_time = now_us;
    }

    /// Begins a start: fails while capturing; otherwise plans the stream
    /// formats to try on a device whose default layout is `native` and
    /// enters negotiation, or returns to idle when no format can be tried.
    pub fn begin_negotiation(&mut self, native: CaptureConfig) -> (r: Result<Vec<CaptureConfig>, CaptureError>)
        ensures
            old(self)@.state == SessionState::Capturing ==> r == Err::<Vec<CaptureConfig>, CaptureError>(
                CaptureError::AlreadyCapturing,
            ) && final(self)@ == old(self)@,
            old(self)@.state != SessionState::Capturing ==> {
                &&& native.format == SampleFormat::Unsupported ==> r == Err::<Vec<CaptureConfig>, CaptureError>(
                    CaptureError::FormatError,
                ) && final(self)@ == (RecorderView { state: SessionState::Idle, ..old(self)@ })
                &&& native.format != SampleFormat::Unsupported ==> (r matches Ok(v) && v@
                    == negotiation_strategies(native)) && final(self)@ == (RecorderView {
                    state: SessionState::Negotiating,
                    ..old(self)@
                })
            },
    {
        if self.state == SessionState::Capturing {
            return Err(CaptureError::AlreadyCapturing);
        }
        let r = negotiation_plan(native);
        match r {
            Ok(_) => {
                self.state = SessionState::Negotiating;
            },
            Err(_) => {
                self.state = SessionState::Idle;
            },
        }
        r
    }

    /// Starts capturing with the negotiated layout `config` at `now_us`:
    /// the buffer is emptied, the silence timer and the recording start are
    /// set to `now_us` and the peak to 0. Fails while already capturing.
    pub fn begin_capture(&mut self, config: CaptureConfig, now_us: u64) -> (r: Result<(), CaptureError>)
        ensures
            old(self)@.state == SessionState::Capturing ==> r == Err::<(), CaptureError>(
                CaptureError::AlreadyCapturing,
            ) && final(self)@ == old(self)@,
            old(self)@.state != SessionState::Capturing ==> r is Ok && final(self)@ == (RecorderView {
                state: SessionState::Capturing,
                buffer: Seq::empty(),
                config: Some(config),
                last_sound: now_us,
                recording_start: Some(now_us),
                peak: 0,
                ..old(self)@
            }),
    {
        if self.state == SessionState::Capturing {
            return Err(CaptureError::AlreadyCapturing);
        }
        self.audio_buffer.clear();
        self.config = Some(config);
        self.reset_silence_timer(now_us);
        self.current_max_amplitude = 0;
        self.recording_start_time = Some(now_us);
        self.state = SessionState::Capturing;
        Ok(())
    }

    /// Abandons a start that could not complete: back to idle with an empty buffer.
    pub fn abort_start(&mut self)
        ensures
            final(self)@ == (RecorderView { state: SessionState::Idle, buffer: Seq::empty(), ..old(self)@ }),
    {
        self.audio_buffer.clear();
        self.state = SessionState::Idle;
    }

    /// Takes in one delivered block of interleaved samples at `now_us`.
    /// While capturing, its mono samples are appended, the last sound moves
    /// to `now_us` when one of them is above the threshold, and the peak
    /// follows the block's largest magnitude. Otherwise nothing changes.
    pub fn ingest_block(&mut self, now_us: u64, block: &[i32])
        ensures
            old(self)@.state == SessionState::Capturing ==> final(self)@ == after_block(
                old(self)@,
                now_us,
                block@,
            ),
            old(self)@.state != SessionState::Capturing ==> final(self)@ == old(self)@,
    {
        if self.state != SessionState::Capturing {
            return;
        }
        let channels: u16 = match self.config {
            Some(c) => c.channels,
            None => 1,
        };
        let mono = to_mono(block, channels);
        let block_max = peak_of(mono.as_slice());
        let sound = any_loud(mono.as_slice(), self.silence_threshold);
        append_samples(&mut self.audio_buffer, &mono);
        let old_peak = self.current_max_amplitude;
        let top: u64 = if block_max > old_peak {
            block_max as u64
        } else {
            old_peak as u64
        };
        self.current_max_amplitude = (top * PEAK_DECAY_PERCENT / 100) as u32;
        if sound && now_us > self.last_sound_time {
            self.last_sound_time = now_us;
        }
    }

    /// Ends the session. While capturing, hands back everything recorded,
    /// empties the live buffer and enters the stopped state; otherwise
    /// hands back nothing and changes nothing.
    pub fn stop_recording(&mut self) -> (r: Vec<i32>)
        ensures
            old(self)@.state == SessionState::Capturing ==> r@ == old(self)@.buffer && final(self)@ == (
            RecorderView { state: SessionState::Stopped, buffer: Seq::empty(), ..old(self)@ }),
            old(self)@.state != SessionState::Capturing ==> r@.len() == 0 && final(self)@ == old(self)@,
    {
        if self.state != SessionState::Capturing {
            return Vec::new();
        }
        let mut recorded: Vec<i32> = Vec::new();
        std::mem::swap(&mut recorded, &mut self.audio_buffer);
        self.state = SessionState::Stopped;
        recorded
    }

    /// The waveform payload of a recording made with this recorder's threshold.
    pub fn prepare_wav(&self, audio_data: &[i32], sample_rate: u32) -> (r: Result<WavPayload, SaveError>)
        ensures
            is_wav_of(r, audio_data@, sample_rate, self@.threshold),
    {
        prepare_wav(audio_data, sample_rate, self.silence_threshold)
    }
}

/// Appends the samples of one block to the buffer.
fn append_samples(buffer: &mut Vec<i32>, samples: &Vec<i32>)
    ensures
        final(buffer)@ == old(buffer)@ + samples@,
{
    let ghost start = buffer@;
    let mut i: usize = 0;
    while i < samples.len()
        invariant
            0 <= i <= samples@.len(),
            buffer@ == start + samples@.subrange(0, i as int),
        decreases samples@.len() - i,
    {
        buffer.push(samples[i]);
        assert(samples@.subrange(0, i + 1) =~= samples@.subrange(0, i as int).push(samples@[i as int]));
        i = i + 1;
    }
    assert(samples@.subrange(0, samples@.len() as int) =~= samples@);
}

/// Whether some sample of `s` is above the threshold.
pub fn any_loud(s: &[i32], threshold: u32) -> (r: bool)
    ensures
        r == has_sound(s@, threshold),
{
    let mut i: usize = 0;
    while i < s.len()
        invariant
            0 <= i <= s@.len(),
            forall|j: int| 0 <= j < i ==> !#[trigger] is_loud(s@[j], threshold),
        decreases s@.len() - i,
    {
        if sample_is_loud(s[i], threshold) {
            assert(is_loud(s@[i as int], threshold));
            return true;
        }
        i = i + 1;
    }
    false
}

} // verus!
