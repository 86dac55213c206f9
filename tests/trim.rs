use winh::sample::{to_pcm16, UNITS_PER_FULL_SCALE};
use winh::trim::{prepare_wav, trim_bounds, trim_leading_silence, SaveError};

const FULL: i32 = UNITS_PER_FULL_SCALE as i32;

fn sound_between(len: usize, first: usize, last: usize, level: i32) -> Vec<i32> {
    let mut v = vec![0i32; len];
    for i in first..=last {
        v[i] = level;
    }
    v
}

#[test]
fn boundary_arithmetic_at_16k() {
    let data = sound_between(20000, 5000, 6000, FULL / 2);
    let keep = (16000 / 5) as usize;
    assert_eq!(keep, 3200);
    assert_eq!(trim_bounds(&data, FULL as u32 / 100, keep), Some((1800, 9201)));
}

#[test]
fn padding_clamps_at_both_edges() {
    let data = sound_between(100, 3, 97, FULL);
    assert_eq!(trim_bounds(&data, 10, 10), Some((0, 100)));
}

#[test]
fn all_quiet_is_empty_audio() {
    let threshold = FULL as u32 / 100;
    let data = vec![threshold as i32, -(threshold as i32), 0, 5];
    assert_eq!(trim_bounds(&data, threshold, 4), None);
    assert!(trim_leading_silence(&data, threshold, 4).is_empty());
    assert_eq!(prepare_wav(&data, 16000, threshold), Err(SaveError::EmptyAudio));
}

#[test]
fn empty_buffer_is_empty_audio() {
    assert_eq!(prepare_wav(&[], 16000, 1), Err(SaveError::EmptyAudio));
}

#[test]
fn trimming_twice_keeps_the_first_result() {
    let data = sound_between(20000, 5000, 6000, -FULL / 3);
    let once = trim_leading_silence(&data, 1000, 3200);
    assert_eq!(once.len(), 9201 - 1800);
    let twice = trim_leading_silence(&once, 1000, 3200);
    assert_eq!(once, twice);
}

#[test]
fn pcm_conversion_rounds_and_clamps() {
    assert_eq!(to_pcm16(FULL), 32767);
    assert_eq!(to_pcm16(-FULL), -32767);
    assert_eq!(to_pcm16(0), 0);
    assert_eq!(to_pcm16(FULL / 2), 16384);
    assert_eq!(to_pcm16(-FULL / 2), -16384);
    assert_eq!(to_pcm16(2 * FULL), 32767);
    assert_eq!(to_pcm16(-3 * FULL), -32768);
    assert_eq!(to_pcm16(i32::MIN), -32768);
}

#[test]
fn wav_payload_holds_trimmed_pcm() {
    let data = vec![0, 0, 0, FULL, -FULL / 2, 0, 0, 0];
    let p = prepare_wav(&data, 10, FULL as u32 / 100).unwrap();
    assert_eq!(p.channels, 1);
    assert_eq!(p.sample_rate, 10);
    assert_eq!(p.bits_per_sample, 16);
    assert_eq!(p.samples, vec![0, 0, 32767, -16384, 0, 0]);
}
