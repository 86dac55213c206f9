use winh::audio::{AudioRecorder, SessionState};
use winh::device::{
    device_options, device_selector, first_accepted, input_device_names, negotiation_plan, resolve_device,
    selected_device_index, CaptureConfig, CaptureError, DeviceChoice, SampleFormat,
};
use winh::mix::{peak_of, to_mono};
use winh::sample::UNITS_PER_FULL_SCALE;

const FULL: i32 = UNITS_PER_FULL_SCALE as i32;
const SECOND: u64 = 1_000_000;

fn mono(rate: u32) -> CaptureConfig {
    CaptureConfig { channels: 1, sample_rate: rate, format: SampleFormat::F32 }
}

fn capturing(threshold: u32, config: CaptureConfig) -> AudioRecorder {
    let mut r = AudioRecorder::new(threshold).unwrap();
    r.begin_negotiation(config).unwrap();
    r.begin_capture(config, 0).unwrap();
    r
}

#[test]
fn stereo_block_downmixes_to_mono() {
    let block = [FULL, -FULL, FULL / 2, FULL / 2];
    assert_eq!(to_mono(&block, 2), vec![0, FULL / 2]);
}

#[test]
fn downmix_drops_partial_frame_and_rounds_toward_zero() {
    assert_eq!(to_mono(&[-3, 0, 4, 1, 7], 2), vec![-1, 2]);
    assert_eq!(to_mono(&[1, 2, 3, 4, 5, 6], 3), vec![2, 5]);
    assert_eq!(to_mono(&[i32::MIN, i32::MIN], 2), vec![i32::MIN]);
    assert_eq!(to_mono(&[5, -6], 1), vec![5, -6]);
}

#[test]
fn block_peak_is_largest_magnitude() {
    assert_eq!(peak_of(&[3, -9, 4]), 9);
    assert_eq!(peak_of(&[]), 0);
    assert_eq!(peak_of(&[i32::MIN]), 2_147_483_648u32);
}

#[test]
fn peak_decays_by_five_percent_per_block() {
    let mut r = capturing(FULL as u32 / 100, mono(8000));
    r.ingest_block(1000, &[FULL / 2, -FULL / 4]);
    assert_eq!(r.get_max_amplitude(), 4_750_000);
    r.ingest_block(2000, &[0, 0]);
    assert_eq!(r.get_max_amplitude(), 4_512_500);
    r.ingest_block(3000, &[0]);
    assert_eq!(r.get_max_amplitude(), 4_286_875);
    r.ingest_block(4000, &[FULL]);
    assert_eq!(r.get_max_amplitude(), 9_500_000);
}

#[test]
fn grace_period_suppresses_silence() {
    let r = capturing(100, mono(8000));
    assert!(!r.is_silent(0, 0));
    assert!(!r.is_silent(2_999_999, 1));
    assert!(r.is_silent(3 * SECOND, 1));
    assert_eq!(r.get_silence_duration(3 * SECOND), 3 * SECOND);
}

#[test]
fn no_grace_before_any_capture() {
    let r = AudioRecorder::new(100).unwrap();
    assert!(r.is_silent(2 * SECOND, 2 * SECOND));
    assert!(!r.is_silent(2 * SECOND - 1, 2 * SECOND));
}

#[test]
fn end_to_end_silence_detection() {
    let rate: u32 = 8000;
    let threshold = FULL as u32 / 100;
    let mut r = capturing(threshold, mono(rate));
    let block_len = (rate / 10) as usize;
    let quiet = vec![FULL / 1000; block_len];
    let loud = vec![FULL / 2; block_len];
    let trigger = 2 * SECOND;
    let mut first_silent: Option<u64> = None;
    for step in 1..=45u64 {
        let now = step * SECOND / 10;
        let block = if step > 10 && step <= 15 { &loud } else { &quiet };
        r.ingest_block(now, block);
        if first_silent.is_none() && r.is_silent(now, trigger) {
            first_silent = Some(now);
        }
    }
    assert_eq!(first_silent, Some(3_500_000));
    assert_eq!(r.get_buffer_size(), 45 * block_len);
    let recorded = r.stop_recording();
    assert_eq!(recorded.len(), 45 * block_len);
    assert_eq!(r.get_buffer_size(), 0);
    assert_eq!(r.get_state(), SessionState::Stopped);
    assert_eq!(r.get_sample_rate(), rate);
}

#[test]
fn stereo_capture_appends_downmixed_samples() {
    let stereo = CaptureConfig { channels: 2, sample_rate: 48000, format: SampleFormat::I16 };
    let mut r = capturing(10, stereo);
    r.ingest_block(5, &[FULL, -FULL, FULL / 2, FULL / 2]);
    assert_eq!(r.stop_recording(), vec![0, FULL / 2]);
}

#[test]
fn ingest_outside_capture_is_ignored() {
    let mut r = AudioRecorder::new(10).unwrap();
    r.ingest_block(5, &[FULL, FULL]);
    assert_eq!(r.get_buffer_size(), 0);
    assert_eq!(r.get_max_amplitude(), 0);
    assert_eq!(r.get_silence_duration(5), 5);
}

#[test]
fn stop_when_idle_returns_nothing() {
    let mut r = AudioRecorder::new(10).unwrap();
    assert!(r.stop_recording().is_empty());
    assert_eq!(r.get_state(), SessionState::Idle);
}

#[test]
fn start_while_capturing_is_rejected() {
    let mut r = capturing(10, mono(16000));
    assert_eq!(r.begin_negotiation(mono(16000)), Err(CaptureError::AlreadyCapturing));
    assert_eq!(r.begin_capture(mono(16000), 9), Err(CaptureError::AlreadyCapturing));
    assert_eq!(r.get_state(), SessionState::Capturing);
}

#[test]
fn restart_after_stop_clears_the_session() {
    let mut r = capturing(10, mono(16000));
    r.ingest_block(100, &[FULL, FULL]);
    r.stop_recording();
    r.begin_negotiation(mono(44100)).unwrap();
    r.begin_capture(mono(44100), 7 * SECOND).unwrap();
    assert_eq!(r.get_buffer_size(), 0);
    assert_eq!(r.get_max_amplitude(), 0);
    assert_eq!(r.get_sample_rate(), 44100);
    assert_eq!(r.get_silence_duration(8 * SECOND), SECOND);
}

#[test]
fn reset_timer_moves_last_sound() {
    let mut r = capturing(10, mono(16000));
    r.reset_silence_timer(4 * SECOND);
    assert_eq!(r.get_silence_duration(5 * SECOND), SECOND);
}

#[test]
fn abort_returns_to_idle() {
    let mut r = capturing(10, mono(16000));
    r.ingest_block(1, &[FULL]);
    r.abort_start();
    assert_eq!(r.get_state(), SessionState::Idle);
    assert_eq!(r.get_buffer_size(), 0);
}

#[test]
fn negotiation_tries_mono_then_native_layout() {
    let native = CaptureConfig { channels: 2, sample_rate: 48000, format: SampleFormat::I16 };
    assert_eq!(
        negotiation_plan(native),
        Ok(vec![CaptureConfig { channels: 1, sample_rate: 48000, format: SampleFormat::I16 }, native])
    );
    let odd = CaptureConfig { channels: 2, sample_rate: 48000, format: SampleFormat::Unsupported };
    assert_eq!(negotiation_plan(odd), Err(CaptureError::FormatError));
    let mut r = AudioRecorder::new(10).unwrap();
    assert_eq!(r.begin_negotiation(odd), Err(CaptureError::FormatError));
    assert_eq!(r.get_state(), SessionState::Idle);
}

#[test]
fn first_accepted_strategy_wins() {
    let native = CaptureConfig { channels: 2, sample_rate: 48000, format: SampleFormat::F32 };
    let plans = negotiation_plan(native).unwrap();
    assert_eq!(first_accepted(&plans, &vec![true]), Ok(plans[0]));
    assert_eq!(first_accepted(&plans, &vec![false, true]), Ok(native));
    assert_eq!(first_accepted(&plans, &vec![false, false]), Err(CaptureError::FormatError));
}

#[test]
fn device_resolution() {
    let names = vec![Some("Mic A".to_string()), None, Some("Mic B".to_string()), Some("Mic B".to_string())];
    assert_eq!(resolve_device(&names, Some(&"Mic B".to_string()), false), Ok(DeviceChoice::Named(2)));
    assert_eq!(
        resolve_device(&names, Some(&"Mic C".to_string()), true),
        Err(CaptureError::DeviceNotFound("Mic C".to_string()))
    );
    assert_eq!(resolve_device(&names, None, true), Ok(DeviceChoice::Default));
    assert_eq!(resolve_device(&names, None, false), Err(CaptureError::NoInputDevice));
    assert_eq!(input_device_names(&names), vec!["Mic A", "Mic B", "Mic B"]);
}

#[test]
fn default_entry_is_offered_first_and_never_matched() {
    let options = device_options(&vec!["Mic A".to_string(), "Mic B".to_string()]);
    assert_eq!(options, vec!["Windows既定", "Mic A", "Mic B"]);
    assert_eq!(selected_device_index(&options, Some(&"Mic B".to_string())), 2);
    assert_eq!(selected_device_index(&options, Some(&"Gone".to_string())), 0);
    assert_eq!(selected_device_index(&options, None), 0);
    assert_eq!(device_selector(Some(&"Windows既定".to_string())), None);
    assert_eq!(device_selector(Some(&"Mic A".to_string())), Some("Mic A".to_string()));
    assert_eq!(device_selector(None), None);
}
