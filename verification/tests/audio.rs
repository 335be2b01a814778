use std::io::Cursor;
use whispa::audio::{
    capture_frames, encode_audio, following_frame, output_rate, pending_audio, recording_step,
    AudioFormat, RecordingStep, MAX_RECORDING_SECS, MAX_UPLOAD_BYTES,
};
use whispa::failure::{ErrorKind, Failure};
use whispa::transcription::transcription_request;
use whispa::wav::encode_wav;

/// Captured sound as one channel of 16-bit samples at the rate of the file.
fn mixed_down(samples: &[f32], sample_rate: u32, channels: u16) -> Vec<i16> {
    if capture_frames(samples.len(), sample_rate, channels).is_err() {
        return Vec::new();
    }
    let width = channels as usize;
    let mono: Vec<f32> = samples
        .chunks_exact(width)
        .map(|frame| {
            let sum: f64 = frame.iter().map(|s| if s.is_finite() { *s as f64 } else { 0.0 }).sum();
            (sum / width as f64).clamp(-1.0, 1.0) as f32
        })
        .collect();
    let rate = output_rate(sample_rate);
    let ratio = sample_rate as f64 / rate as f64;
    let length = if rate < sample_rate { (mono.len() as f64 / ratio).round() as usize } else { mono.len() };
    (0..length)
        .map(|i| {
            let value = if rate < sample_rate {
                let place = i as f64 * ratio;
                let frame = place.floor() as usize;
                let share = (place - frame as f64) as f32;
                mono[frame] * (1.0 - share) + mono[following_frame(frame, mono.len())] * share
            } else {
                mono[i]
            };
            (value as f64 * 32768.0).round().clamp(-32768.0, 32767.0) as i16
        })
        .collect()
}

fn encode(samples: &[f32], sample_rate: u32, channels: u16) -> Result<Vec<u8>, Failure> {
    let pcm = mixed_down(samples, sample_rate, channels);
    encode_audio(&pcm, samples.len(), sample_rate, channels)
}

#[test]
fn three_minutes_of_stereo_fit_the_upload_limit() {
    let samples = vec![0.25; 48_000 * 2 * 180];
    let bytes = encode(&samples, 48_000, 2).unwrap();
    assert_eq!(bytes.len(), 17_280_044);
    assert!(bytes.len() < 25_000_000);
}

#[test]
fn high_sample_rate_is_resampled_to_48k_and_fits_upload_limit() {
    let samples = vec![0.25; 96_000 * 2 * 180];
    let bytes = encode(&samples, 96_000, 2).unwrap();
    assert_eq!(bytes.len(), 17_280_044);
    let wav = hound::WavReader::new(Cursor::new(bytes)).unwrap();
    assert_eq!(wav.spec().sample_rate, 48_000);
    assert_eq!(wav.spec().channels, 1);
    assert_eq!(wav.duration(), 48_000 * 180);
}

#[test]
fn pcm_conversion_clips_and_sanitizes_non_finite_samples() {
    let bytes = encode(&[-2.0, -1.0, 0.0, 1.0, 2.0, f32::NAN, f32::INFINITY], 48_000, 1).unwrap();
    let mut wav = hound::WavReader::new(Cursor::new(bytes)).unwrap();
    let samples: Vec<i16> = wav.samples().map(Result::unwrap).collect();
    assert_eq!(samples, [-32768, -32768, 0, 32767, 32767, 0, 0]);
}

#[test]
fn stereo_audio_becomes_small_mono_pcm_without_losing_duration() {
    let samples = [0.25_f32, 0.75].repeat(48_000);
    let bytes = encode(&samples, 48_000, 2).unwrap();
    assert_eq!(bytes.len(), 96_044);
    let mut wav = hound::WavReader::new(Cursor::new(bytes)).unwrap();
    assert_eq!(wav.duration(), 48_000);
    assert_eq!(wav.spec().channels, 1);
    assert_eq!(wav.samples::<i16>().next().unwrap().unwrap(), 16_384);
}

#[test]
fn invalid_audio_is_rejected_without_panicking() {
    for (samples, rate, channels) in [(vec![], 48_000, 1), (vec![0.5], 0, 1), (vec![0.5], 48_000, 0), (vec![0.5], 48_000, 2)] {
        assert!(encode(&samples, rate, channels).is_err());
    }
}

#[test]
fn what_is_no_sound_is_an_audio_failure() {
    let failure = encode_audio(&[], 0, 48_000, 1).unwrap_err();
    assert_eq!(failure.kind, ErrorKind::Audio);
    assert_eq!(failure.title, "Áudio não capturado");
    assert!(!failure.retryable);
    assert_eq!(capture_frames(6, 48_000, 2).unwrap(), 3);
    assert_eq!(capture_frames(7, 48_000, 2).unwrap_err().kind, ErrorKind::Audio);
}

#[test]
fn a_file_is_written_byte_for_byte() {
    let bytes = encode_wav(&[1, -2, 0x1234, i16::MIN], 44_100).unwrap();
    let expected: Vec<u8> = [
        b"RIFF".as_slice(), &44u32.to_le_bytes(), b"WAVEfmt ", &16u32.to_le_bytes(),
        &1u16.to_le_bytes(), &1u16.to_le_bytes(), &44_100u32.to_le_bytes(), &88_200u32.to_le_bytes(),
        &2u16.to_le_bytes(), &16u16.to_le_bytes(), b"data", &8u32.to_le_bytes(),
        &[1, 0, 0xfe, 0xff, 0x34, 0x12, 0x00, 0x80],
    ]
    .concat();
    assert_eq!(bytes, expected);
}

#[test]
fn a_file_gives_back_what_was_written() {
    let written: Vec<i16> = (0..=u16::MAX).map(|bits| bits as i16).collect();
    let bytes = encode_wav(&written, 8_000).unwrap();
    assert_eq!(bytes.len(), 44 + 2 * written.len());
    let mut wav = hound::WavReader::new(Cursor::new(bytes)).unwrap();
    assert_eq!(wav.spec().sample_rate, 8_000);
    assert_eq!(wav.spec().bits_per_sample, 16);
    let read: Vec<i16> = wav.samples().map(Result::unwrap).collect();
    assert_eq!(read, written);
}

#[test]
fn a_file_may_be_empty_of_samples() {
    let bytes = encode_audio(&[], 1, 192_000, 1).unwrap();
    assert_eq!(bytes.len(), 44);
}

#[test]
fn the_largest_file_is_accepted_and_one_sample_more_is_not() {
    let most = (MAX_UPLOAD_BYTES - 44) / 2;
    let bytes = encode_audio(&vec![0; most], most, 48_000, 1).unwrap();
    assert_eq!(bytes.len(), 24_000_000);
    assert!(transcription_request("http://localhost", "test-key", "test-model", &bytes).is_ok());
    let failure = encode_audio(&vec![0; most + 1], most + 1, 48_000, 1).unwrap_err();
    assert_eq!(failure.kind, ErrorKind::TooLarge);
}

#[test]
fn only_high_rates_are_lowered() {
    assert_eq!(output_rate(16_000), 16_000);
    assert_eq!(output_rate(48_000), 48_000);
    assert_eq!(output_rate(48_001), 48_000);
    assert_eq!(output_rate(192_000), 48_000);
}

#[test]
fn a_long_recording_stopped_late_fits_at_any_rate() {
    for rate in [8_000, 44_100, 48_000, 48_001, 50_000] {
        let frames = 181 * rate as usize;
        let samples = if rate > 48_000 { 181 * 48_000 } else { frames };
        let format = AudioFormat { sample_rate: rate, channels: 6 };
        let audio = pending_audio(Some(format), frames * 6, &vec![0; samples], true).unwrap();
        assert_eq!(audio.bytes.len(), 44 + 2 * samples);
    }
}

#[test]
fn a_resampled_file_lasts_as_long_up_to_half_a_sample() {
    for rate in [48_001_u32, 50_000, 88_200, 96_000, 176_400, 192_000] {
        for frames in [2_usize, 7, 1_001, 4_999] {
            let bytes = encode(&vec![0.5; 2 * frames], rate, 2).unwrap();
            let wav = hound::WavReader::new(Cursor::new(bytes)).unwrap();
            assert_eq!(wav.spec().sample_rate, 48_000);
            let played = wav.duration() as i64 * rate as i64;
            let captured = frames as i64 * 48_000;
            assert!(2 * (played - captured).abs() <= rate as i64);
        }
    }
}

#[test]
fn the_last_frame_follows_itself() {
    assert_eq!(following_frame(0, 3), 1);
    assert_eq!(following_frame(1, 3), 2);
    assert_eq!(following_frame(2, 3), 2);
    assert_eq!(following_frame(0, 1), 0);
}

#[test]
fn a_recording_without_a_microphone_fails() {
    let failure = pending_audio(None, 0, &[], false).unwrap_err();
    assert_eq!(failure.kind, ErrorKind::Audio);
    assert_eq!(failure.title, "Microfone indisponível");
    assert!(!failure.retryable);
}

#[test]
fn a_recording_becomes_audio_to_upload() {
    let format = AudioFormat { sample_rate: 16_000, channels: 2 };
    let audio = pending_audio(Some(format), 4, &[5, 6], true).unwrap();
    assert_eq!(audio.bytes.len(), 48);
    assert_eq!(&audio.bytes[44..], [5, 0, 6, 0]);
    assert_eq!(audio.sample_count, 4);
    assert_eq!(audio.format, format);
    assert!(audio.limit_reached);
    assert_eq!(pending_audio(Some(format), 3, &[5, 6], true).unwrap_err().kind, ErrorKind::Audio);
}

#[test]
fn a_recording_goes_on_until_it_is_stopped_or_too_long() {
    assert_eq!(MAX_RECORDING_SECS, 180);
    assert_eq!(recording_step(false, 0), RecordingStep::Continue);
    assert_eq!(recording_step(false, 179), RecordingStep::Continue);
    assert_eq!(recording_step(false, 180), RecordingStep::LimitReached);
    assert_eq!(recording_step(true, 0), RecordingStep::Stopped);
    assert_eq!(recording_step(true, 500), RecordingStep::Stopped);
}
