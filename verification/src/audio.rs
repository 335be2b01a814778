//! From captured sound to the audio that is uploaded.

use crate::failure::{failure_view, http_failure, status_failure, ErrorKind, Failure, FailureView};
use crate::wav::{encode_wav, wav_file};
use std::sync::Arc;
use vstd::prelude::*;

verus! {

/// The largest audio file that is uploaded, in bytes.
pub const MAX_UPLOAD_BYTES: usize = 24_000_000;

/// The highest sample rate of an audio file. What was captured at a higher one is resampled.
pub const MAX_SAMPLE_RATE: u32 = 48_000;

/// The longest recording, in seconds.
pub const MAX_RECORDING_SECS: u64 = 180;

/// The bytes of a WAV file before its samples.
pub const WAV_HEADER_BYTES: usize = 44;

/// How a microphone delivers sound.
#[derive(Debug, Clone, Copy, PartialEq, Eq, Structural)]
pub struct AudioFormat {
    pub sample_rate: u32,
    pub channels: u16,
}

/// Whether captured samples are sound: there are some, in whole frames of some channels, at some
/// rate.
pub open spec fn is_sound(sample_count: nat, sample_rate: u32, channels: u16) -> bool {
    &&& sample_count > 0
    &&& sample_rate > 0
    &&& channels > 0
    &&& sample_count % (channels as nat) == 0
}

/// The failure for captured samples that are no sound.
pub open spec fn no_sound_failure() -> FailureView {
    failure_view(
        ErrorKind::Audio,
        "Áudio não capturado"@,
        "Confira o microfone e a permissão de gravação nos ajustes do sistema."@,
        false,
    )
}

fn no_sound() -> (failure: Failure)
    ensures
        failure@ == no_sound_failure(),
{
    Failure::new(
        ErrorKind::Audio,
        "Áudio não capturado",
        "Confira o microfone e a permissão de gravação nos ajustes do sistema.",
        false,
    )
}

/// The number of frames in captured samples: each frame has one sample of every channel.
pub fn capture_frames(sample_count: usize, sample_rate: u32, channels: u16) -> (result: Result<
    usize,
    Failure,
>)
    ensures
        match result {
            Ok(frames) => is_sound(sample_count as nat, sample_rate, channels) && frames * channels
                == sample_count,
            Err(failure) => !is_sound(sample_count as nat, sample_rate, channels) && failure@
                == no_sound_failure(),
        },
{
    if sample_count == 0 || sample_rate == 0 || channels == 0 || sample_count % (channels as usize)
        != 0 {
        return Err(no_sound());
    }
    let frames: usize = sample_count / (channels as usize);
    proof {
        vstd::arithmetic::div_mod::lemma_fundamental_div_mod(
            sample_count as int,
            channels as int,
        );
        assert(frames * channels == channels * frames) by (nonlinear_arith);
    }
    Ok(frames)
}

/// The sample rate of the audio file for a captured rate.
pub open spec fn file_rate(sample_rate: u32) -> u32 {
    if sample_rate > MAX_SAMPLE_RATE {
        MAX_SAMPLE_RATE
    } else {
        sample_rate
    }
}

/// The sample rate of the audio file for a captured rate.
pub fn output_rate(sample_rate: u32) -> (rate: u32)
    ensures
        rate == file_rate(sample_rate),
{
    if sample_rate > MAX_SAMPLE_RATE {
        MAX_SAMPLE_RATE
    } else {
        sample_rate
    }
}

/// The frame that follows one in a recording.
pub open spec fn frame_after(frame: int, frames: int) -> int {
    if frame + 1 < frames {
        frame + 1
    } else {
        frame
    }
}

/// The frame that follows one in a recording; the last one has itself after it. Resampling
/// interpolates between the two.
pub fn following_frame(frame: usize, frames: usize) -> (next: usize)
    requires
        frame < frames,
    ensures
        next == frame_after(frame as int, frames as int),
{
    if frame + 1 < frames {
        frame + 1
    } else {
        frame
    }
}

/// The most samples that a file of the largest size holds.
pub open spec fn max_samples() -> int {
    (MAX_UPLOAD_BYTES - WAV_HEADER_BYTES) / 2
}

/// Writes the audio file for captured sound. `pcm` is that sound as one channel of 16-bit samples
/// at the rate of the file; the other arguments say what was captured.
pub fn encode_audio(pcm: &[i16], sample_count: usize, sample_rate: u32, channels: u16) -> (result:
    Result<Vec<u8>, Failure>)
    ensures
        match result {
            Ok(bytes) => {
                &&& is_sound(sample_count as nat, sample_rate, channels)
                &&& pcm@.len() <= max_samples()
                &&& bytes@ == wav_file(file_rate(sample_rate) as int, pcm@)
            },
            Err(failure) => {
                ||| !is_sound(sample_count as nat, sample_rate, channels) && failure@
                    == no_sound_failure()
                ||| is_sound(sample_count as nat, sample_rate, channels) && pcm@.len()
                    > max_samples() && failure@ == status_failure(413, None)
            },
        },
{
    match capture_frames(sample_count, sample_rate, channels) {
        Ok(_) => {},
        Err(failure) => return Err(failure),
    }
    if pcm.len() > (MAX_UPLOAD_BYTES - WAV_HEADER_BYTES) / 2 {
        return Err(http_failure(413, ""));
    }
    match encode_wav(pcm, output_rate(sample_rate)) {
        Ok(bytes) => Ok(bytes),
        Err(_) => Err(no_sound()),
    }
}

/// Audio that is ready to be uploaded, with what was captured for it.
#[derive(Debug)]
pub struct PendingAudio {
    pub bytes: Arc<Vec<u8>>,
    pub sample_count: usize,
    pub format: AudioFormat,
    /// Whether the recording was cut at the longest duration.
    pub limit_reached: bool,
}

/// What a [`PendingAudio`] holds.
pub struct PendingAudioView {
    pub bytes: Seq<u8>,
    pub sample_count: usize,
    pub format: AudioFormat,
    pub limit_reached: bool,
}

impl View for PendingAudio {
    type V = PendingAudioView;

    open spec fn view(&self) -> PendingAudioView {
        PendingAudioView {
            bytes: self.bytes@,
            sample_count: self.sample_count,
            format: self.format,
            limit_reached: self.limit_reached,
        }
    }
}

impl Clone for PendingAudio {
    fn clone(&self) -> (copy: Self)
        ensures
            copy@ == self@,
    {
        PendingAudio {
            bytes: self.bytes.clone(),
            sample_count: self.sample_count,
            format: self.format,
            limit_reached: self.limit_reached,
        }
    }
}

/// The failure for a recording that never got hold of a microphone.
pub open spec fn no_microphone_failure() -> FailureView {
    failure_view(
        ErrorKind::Audio,
        "Microfone indisponível"@,
        "Confira o microfone selecionado e permita a gravação nos ajustes do sistema."@,
        false,
    )
}

/// What comes of a recording: the audio to upload, or why there is none. The format is missing where
/// no microphone could be opened.
pub open spec fn recording_outcome(
    format: Option<AudioFormat>,
    sample_count: usize,
    pcm: Seq<i16>,
    limit_reached: bool,
) -> Result<PendingAudioView, FailureView> {
    match format {
        Some(format) => if !is_sound(sample_count as nat, format.sample_rate, format.channels) {
            Err(no_sound_failure())
        } else if pcm.len() > max_samples() {
            Err(status_failure(413, None))
        } else {
            Ok(
                PendingAudioView {
                    bytes: wav_file(file_rate(format.sample_rate) as int, pcm),
                    sample_count,
                    format,
                    limit_reached,
                },
            )
        },
        None => Err(no_microphone_failure()),
    }
}

/// Makes the audio to upload from a finished recording.
pub fn pending_audio(
    format: Option<AudioFormat>,
    sample_count: usize,
    pcm: &[i16],
    limit_reached: bool,
) -> (result: Result<PendingAudio, Failure>)
    ensures
        match result {
            Ok(audio) => recording_outcome(format, sample_count, pcm@, limit_reached) == Ok::<
                PendingAudioView,
                FailureView,
            >(audio@),
            Err(failure) => recording_outcome(format, sample_count, pcm@, limit_reached) == Err::<
                PendingAudioView,
                FailureView,
            >(failure@),
        },
{
    match format {
        Some(format) => match encode_audio(pcm, sample_count, format.sample_rate, format.channels) {
            Ok(bytes) => Ok(
                PendingAudio { bytes: Arc::new(bytes), sample_count, format, limit_reached },
            ),
            Err(failure) => Err(failure),
        },
        None => Err(
            Failure::new(
                ErrorKind::Audio,
                "Microfone indisponível",
                "Confira o microfone selecionado e permita a gravação nos ajustes do sistema.",
                false,
            ),
        ),
    }
}

/// What a running recording does next.
#[derive(Debug, Clone, Copy, PartialEq, Eq, Structural)]
pub enum RecordingStep {
    /// It goes on.
    Continue,
    /// It ends because the user stopped it.
    Stopped,
    /// It ends because it has reached the longest duration.
    LimitReached,
}

/// What a recording does next, from whether it was asked to stop and how many whole seconds it has
/// lasted.
pub open spec fn step_after(stop_requested: bool, elapsed_secs: u64) -> RecordingStep {
    if stop_requested {
        RecordingStep::Stopped
    } else if elapsed_secs >= MAX_RECORDING_SECS {
        RecordingStep::LimitReached
    } else {
        RecordingStep::Continue
    }
}

/// Decides whether a recording goes on, from whether it was asked to stop and how many whole seconds
/// it has lasted.
pub fn recording_step(stop_requested: bool, elapsed_secs: u64) -> (step: RecordingStep)
    ensures
        step == step_after(stop_requested, elapsed_secs),
{
    if stop_requested {
        RecordingStep::Stopped
    } else if elapsed_secs >= MAX_RECORDING_SECS {
        RecordingStep::LimitReached
    } else {
        RecordingStep::Continue
    }
}

/// Whether samples at the rate of the file last no longer than the frames captured, up to one sample.
pub open spec fn lasts_no_longer(samples: int, frames: int, sample_rate: u32) -> bool {
    samples * sample_rate <= frames * file_rate(sample_rate) + sample_rate
}

/// Whether samples at the rate of the file last as long as the frames captured: exactly where nothing
/// is resampled, and else up to half a sample, which is what rounding to the nearest leaves.
pub open spec fn lasts_as_long(samples: int, frames: int, sample_rate: u32) -> bool {
    if sample_rate <= MAX_SAMPLE_RATE {
        samples == frames
    } else {
        &&& 2 * (samples * sample_rate - frames * file_rate(sample_rate)) <= sample_rate
        &&& 2 * (frames * file_rate(sample_rate) - samples * sample_rate) <= sample_rate
    }
}

proof fn lemma_long_recordings_fit(samples: int, frames: int, sample_rate: int, rate: int)
    by (nonlinear_arith)
    requires
        0 < sample_rate,
        0 <= rate <= 48_000,
        0 <= frames <= 181 * sample_rate,
        samples * sample_rate <= frames * rate + sample_rate,
    ensures
        samples <= 181 * 48_000 + 1,
{
    assert(frames * rate <= (181 * sample_rate) * 48_000);
    assert((181 * sample_rate) * 48_000 + sample_rate == (181 * 48_000 + 1) * sample_rate);
}

/// The longest recording becomes audio to upload, at whatever rate and with however many channels it
/// was captured, even where it is stopped up to a second late.
pub proof fn law_longest_recording_fits(
    frames: nat,
    sample_count: usize,
    format: AudioFormat,
    pcm: Seq<i16>,
    limit_reached: bool,
)
    requires
        is_sound(sample_count as nat, format.sample_rate, format.channels),
        frames * format.channels == sample_count,
        frames <= (MAX_RECORDING_SECS + 1) * format.sample_rate,
        lasts_no_longer(pcm.len() as int, frames as int, format.sample_rate),
    ensures
        pcm.len() <= max_samples(),
        recording_outcome(Some(format), sample_count, pcm, limit_reached) is Ok,
{
    lemma_long_recordings_fit(
        pcm.len() as int,
        frames as int,
        format.sample_rate as int,
        file_rate(format.sample_rate) as int,
    );
}

/// An audio file is never empty and never larger than what may be uploaded.
pub proof fn law_audio_files_may_be_uploaded(
    format: Option<AudioFormat>,
    sample_count: usize,
    pcm: Seq<i16>,
    limit_reached: bool,
)
    ensures
        recording_outcome(format, sample_count, pcm, limit_reached) matches Ok(audio) ==> 0
            < audio.bytes.len() <= MAX_UPLOAD_BYTES,
{
    if format is Some {
        crate::wav::law_wav_length(file_rate(format->0.sample_rate) as int, pcm);
    }
}

/// The file keeps the duration of samples that last as long as the frames captured: what it gives as
/// its rate and its number of samples lasts as long, and so no longer, and where nothing is resampled
/// these are the captured rate and the captured frames.
pub proof fn law_duration_is_kept(frames: nat, sample_rate: u32, pcm: Seq<i16>)
    requires
        0 < sample_rate,
        lasts_as_long(pcm.len() as int, frames as int, sample_rate),
        pcm.len() <= max_samples(),
    ensures
        ({
            let file = wav_file(file_rate(sample_rate) as int, pcm);
            let rate = crate::wav::read_le32(file, 24);
            let samples = crate::wav::read_le32(file, 40) / 2;
            &&& rate == file_rate(sample_rate)
            &&& lasts_as_long(samples, frames as int, sample_rate)
            &&& lasts_no_longer(samples, frames as int, sample_rate)
            &&& sample_rate <= MAX_SAMPLE_RATE ==> rate == sample_rate && samples == frames
        }),
{
    crate::wav::law_wav_gives_back_what_was_written(file_rate(sample_rate) as int, pcm);
}

/// Captured samples are sound exactly where they make up some number of whole frames, of some
/// channels, at some rate.
pub proof fn law_sound_comes_in_whole_frames(sample_count: nat, sample_rate: u32, channels: u16)
    ensures
        is_sound(sample_count, sample_rate, channels) <==> sample_rate > 0 && exists|frames: nat|
            frames > 0 && channels > 0 && #[trigger] (frames * channels) == sample_count,
{
    if sample_count > 0 && channels > 0 {
        let frames = sample_count / (channels as nat);
        vstd::arithmetic::div_mod::lemma_fundamental_div_mod(sample_count as int, channels as int);
        assert(frames * channels == channels * frames) by (nonlinear_arith);
        if sample_count % (channels as nat) == 0 {
            assert(frames > 0) by (nonlinear_arith)
                requires
                    frames * channels == sample_count,
                    sample_count > 0,
            ;
        }
    }
    assert forall|frames: nat|
        frames > 0 && channels > 0 && #[trigger] (frames * channels) == sample_count implies
        sample_count > 0 && sample_count % (channels as nat) == 0 by {
        assert(frames * channels > 0) by (nonlinear_arith)
            requires
                frames > 0,
                channels > 0,
        ;
        vstd::arithmetic::div_mod::lemma_mod_multiples_basic(frames as int, channels as int);
    }
}

/// The rate of the file is the lower one of the captured rate and 48 kHz.
pub proof fn law_only_high_rates_are_lowered(sample_rate: u32)
    ensures
        file_rate(sample_rate) <= sample_rate,
        file_rate(sample_rate) <= 48_000,
        file_rate(sample_rate) == sample_rate || file_rate(sample_rate) == 48_000,
{
}

/// A file of the most samples may be uploaded, and with one sample more it may not.
pub proof fn law_files_are_used_up_to_the_limit()
    ensures
        44 + 2 * max_samples() <= 24_000_000 < 44 + 2 * (max_samples() + 1),
{
}

/// The file of a recording plays at the captured rate, or at 48 kHz where that is higher: at no other
/// rate does speech sound as it was spoken.
pub proof fn law_audio_plays_at_the_captured_rate(
    format: AudioFormat,
    sample_count: usize,
    pcm: Seq<i16>,
    limit_reached: bool,
)
    ensures
        recording_outcome(Some(format), sample_count, pcm, limit_reached) matches Ok(audio) ==> {
            let rate = crate::wav::read_le32(audio.bytes, 24);
            &&& rate <= 48_000
            &&& format.sample_rate <= 48_000 ==> rate == format.sample_rate
            &&& format.sample_rate > 48_000 ==> rate == 48_000
        },
{
    let outcome = recording_outcome(Some(format), sample_count, pcm, limit_reached);
    if outcome is Ok {
        let rate = file_rate(format.sample_rate) as int;
        crate::wav::law_wav_gives_back_what_was_written(rate, pcm);
    }
}

/// The audio of a recording is what was recorded: the file gives back the captured rate, or 48 kHz
/// where that is higher, and every sample in its place, in one channel of 16 bits; and what was
/// captured is noted beside it.
pub proof fn law_audio_is_what_was_recorded(
    format: AudioFormat,
    sample_count: usize,
    pcm: Seq<i16>,
    limit_reached: bool,
)
    ensures
        recording_outcome(Some(format), sample_count, pcm, limit_reached) matches Ok(audio) ==> {
            &&& audio.bytes.len() == 44 + 2 * pcm.len()
            &&& crate::wav::read_le32(audio.bytes, 24) == if format.sample_rate <= 48_000 {
                format.sample_rate as int
            } else {
                48_000
            }
            &&& crate::wav::read_le16(audio.bytes, 22) == 1
            &&& crate::wav::read_le16(audio.bytes, 34) == 16
            &&& crate::wav::read_le32(audio.bytes, 4) == audio.bytes.len() - 8
            &&& crate::wav::read_le32(audio.bytes, 40) == 2 * pcm.len()
            &&& forall|i: int|
                0 <= i < pcm.len() ==> #[trigger] crate::wav::read_sample(audio.bytes, 44 + 2 * i)
                    == pcm[i]
            &&& audio.sample_count == sample_count
            &&& audio.format == format
            &&& audio.limit_reached == limit_reached
        },
{
    let outcome = recording_outcome(Some(format), sample_count, pcm, limit_reached);
    if outcome is Ok {
        let rate = file_rate(format.sample_rate) as int;
        crate::wav::law_wav_length(rate, pcm);
        crate::wav::law_wav_gives_back_what_was_written(rate, pcm);
        crate::wav::law_wav_is_mono_and_16_bit(rate, pcm);
    }
}

/// The audio of a recording lasts as long as what was captured: its file plays as many seconds as the
/// captured frames took, exactly where nothing is resampled and else up to half a sample.
pub proof fn law_audio_lasts_as_long_as_the_recording(
    frames: nat,
    format: AudioFormat,
    sample_count: usize,
    pcm: Seq<i16>,
    limit_reached: bool,
)
    requires
        frames * format.channels == sample_count,
        format.sample_rate <= 48_000 ==> pcm.len() == frames,
        format.sample_rate > 48_000 ==> {
            &&& 2 * (pcm.len() * format.sample_rate - frames * 48_000) <= format.sample_rate
            &&& 2 * (frames * 48_000 - pcm.len() * format.sample_rate) <= format.sample_rate
        },
    ensures
        recording_outcome(Some(format), sample_count, pcm, limit_reached) matches Ok(audio) ==> {
            let rate = crate::wav::read_le32(audio.bytes, 24);
            let played = crate::wav::read_le32(audio.bytes, 40) / 2;
            &&& format.sample_rate <= 48_000 ==> played * format.sample_rate == frames * rate
            &&& 2 * (played * format.sample_rate - frames * rate) <= format.sample_rate
            &&& 2 * (frames * rate - played * format.sample_rate) <= format.sample_rate
        },
{
    law_audio_is_what_was_recorded(format, sample_count, pcm, limit_reached);
}

/// A recording becomes audio exactly where a microphone delivered whole frames of sound and the file
/// is not larger than what may be uploaded.
pub proof fn law_recordings_become_audio(
    format: Option<AudioFormat>,
    sample_count: usize,
    pcm: Seq<i16>,
    limit_reached: bool,
)
    ensures
        recording_outcome(format, sample_count, pcm, limit_reached) is Ok <==> (format matches Some(
            format,
        ) && 0 < sample_count && 0 < format.sample_rate && 0 < format.channels && sample_count
            as int % format.channels as int == 0 && 44 + 2 * pcm.len() <= 24_000_000),
{
}

/// Why a recording becomes no audio: there was no microphone, it delivered no sound, or the file is
/// too large. None of these is a matter of trying again, and the sound itself makes no difference.
pub proof fn law_lost_recordings_tell_why(
    format: Option<AudioFormat>,
    sample_count: usize,
    pcm: Seq<i16>,
    limit_reached: bool,
)
    ensures
        recording_outcome(format, sample_count, pcm, limit_reached) matches Err(failure) ==> {
            &&& !failure.retryable
            &&& failure.kind == ErrorKind::TooLarge <==> (format matches Some(format) && is_sound(
                sample_count as nat,
                format.sample_rate,
                format.channels,
            ))
            &&& failure.kind == ErrorKind::TooLarge || failure.kind == ErrorKind::Audio
            &&& format is None ==> failure.title == "Microfone indisponível"@ && failure.message
                == "Confira o microfone selecionado e permita a gravação nos ajustes do sistema."@
            &&& format is Some && failure.kind == ErrorKind::Audio ==> failure.title
                == "Áudio não capturado"@ && failure.message
                == "Confira o microfone e a permissão de gravação nos ajustes do sistema."@
            &&& failure.kind == ErrorKind::TooLarge ==> failure == status_failure(413, None)
        },
{
}

/// A recording goes on until the user stops it or it has lasted three minutes, and stopping goes
/// before the limit.
pub proof fn law_recordings_end(stop_requested: bool, elapsed_secs: u64)
    ensures
        step_after(stop_requested, elapsed_secs) == RecordingStep::Stopped <==> stop_requested,
        step_after(stop_requested, elapsed_secs) == RecordingStep::Continue <==> !stop_requested
            && elapsed_secs < 180,
{
}

/// The view of audio leaves nothing out.
pub proof fn law_audio_is_viewed_whole(audio: PendingAudio)
    ensures
        audio@.bytes == audio.bytes@,
        audio@.sample_count == audio.sample_count,
        audio@.format == audio.format,
        audio@.limit_reached == audio.limit_reached,
{
}

/// Every frame of a recording has a frame of it to go on to: the next one, or for the last one itself.
pub proof fn law_frames_follow_each_other(frame: int, frames: int)
    requires
        0 <= frame < frames,
    ensures
        frame <= frame_after(frame, frames) < frames,
        frame_after(frame, frames) == frame <==> frame == frames - 1,
        frame_after(frame, frames) <= frame + 1,
{
}

} // verus!
