//! The exchange with a transcription service: what is asked, and what an answer means.

use crate::audio::{PendingAudio, MAX_UPLOAD_BYTES};
use crate::failure::{failure_view, http_failure, status_failure, ErrorKind, Failure, FailureView};
use crate::json::{error_code_of, parsed_json};
use crate::provider::{base_url_of, provider_base_url, ProviderSettings, ProviderSettingsView};
use crate::text::{is_white_space, trimmed, viewed};
use vstd::prelude::*;

verus! {

/// How long a request may take in all, in seconds.
pub const REQUEST_TIMEOUT_SECS: u64 = 120;

/// How long a connection may take to be made, in seconds.
pub const CONNECT_TIMEOUT_SECS: u64 = 10;

/// A request for the transcription of an audio file: a form that is posted to an address.
#[derive(Debug)]
pub struct TranscriptionRequest {
    pub url: String,
    pub bearer_token: String,
    pub model: String,
    pub language: String,
    pub file_name: String,
    pub mime_type: String,
    pub audio: Vec<u8>,
    pub connect_timeout_secs: u64,
    pub timeout_secs: u64,
}

/// What a [`TranscriptionRequest`] asks.
pub struct TranscriptionRequestView {
    pub url: Seq<char>,
    pub bearer_token: Seq<char>,
    pub model: Seq<char>,
    pub language: Seq<char>,
    pub file_name: Seq<char>,
    pub mime_type: Seq<char>,
    pub audio: Seq<u8>,
    pub connect_timeout_secs: u64,
    pub timeout_secs: u64,
}

impl View for TranscriptionRequest {
    type V = TranscriptionRequestView;

    open spec fn view(&self) -> TranscriptionRequestView {
        TranscriptionRequestView {
            url: self.url@,
            bearer_token: self.bearer_token@,
            model: self.model@,
            language: self.language@,
            file_name: self.file_name@,
            mime_type: self.mime_type@,
            audio: self.audio@,
            connect_timeout_secs: self.connect_timeout_secs,
            timeout_secs: self.timeout_secs,
        }
    }
}

/// The request for an audio file, or why it is not made.
pub open spec fn request_for(
    base_url: Seq<char>,
    api_key: Seq<char>,
    model: Seq<char>,
    audio: Seq<u8>,
) -> Result<TranscriptionRequestView, FailureView> {
    if audio.len() > MAX_UPLOAD_BYTES {
        Err(status_failure(413, None))
    } else if audio.len() == 0 {
        Err(
            failure_view(
                ErrorKind::Audio,
                "Áudio vazio"@,
                "Grave novamente e confira seu microfone."@,
                false,
            ),
        )
    } else {
        Ok(
            TranscriptionRequestView {
                url: base_url,
                bearer_token: api_key,
                model,
                language: "pt"@,
                file_name: "audio.wav"@,
                mime_type: "audio/wav"@,
                audio,
                connect_timeout_secs: CONNECT_TIMEOUT_SECS,
                timeout_secs: REQUEST_TIMEOUT_SECS,
            },
        )
    }
}

/// Makes the request for the transcription of an audio file.
pub fn transcription_request(base_url: &str, api_key: &str, model: &str, audio: &[u8]) -> (result:
    Result<TranscriptionRequest, Failure>)
    ensures
        match result {
            Ok(request) => request_for(base_url@, api_key@, model@, audio@) == Ok::<
                TranscriptionRequestView,
                FailureView,
            >(request@),
            Err(failure) => request_for(base_url@, api_key@, model@, audio@) == Err::<
                TranscriptionRequestView,
                FailureView,
            >(failure@),
        },
{
    if audio.len() > MAX_UPLOAD_BYTES {
        return Err(http_failure(413, ""));
    }
    if audio.len() == 0 {
        return Err(
            Failure::new(
                ErrorKind::Audio,
                "Áudio vazio",
                "Grave novamente e confira seu microfone.",
                false,
            ),
        );
    }
    let request = TranscriptionRequest {
        url: base_url.to_owned(),
        bearer_token: api_key.to_owned(),
        model: model.to_owned(),
        language: "pt".to_owned(),
        file_name: "audio.wav".to_owned(),
        mime_type: "audio/wav".to_owned(),
        audio: vstd::slice::slice_to_vec(audio),
        connect_timeout_secs: CONNECT_TIMEOUT_SECS,
        timeout_secs: REQUEST_TIMEOUT_SECS,
    };
    Ok(request)
}

/// Makes the request for recorded audio, to the provider and for the model that the user has chosen.
pub fn audio_request(settings: &ProviderSettings, api_key: &str, audio: &PendingAudio) -> (result:
    Result<TranscriptionRequest, Failure>)
    ensures
        ({
            let outcome = request_for(
                base_url_of(settings@.provider),
                api_key@,
                settings@.model,
                audio@.bytes,
            );
            match result {
                Ok(request) => outcome == Ok::<TranscriptionRequestView, FailureView>(request@),
                Err(failure) => outcome == Err::<TranscriptionRequestView, FailureView>(failure@),
            }
        }),
{
    transcription_request(
        provider_base_url(settings.provider.as_str()),
        api_key,
        settings.model.as_str(),
        audio.bytes.as_slice(),
    )
}

/// Whether an HTTP status is one of success.
pub open spec fn is_success(status: u16) -> bool {
    200 <= status <= 299
}

/// What a response means. `text` is the `text` member of the response's body, or `None` where the
/// body has none.
pub open spec fn response_outcome(
    status: u16,
    body: Seq<char>,
    text: Option<Seq<char>>,
) -> Result<Seq<char>, FailureView> {
    if !is_success(status) {
        Err(status_failure(status, error_code_of(parsed_json(body))))
    } else {
        match text {
            Some(text) => if trimmed(text).len() > 0 {
                Ok(trimmed(text))
            } else {
                Err(
                    failure_view(
                        ErrorKind::NoSpeech,
                        "Nenhuma fala reconhecida"@,
                        "Confira o microfone e grave novamente, falando mais perto dele."@,
                        false,
                    ),
                )
            },
            None => Err(
                failure_view(
                    ErrorKind::InvalidResponse,
                    "Resposta inválida"@,
                    "O provedor respondeu sem uma transcrição válida. Tente novamente."@,
                    true,
                ),
            ),
        }
    }
}

/// Reads a response: the transcription without outer white space, or why there is none. `text` is
/// the `text` member of the response's body, or `None` where the body has none.
pub fn read_response(status: u16, body: &str, text: Option<String>) -> (result: Result<
    String,
    Failure,
>)
    ensures
        ({
            let outcome = response_outcome(status, body@, viewed(text));
            match result {
                Ok(transcription) => outcome == Ok::<Seq<char>, FailureView>(transcription@),
                Err(failure) => outcome == Err::<Seq<char>, FailureView>(failure@),
            }
        }),
{
    if status < 200 || status > 299 {
        return Err(http_failure(status, body));
    }
    match text {
        Some(text) => {
            let transcription = text.as_str().trim();
            if transcription.is_empty() {
                Err(
                    Failure::new(
                        ErrorKind::NoSpeech,
                        "Nenhuma fala reconhecida",
                        "Confira o microfone e grave novamente, falando mais perto dele.",
                        false,
                    ),
                )
            } else {
                Ok(transcription.to_owned())
            }
        },
        None => Err(
            Failure::new(
                ErrorKind::InvalidResponse,
                "Resposta inválida",
                "O provedor respondeu sem uma transcrição válida. Tente novamente.",
                true,
            ),
        ),
    }
}

/// A transcription is never empty, and has no white space around it.
pub proof fn law_transcriptions_are_trimmed_speech(
    status: u16,
    body: Seq<char>,
    text: Option<Seq<char>>,
)
    ensures
        response_outcome(status, body, text) matches Ok(transcription) ==> {
            &&& transcription.len() > 0
            &&& trimmed(transcription) == transcription
        },
{
    if text is Some {
        crate::text::law_trimming_twice_is_trimming_once(text->0);
    }
}

/// White space around a transcription makes no difference to what a response means.
pub proof fn law_outer_white_space_is_ignored(status: u16, body: Seq<char>, text: Seq<char>)
    ensures
        response_outcome(status, body, Some(trimmed(text))) == response_outcome(
            status,
            body,
            Some(text),
        ),
{
    crate::text::law_trimming_twice_is_trimming_once(text);
}

/// Audio goes to the address of the chosen provider and no other, with the key that is given and the
/// chosen model, and goes there as it is.
pub proof fn law_audio_goes_to_the_chosen_provider_only(
    settings: ProviderSettingsView,
    api_key: Seq<char>,
    audio: Seq<u8>,
)
    ensures
        request_for(base_url_of(settings.provider), api_key, settings.model, audio) matches Ok(request)
            ==> {
            &&& request.url == if settings.provider == "openai"@ {
                "https://api.openai.com/v1/audio/transcriptions"@
            } else {
                "https://api.groq.com/openai/v1/audio/transcriptions"@
            }
            &&& request.bearer_token == api_key
            &&& request.model == settings.model
            &&& request.audio == audio
        },
{
}

/// What was recorded as sound is always accepted for upload.
pub proof fn law_recorded_audio_is_requested(
    format: Option<crate::audio::AudioFormat>,
    sample_count: usize,
    pcm: Seq<i16>,
    limit_reached: bool,
    base_url: Seq<char>,
    api_key: Seq<char>,
    model: Seq<char>,
)
    ensures
        crate::audio::recording_outcome(format, sample_count, pcm, limit_reached) matches Ok(audio)
            ==> request_for(base_url, api_key, model, audio.bytes) is Ok,
{
    crate::audio::law_audio_files_may_be_uploaded(format, sample_count, pcm, limit_reached);
}

/// Every request asks for Portuguese, carries the audio as it is under the name and type of a WAV
/// file, and goes with the key and model to the address that are given, within the same time limits.
pub proof fn law_requests_are_complete(
    base_url: Seq<char>,
    api_key: Seq<char>,
    model: Seq<char>,
    audio: Seq<u8>,
)
    ensures
        request_for(base_url, api_key, model, audio) matches Ok(request) ==> {
            &&& request.url == base_url
            &&& request.bearer_token == api_key
            &&& request.model == model
            &&& request.language == "pt"@
            &&& request.file_name == "audio.wav"@
            &&& request.mime_type == "audio/wav"@
            &&& request.audio == audio
            &&& request.connect_timeout_secs == 10
            &&& request.timeout_secs == 120
        },
{
}

/// A request is made exactly for audio that is not empty and not above the limit, whatever the
/// address, the key and the model; what is not sent has failed for good.
pub proof fn law_requests_are_made_for_audio_within_the_limit(
    base_url: Seq<char>,
    api_key: Seq<char>,
    model: Seq<char>,
    audio: Seq<u8>,
)
    ensures
        request_for(base_url, api_key, model, audio) is Ok <==> 0 < audio.len() <= 24_000_000,
        request_for(base_url, api_key, model, audio) matches Err(failure) ==> {
            &&& !failure.retryable
            &&& audio.len() > 0 ==> failure == status_failure(413, None)
            &&& audio.len() == 0 ==> failure.kind == ErrorKind::Audio && failure.title
                == "Áudio vazio"@ && failure.message == "Grave novamente e confira seu microfone."@
        },
{
}

/// What the user said reaches the request unchanged: the file that is sent for a recording gives back
/// every sample of it, at the rate of the file.
pub proof fn law_requests_carry_the_recording(
    format: crate::audio::AudioFormat,
    sample_count: usize,
    pcm: Seq<i16>,
    limit_reached: bool,
    base_url: Seq<char>,
    api_key: Seq<char>,
    model: Seq<char>,
)
    ensures
        crate::audio::recording_outcome(Some(format), sample_count, pcm, limit_reached) matches Ok(
            audio,
        ) ==> (request_for(base_url, api_key, model, audio.bytes) matches Ok(request) && {
            &&& request.audio.len() == 44 + 2 * pcm.len()
            &&& crate::wav::read_le32(request.audio, 24) == if format.sample_rate <= 48_000 {
                format.sample_rate as int
            } else {
                48_000
            }
            &&& forall|i: int|
                0 <= i < pcm.len() ==> #[trigger] crate::wav::read_sample(request.audio, 44 + 2 * i)
                    == pcm[i]
        }),
{
    law_recorded_audio_is_requested(
        Some(format),
        sample_count,
        pcm,
        limit_reached,
        base_url,
        api_key,
        model,
    );
    crate::audio::law_audio_is_what_was_recorded(format, sample_count, pcm, limit_reached);
}

/// A transcription is a piece of the text in the response, and all that is left out around it is
/// white space. It is owed wherever the status is one of success and the text is not all white space.
pub proof fn law_transcriptions_are_the_text_itself(
    status: u16,
    body: Seq<char>,
    text: Seq<char>,
) -> (start: int)
    requires
        200 <= status < 300,
    ensures
        match response_outcome(status, body, Some(text)) {
            Ok(transcription) => {
                let end = start + transcription.len();
                &&& 0 <= start < end <= text.len()
                &&& transcription == text.subrange(start, end)
                &&& !is_white_space(text[start]) && !is_white_space(text[end - 1])
                &&& forall|i: int|
                    0 <= i < start || end <= i < text.len() ==> is_white_space(#[trigger] text[i])
            },
            Err(failure) => {
                &&& forall|i: int| 0 <= i < text.len() ==> is_white_space(#[trigger] text[i])
                &&& failure.kind == ErrorKind::NoSpeech
                &&& !failure.retryable
                &&& failure.title == "Nenhuma fala reconhecida"@
                &&& failure.message
                    == "Confira o microfone e grave novamente, falando mais perto dele."@
            },
        },
{
    let start = crate::text::law_trimmed_leaves_out_white_space_only(text);
    crate::text::law_trimmed_has_no_outer_white_space(text);
    crate::text::law_white_space_is_trimmed_away(text);
    start
}

/// Of a response of success, nothing but its text makes a difference: not which status of success it
/// has, and not the rest of its body.
pub proof fn law_only_the_text_of_a_success_matters(
    status: u16,
    body: Seq<char>,
    other_status: u16,
    other_body: Seq<char>,
    text: Option<Seq<char>>,
)
    requires
        200 <= status < 300,
        200 <= other_status < 300,
    ensures
        response_outcome(status, body, text) == response_outcome(other_status, other_body, text),
{
}

/// A response of success without a text is invalid, and can be tried again.
pub proof fn law_responses_without_text_are_invalid(status: u16, body: Seq<char>)
    requires
        200 <= status < 300,
    ensures
        response_outcome(status, body, None) matches Err(failure) && failure.kind
            == ErrorKind::InvalidResponse && failure.retryable && failure.title
            == "Resposta inválida"@ && failure.message
            == "O provedor respondeu sem uma transcrição válida. Tente novamente."@,
{
}

/// A response that is no success is the failure of its status, whatever text it has.
pub proof fn law_error_responses_are_failures(
    status: u16,
    body: Seq<char>,
    text: Option<Seq<char>>,
)
    requires
        status < 200 || status >= 300,
    ensures
        response_outcome(status, body, text) matches Err(failure) && failure == status_failure(
            status,
            error_code_of(parsed_json(body)),
        ),
{
}

/// The view of a request leaves nothing out.
pub proof fn law_requests_are_viewed_whole(request: TranscriptionRequest)
    ensures
        request@.url == request.url@,
        request@.bearer_token == request.bearer_token@,
        request@.model == request.model@,
        request@.language == request.language@,
        request@.file_name == request.file_name@,
        request@.mime_type == request.mime_type@,
        request@.audio == request.audio@,
        request@.connect_timeout_secs == request.connect_timeout_secs,
        request@.timeout_secs == request.timeout_secs,
{
}

} // verus!
