use whispa::audio::{pending_audio, AudioFormat};
use whispa::failure::ErrorKind;
use whispa::provider::ProviderSettings;
use whispa::transcription::{
    audio_request, read_response, transcription_request, CONNECT_TIMEOUT_SECS, REQUEST_TIMEOUT_SECS,
};

/// The `text` member of a response body.
fn text_of(body: &str) -> Option<String> {
    let document: serde_json::Value = serde_json::from_str(body).ok()?;
    document["text"].as_str().map(str::to_owned)
}

#[test]
fn http_responses_reach_the_correct_user_error() {
    for (status, body, expected) in [
        (401, "not authorized", ErrorKind::Credentials),
        (429, r#"{"error":{"code":"insufficient_quota"}}"#, ErrorKind::Quota),
        (429, "rate limited", ErrorKind::RateLimit),
        (503, "unavailable", ErrorKind::Provider),
        (200, "invalid json", ErrorKind::InvalidResponse),
        (200, r#"{"text":"   "}"#, ErrorKind::NoSpeech),
    ] {
        assert!(transcription_request("http://localhost", "test-key", "test-model", b"audio").is_ok());
        let result = read_response(status, body, text_of(body));
        assert_eq!(result.unwrap_err().kind, expected);
    }
}

#[test]
fn successful_response_preserves_accents_and_trims_whitespace() {
    let body = r#"{"text":"  Olá, descrição completa. \n"}"#;
    let result = read_response(200, body, text_of(body));
    assert_eq!(result.unwrap(), "Olá, descrição completa.");
}

#[test]
fn oversized_audio_is_not_sent() {
    let result = transcription_request("http://localhost", "test-key", "test-model", &vec![0; 24_000_001]);
    assert_eq!(result.unwrap_err().kind, ErrorKind::TooLarge);
    assert!(transcription_request("http://localhost", "test-key", "test-model", &vec![0; 24_000_000]).is_ok());
}

#[test]
fn empty_audio_is_not_sent() {
    let failure = transcription_request("http://localhost", "test-key", "test-model", b"").unwrap_err();
    assert_eq!(failure.kind, ErrorKind::Audio);
    assert_eq!(failure.title, "Áudio vazio");
    assert!(!failure.retryable);
}

#[test]
fn a_request_carries_what_the_provider_needs() {
    let request = transcription_request("http://localhost/v1", "test-key", "test-model", b"test audio").unwrap();
    assert_eq!(request.url, "http://localhost/v1");
    assert_eq!(request.bearer_token, "test-key");
    assert_eq!(request.model, "test-model");
    assert_eq!(request.language, "pt");
    assert_eq!(request.file_name, "audio.wav");
    assert_eq!(request.mime_type, "audio/wav");
    assert_eq!(request.audio, b"test audio");
    assert_eq!(request.connect_timeout_secs, CONNECT_TIMEOUT_SECS);
    assert_eq!(request.timeout_secs, REQUEST_TIMEOUT_SECS);
    assert_eq!((CONNECT_TIMEOUT_SECS, REQUEST_TIMEOUT_SECS), (10, 120));
}

#[test]
fn audio_goes_to_the_chosen_provider() {
    let format = AudioFormat { sample_rate: 48_000, channels: 1 };
    let audio = pending_audio(Some(format), 1, &[7], false).unwrap();
    let settings = ProviderSettings { provider: "openai".into(), model: "whisper-1".into() };
    let request = audio_request(&settings, "test-key", &audio).unwrap();
    assert_eq!(request.url, "https://api.openai.com/v1/audio/transcriptions");
    assert_eq!(request.model, "whisper-1");
    assert_eq!(request.bearer_token, "test-key");
    assert_eq!(request.audio, *audio.bytes);
}

#[test]
fn success_is_the_two_hundreds() {
    let text = || Some("fala".to_owned());
    assert_eq!(read_response(200, "", text()).unwrap(), "fala");
    assert_eq!(read_response(299, "", text()).unwrap(), "fala");
    assert_eq!(read_response(199, "", text()).unwrap_err().kind, ErrorKind::Provider);
    assert_eq!(read_response(300, "", text()).unwrap_err().kind, ErrorKind::Provider);
}

#[test]
fn a_response_without_text_can_be_retried_and_one_without_speech_cannot() {
    let invalid = read_response(200, "{}", None).unwrap_err();
    assert_eq!(invalid.title, "Resposta inválida");
    assert!(invalid.retryable);
    let silent = read_response(200, "", Some("\u{00a0}\u{2003}\t\r\n\u{3000}".to_owned())).unwrap_err();
    assert_eq!(silent.title, "Nenhuma fala reconhecida");
    assert!(!silent.retryable);
}

#[test]
fn trimming_agrees_with_unicode_white_space() {
    let white = [
        0x09, 0x0a, 0x0b, 0x0c, 0x0d, 0x20, 0x85, 0xa0, 0x1680, 0x2000, 0x2001, 0x2002, 0x2003,
        0x2004, 0x2005, 0x2006, 0x2007, 0x2008, 0x2009, 0x200a, 0x2028, 0x2029, 0x202f, 0x205f,
        0x3000,
    ];
    for point in 0..=0x10ffffu32 {
        if let Some(c) = char::from_u32(point) {
            let trimmed_away = read_response(200, "", Some(c.to_string())).is_err();
            assert_eq!(trimmed_away, white.contains(&point), "U+{point:04X}");
        }
    }
}

#[test]
fn a_transcription_is_read_the_same_once_trimmed() {
    let once = read_response(200, "", Some(" a  b ".to_owned())).unwrap();
    assert_eq!(once, "a  b");
    assert_eq!(read_response(200, "", Some(once)).unwrap(), "a  b");
}
