use whispa::failure::{failure_for_status, http_failure, network_failure, ErrorKind, Failure};
use whispa::json::{error_code, error_code_in};

#[test]
fn provider_errors_explain_the_recovery_without_echoing_response_data() {
    for (status, body, kind, retryable) in [
        (401, "secret", ErrorKind::Credentials, true),
        (403, "secret", ErrorKind::Credentials, true),
        (413, "secret", ErrorKind::TooLarge, false),
        (429, r#"{"error":{"code":"insufficient_quota","message":"secret"}}"#, ErrorKind::Quota, true),
        (429, "secret", ErrorKind::RateLimit, true),
        (503, "secret", ErrorKind::Provider, true),
        (400, "secret", ErrorKind::Provider, true),
    ] {
        let error = http_failure(status, body);
        assert_eq!(error.kind, kind);
        assert_eq!(error.retryable, retryable);
        assert!(!error.message.contains("secret"));
    }
}

#[test]
fn a_failure_keeps_its_parts() {
    let failure = Failure::new(ErrorKind::Audio, "título", "mensagem", false);
    let copy = failure.clone();
    assert_eq!(copy.kind, ErrorKind::Audio);
    assert_eq!(copy.title, "título");
    assert_eq!(copy.message, "mensagem");
    assert!(!copy.retryable);
}

#[test]
fn an_error_code_is_read_from_code_and_then_from_type() {
    assert_eq!(error_code(r#"{"error":{"code":"a","type":"b"}}"#).as_deref(), Some("a"));
    assert_eq!(error_code(r#"{"error":{"type":"b"}}"#).as_deref(), Some("b"));
    assert_eq!(error_code(r#"{"error":{"code":7,"type":"b"}}"#).as_deref(), Some("b"));
    assert_eq!(error_code(r#"{"error":{"code":null}}"#), None);
    assert_eq!(error_code(r#"{"error":"a"}"#), None);
    assert_eq!(error_code(r#"[{"error":{"code":"a"}}]"#), None);
    assert_eq!(error_code(r#"{"code":"a"}"#), None);
    assert_eq!(error_code("a"), None);
    assert_eq!(error_code(""), None);
    assert_eq!(error_code(r#""a""#), None);
}

#[test]
fn an_error_code_is_read_from_a_parsed_document() {
    let document: serde_json::Value = serde_json::from_str(r#"{"error":{"code":"xA"}}"#).unwrap();
    assert_eq!(error_code_in(&document).as_deref(), Some("xA"));
}

#[test]
fn each_quota_code_tells_an_exhausted_account() {
    for code in ["insufficient_quota", "quota_exceeded", "billing_hard_limit_reached"] {
        assert_eq!(failure_for_status(429, Some(code)).kind, ErrorKind::Quota);
        let by_type = format!(r#"{{"error":{{"type":"{code}"}}}}"#);
        assert_eq!(http_failure(429, &by_type).kind, ErrorKind::Quota);
        assert_eq!(failure_for_status(402, Some(code)).kind, ErrorKind::Provider);
    }
    assert_eq!(failure_for_status(429, Some("rate_limit_exceeded")).kind, ErrorKind::RateLimit);
    assert_eq!(failure_for_status(429, None).kind, ErrorKind::RateLimit);
}

#[test]
fn statuses_are_told_apart_at_their_edges() {
    assert_eq!(failure_for_status(408, None).kind, ErrorKind::Timeout);
    assert_eq!(failure_for_status(504, None).kind, ErrorKind::Timeout);
    assert_eq!(failure_for_status(499, None).title, "O provedor recusou o áudio");
    assert_eq!(failure_for_status(500, None).title, "Provedor indisponível");
    assert_eq!(failure_for_status(599, None).title, "Provedor indisponível");
    assert_eq!(failure_for_status(600, None).title, "O provedor recusou o áudio");
    assert_eq!(failure_for_status(401, None).title, "Confira sua chave de API");
    assert_eq!(failure_for_status(413, None).title, "Áudio acima do limite");
}

#[test]
fn an_unexpected_status_is_named_in_decimal() {
    assert_eq!(
        failure_for_status(404, None).message,
        "Resposta HTTP 404. Confira o modelo escolhido nas Configurações e tente novamente."
    );
    assert_eq!(
        failure_for_status(0, None).message,
        "Resposta HTTP 0. Confira o modelo escolhido nas Configurações e tente novamente."
    );
    assert_eq!(
        failure_for_status(65535, None).message,
        "Resposta HTTP 65535. Confira o modelo escolhido nas Configurações e tente novamente."
    );
}

#[test]
fn only_oversized_audio_is_final() {
    for status in 0..=u16::MAX {
        assert_eq!(failure_for_status(status, None).retryable, status != 413);
    }
}

#[test]
fn bodies_make_no_difference_but_for_a_quota() {
    for status in [400, 401, 413, 500, 504] {
        let one = http_failure(status, "one");
        let other = http_failure(status, r#"{"error":{"code":"insufficient_quota"}}"#);
        assert_eq!(one.kind, other.kind);
        assert_eq!(one.title, other.title);
        assert_eq!(one.message, other.message);
    }
}

#[test]
fn a_missing_response_is_a_timeout_or_a_connection_failure() {
    let timeout = network_failure(true);
    assert_eq!(timeout.kind, ErrorKind::Timeout);
    assert_eq!(timeout.title, "Tempo de espera esgotado");
    assert!(timeout.retryable);
    let connection = network_failure(false);
    assert_eq!(connection.kind, ErrorKind::Connection);
    assert_eq!(connection.title, "Falha de conexão");
    assert!(connection.retryable);
}
