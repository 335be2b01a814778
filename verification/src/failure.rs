//! Failures of a dictation: what the user is told, and whether trying again can help.

use crate::json::{error_code, error_code_of, parsed_json};
use crate::text::{decimal, decimal_text, same_text};
use vstd::prelude::*;

verus! {

/// What went wrong.
#[derive(Debug, Clone, Copy, PartialEq, Eq, Structural)]
pub enum ErrorKind {
    Timeout,
    Connection,
    Credentials,
    Quota,
    RateLimit,
    TooLarge,
    Provider,
    InvalidResponse,
    NoSpeech,
    Audio,
    Clipboard,
}

/// A failure, in the words that the user reads.
#[derive(Debug)]
pub struct Failure {
    pub kind: ErrorKind,
    pub title: String,
    pub message: String,
    /// Whether the same attempt can be repeated with what was kept.
    pub retryable: bool,
}

/// What a [`Failure`] says.
pub struct FailureView {
    pub kind: ErrorKind,
    pub title: Seq<char>,
    pub message: Seq<char>,
    pub retryable: bool,
}

impl View for Failure {
    type V = FailureView;

    open spec fn view(&self) -> FailureView {
        failure_view(self.kind, self.title@, self.message@, self.retryable)
    }
}

/// The failure with the given parts.
pub open spec fn failure_view(
    kind: ErrorKind,
    title: Seq<char>,
    message: Seq<char>,
    retryable: bool,
) -> FailureView {
    FailureView { kind, title, message, retryable }
}

impl Clone for Failure {
    fn clone(&self) -> (copy: Self)
        ensures
            copy@ == self@,
    {
        Failure {
            kind: self.kind,
            title: self.title.clone(),
            message: self.message.clone(),
            retryable: self.retryable,
        }
    }
}

impl Failure {
    /// A failure with the given parts.
    pub fn new(kind: ErrorKind, title: &str, message: &str, retryable: bool) -> (failure: Self)
        ensures
            failure@ == failure_view(kind, title@, message@, retryable),
    {
        Failure { kind, title: title.to_owned(), message: message.to_owned(), retryable }
    }
}

/// The error codes by which a provider says that an account has nothing left to spend.
pub open spec fn is_quota_code(code: Seq<char>) -> bool {
    ||| code == "insufficient_quota"@
    ||| code == "quota_exceeded"@
    ||| code == "billing_hard_limit_reached"@
}

/// The failure for an HTTP status that is no success, given the provider's error code.
pub open spec fn status_failure(status: u16, code: Option<Seq<char>>) -> FailureView {
    if status == 401 || status == 403 {
        failure_view(
            ErrorKind::Credentials,
            "Confira sua chave de API"@,
            "O provedor recusou o acesso. Corrija a chave ou as permissões nas Configurações e tente novamente."@,
            true,
        )
    } else if status == 413 {
        failure_view(
            ErrorKind::TooLarge,
            "Áudio acima do limite"@,
            "O arquivo excede o limite de envio. Grave um trecho menor ou reduza a frequência do microfone nos ajustes de áudio."@,
            false,
        )
    } else if status == 429 && code is Some && is_quota_code(code->0) {
        failure_view(
            ErrorKind::Quota,
            "Saldo ou cota esgotados"@,
            "Confira os créditos e os limites da sua conta no provedor. Depois, tente novamente."@,
            true,
        )
    } else if status == 429 {
        failure_view(
            ErrorKind::RateLimit,
            "Limite de uso atingido"@,
            "O provedor limitou as solicitações. Aguarde um pouco antes de tentar novamente."@,
            true,
        )
    } else if status == 408 || status == 504 {
        failure_view(
            ErrorKind::Timeout,
            "O provedor demorou demais"@,
            "Não recebemos a transcrição a tempo. Confira sua conexão e tente novamente."@,
            true,
        )
    } else if 500 <= status <= 599 {
        failure_view(
            ErrorKind::Provider,
            "Provedor indisponível"@,
            "O serviço de transcrição apresentou uma falha. Aguarde um pouco e tente novamente."@,
            true,
        )
    } else {
        failure_view(
            ErrorKind::Provider,
            "O provedor recusou o áudio"@,
            "Resposta HTTP "@ + decimal(status as nat)
                + ". Confira o modelo escolhido nas Configurações e tente novamente."@,
            true,
        )
    }
}

/// The failure for an HTTP error response, from its status and body.
pub fn http_failure(status: u16, body: &str) -> (failure: Failure)
    ensures
        failure@ == status_failure(status, error_code_of(parsed_json(body@))),
{
    match error_code(body) {
        Some(code) => failure_for_status(status, Some(code.as_str())),
        None => failure_for_status(status, None),
    }
}

/// The failure for an HTTP error response, from its status and the provider's error code.
pub fn failure_for_status(status: u16, code: Option<&str>) -> (failure: Failure)
    ensures
        failure@ == status_failure(
            status,
            match code {
                Some(code) => Some(code@),
                None => None,
            },
        ),
{
    match status {
        401 | 403 => Failure::new(
            ErrorKind::Credentials,
            "Confira sua chave de API",
            "O provedor recusou o acesso. Corrija a chave ou as permissões nas Configurações e tente novamente.",
            true,
        ),
        413 => Failure::new(
            ErrorKind::TooLarge,
            "Áudio acima do limite",
            "O arquivo excede o limite de envio. Grave um trecho menor ou reduza a frequência do microfone nos ajustes de áudio.",
            false,
        ),
        429 => if names_a_quota(code) {
            Failure::new(
                ErrorKind::Quota,
                "Saldo ou cota esgotados",
                "Confira os créditos e os limites da sua conta no provedor. Depois, tente novamente.",
                true,
            )
        } else {
            Failure::new(
                ErrorKind::RateLimit,
                "Limite de uso atingido",
                "O provedor limitou as solicitações. Aguarde um pouco antes de tentar novamente.",
                true,
            )
        },
        408 | 504 => Failure::new(
            ErrorKind::Timeout,
            "O provedor demorou demais",
            "Não recebemos a transcrição a tempo. Confira sua conexão e tente novamente.",
            true,
        ),
        500..=599 => Failure::new(
            ErrorKind::Provider,
            "Provedor indisponível",
            "O serviço de transcrição apresentou uma falha. Aguarde um pouco e tente novamente.",
            true,
        ),
        _ => {
            let message = "Resposta HTTP ".to_owned().concat(decimal_text(status).as_str()).concat(
                ". Confira o modelo escolhido nas Configurações e tente novamente.",
            );
            Failure::new(
                ErrorKind::Provider,
                "O provedor recusou o áudio",
                message.as_str(),
                true,
            )
        },
    }
}

/// Whether an error code is one of those for an exhausted account.
fn names_a_quota(code: Option<&str>) -> (answer: bool)
    ensures
        answer == (code is Some && is_quota_code(code->0@)),
{
    match code {
        Some(code) => same_text(code, "insufficient_quota") || same_text(code, "quota_exceeded")
            || same_text(code, "billing_hard_limit_reached"),
        None => false,
    }
}

/// The failure for a request that brought no response.
pub open spec fn connection_failure(timed_out: bool) -> FailureView {
    if timed_out {
        failure_view(
            ErrorKind::Timeout,
            "Tempo de espera esgotado"@,
            "A conexão ou a transcrição excedeu o prazo de espera. Confira sua conexão e tente novamente."@,
            true,
        )
    } else {
        failure_view(
            ErrorKind::Connection,
            "Falha de conexão"@,
            "Não foi possível concluir a comunicação com o provedor. Confira sua conexão e tente novamente."@,
            true,
        )
    }
}

/// The failure for a request that brought no response, from whether it ran out of time.
pub fn network_failure(timed_out: bool) -> (failure: Failure)
    ensures
        failure@ == connection_failure(timed_out),
{
    if timed_out {
        Failure::new(
            ErrorKind::Timeout,
            "Tempo de espera esgotado",
            "A conexão ou a transcrição excedeu o prazo de espera. Confira sua conexão e tente novamente.",
            true,
        )
    } else {
        Failure::new(
            ErrorKind::Connection,
            "Falha de conexão",
            "Não foi possível concluir a comunicação com o provedor. Confira sua conexão e tente novamente.",
            true,
        )
    }
}

/// Of an error response, only an audio that is too large is beyond trying again.
pub proof fn law_only_oversized_audio_is_final(status: u16, code: Option<Seq<char>>)
    ensures
        status_failure(status, code).retryable <==> status != 413,
        status_failure(status, code).kind == ErrorKind::TooLarge <==> status == 413,
{
}

/// Nothing of a response body reaches the user: two bodies give the same failure, except that a 429
/// tells an exhausted account from a rate limit.
pub proof fn law_failures_do_not_echo_the_body(status: u16, one: Seq<char>, other: Seq<char>)
    requires
        status == 429 ==> names_quota(one) == names_quota(other),
    ensures
        status_failure(status, error_code_of(parsed_json(one))) == status_failure(
            status,
            error_code_of(parsed_json(other)),
        ),
{
}

/// Whether a response body carries one of the codes for an exhausted account.
pub open spec fn names_quota(body: Seq<char>) -> bool {
    let code = error_code_of(parsed_json(body));
    code is Some && is_quota_code(code->0)
}

/// Each status has its kind of failure: access refused, too large, out of time, an exhausted account
/// or too many requests, and otherwise the provider's own.
pub proof fn law_statuses_have_their_kinds(status: u16, code: Option<Seq<char>>)
    ensures
        ({
            let kind = status_failure(status, code).kind;
            let quota = code matches Some(code) && (code == "insufficient_quota"@ || code
                == "quota_exceeded"@ || code == "billing_hard_limit_reached"@);
            &&& kind == ErrorKind::Credentials <==> status == 401 || status == 403
            &&& kind == ErrorKind::TooLarge <==> status == 413
            &&& kind == ErrorKind::Quota <==> status == 429 && quota
            &&& kind == ErrorKind::RateLimit <==> status == 429 && !quota
            &&& kind == ErrorKind::Timeout <==> status == 408 || status == 504
            &&& kind == ErrorKind::Credentials || kind == ErrorKind::TooLarge || kind
                == ErrorKind::Quota || kind == ErrorKind::RateLimit || kind == ErrorKind::Timeout
                || kind == ErrorKind::Provider
        }),
{
}

/// What the user is told depends on the kind of failure alone, and of a failure that is the
/// provider's own, on whether the server failed; only an unexpected status is named.
pub proof fn law_statuses_are_told_in_words(status: u16, code: Option<Seq<char>>)
    ensures
        ({
            let failure = status_failure(status, code);
            match failure.kind {
                ErrorKind::Credentials => {
                    &&& failure.title == "Confira sua chave de API"@
                    &&& failure.message
                        == "O provedor recusou o acesso. Corrija a chave ou as permissões nas Configurações e tente novamente."@
                },
                ErrorKind::TooLarge => {
                    &&& failure.title == "Áudio acima do limite"@
                    &&& failure.message
                        == "O arquivo excede o limite de envio. Grave um trecho menor ou reduza a frequência do microfone nos ajustes de áudio."@
                },
                ErrorKind::Quota => {
                    &&& failure.title == "Saldo ou cota esgotados"@
                    &&& failure.message
                        == "Confira os créditos e os limites da sua conta no provedor. Depois, tente novamente."@
                },
                ErrorKind::RateLimit => {
                    &&& failure.title == "Limite de uso atingido"@
                    &&& failure.message
                        == "O provedor limitou as solicitações. Aguarde um pouco antes de tentar novamente."@
                },
                ErrorKind::Timeout => {
                    &&& failure.title == "O provedor demorou demais"@
                    &&& failure.message
                        == "Não recebemos a transcrição a tempo. Confira sua conexão e tente novamente."@
                },
                _ => if status / 100 == 5 {
                    &&& failure.title == "Provedor indisponível"@
                    &&& failure.message
                        == "O serviço de transcrição apresentou uma falha. Aguarde um pouco e tente novamente."@
                } else {
                    let named = "Resposta HTTP "@ + decimal(status as nat);
                    &&& failure.title == "O provedor recusou o áudio"@
                    &&& failure.message.take(named.len() as int) == named
                    &&& failure.message.skip(named.len() as int)
                        == ". Confira o modelo escolhido nas Configurações e tente novamente."@
                },
            }
        }),
{
    let failure = status_failure(status, code);
    let named = "Resposta HTTP "@ + decimal(status as nat);
    let rest = ". Confira o modelo escolhido nas Configurações e tente novamente."@;
    assert((named + rest).take(named.len() as int) =~= named);
    assert((named + rest).skip(named.len() as int) =~= rest);
}

/// The provider's error code makes a difference to nothing but a 429.
pub proof fn law_error_codes_matter_only_for_limits(
    status: u16,
    one: Option<Seq<char>>,
    other: Option<Seq<char>>,
)
    requires
        status != 429,
    ensures
        status_failure(status, one) == status_failure(status, other),
{
}

/// A request without a response has run out of time or found no connection, and can be tried again.
pub proof fn law_missing_responses_can_be_retried(timed_out: bool)
    ensures
        connection_failure(timed_out).retryable,
        connection_failure(timed_out).kind == if timed_out {
            ErrorKind::Timeout
        } else {
            ErrorKind::Connection
        },
        connection_failure(true).title == "Tempo de espera esgotado"@,
        connection_failure(true).message
            == "A conexão ou a transcrição excedeu o prazo de espera. Confira sua conexão e tente novamente."@,
        connection_failure(false).title == "Falha de conexão"@,
        connection_failure(false).message
            == "Não foi possível concluir a comunicação com o provedor. Confira sua conexão e tente novamente."@,
{
}

/// A failure has the parts that it is made of, and its view leaves none out.
pub proof fn law_failures_keep_their_parts(
    failure: Failure,
    kind: ErrorKind,
    title: Seq<char>,
    message: Seq<char>,
    retryable: bool,
)
    ensures
        failure_view(kind, title, message, retryable).kind == kind,
        failure_view(kind, title, message, retryable).title == title,
        failure_view(kind, title, message, retryable).message == message,
        failure_view(kind, title, message, retryable).retryable == retryable,
        failure@.kind == failure.kind,
        failure@.title == failure.title@,
        failure@.message == failure.message@,
        failure@.retryable == failure.retryable,
{
}

} // verus!
