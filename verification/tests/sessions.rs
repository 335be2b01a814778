use std::sync::Arc;
use whispa::audio::{AudioFormat, PendingAudio};
use whispa::failure::{ErrorKind, Failure};
use whispa::hud::HudState;
use whispa::session::{attempt_detail, AppState, Recovery, ToggleAction};

fn audio(bytes: Vec<u8>, sample_count: usize) -> PendingAudio {
    PendingAudio {
        bytes: Arc::new(bytes),
        sample_count,
        format: AudioFormat { sample_rate: 48_000, channels: 1 },
        limit_reached: false,
    }
}

#[test]
fn toggles_cannot_start_recording_during_transcription() {
    let mut state = AppState::new(0);
    assert!(state.can_start_new_recording(), "deve permitir gravação em estado inicial");
    state.busy = true;
    assert!(!state.can_start_new_recording(), "não pode gravar enquanto ocupado com transcrição");
}

#[test]
fn clipboard_failure_retries_only_text_copying() {
    let mut state = AppState::new(0);
    state.recovery = Some(Recovery::Text("transcrição de teste".into()));
    let error = Failure::new(
        ErrorKind::Clipboard,
        "Não foi possível copiar",
        "Tente novamente para copiar",
        true,
    );
    let hud = state.build_failure_hud(&error, "detalhe", 0);
    assert!(hud.can_retry, "falha de clipboard deve permitir tentar novamente");
    assert!(hud.has_recovery, "deve indicar que há recuperação disponível");

    let (cycle_id, recovery) = state.prepare_retry().expect("retry deve ser aceito");
    assert_eq!(cycle_id, 1);
    match recovery {
        Recovery::Text(text) => assert_eq!(text, "transcrição de teste"),
        Recovery::Audio(_) => panic!("não deve reenviar áudio quando a falha for de clipboard"),
    }
}

#[test]
fn failed_audio_survives_repeated_attempts_until_dismissed() {
    let mut state = AppState::new(0);
    // 12.5 seconds at 48 kHz.
    let audio = audio(vec![1, 2, 3, 4], 600_000);
    state.recovery = Some(Recovery::Audio(audio.clone()));

    let timeout_err = Failure::new(ErrorKind::Timeout, "Tempo esgotado", "Demorou demais", true);
    let hud = state.build_failure_hud(&timeout_err, "tentativa 1", 0);
    assert!(hud.can_retry);
    assert!(hud.has_recovery);

    let (cycle1, rec1) = state.prepare_retry().unwrap();
    assert_eq!(cycle1, 1);
    match rec1 {
        Recovery::Audio(a) => assert_eq!(a.bytes.len(), 4),
        _ => panic!("deve ser áudio"),
    }

    let conn_err = Failure::new(ErrorKind::Connection, "Falha de conexão", "Sem rede", true);
    let hud2 = state.build_failure_hud(&conn_err, "tentativa 2", 0);
    assert!(hud2.can_retry);
    assert!(hud2.has_recovery);

    let (cycle2, rec2) = state.prepare_retry().unwrap();
    assert_eq!(cycle2, 2);
    match rec2 {
        Recovery::Audio(a) => assert_eq!(a.bytes.len(), 4),
        _ => panic!("deve continuar sendo o áudio original"),
    }

    state.busy = false;
    state.perform_dismiss(0).unwrap();
    assert!(state.recovery.is_none(), "áudio deve ser descartado da memória");
    assert_eq!(state.hud.state, "idle");
    assert!(!state.hud.can_retry);
    assert!(state.can_start_new_recording(), "deve poder iniciar novo ciclo após descartar");
}

#[test]
fn non_retryable_failure_blocks_retry() {
    let mut state = AppState::new(0);
    // 5 seconds at 48 kHz.
    state.recovery = Some(Recovery::Audio(audio(vec![1, 2, 3], 240_000)));

    let non_retryable = Failure::new(
        ErrorKind::NoSpeech,
        "Nenhuma fala reconhecida",
        "Fale mais perto",
        false,
    );
    let hud = state.build_failure_hud(&non_retryable, "", 0);
    assert!(!hud.can_retry, "erro não-retryable não pode permitir retry");
    assert!(state.prepare_retry().is_err(), "prepare_retry deve rejeitar");
}

#[test]
fn a_new_state_is_idle() {
    let state = AppState::new(7);
    assert!(state.recording.is_none());
    assert!(!state.setup_done);
    assert_eq!(state.cycle_id, 0);
    assert!(!state.busy);
    assert!(state.recovery.is_none());
    assert_eq!(state.hud.state, "idle");
    assert_eq!(state.hud.title, "");
    assert_eq!(state.hud.started_at_ms, 7);
    assert_eq!(state.hud.recording_limit_secs, 180);
}

#[test]
fn a_dictation_comes_full_circle() {
    let mut state = AppState::new(0);
    assert_eq!(state.toggle_recording(10), ToggleAction::Record { cycle_id: 1, first_use: true });
    assert!(state.busy);
    assert!(!state.stop_requested());
    assert_eq!(state.get_hud_state().title, "GRAVANDO");
    assert_eq!(state.hud.started_at_ms, 10);

    assert_eq!(state.toggle_recording(20), ToggleAction::Present);
    assert!(state.stop_requested());
    assert_eq!(state.hud.title, "TRANSCREVENDO");
    assert_eq!(state.toggle_recording(30), ToggleAction::Nothing);
    assert_eq!(state.hud.started_at_ms, 20);

    state.end_recording(true, 40);
    assert!(state.recording.is_none());
    assert_eq!(state.hud.message, "Limite de 3 minutos atingido. Transcrevendo o áudio capturado.");

    let recorded = state.finish_recording(Ok(audio(vec![9], 1)), 50).unwrap();
    assert_eq!(*recorded.bytes, vec![9]);
    assert_eq!(state.toggle_recording(55), ToggleAction::Present);
    assert_eq!(state.begin_transcription(Some("chave".into()), "detalhe", 60).unwrap(), "chave");
    let text = state.finish_transcription(Ok("olá".into()), "detalhe", "2", 70).unwrap();
    assert_eq!(text, "olá");
    assert!(matches!(&state.recovery, Some(Recovery::Text(kept)) if kept == "olá"));

    state.finish_delivery(true, 80).unwrap();
    assert!(state.recovery.is_none());
    assert!(!state.busy);
    assert_eq!(state.hud.title, "COPIADO");
    assert!(state.may_hide_hud(1));
    assert!(!state.may_hide_hud(0));

    assert_eq!(state.toggle_recording(90), ToggleAction::Record { cycle_id: 2, first_use: false });
    assert!(!state.may_hide_hud(1));
    assert!(!state.is_current(1));
    assert!(state.is_current(2));
    state.end_recording(false, 100);
    assert_eq!(state.hud.message, "");
}

#[test]
fn a_failed_recording_keeps_nothing() {
    let mut state = AppState::new(0);
    state.toggle_recording(0);
    state.end_recording(false, 0);
    let failure = Failure::new(ErrorKind::Audio, "Áudio não capturado", "Confira", false);
    assert_eq!(state.finish_recording(Err(failure), 5).unwrap_err().kind, ErrorKind::Audio);
    assert_eq!(state.hud.state, "error");
    assert_eq!(state.hud.title, "Áudio não capturado");
    assert_eq!(state.hud.message, "Confira");
    assert_eq!(state.hud.detail, "");
    assert!(!state.hud.has_recovery);
    assert_eq!(state.hud.recovery_message, "");
    assert!(!state.busy);
    assert!(state.recovery.is_none());
    assert_eq!(state.toggle_recording(6), ToggleAction::Record { cycle_id: 2, first_use: false });
}

#[test]
fn a_missing_key_keeps_the_audio() {
    let mut state = AppState::new(0);
    state.toggle_recording(0);
    state.end_recording(false, 0);
    state.finish_recording(Ok(audio(vec![1], 1)), 0).unwrap();
    assert_eq!(state.begin_transcription(None, "Groq", 5).unwrap_err().kind, ErrorKind::Credentials);
    assert_eq!(state.hud.title, "Configure sua chave de API");
    assert_eq!(state.hud.detail, "Groq");
    assert!(state.hud.can_retry);
    assert_eq!(
        state.hud.recovery_message,
        "Áudio mantido em memória. Descartar ou fechar o app apaga esta gravação."
    );
    assert_eq!(state.toggle_recording(6), ToggleAction::Present);
    let (cycle_id, recovery) = state.retry_transcription(7).unwrap();
    assert_eq!(cycle_id, 2);
    assert!(matches!(recovery, Recovery::Audio(kept) if *kept.bytes == vec![1]));
    assert_eq!(state.hud.state, "processing");
    assert_eq!(state.hud.started_at_ms, 7);
}

#[test]
fn a_failed_transcription_tells_how_long_it_took() {
    let mut state = AppState::new(0);
    state.toggle_recording(0);
    state.end_recording(false, 0);
    state.finish_recording(Ok(audio(vec![1], 1)), 0).unwrap();
    let failure = Failure::new(ErrorKind::Timeout, "Tempo", "Demorou", true);
    let reported = state.finish_transcription(Err(failure), "Groq · áudio 1s · 0.1 MB", "12", 5);
    assert_eq!(reported.unwrap_err().title, "Tempo");
    assert_eq!(state.hud.detail, "Groq · áudio 1s · 0.1 MB · espera 12s");
    assert!(state.hud.can_retry);
    assert!(!state.busy);
}

#[test]
fn a_failed_copy_keeps_the_text() {
    let mut state = AppState::new(0);
    state.busy = true;
    state.deliver_text("olá");
    assert_eq!(state.finish_delivery(false, 5).unwrap_err().kind, ErrorKind::Clipboard);
    assert_eq!(state.hud.title, "Não foi possível copiar");
    assert_eq!(
        state.hud.recovery_message,
        "Texto mantido em memória. Descartar ou fechar o app apaga esta transcrição."
    );
    let (_, recovery) = state.retry_transcription(6).unwrap();
    assert!(matches!(recovery, Recovery::Text(text) if text == "olá"));
}

#[test]
fn requests_are_refused_with_their_reason() {
    let mut state = AppState::new(0);
    assert_eq!(state.retry_transcription(1).unwrap_err(), "Esta falha exige uma nova gravação.");
    state.hud.can_retry = true;
    assert_eq!(state.prepare_retry().unwrap_err(), "Não há gravação para tentar novamente.");
    assert!(!state.busy);
    state.busy = true;
    assert_eq!(state.prepare_retry().unwrap_err(), "Já existe um ditado em andamento.");
    assert_eq!(state.perform_dismiss(2).unwrap_err(), "Aguarde o ditado terminar.");
    assert_eq!(state.cycle_id, 0);
    assert_eq!(state.toggle_recording(3), ToggleAction::Nothing);
}

#[test]
fn cycles_wrap_around() {
    let mut state = AppState::new(0);
    state.cycle_id = u64::MAX;
    state.perform_dismiss(1).unwrap();
    assert_eq!(state.cycle_id, 0);
    assert_eq!(state.hud.started_at_ms, 1);
}

#[test]
fn a_dismissed_state_forgets_what_was_kept() {
    let mut state = AppState::new(0);
    state.recovery = Some(Recovery::Text("olá".into()));
    assert!(!state.can_start_new_recording());
    assert!(!state.busy);
    state.perform_dismiss(3).unwrap();
    assert!(state.recovery.is_none());
    assert_eq!(state.cycle_id, 1);
    assert!(state.prepare_retry().is_err());
}

#[test]
fn what_is_kept_is_lost_to_nothing_but_a_copy_or_the_user() {
    let mut state = AppState::new(0);
    state.toggle_recording(0);
    state.end_recording(false, 0);
    state.finish_recording(Ok(audio(vec![1, 2], 2)), 0).unwrap();
    let keeps_audio =
        |state: &AppState| matches!(&state.recovery, Some(Recovery::Audio(kept)) if *kept.bytes == [1, 2]);
    assert!(state.begin_transcription(None, "Groq", 1).is_err());
    assert!(keeps_audio(&state));
    assert_eq!(state.toggle_recording(2), ToggleAction::Present);
    assert!(state.recording.is_none());
    assert!(keeps_audio(&state));
    state.retry_transcription(3).unwrap();
    assert!(state.perform_dismiss(4).is_err());
    assert!(keeps_audio(&state));
    state.finish_transcription(Ok("olá".into()), "Groq", "1", 5).unwrap();
    assert!(state.finish_delivery(false, 6).is_err());
    assert_eq!(state.toggle_recording(7), ToggleAction::Present);
    state.retry_transcription(8).unwrap();
    state.deliver_text("olá");
    assert!(matches!(&state.recovery, Some(Recovery::Text(kept)) if kept == "olá"));
    state.finish_delivery(true, 9).unwrap();
    assert!(state.recovery.is_none());
}

#[test]
fn a_presented_indicator_is_kept_with_its_cycle() {
    let mut state = AppState::new(0);
    state.cycle_id = 4;
    assert_eq!(state.present_hud(HudState::new("error", "Falha", 9)), 4);
    assert_eq!(state.get_hud_state().title, "Falha");
    state.show_hud("success", 10);
    assert_eq!(state.hud.state, "success");
    assert!(state.mark_setup_done());
    assert!(!state.mark_setup_done());
    assert_eq!(state.start_recording(11), 5);
}

#[test]
fn failures_show_nothing_of_what_is_kept() {
    let failure = Failure::new(ErrorKind::Timeout, "Tempo", "Demorou", true);
    let mut one = AppState::new(0);
    one.recovery = Some(Recovery::Text("segredo".into()));
    let mut other = AppState::new(0);
    other.recovery = Some(Recovery::Text("outro".into()));
    let shown = format!("{:?}", one.build_failure_hud(&failure, "detalhe", 1));
    assert_eq!(shown, format!("{:?}", other.build_failure_hud(&failure, "detalhe", 1)));
    assert!(!shown.contains("segredo"));
}

#[test]
fn the_detail_of_an_attempt_is_put_together() {
    assert_eq!(attempt_detail("Groq", "12", "1.2", false), "Groq · áudio 12s · 1.2 MB");
    assert_eq!(
        attempt_detail("OpenAI", "180", "17.3", true),
        "OpenAI · áudio 180s · 17.3 MB · limite de 3 min"
    );
}
