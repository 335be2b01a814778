//! The course of a dictation: recording, transcription, delivery, and what is kept when one fails.

use crate::audio::{PendingAudio, PendingAudioView};
use crate::failure::{failure_view, ErrorKind, Failure, FailureView};
use crate::hud::{hud_title, plain_hud, title_of, HudState, HudView};
use crate::text::same_text;
use vstd::prelude::*;

verus! {

/// How long the indicator of a success stays, in milliseconds.
pub const SUCCESS_VISIBLE_MS: u64 = 1800;

/// A running recording.
#[derive(Debug, Clone, Copy, PartialEq, Eq, Structural)]
pub struct RecordingHandle {
    /// Whether the recording has been asked to stop.
    pub stop_requested: bool,
}

/// What is kept until it has reached the clipboard or the user lets it go.
#[derive(Debug)]
pub enum Recovery {
    /// A recording that has not been transcribed.
    Audio(PendingAudio),
    /// A transcription that has not been copied.
    Text(String),
}

/// What a [`Recovery`] holds.
pub enum RecoveryView {
    Audio(PendingAudioView),
    Text(Seq<char>),
}

impl View for Recovery {
    type V = RecoveryView;

    open spec fn view(&self) -> RecoveryView {
        match self {
            Recovery::Audio(audio) => RecoveryView::Audio(audio@),
            Recovery::Text(text) => RecoveryView::Text(text@),
        }
    }
}

impl Clone for Recovery {
    fn clone(&self) -> (copy: Self)
        ensures
            copy@ == self@,
    {
        match self {
            Recovery::Audio(audio) => Recovery::Audio(audio.clone()),
            Recovery::Text(text) => Recovery::Text(text.clone()),
        }
    }
}

/// The state of the application.
#[derive(Debug)]
pub struct AppState {
    /// The recording that is running.
    pub recording: Option<RecordingHandle>,
    /// Whether the hotkey has been seen to work.
    pub setup_done: bool,
    /// The number of the latest dictation or attempt. What an earlier one still has to show or hide
    /// is out of date.
    pub cycle_id: u64,
    /// Whether a dictation is under way, from the start of its recording to its outcome.
    pub busy: bool,
    /// What is kept for another attempt.
    pub recovery: Option<Recovery>,
    /// What the indicator shows.
    pub hud: HudState,
}

/// What an [`AppState`] says.
pub struct AppStateView {
    pub recording: Option<RecordingHandle>,
    pub setup_done: bool,
    pub cycle_id: u64,
    pub busy: bool,
    pub recovery: Option<RecoveryView>,
    pub hud: HudView,
}

impl View for AppState {
    type V = AppStateView;

    open spec fn view(&self) -> AppStateView {
        AppStateView {
            recording: self.recording,
            setup_done: self.setup_done,
            cycle_id: self.cycle_id,
            busy: self.busy,
            recovery: match self.recovery {
                Some(recovery) => Some(recovery@),
                None => None,
            },
            hud: self.hud@,
        }
    }
}

/// The state in which the application starts.
pub open spec fn initial_state(now_ms: u64) -> AppStateView {
    AppStateView {
        recording: None,
        setup_done: false,
        cycle_id: 0,
        busy: false,
        recovery: None,
        hud: plain_hud("idle"@, Seq::empty(), now_ms),
    }
}

/// The number of the dictation or attempt after one.
pub open spec fn next_cycle(cycle_id: u64) -> u64 {
    if cycle_id == u64::MAX {
        0
    } else {
        (cycle_id + 1) as u64
    }
}

/// Whether a new recording may start: none is running, no dictation is under way, and nothing is
/// kept that a new one would replace.
pub open spec fn can_start(state: AppStateView) -> bool {
    &&& state.recording is None
    &&& !state.busy
    &&& state.recovery is None
}

/// The state with a dictation under way, where one may start.
pub open spec fn claimed(state: AppStateView) -> AppStateView {
    AppStateView { busy: state.busy || can_start(state), ..state }
}

/// The state with an indicator of one word.
pub open spec fn showing(state: AppStateView, word: Seq<char>, now_ms: u64) -> AppStateView {
    AppStateView { hud: plain_hud(word, title_of(word), now_ms), ..state }
}

/// The state with a recording that has just begun.
pub open spec fn recording_started(state: AppStateView, now_ms: u64) -> AppStateView {
    AppStateView {
        recording: Some(RecordingHandle { stop_requested: false }),
        setup_done: true,
        cycle_id: next_cycle(state.cycle_id),
        ..showing(state, "recording"@, now_ms)
    }
}

/// The state with a recording that has been asked to stop.
pub open spec fn stop_asked(state: AppStateView, now_ms: u64) -> AppStateView {
    AppStateView {
        recording: Some(RecordingHandle { stop_requested: true }),
        ..showing(state, "processing"@, now_ms)
    }
}

/// What the user is told of a recording that was cut.
pub open spec fn limit_notice(limit_reached: bool) -> Seq<char> {
    if limit_reached {
        "Limite de 3 minutos atingido. Transcrevendo o áudio capturado."@
    } else {
        Seq::empty()
    }
}

/// The state after the end of a recording.
pub open spec fn recording_ended(
    state: AppStateView,
    limit_reached: bool,
    now_ms: u64,
) -> AppStateView {
    AppStateView {
        recording: None,
        hud: HudView {
            message: limit_notice(limit_reached),
            ..plain_hud("processing"@, "TRANSCREVENDO"@, now_ms)
        },
        ..state
    }
}

/// The state with something kept for another attempt.
pub open spec fn keeping(state: AppStateView, recovery: RecoveryView) -> AppStateView {
    AppStateView { recovery: Some(recovery), ..state }
}

/// What the user is told of what is kept.
pub open spec fn recovery_notice(recovery: Option<RecoveryView>) -> Seq<char> {
    match recovery {
        Some(
            RecoveryView::Audio(_),
        ) => "Áudio mantido em memória. Descartar ou fechar o app apaga esta gravação."@,
        Some(
            RecoveryView::Text(_),
        ) => "Texto mantido em memória. Descartar ou fechar o app apaga esta transcrição."@,
        None => Seq::empty(),
    }
}

/// The indicator of a failure. Another attempt is offered where the failure allows one and something
/// is kept for it.
pub open spec fn failure_hud(
    recovery: Option<RecoveryView>,
    failure: FailureView,
    detail: Seq<char>,
    now_ms: u64,
) -> HudView {
    HudView {
        message: failure.message,
        detail,
        can_retry: recovery is Some && failure.retryable,
        has_recovery: recovery is Some,
        recovery_message: recovery_notice(recovery),
        ..plain_hud("error"@, failure.title, now_ms)
    }
}

/// The state after a failure: the dictation is over, and what was kept is still kept.
pub open spec fn failed(
    state: AppStateView,
    failure: FailureView,
    detail: Seq<char>,
    now_ms: u64,
) -> AppStateView {
    AppStateView {
        hud: failure_hud(state.recovery, failure, detail, now_ms),
        busy: false,
        ..state
    }
}

/// Why another attempt is refused.
pub open spec fn retry_refusal(state: AppStateView) -> Option<Seq<char>> {
    if state.busy {
        Some("Já existe um ditado em andamento."@)
    } else if !state.hud.can_retry {
        Some("Esta falha exige uma nova gravação."@)
    } else if state.recovery is None {
        Some("Não há gravação para tentar novamente."@)
    } else {
        None
    }
}

/// The state with another attempt under way.
pub open spec fn retry_claimed(state: AppStateView) -> AppStateView {
    AppStateView { busy: true, cycle_id: next_cycle(state.cycle_id), ..state }
}

/// The state after a request for another attempt.
pub open spec fn retried(state: AppStateView, now_ms: u64) -> AppStateView {
    if retry_refusal(state) is None {
        showing(retry_claimed(state), "processing"@, now_ms)
    } else {
        state
    }
}

/// The state after the user has let go what was kept.
pub open spec fn dismissed(state: AppStateView, now_ms: u64) -> AppStateView {
    if state.busy {
        state
    } else {
        AppStateView {
            recovery: None,
            cycle_id: next_cycle(state.cycle_id),
            hud: plain_hud("idle"@, Seq::empty(), now_ms),
            ..state
        }
    }
}

/// The failure of an attempt without a key.
pub open spec fn no_key_failure() -> FailureView {
    failure_view(
        ErrorKind::Credentials,
        "Configure sua chave de API"@,
        "Salve a chave do provedor nas Configurações e tente novamente com este áudio."@,
        true,
    )
}

/// The failure of a copy to the clipboard.
pub open spec fn clipboard_failure() -> FailureView {
    failure_view(
        ErrorKind::Clipboard,
        "Não foi possível copiar"@,
        "A transcrição está pronta. Tente novamente para copiar o texto, sem reenviar o áudio."@,
        true,
    )
}

/// The state after a copy to the clipboard was tried: all is done, or the text is still kept.
pub open spec fn delivered(state: AppStateView, copied: bool, now_ms: u64) -> AppStateView {
    if copied {
        AppStateView { recovery: None, busy: false, ..showing(state, "success"@, now_ms) }
    } else {
        failed(state, clipboard_failure(), Seq::empty(), now_ms)
    }
}

/// What the application does on the hotkey.
#[derive(Debug, Clone, Copy, PartialEq, Eq, Structural)]
pub enum ToggleAction {
    /// Nothing.
    Nothing,
    /// It presents the indicator.
    Present,
    /// It records, and presents the indicator.
    Record {
        cycle_id: u64,
        /// Whether the hotkey is seen to work for the first time.
        first_use: bool,
    },
}

/// What the application does on the hotkey: stop the recording that is running, start one, or else
/// bring what is kept to the user's attention.
pub open spec fn toggle_action(state: AppStateView) -> ToggleAction {
    match state.recording {
        Some(handle) => if handle.stop_requested {
            ToggleAction::Nothing
        } else {
            ToggleAction::Present
        },
        None => if can_start(state) {
            ToggleAction::Record {
                cycle_id: next_cycle(state.cycle_id),
                first_use: !state.setup_done,
            }
        } else if state.recovery is Some {
            ToggleAction::Present
        } else {
            ToggleAction::Nothing
        },
    }
}

/// The state after the hotkey.
pub open spec fn toggled(state: AppStateView, now_ms: u64) -> AppStateView {
    match state.recording {
        Some(handle) => if handle.stop_requested {
            state
        } else {
            stop_asked(state, now_ms)
        },
        None => if can_start(state) {
            recording_started(claimed(state), now_ms)
        } else {
            state
        },
    }
}

/// Whether the indicator may be hidden on behalf of a dictation or attempt that has succeeded.
pub open spec fn may_hide(state: AppStateView, cycle_id: u64) -> bool {
    state.cycle_id == cycle_id && state.hud.state == "success"@
}

/// The detail of an attempt, with how long it took.
pub open spec fn waited_detail(detail: Seq<char>, waited_secs: Seq<char>) -> Seq<char> {
    detail + " · espera "@ + waited_secs + "s"@
}

/// The detail of an attempt: the provider, the duration and size of the audio, and whether it was
/// cut.
pub open spec fn detail_of(
    provider: Seq<char>,
    seconds: Seq<char>,
    megabytes: Seq<char>,
    limit_reached: bool,
) -> Seq<char> {
    provider + " · áudio "@ + seconds + "s · "@ + megabytes + " MB"@ + (if limit_reached {
        " · limite de 3 min"@
    } else {
        Seq::empty()
    })
}

proof fn lemma_empty_text()
    ensures
        ""@ == Seq::<char>::empty(),
{
    reveal_strlit("");
    assert(""@ =~= Seq::<char>::empty());
}

impl AppState {
    /// The state in which the application starts.
    pub fn new(now_ms: u64) -> (state: Self)
        ensures
            state@ == initial_state(now_ms),
    {
        proof {
            lemma_empty_text();
        }
        AppState {
            recording: None,
            setup_done: false,
            cycle_id: 0,
            busy: false,
            recovery: None,
            hud: HudState::new("idle", "", now_ms),
        }
    }

    /// Claims a new dictation, where one may start.
    pub fn can_start_new_recording(&mut self) -> (claimed_one: bool)
        ensures
            claimed_one == can_start(old(self)@),
            final(self)@ == claimed(old(self)@),
    {
        if self.recording.is_some() {
            return false;
        }
        if self.busy {
            return false;
        }
        if self.recovery.is_some() {
            return false;
        }
        self.busy = true;
        true
    }

    fn advance_cycle(&mut self)
        ensures
            final(self)@ == (AppStateView {
                cycle_id: next_cycle(old(self).cycle_id),
                ..old(self)@
            }),
    {
        self.cycle_id = self.cycle_id.wrapping_add(1);
    }

    /// Claims another attempt with what is kept.
    pub fn prepare_retry(&mut self) -> (result: Result<(u64, Recovery), String>)
        ensures
            match result {
                Ok((cycle_id, recovery)) => {
                    &&& retry_refusal(old(self)@) is None
                    &&& final(self)@ == retry_claimed(old(self)@)
                    &&& cycle_id == final(self).cycle_id
                    &&& old(self)@.recovery == Some(recovery@)
                },
                Err(refusal) => {
                    &&& retry_refusal(old(self)@) == Some(refusal@)
                    &&& final(self)@ == old(self)@
                },
            },
    {
        if self.busy {
            return Err("Já existe um ditado em andamento.".to_owned());
        }
        if !self.hud.can_retry {
            return Err("Esta falha exige uma nova gravação.".to_owned());
        }
        let recovery = match &self.recovery {
            Some(recovery) => recovery.clone(),
            None => return Err("Não há gravação para tentar novamente.".to_owned()),
        };
        self.busy = true;
        self.advance_cycle();
        Ok((self.cycle_id, recovery))
    }

    /// Lets go what is kept.
    pub fn perform_dismiss(&mut self, now_ms: u64) -> (result: Result<(), String>)
        ensures
            match result {
                Ok(_) => !old(self).busy,
                Err(refusal) => old(self).busy && refusal@ == "Aguarde o ditado terminar."@,
            },
            final(self)@ == dismissed(old(self)@, now_ms),
    {
        if self.busy {
            return Err("Aguarde o ditado terminar.".to_owned());
        }
        proof {
            lemma_empty_text();
        }
        self.recovery = None;
        self.advance_cycle();
        self.hud = HudState::new("idle", "", now_ms);
        Ok(())
    }

    /// Ends the dictation with a failure, and gives the indicator of it.
    pub fn build_failure_hud(&mut self, error: &Failure, detail: &str, now_ms: u64) -> (hud:
        HudState)
        ensures
            final(self)@ == failed(old(self)@, error@, detail@, now_ms),
            hud@ == final(self)@.hud,
    {
        let recovery_message = match &self.recovery {
            Some(
                Recovery::Audio(_),
            ) => "Áudio mantido em memória. Descartar ou fechar o app apaga esta gravação.",
            Some(
                Recovery::Text(_),
            ) => "Texto mantido em memória. Descartar ou fechar o app apaga esta transcrição.",
            None => "",
        };
        proof {
            lemma_empty_text();
        }
        let has_recovery = self.recovery.is_some();
        let mut hud = HudState::new("error", error.title.as_str(), now_ms);
        hud.message = error.message.clone();
        hud.detail = detail.to_owned();
        hud.can_retry = has_recovery && error.retryable;
        hud.has_recovery = has_recovery;
        hud.recovery_message = recovery_message.to_owned();
        self.hud = hud.clone();
        self.busy = false;
        hud
    }

    /// Shows one word in the indicator.
    pub fn show_hud(&mut self, word: &str, now_ms: u64)
        ensures
            final(self)@ == showing(old(self)@, word@, now_ms),
    {
        self.hud = HudState::new(word, hud_title(word), now_ms);
    }

    /// Takes an indicator to present, and gives the number of the dictation or attempt that it
    /// belongs to.
    pub fn present_hud(&mut self, hud: HudState) -> (cycle_id: u64)
        ensures
            final(self)@ == (AppStateView { hud: hud@, ..old(self)@ }),
            cycle_id == old(self).cycle_id,
    {
        self.hud = hud;
        self.cycle_id
    }

    /// Whether a dictation or attempt is the latest one.
    pub fn is_current(&self, cycle_id: u64) -> (answer: bool)
        ensures
            answer == (self.cycle_id == cycle_id),
    {
        self.cycle_id == cycle_id
    }

    /// Whether the indicator may be hidden on behalf of a dictation or attempt that has succeeded:
    /// it is the latest one, and its success is still what is shown.
    pub fn may_hide_hud(&self, cycle_id: u64) -> (answer: bool)
        ensures
            answer == may_hide(self@, cycle_id),
    {
        self.cycle_id == cycle_id && same_text(self.hud.state.as_str(), "success")
    }

    /// What the indicator shows.
    pub fn get_hud_state(&self) -> (hud: HudState)
        ensures
            hud@ == self@.hud,
    {
        self.hud.clone()
    }

    /// Takes note that the hotkey works, and says whether that is news.
    pub fn mark_setup_done(&mut self) -> (first_use: bool)
        ensures
            first_use == !old(self).setup_done,
            final(self)@ == (AppStateView { setup_done: true, ..old(self)@ }),
    {
        let first_use = !self.setup_done;
        self.setup_done = true;
        first_use
    }

    /// Begins a recording, and gives the number of its dictation.
    pub fn start_recording(&mut self, now_ms: u64) -> (cycle_id: u64)
        ensures
            final(self)@ == recording_started(old(self)@, now_ms),
            cycle_id == final(self).cycle_id,
    {
        self.setup_done = true;
        self.advance_cycle();
        self.recording = Some(RecordingHandle { stop_requested: false });
        self.show_hud("recording", now_ms);
        self.cycle_id
    }

    /// Responds to the hotkey.
    pub fn toggle_recording(&mut self, now_ms: u64) -> (action: ToggleAction)
        ensures
            action == toggle_action(old(self)@),
            final(self)@ == toggled(old(self)@, now_ms),
    {
        if let Some(handle) = self.recording {
            if handle.stop_requested {
                return ToggleAction::Nothing;
            }
            self.recording = Some(RecordingHandle { stop_requested: true });
            self.show_hud("processing", now_ms);
            return ToggleAction::Present;
        }
        if !self.can_start_new_recording() {
            if self.recovery.is_some() {
                return ToggleAction::Present;
            }
            return ToggleAction::Nothing;
        }
        let first_use = self.mark_setup_done();
        let cycle_id: u64 = self.start_recording(now_ms);
        ToggleAction::Record { cycle_id, first_use }
    }

    /// Whether a recording is asked to stop.
    pub fn stop_requested(&self) -> (answer: bool)
        ensures
            answer == (self.recording is Some && self.recording->0.stop_requested),
    {
        match self.recording {
            Some(handle) => handle.stop_requested,
            None => false,
        }
    }

    /// Takes note of the end of a recording.
    pub fn end_recording(&mut self, limit_reached: bool, now_ms: u64)
        ensures
            final(self)@ == recording_ended(old(self)@, limit_reached, now_ms),
    {
        let mut hud = HudState::new("processing", "TRANSCREVENDO", now_ms);
        if limit_reached {
            hud.message = "Limite de 3 minutos atingido. Transcrevendo o áudio capturado.".to_owned();
        }
        self.recording = None;
        self.hud = hud;
    }

    /// Takes what came of a recording: the audio is kept, and given back to be transcribed. Where
    /// none came, the dictation has failed.
    pub fn finish_recording(&mut self, result: Result<PendingAudio, Failure>, now_ms: u64) -> (audio:
        Result<PendingAudio, Failure>)
        ensures
            match result {
                Ok(recorded) => {
                    &&& final(self)@ == keeping(old(self)@, RecoveryView::Audio(recorded@))
                    &&& audio is Ok && audio->Ok_0@ == recorded@
                },
                Err(failure) => {
                    &&& final(self)@ == failed(old(self)@, failure@, Seq::empty(), now_ms)
                    &&& audio is Err && audio->Err_0@ == failure@
                },
            },
    {
        match result {
            Ok(recorded) => {
                self.recovery = Some(Recovery::Audio(recorded.clone()));
                Ok(recorded)
            },
            Err(failure) => {
                proof {
                    lemma_empty_text();
                }
                let _ = self.build_failure_hud(&failure, "", now_ms);
                Err(failure)
            },
        }
    }

    /// Takes the key for an attempt, and gives it back to be used. Without one, the attempt has
    /// failed.
    pub fn begin_transcription(&mut self, api_key: Option<String>, detail: &str, now_ms: u64) -> (key:
        Result<String, Failure>)
        ensures
            match api_key {
                Some(api_key) => {
                    &&& final(self)@ == old(self)@
                    &&& key is Ok && key->Ok_0@ == api_key@
                },
                None => {
                    &&& final(self)@ == failed(old(self)@, no_key_failure(), detail@, now_ms)
                    &&& key is Err && key->Err_0@ == no_key_failure()
                },
            },
    {
        match api_key {
            Some(api_key) => Ok(api_key),
            None => {
                let failure = Failure::new(
                    ErrorKind::Credentials,
                    "Configure sua chave de API",
                    "Salve a chave do provedor nas Configurações e tente novamente com este áudio.",
                    true,
                );
                let _ = self.build_failure_hud(&failure, detail, now_ms);
                Err(failure)
            },
        }
    }

    /// Takes what came of a transcription: the text is kept in place of the audio, and given back to
    /// be copied. Where none came, the attempt has failed; the user reads how long it took, in
    /// seconds.
    pub fn finish_transcription(
        &mut self,
        result: Result<String, Failure>,
        detail: &str,
        waited_secs: &str,
        now_ms: u64,
    ) -> (text: Result<String, Failure>)
        ensures
            match result {
                Ok(transcription) => {
                    &&& final(self)@ == keeping(old(self)@, RecoveryView::Text(transcription@))
                    &&& text is Ok && text->Ok_0@ == transcription@
                },
                Err(failure) => {
                    &&& final(self)@ == failed(
                        old(self)@,
                        failure@,
                        waited_detail(detail@, waited_secs@),
                        now_ms,
                    )
                    &&& text is Err && text->Err_0@ == failure@
                },
            },
    {
        match result {
            Ok(transcription) => {
                self.deliver_text(transcription.as_str());
                Ok(transcription)
            },
            Err(failure) => {
                let detail = detail.to_owned().concat(" · espera ").concat(waited_secs).concat(
                    "s",
                );
                let _ = self.build_failure_hud(&failure, detail.as_str(), now_ms);
                Err(failure)
            },
        }
    }

    /// Keeps a text that is about to be copied.
    pub fn deliver_text(&mut self, text: &str)
        ensures
            final(self)@ == keeping(old(self)@, RecoveryView::Text(text@)),
    {
        self.recovery = Some(Recovery::Text(text.to_owned()));
    }

    /// Takes note of whether the text could be copied. Where it could not, the attempt has failed.
    pub fn finish_delivery(&mut self, copied: bool, now_ms: u64) -> (result: Result<(), Failure>)
        ensures
            final(self)@ == delivered(old(self)@, copied, now_ms),
            match result {
                Ok(_) => copied,
                Err(failure) => !copied && failure@ == clipboard_failure(),
            },
    {
        if copied {
            self.recovery = None;
            self.show_hud("success", now_ms);
            self.busy = false;
            Ok(())
        } else {
            let failure = Failure::new(
                ErrorKind::Clipboard,
                "Não foi possível copiar",
                "A transcrição está pronta. Tente novamente para copiar o texto, sem reenviar o áudio.",
                true,
            );
            proof {
                lemma_empty_text();
            }
            let _ = self.build_failure_hud(&failure, "", now_ms);
            Err(failure)
        }
    }

    /// Begins another attempt with what is kept.
    pub fn retry_transcription(&mut self, now_ms: u64) -> (result: Result<(u64, Recovery), String>)
        ensures
            match result {
                Ok((cycle_id, recovery)) => {
                    &&& retry_refusal(old(self)@) is None
                    &&& cycle_id == final(self).cycle_id
                    &&& old(self)@.recovery == Some(recovery@)
                },
                Err(refusal) => retry_refusal(old(self)@) == Some(refusal@),
            },
            final(self)@ == retried(old(self)@, now_ms),
    {
        match self.prepare_retry() {
            Ok((cycle_id, recovery)) => {
                self.show_hud("processing", now_ms);
                Ok((cycle_id, recovery))
            },
            Err(refusal) => Err(refusal),
        }
    }
}

/// The detail of an attempt, from the name of the provider and the numbers as the user reads them.
pub fn attempt_detail(provider: &str, seconds: &str, megabytes: &str, limit_reached: bool) -> (detail:
    String)
    ensures
        detail@ == detail_of(provider@, seconds@, megabytes@, limit_reached),
{
    let detail = provider.to_owned().concat(" · áudio ").concat(seconds).concat("s · ").concat(
        megabytes,
    ).concat(" MB");
    if limit_reached {
        detail.concat(" · limite de 3 min")
    } else {
        assert(detail@ + Seq::<char>::empty() =~= detail@);
        detail
    }
}

} // verus!
