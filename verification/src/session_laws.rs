//! What holds of every dictation.

use crate::audio::PendingAudioView;
use crate::failure::{ErrorKind, FailureView};
use crate::hud::HudView;
use crate::session::{
    can_start, claimed, clipboard_failure, delivered, detail_of, dismissed, failed, failure_hud,
    initial_state, keeping, may_hide, next_cycle, no_key_failure, recording_ended,
    recording_started, retried, retry_claimed, retry_refusal, showing, toggle_action, toggled,
    waited_detail, AppState, AppStateView, Recovery, RecoveryView, ToggleAction,
    SUCCESS_VISIBLE_MS,
};
use crate::transcription::request_for;
use vstd::prelude::*;

verus! {

/// What happens to the application.
pub enum Event {
    /// The hotkey.
    Toggle,
    /// The end of a recording.
    RecordingEnded { limit_reached: bool },
    /// What came of a recording.
    Recorded { audio: Result<PendingAudioView, FailureView> },
    /// An attempt without a key.
    KeyMissing { detail: Seq<char> },
    /// What came of a transcription.
    Transcribed {
        transcription: Result<Seq<char>, FailureView>,
        detail: Seq<char>,
        waited_secs: Seq<char>,
    },
    /// A text that is about to be copied again.
    CopiedAgain { text: Seq<char> },
    /// Whether a text could be copied.
    Copied { copied: bool },
    /// The user's request for another attempt.
    Retry,
    /// The user's request to let go what is kept.
    Dismiss,
}

/// Whether a dictation is under way and its recording, if it has one, is over.
pub open spec fn between_steps(state: AppStateView) -> bool {
    state.busy && state.recording is None
}

/// Whether a recording is kept.
pub open spec fn keeps_audio(state: AppStateView) -> bool {
    state.recovery matches Some(RecoveryView::Audio(_))
}

/// Whether a transcription is kept.
pub open spec fn keeps_text(state: AppStateView) -> bool {
    state.recovery matches Some(RecoveryView::Text(_))
}

/// Whether an event can happen. A recording ends while it runs. What comes of it comes while its
/// dictation is under way, with nothing kept yet; what comes of a transcription comes while the audio
/// is kept, and what comes of a copy while the text is kept. The user can ask for anything at any
/// time.
pub open spec fn can_happen(state: AppStateView, event: Event) -> bool {
    match event {
        Event::Toggle | Event::Retry | Event::Dismiss => true,
        Event::RecordingEnded { .. } => state.recording is Some,
        Event::Recorded { .. } => between_steps(state) && state.recovery is None,
        Event::KeyMissing { .. } | Event::Transcribed { .. } => between_steps(state)
            && keeps_audio(state),
        Event::CopiedAgain { text } => between_steps(state) && state.recovery == Some(
            RecoveryView::Text(text),
        ),
        Event::Copied { .. } => between_steps(state) && keeps_text(state),
    }
}

/// The state after an event.
pub open spec fn after(state: AppStateView, event: Event, now_ms: u64) -> AppStateView {
    match event {
        Event::Toggle => toggled(state, now_ms),
        Event::RecordingEnded { limit_reached } => recording_ended(state, limit_reached, now_ms),
        Event::Recorded { audio } => match audio {
            Ok(audio) => keeping(state, RecoveryView::Audio(audio)),
            Err(failure) => failed(state, failure, Seq::empty(), now_ms),
        },
        Event::KeyMissing { detail } => failed(state, no_key_failure(), detail, now_ms),
        Event::Transcribed { transcription, detail, waited_secs } => match transcription {
            Ok(text) => keeping(state, RecoveryView::Text(text)),
            Err(failure) => failed(state, failure, waited_detail(detail, waited_secs), now_ms),
        },
        Event::CopiedAgain { text } => keeping(state, RecoveryView::Text(text)),
        Event::Copied { copied } => delivered(state, copied, now_ms),
        Event::Retry => retried(state, now_ms),
        Event::Dismiss => dismissed(state, now_ms),
    }
}

/// The parts of a state agree: a recording runs only as part of a dictation and with nothing kept,
/// the indicator offers only what is kept, and when no dictation is under way it offers all of it.
pub open spec fn consistent(state: AppStateView) -> bool {
    &&& state.recording is Some ==> state.busy && state.recovery is None
    &&& state.hud.can_retry ==> state.hud.has_recovery
    &&& state.hud.has_recovery ==> state.recovery is Some
    &&& !state.busy && state.recovery is Some ==> state.hud.has_recovery
}

/// The application starts in a consistent state, ready to record.
pub proof fn law_initial_state_is_consistent(now_ms: u64)
    ensures
        consistent(initial_state(now_ms)),
        can_start(initial_state(now_ms)),
{
}

/// Every event leaves a consistent state.
pub proof fn law_events_keep_states_consistent(state: AppStateView, event: Event, now_ms: u64)
    requires
        consistent(state),
        can_happen(state, event),
    ensures
        consistent(after(state, event, now_ms)),
{
}

/// The state after a course of events, at given times.
pub open spec fn after_all(state: AppStateView, events: Seq<(Event, u64)>) -> AppStateView
    decreases events.len(),
{
    if events.len() == 0 {
        state
    } else {
        after(after_all(state, events.drop_last()), events.last().0, events.last().1)
    }
}

/// Whether a course of events can happen.
pub open spec fn all_can_happen(state: AppStateView, events: Seq<(Event, u64)>) -> bool
    decreases events.len(),
{
    events.len() > 0 ==> {
        &&& all_can_happen(state, events.drop_last())
        &&& can_happen(after_all(state, events.drop_last()), events.last().0)
    }
}

/// Every state that the application reaches is consistent.
pub proof fn law_reached_states_are_consistent(started_ms: u64, events: Seq<(Event, u64)>)
    requires
        all_can_happen(initial_state(started_ms), events),
    ensures
        consistent(after_all(initial_state(started_ms), events)),
    decreases events.len(),
{
    if events.len() > 0 {
        law_reached_states_are_consistent(started_ms, events.drop_last());
        law_events_keep_states_consistent(
            after_all(initial_state(started_ms), events.drop_last()),
            events.last().0,
            events.last().1,
        );
    }
}

/// The indicator tells what the application is at: recording, transcribing, or neither.
pub open spec fn indicator_agrees(state: AppStateView) -> bool {
    match state.recording {
        Some(handle) => state.hud.state == if handle.stop_requested {
            "processing"@
        } else {
            "recording"@
        },
        None => if state.busy {
            state.hud.state == "processing"@
        } else {
            ||| state.hud.state == "idle"@
            ||| state.hud.state == "success"@
            ||| state.hud.state == "error"@
        },
    }
}

/// The indicator tells what the application is at, in every state that it reaches.
pub proof fn law_indicator_tells_what_goes_on(started_ms: u64, events: Seq<(Event, u64)>)
    requires
        all_can_happen(initial_state(started_ms), events),
    ensures
        indicator_agrees(after_all(initial_state(started_ms), events)),
    decreases events.len(),
{
    if events.len() > 0 {
        law_indicator_tells_what_goes_on(started_ms, events.drop_last());
        law_reached_states_are_consistent(started_ms, events.drop_last());
    }
}

proof fn lemma_success_is_no_other_word()
    ensures
        "success"@ != "recording"@,
        "success"@ != "processing"@,
        "success"@ != "error"@,
        "success"@ != "idle"@,
{
    reveal_strlit("success");
    reveal_strlit("recording");
    reveal_strlit("processing");
    reveal_strlit("error");
    reveal_strlit("idle");
    assert("success"@.len() == 7);
    assert("recording"@.len() == 9);
    assert("processing"@.len() == 10);
    assert("error"@.len() == 5);
    assert("idle"@.len() == 4);
}

/// The indicator begins to show a success only when a text has reached the clipboard.
pub proof fn law_success_is_shown_only_after_a_copy(
    state: AppStateView,
    event: Event,
    now_ms: u64,
)
    requires
        state.hud.state != "success"@,
        after(state, event, now_ms).hud.state == "success"@,
    ensures
        event is Copied && event->copied,
{
    lemma_success_is_no_other_word();
}

/// Audio is not kept once it has been transcribed, nor the text once it has been copied.
pub proof fn law_nothing_is_kept_longer_than_needed(
    state: AppStateView,
    text: Seq<char>,
    detail: Seq<char>,
    waited_secs: Seq<char>,
    now_ms: u64,
)
    ensures
        ({
            let transcribed = after(
                state,
                Event::Transcribed { transcription: Ok(text), detail, waited_secs },
                now_ms,
            );
            &&& transcribed.recovery == Some(RecoveryView::Text(text))
            &&& after(transcribed, Event::Copied { copied: true }, now_ms).recovery is None
        }),
{
}

/// Another attempt that the indicator offers is never refused, once the dictation is over.
pub proof fn law_offered_attempts_are_accepted(state: AppStateView)
    requires
        consistent(state),
        !state.busy,
        state.hud.can_retry,
    ensures
        retry_refusal(state) is None,
{
}

/// While a dictation is under way, the hotkey starts no recording, and another attempt and letting go
/// are refused and change nothing.
pub proof fn law_one_dictation_at_a_time(state: AppStateView, now_ms: u64)
    requires
        state.busy,
    ensures
        !(toggle_action(state) is Record),
        toggled(state, now_ms).cycle_id == state.cycle_id,
        toggled(state, now_ms).recovery == state.recovery,
        retry_refusal(state) is Some,
        retried(state, now_ms) == state,
        dismissed(state, now_ms) == state,
{
}

/// What is kept is still kept after whatever happens, unless audio gives way to its transcription, a
/// text has been copied, or the user lets go while no dictation is under way. No failure, no hotkey,
/// no new recording and no other attempt loses it.
pub proof fn law_nothing_kept_is_lost(state: AppStateView, event: Event, now_ms: u64)
    requires
        consistent(state),
        can_happen(state, event),
        state.recovery is Some,
    ensures
        match event {
            Event::Transcribed { transcription: Ok(text), .. } => keeps_audio(state) && after(
                state,
                event,
                now_ms,
            ).recovery == Some(RecoveryView::Text(text)),
            Event::Copied { copied: true } => keeps_text(state) && after(
                state,
                event,
                now_ms,
            ).recovery is None,
            Event::Dismiss if !state.busy => after(state, event, now_ms).recovery is None,
            _ => after(state, event, now_ms).recovery == state.recovery,
        },
{
}

/// The state after attempts that have all failed.
pub open spec fn after_attempts(
    state: AppStateView,
    failures: Seq<FailureView>,
    detail: Seq<char>,
    now_ms: u64,
) -> AppStateView
    decreases failures.len(),
{
    if failures.len() == 0 {
        state
    } else {
        let before = after_attempts(state, failures.drop_last(), detail, now_ms);
        failed(retried(before, now_ms), failures.last(), detail, now_ms)
    }
}

/// The number of a dictation or attempt some steps after one.
pub open spec fn cycle_after(cycle_id: u64, steps: nat) -> int {
    (cycle_id + steps) % 0x1_0000_0000_0000_0000
}

/// What is kept survives any number of attempts that fail in a way that can be retried: each further
/// attempt is accepted, with its own number, and with what was kept at first.
pub proof fn law_recovery_survives_repeated_attempts(
    state: AppStateView,
    failures: Seq<FailureView>,
    detail: Seq<char>,
    now_ms: u64,
)
    requires
        retry_refusal(state) is None,
        forall|i: int| 0 <= i < failures.len() ==> (#[trigger] failures[i]).retryable,
    ensures
        ({
            let now = after_attempts(state, failures, detail, now_ms);
            &&& retry_refusal(now) is None
            &&& now.recovery == state.recovery
            &&& now.cycle_id == cycle_after(state.cycle_id, failures.len())
        }),
    decreases failures.len(),
{
    if failures.len() > 0 {
        let earlier = failures.drop_last();
        assert forall|i: int| 0 <= i < earlier.len() implies (#[trigger] earlier[i]).retryable by {
            assert(earlier[i] == failures[i]);
        }
        law_recovery_survives_repeated_attempts(state, earlier, detail, now_ms);
        assert(failures[failures.len() - 1].retryable);
    }
}

/// After a failure, another attempt is accepted exactly where something is kept and the failure can
/// be retried.
pub proof fn law_only_retryable_failures_are_retried(
    state: AppStateView,
    failure: FailureView,
    detail: Seq<char>,
    now_ms: u64,
)
    ensures
        retry_refusal(failed(state, failure, detail, now_ms)) is None <==> state.recovery is Some
            && failure.retryable,
        failed(state, failure, detail, now_ms).recovery == state.recovery,
        !failed(state, failure, detail, now_ms).busy,
{
}

/// When a text cannot be copied, the text itself is kept: the next attempt copies it again, and the
/// audio is not sent again.
pub proof fn law_failed_copy_retries_the_text(state: AppStateView, text: Seq<char>, now_ms: u64)
    ensures
        ({
            let now = delivered(keeping(state, RecoveryView::Text(text)), false, now_ms);
            &&& now == failed(
                keeping(state, RecoveryView::Text(text)),
                clipboard_failure(),
                Seq::empty(),
                now_ms,
            )
            &&& retry_refusal(now) is None
            &&& now.recovery == Some(RecoveryView::Text(text))
            &&& state.recording is None ==> can_happen(
                retried(now, now_ms),
                Event::CopiedAgain { text },
            )
        }),
{
}

/// Letting go, when it is not refused, leaves nothing kept and nothing to retry, and the hotkey
/// starts a new recording.
pub proof fn law_letting_go_makes_room(state: AppStateView, now_ms: u64)
    requires
        !state.busy,
        state.recording is None,
    ensures
        dismissed(state, now_ms).recovery is None,
        retry_refusal(dismissed(state, now_ms)) is Some,
        toggle_action(dismissed(state, now_ms)) is Record,
{
}

/// A dictation comes full circle: the hotkey starts it and stops it, each step can happen after the
/// one before, its text is copied, and the next one may start.
pub proof fn law_dictation_comes_full_circle(
    state: AppStateView,
    limit_reached: bool,
    audio: PendingAudioView,
    text: Seq<char>,
    detail: Seq<char>,
    waited_secs: Seq<char>,
    now_ms: u64,
)
    requires
        can_start(state),
    ensures
        ({
            let recording = toggled(state, now_ms);
            let stopping = toggled(recording, now_ms);
            let end = Event::RecordingEnded { limit_reached };
            let ended = after(stopping, end, now_ms);
            let record = Event::Recorded { audio: Ok(audio) };
            let kept = after(ended, record, now_ms);
            let transcribe = Event::Transcribed { transcription: Ok(text), detail, waited_secs };
            let transcribed = after(kept, transcribe, now_ms);
            let copy = Event::Copied { copied: true };
            let done = after(transcribed, copy, now_ms);
            &&& recording == recording_started(
                AppStateView { busy: true, ..state },
                now_ms,
            )
            &&& toggle_action(recording) == ToggleAction::Present
            &&& stopping.recording->0.stop_requested
            &&& toggle_action(stopping) == ToggleAction::Nothing
            &&& toggled(stopping, now_ms) == stopping
            &&& can_happen(stopping, end)
            &&& can_happen(ended, record)
            &&& can_happen(kept, transcribe)
            &&& can_happen(transcribed, copy)
            &&& can_start(done)
            &&& may_hide(done, recording.cycle_id)
        }),
{
}

/// What an earlier dictation or attempt still has to show or hide is out of date once there is a new
/// one, or once the user has let go.
pub proof fn law_earlier_cycles_are_out_of_date(state: AppStateView, now_ms: u64)
    ensures
        toggle_action(state) is Record ==> toggled(state, now_ms).cycle_id != state.cycle_id,
        retry_refusal(state) is None ==> retried(state, now_ms).cycle_id != state.cycle_id,
        !state.busy ==> dismissed(state, now_ms).cycle_id != state.cycle_id,
        next_cycle(state.cycle_id) != state.cycle_id,
{
}

/// Two recoveries of the same kind, whatever they hold.
pub open spec fn same_kind(one: Option<RecoveryView>, other: Option<RecoveryView>) -> bool {
    match (one, other) {
        (Some(RecoveryView::Audio(_)), Some(RecoveryView::Audio(_))) => true,
        (Some(RecoveryView::Text(_)), Some(RecoveryView::Text(_))) => true,
        (None, None) => true,
        _ => false,
    }
}

/// The indicator of a failure, which also goes into the diagnostics, shows nothing of the audio or
/// the text that is kept.
pub proof fn law_failures_show_nothing_of_what_is_kept(
    one: Option<RecoveryView>,
    other: Option<RecoveryView>,
    failure: FailureView,
    detail: Seq<char>,
    now_ms: u64,
)
    requires
        same_kind(one, other),
    ensures
        failure_hud(one, failure, detail, now_ms) == failure_hud(other, failure, detail, now_ms),
{
}

/// Whether an indicator says one thing, since a time, and nothing more.
pub open spec fn says_only(hud: HudView, word: Seq<char>, title: Seq<char>, since_ms: u64) -> bool {
    &&& hud.state == word
    &&& hud.title == title
    &&& hud.message.len() == 0
    &&& hud.detail.len() == 0
    &&& !hud.can_retry
    &&& !hud.has_recovery
    &&& hud.recovery_message.len() == 0
    &&& hud.started_at_ms == since_ms
    &&& hud.recording_limit_secs == 180
}

proof fn lemma_words_of_a_dictation_differ()
    ensures
        "recording"@ != "processing"@,
        "recording"@ != "success"@,
        "processing"@ != "success"@,
{
    reveal_strlit("recording");
    reveal_strlit("processing");
    reveal_strlit("success");
    assert("recording"@.len() == 9 && "processing"@.len() == 10 && "success"@.len() == 7);
}

/// The application starts idle: nothing runs, nothing is kept, and nothing is shown.
pub proof fn law_the_application_starts_idle(now_ms: u64)
    ensures
        ({
            let state = initial_state(now_ms);
            &&& state.recording is None
            &&& !state.setup_done
            &&& state.cycle_id == 0
            &&& !state.busy
            &&& state.recovery is None
            &&& says_only(state.hud, "idle"@, Seq::empty(), now_ms)
        }),
{
}

/// The hotkey starts a recording exactly where none is running, no dictation is under way and nothing
/// is kept, whatever the indicator shows and whatever went before.
pub proof fn law_the_hotkey_starts_a_recording_when_free(state: AppStateView, now_ms: u64)
    ensures
        toggle_action(state) is Record <==> state.recording is None && !state.busy
            && state.recovery is None,
        can_start(state) <==> state.recording is None && !state.busy && state.recovery is None,
        claimed(state) == (AppStateView { busy: claimed(state).busy, ..state }),
        claimed(state).busy <==> state.busy || (state.recording is None && state.recovery is None),
        toggle_action(state) matches ToggleAction::Record { cycle_id, first_use } ==> {
            let now = toggled(state, now_ms);
            &&& now.recording is Some
            &&& !now.recording->0.stop_requested
            &&& now.busy
            &&& now.setup_done
            &&& now.recovery is None
            &&& cycle_id == now.cycle_id
            &&& now.cycle_id as int == (state.cycle_id + 1) % 0x1_0000_0000_0000_0000
            &&& first_use == !state.setup_done
            &&& says_only(now.hud, "recording"@, "GRAVANDO"@, now_ms)
        },
{
}

/// The hotkey asks a running recording to stop, once, and changes nothing else but the indicator.
pub proof fn law_the_hotkey_stops_a_recording(state: AppStateView, now_ms: u64)
    requires
        state.recording is Some,
    ensures
        ({
            let now = toggled(state, now_ms);
            if state.recording->0.stop_requested {
                now == state && toggle_action(state) == ToggleAction::Nothing
            } else {
                &&& toggle_action(state) == ToggleAction::Present
                &&& now.recording is Some
                &&& now.recording->0.stop_requested
                &&& now == (AppStateView { recording: now.recording, hud: now.hud, ..state })
                &&& says_only(now.hud, "processing"@, "TRANSCREVENDO"@, now_ms)
            }
        }),
{
    lemma_words_of_a_dictation_differ();
}

/// Where the hotkey neither starts nor stops a recording it changes nothing, and presents the
/// indicator exactly where something is kept.
pub proof fn law_the_hotkey_reminds_of_what_is_kept(state: AppStateView, now_ms: u64)
    requires
        state.recording is None,
        state.busy || state.recovery is Some,
    ensures
        toggled(state, now_ms) == state,
        toggle_action(state) == ToggleAction::Present <==> state.recovery is Some,
        toggle_action(state) == ToggleAction::Nothing <==> state.recovery is None,
{
}

/// A recording that was lost, for want of a microphone or for any other reason, stands in the way of
/// nothing: the next press of the hotkey starts a new one.
pub proof fn law_the_hotkey_works_after_a_lost_recording(
    state: AppStateView,
    failure: FailureView,
    now_ms: u64,
)
    requires
        can_happen(state, Event::Recorded { audio: Err(failure) }),
    ensures
        toggle_action(after(state, Event::Recorded { audio: Err(failure) }, now_ms)) is Record,
{
}

/// Once a text has been copied, the next press of the hotkey starts a new recording.
pub proof fn law_the_hotkey_works_after_a_copy(state: AppStateView, now_ms: u64)
    requires
        can_happen(state, Event::Copied { copied: true }),
    ensures
        toggle_action(after(state, Event::Copied { copied: true }, now_ms)) is Record,
{
}

/// A recording begins with its own number and indicator, wherever it is begun, and touches neither
/// what is under way nor what is kept.
pub proof fn law_recordings_begin(state: AppStateView, now_ms: u64)
    ensures
        ({
            let now = recording_started(state, now_ms);
            &&& now.recording is Some
            &&& !now.recording->0.stop_requested
            &&& now.setup_done
            &&& now.cycle_id as int == (state.cycle_id + 1) % 0x1_0000_0000_0000_0000
            &&& now.busy == state.busy
            &&& now.recovery == state.recovery
            &&& says_only(now.hud, "recording"@, "GRAVANDO"@, now_ms)
        }),
{
}

/// Showing a word changes the indicator alone, and an indicator of a word says only that.
pub proof fn law_showing_changes_the_indicator_alone(
    state: AppStateView,
    word: Seq<char>,
    now_ms: u64,
)
    ensures
        ({
            let now = showing(state, word, now_ms);
            &&& now == (AppStateView { hud: now.hud, ..state })
            &&& says_only(now.hud, word, now.hud.title, now_ms)
            &&& word == "recording"@ ==> now.hud.title == "GRAVANDO"@
            &&& word == "processing"@ ==> now.hud.title == "TRANSCREVENDO"@
            &&& word == "success"@ ==> now.hud.title == "COPIADO"@
            &&& word != "recording"@ && word != "processing"@ && word != "success"@
                ==> now.hud.title == "ERRO"@
        }),
{
    crate::hud::law_titles_say_the_state(word);
}

/// The end of a recording leaves its dictation under way, to be transcribed; the user is told of the
/// limit exactly where it was reached.
pub proof fn law_recordings_end_in_transcription(
    state: AppStateView,
    limit_reached: bool,
    now_ms: u64,
)
    ensures
        ({
            let now = after(state, Event::RecordingEnded { limit_reached }, now_ms);
            let silent = HudView { message: Seq::empty(), ..now.hud };
            &&& now == recording_ended(state, limit_reached, now_ms)
            &&& now.recording is None
            &&& now == (AppStateView { recording: None, hud: now.hud, ..state })
            &&& says_only(silent, "processing"@, "TRANSCREVENDO"@, now_ms)
            &&& limit_reached ==> now.hud.message
                == "Limite de 3 minutos atingido. Transcrevendo o áudio capturado."@
            &&& !limit_reached ==> now.hud.message.len() == 0
        }),
{
}

/// What is kept of a recording is that very audio, with every byte of it and what was captured, and
/// nothing else changes.
pub proof fn law_recorded_audio_is_kept(state: AppStateView, audio: PendingAudioView, now_ms: u64)
    ensures
        ({
            let now = after(state, Event::Recorded { audio: Ok(audio) }, now_ms);
            &&& now.recovery is Some
            &&& now.recovery->0 matches RecoveryView::Audio(kept) && kept.bytes == audio.bytes
                && kept.sample_count == audio.sample_count && kept.format == audio.format
                && kept.limit_reached == audio.limit_reached
            &&& now == (AppStateView { recovery: Some(RecoveryView::Audio(audio)), ..state })
        }),
{
}

/// What is kept of a transcription is that very text, in place of the audio, and nothing else changes;
/// keeping it again to copy it once more changes nothing.
pub proof fn law_transcribed_text_is_kept(
    state: AppStateView,
    text: Seq<char>,
    detail: Seq<char>,
    waited_secs: Seq<char>,
    now_ms: u64,
)
    ensures
        ({
            let transcribe = Event::Transcribed { transcription: Ok(text), detail, waited_secs };
            let now = after(state, transcribe, now_ms);
            &&& now.recovery matches Some(RecoveryView::Text(kept)) && kept == text
            &&& now == (AppStateView { recovery: now.recovery, ..state })
            &&& after(now, Event::CopiedAgain { text }, now_ms) == now
        }),
{
}

/// Whatever is kept for another attempt is kept as it is, and nothing else changes.
pub proof fn law_keeping_changes_nothing_else(state: AppStateView, recovery: RecoveryView)
    ensures
        keeping(state, recovery).recovery == Some(recovery),
        keeping(state, recovery).recording == state.recording,
        keeping(state, recovery).setup_done == state.setup_done,
        keeping(state, recovery).cycle_id == state.cycle_id,
        keeping(state, recovery).busy == state.busy,
        keeping(state, recovery).hud == state.hud,
{
}

/// After a failed attempt that can be tried again, the next attempt sends the same audio again, byte
/// for byte, to whatever provider.
pub proof fn law_another_attempt_sends_the_same_audio(
    state: AppStateView,
    audio: PendingAudioView,
    failure: FailureView,
    detail: Seq<char>,
    waited_secs: Seq<char>,
    base_url: Seq<char>,
    api_key: Seq<char>,
    model: Seq<char>,
    now_ms: u64,
)
    requires
        can_happen(state, Event::Recorded { audio: Ok(audio) }),
        failure.retryable,
    ensures
        ({
            let kept = after(state, Event::Recorded { audio: Ok(audio) }, now_ms);
            let fail = Event::Transcribed { transcription: Err(failure), detail, waited_secs };
            let told = after(kept, fail, now_ms);
            let again = after(told, Event::Retry, now_ms);
            &&& retry_refusal(told) is None
            &&& again.busy
            &&& can_happen(again, fail)
            &&& again.recovery matches Some(RecoveryView::Audio(sent)) && sent.bytes == audio.bytes
                && (request_for(base_url, api_key, model, sent.bytes) matches Ok(request)
                ==> request.audio == audio.bytes)
        }),
{
}

/// A failure ends the dictation, and keeps all that was kept. The indicator says what the failure
/// says, with the detail, offers another attempt exactly where the failure allows one and something is
/// kept, and tells what is kept.
pub proof fn law_failures_end_the_dictation(
    state: AppStateView,
    failure: FailureView,
    detail: Seq<char>,
    now_ms: u64,
)
    ensures
        ({
            let now = failed(state, failure, detail, now_ms);
            &&& now == (AppStateView { busy: false, hud: now.hud, ..state })
            &&& now.hud == failure_hud(state.recovery, failure, detail, now_ms)
            &&& now.hud.state == "error"@
            &&& now.hud.title == failure.title
            &&& now.hud.message == failure.message
            &&& now.hud.detail == detail
            &&& now.hud.can_retry <==> state.recovery is Some && failure.retryable
            &&& now.hud.has_recovery <==> state.recovery is Some
            &&& now.hud.started_at_ms == now_ms
            &&& now.hud.recording_limit_secs == 180
            &&& state.recovery is None ==> now.hud.recovery_message.len() == 0
            &&& keeps_audio(state) ==> now.hud.recovery_message
                == "Áudio mantido em memória. Descartar ou fechar o app apaga esta gravação."@
            &&& keeps_text(state) ==> now.hud.recovery_message
                == "Texto mantido em memória. Descartar ou fechar o app apaga esta transcrição."@
        }),
{
}

/// Each way in which a dictation fails is told as what it is: a recording and a transcription by their
/// own failures, a missing key and a failed copy by theirs, which can be tried again.
pub proof fn law_failed_events_are_told(
    state: AppStateView,
    failure: FailureView,
    detail: Seq<char>,
    waited_secs: Seq<char>,
    now_ms: u64,
)
    ensures
        ({
            let unrecorded = after(state, Event::Recorded { audio: Err(failure) }, now_ms);
            let fail = Event::Transcribed { transcription: Err(failure), detail, waited_secs };
            let untranscribed = after(state, fail, now_ms);
            let keyless = after(state, Event::KeyMissing { detail }, now_ms);
            let uncopied = after(state, Event::Copied { copied: false }, now_ms);
            &&& unrecorded.hud.title == failure.title && unrecorded.hud.message == failure.message
            &&& unrecorded.hud.detail.len() == 0
            &&& untranscribed.hud.title == failure.title && untranscribed.hud.message
                == failure.message
            &&& untranscribed.hud.detail.take(detail.len() as int) == detail
            &&& keyless.hud.title == "Configure sua chave de API"@
            &&& keyless.hud.message
                == "Salve a chave do provedor nas Configurações e tente novamente com este áudio."@
            &&& keyless.hud.detail == detail
            &&& uncopied.hud.title == "Não foi possível copiar"@
            &&& uncopied.hud.message
                == "A transcrição está pronta. Tente novamente para copiar o texto, sem reenviar o áudio."@
            &&& uncopied.hud.detail.len() == 0
            &&& no_key_failure().kind == ErrorKind::Credentials && no_key_failure().retryable
            &&& clipboard_failure().kind == ErrorKind::Clipboard && clipboard_failure().retryable
            &&& forall|now: AppStateView|
                now == unrecorded || now == untranscribed || now == keyless || now == uncopied ==> {
                    &&& !(#[trigger] now.busy)
                    &&& now.hud.state == "error"@
                    &&& now.recovery == state.recovery
                    &&& now.recording == state.recording
                    &&& now.cycle_id == state.cycle_id
                    &&& now.setup_done == state.setup_done
                }
        }),
{
    law_waiting_is_told_after_the_detail(detail, waited_secs);
}

/// A copied text ends the dictation: it is no longer kept, the indicator says so, and nothing else
/// changes.
pub proof fn law_copies_end_the_dictation(state: AppStateView, now_ms: u64)
    ensures
        ({
            let now = delivered(state, true, now_ms);
            &&& now == after(state, Event::Copied { copied: true }, now_ms)
            &&& now.recovery is None
            &&& !now.busy
            &&& now == (AppStateView { recovery: None, busy: false, hud: now.hud, ..state })
            &&& says_only(now.hud, "success"@, "COPIADO"@, now_ms)
        }),
{
    lemma_words_of_a_dictation_differ();
}

/// Another attempt is refused while a dictation is under way, where none is offered, and where nothing
/// is kept, in this order, and else accepted.
pub proof fn law_attempts_are_refused_with_a_reason(state: AppStateView)
    ensures
        match retry_refusal(state) {
            None => !state.busy && state.hud.can_retry && state.recovery is Some,
            Some(reason) => if state.busy {
                reason == "Já existe um ditado em andamento."@
            } else if !state.hud.can_retry {
                reason == "Esta falha exige uma nova gravação."@
            } else {
                state.recovery is None && reason == "Não há gravação para tentar novamente."@
            },
        },
{
}

/// An attempt that is accepted is under way with a number of its own and with what is kept, and shows
/// so; one that is refused changes nothing.
pub proof fn law_accepted_attempts_are_under_way(state: AppStateView, now_ms: u64)
    ensures
        ({
            let now = retried(state, now_ms);
            let claim = retry_claimed(state);
            &&& claim.busy
            &&& claim.cycle_id as int == (state.cycle_id + 1) % 0x1_0000_0000_0000_0000
            &&& claim == (AppStateView { busy: true, cycle_id: claim.cycle_id, ..state })
            &&& !state.busy && state.hud.can_retry && state.recovery is Some ==> {
                &&& now == (AppStateView { hud: now.hud, ..claim })
                &&& now.recovery == state.recovery
                &&& says_only(now.hud, "processing"@, "TRANSCREVENDO"@, now_ms)
            }
            &&& state.busy || !state.hud.can_retry || state.recovery is None ==> now == state
        }),
{
    lemma_words_of_a_dictation_differ();
}

/// Letting go forgets what is kept and leaves the indicator idle, with a new number, and changes
/// nothing else; while a dictation is under way it changes nothing at all.
pub proof fn law_letting_go_forgets(state: AppStateView, now_ms: u64)
    ensures
        ({
            let now = dismissed(state, now_ms);
            if state.busy {
                now == state
            } else {
                &&& now.recovery is None
                &&& now.cycle_id as int == (state.cycle_id + 1) % 0x1_0000_0000_0000_0000
                &&& now == (AppStateView {
                    recovery: None,
                    cycle_id: now.cycle_id,
                    hud: now.hud,
                    ..state
                })
                &&& says_only(now.hud, "idle"@, Seq::empty(), now_ms)
            }
        }),
{
}

/// The indicator is hidden on behalf of a dictation exactly while that is the latest one and its
/// success is shown, which stays for almost two seconds.
pub proof fn law_only_a_current_success_is_hidden(state: AppStateView, cycle_id: u64)
    ensures
        may_hide(state, cycle_id) <==> state.hud.state == "success"@ && state.cycle_id == cycle_id,
        SUCCESS_VISIBLE_MS == 1800,
{
}

/// Numbers of dictations count up by one, and begin again after the last.
pub proof fn law_cycles_count_up(cycle_id: u64)
    ensures
        next_cycle(cycle_id) as int == (cycle_id + 1) % 0x1_0000_0000_0000_0000,
{
}

/// How long an attempt took is told after its detail, which stays as it is.
pub proof fn law_waiting_is_told_after_the_detail(detail: Seq<char>, waited_secs: Seq<char>)
    ensures
        ({
            let told = waited_detail(detail, waited_secs);
            let after_detail = told.skip(detail.len() as int);
            let lead = " · espera "@;
            let end = lead.len() + waited_secs.len();
            &&& told.take(detail.len() as int) == detail
            &&& after_detail.take(lead.len() as int) == lead
            &&& after_detail.subrange(lead.len() as int, end as int) == waited_secs
            &&& after_detail.skip(end as int) == "s"@
        }),
{
    let told = waited_detail(detail, waited_secs);
    let after_detail = told.skip(detail.len() as int);
    let lead = " · espera "@;
    let end = lead.len() + waited_secs.len();
    assert(told.take(detail.len() as int) =~= detail);
    assert(after_detail =~= lead + waited_secs + "s"@);
    assert(after_detail.take(lead.len() as int) =~= lead);
    assert(after_detail.subrange(lead.len() as int, end as int) =~= waited_secs);
    assert(after_detail.skip(end as int) =~= "s"@);
}

/// The detail of an attempt names the provider, the seconds and the megabytes, in this order, and ends
/// with the limit exactly where it was reached.
pub proof fn law_details_name_what_was_sent(
    provider: Seq<char>,
    seconds: Seq<char>,
    megabytes: Seq<char>,
)
    ensures
        ({
            let detail = detail_of(provider, seconds, megabytes, false);
            let at_seconds = (provider.len() + " · áudio "@.len()) as int;
            let at_megabytes = at_seconds + seconds.len() + "s · "@.len();
            let at_unit = at_megabytes + megabytes.len();
            &&& detail.take(provider.len() as int) == provider
            &&& detail.subrange(provider.len() as int, at_seconds) == " · áudio "@
            &&& detail.subrange(at_seconds, at_seconds + seconds.len()) == seconds
            &&& detail.subrange(at_seconds + seconds.len(), at_megabytes) == "s · "@
            &&& detail.subrange(at_megabytes, at_unit) == megabytes
            &&& detail.skip(at_unit) == " MB"@
            &&& detail_of(provider, seconds, megabytes, true).take(detail.len() as int) == detail
            &&& detail_of(provider, seconds, megabytes, true).skip(detail.len() as int)
                == " · limite de 3 min"@
        }),
{
    let detail = detail_of(provider, seconds, megabytes, false);
    let limited = detail_of(provider, seconds, megabytes, true);
    let at_seconds = (provider.len() + " · áudio "@.len()) as int;
    let at_megabytes = at_seconds + seconds.len() + "s · "@.len();
    let at_unit = at_megabytes + megabytes.len();
    assert(detail.take(provider.len() as int) =~= provider);
    assert(detail.subrange(provider.len() as int, at_seconds) =~= " · áudio "@);
    assert(detail.subrange(at_seconds, at_seconds + seconds.len()) =~= seconds);
    assert(detail.subrange(at_seconds + seconds.len(), at_megabytes) =~= "s · "@);
    assert(detail.subrange(at_megabytes, at_unit) =~= megabytes);
    assert(detail.skip(at_unit) =~= " MB"@);
    assert(limited.take(detail.len() as int) =~= detail);
    assert(limited.skip(detail.len() as int) =~= " · limite de 3 min"@);
}

/// The views of the state and of what is kept leave nothing out.
pub proof fn law_states_are_viewed_whole(state: AppState, audio: crate::audio::PendingAudio, text: String)
    ensures
        state@.recording == state.recording,
        state@.setup_done == state.setup_done,
        state@.cycle_id == state.cycle_id,
        state@.busy == state.busy,
        state@.recovery is Some <==> state.recovery is Some,
        state.recovery is Some ==> state@.recovery->0 == state.recovery->0@,
        state@.hud == state.hud@,
        Recovery::Audio(audio)@ == RecoveryView::Audio(audio@),
        Recovery::Text(text)@ == RecoveryView::Text(text@),
{
}

} // verus!
