//! The floating indicator: what it shows, how large it is, and where it stands.

use crate::audio::MAX_RECORDING_SECS;
use crate::text::same_text;
use vstd::prelude::*;

verus! {

/// What the indicator shows.
#[derive(Debug)]
pub struct HudState {
    pub state: String,
    pub title: String,
    pub message: String,
    pub detail: String,
    /// Whether the user is offered another attempt.
    pub can_retry: bool,
    /// Whether a recording or a transcription is kept for another attempt.
    pub has_recovery: bool,
    pub recovery_message: String,
    /// When this state began, in milliseconds since the Unix epoch.
    pub started_at_ms: u64,
    pub recording_limit_secs: u64,
}

/// What a [`HudState`] says.
pub struct HudView {
    pub state: Seq<char>,
    pub title: Seq<char>,
    pub message: Seq<char>,
    pub detail: Seq<char>,
    pub can_retry: bool,
    pub has_recovery: bool,
    pub recovery_message: Seq<char>,
    pub started_at_ms: u64,
    pub recording_limit_secs: u64,
}

impl View for HudState {
    type V = HudView;

    open spec fn view(&self) -> HudView {
        HudView {
            state: self.state@,
            title: self.title@,
            message: self.message@,
            detail: self.detail@,
            can_retry: self.can_retry,
            has_recovery: self.has_recovery,
            recovery_message: self.recovery_message@,
            started_at_ms: self.started_at_ms,
            recording_limit_secs: self.recording_limit_secs,
        }
    }
}

/// A state with a title and nothing more to say.
pub open spec fn plain_hud(state: Seq<char>, title: Seq<char>, started_at_ms: u64) -> HudView {
    HudView {
        state,
        title,
        message: Seq::empty(),
        detail: Seq::empty(),
        can_retry: false,
        has_recovery: false,
        recovery_message: Seq::empty(),
        started_at_ms,
        recording_limit_secs: MAX_RECORDING_SECS,
    }
}

impl Clone for HudState {
    fn clone(&self) -> (copy: Self)
        ensures
            copy@ == self@,
    {
        HudState {
            state: self.state.clone(),
            title: self.title.clone(),
            message: self.message.clone(),
            detail: self.detail.clone(),
            can_retry: self.can_retry,
            has_recovery: self.has_recovery,
            recovery_message: self.recovery_message.clone(),
            started_at_ms: self.started_at_ms,
            recording_limit_secs: self.recording_limit_secs,
        }
    }
}

impl HudState {
    /// A state with a title and nothing more to say, which begins at a time.
    pub fn new(state: &str, title: &str, started_at_ms: u64) -> (hud: Self)
        ensures
            hud@ == plain_hud(state@, title@, started_at_ms),
    {
        HudState {
            state: state.to_owned(),
            title: title.to_owned(),
            message: String::new(),
            detail: String::new(),
            can_retry: false,
            has_recovery: false,
            recovery_message: String::new(),
            started_at_ms,
            recording_limit_secs: MAX_RECORDING_SECS,
        }
    }
}

/// The title of a state.
pub open spec fn title_of(state: Seq<char>) -> Seq<char> {
    if state == "recording"@ {
        "GRAVANDO"@
    } else if state == "processing"@ {
        "TRANSCREVENDO"@
    } else if state == "success"@ {
        "COPIADO"@
    } else {
        "ERRO"@
    }
}

/// The title of a state.
pub fn hud_title(state: &str) -> (title: &'static str)
    ensures
        title@ == title_of(state@),
{
    if same_text(state, "recording") {
        "GRAVANDO"
    } else if same_text(state, "processing") {
        "TRANSCREVENDO"
    } else if same_text(state, "success") {
        "COPIADO"
    } else {
        "ERRO"
    }
}

/// The width and height of the indicator, in logical pixels.
pub open spec fn size_of(hud: HudView) -> (u32, u32) {
    if hud.state == "error"@ {
        (460, 380)
    } else if hud.message.len() > 0 {
        (340, 180)
    } else {
        (340, 110)
    }
}

/// The width and height of the indicator, in logical pixels.
pub fn hud_size(hud: &HudState) -> (size: (u32, u32))
    ensures
        size == size_of(hud@),
{
    if same_text(hud.state.as_str(), "error") {
        (460, 380)
    } else if !hud.message.as_str().is_empty() {
        (340, 180)
    } else {
        (340, 110)
    }
}

/// The 32-bit signed integer that a number wraps around to.
pub open spec fn wrapped(number: int) -> int {
    let low = number % 0x1_0000_0000;
    if low <= i32::MAX {
        low
    } else {
        low - 0x1_0000_0000
    }
}

/// Half of a number, rounded toward zero.
pub open spec fn half(number: int) -> int {
    if number >= 0 {
        number / 2
    } else {
        -(-number / 2)
    }
}

/// The left edge that centers a window on a monitor.
pub open spec fn centered(monitor_x: i32, monitor_width: u32, width: u32) -> int {
    wrapped(monitor_x + half(wrapped(monitor_width - width)))
}

/// The top edge that leaves a margin under a window on a monitor.
pub open spec fn above_margin(
    monitor_y: i32,
    monitor_height: u32,
    height: u32,
    margin_bottom: i32,
) -> int {
    wrapped(monitor_y + monitor_height - height - margin_bottom)
}

fn to_signed(number: u32) -> (result: i32)
    ensures
        result == wrapped(number as int),
{
    if number <= 0x7fff_ffff {
        number as i32
    } else {
        (number as i64 - 0x1_0000_0000) as i32
    }
}

fn sum(one: i32, other: i32) -> (result: i32)
    ensures
        result == wrapped(one + other),
{
    one.wrapping_add(other)
}

fn difference(one: i32, other: i32) -> (result: i32)
    ensures
        result == wrapped(one - other),
{
    one.wrapping_sub(other)
}

proof fn lemma_wrapped_sum(one: int, other: int)
    ensures
        wrapped(one + wrapped(other)) == wrapped(one + other),
{
}

proof fn lemma_wrapped_difference(one: int, other: int)
    ensures
        wrapped(wrapped(one) - wrapped(other)) == wrapped(one - other),
        wrapped(wrapped(one) - other) == wrapped(one - other),
{
}

fn left_edge(monitor_x: i32, monitor_width: u32, width: u32) -> (x: i32)
    ensures
        x == centered(monitor_x, monitor_width, width),
{
    let room: i32 = difference(to_signed(monitor_width), to_signed(width));
    proof {
        lemma_wrapped_difference(monitor_width as int, width as int);
    }
    let half_room: i64 = if room >= 0 {
        room as i64 / 2
    } else {
        -(-(room as i64) / 2)
    };
    sum(monitor_x, half_room as i32)
}

fn top_edge(monitor_y: i32, monitor_height: u32, height: u32, margin_bottom: i32) -> (y: i32)
    ensures
        y == above_margin(monitor_y, monitor_height, height, margin_bottom),
{
    let bottom: i32 = sum(monitor_y, to_signed(monitor_height));
    let above: i32 = difference(bottom, to_signed(height));
    proof {
        lemma_wrapped_sum(monitor_y as int, monitor_height as int);
        lemma_wrapped_difference(monitor_y + monitor_height, height as int);
        lemma_wrapped_difference(monitor_y + monitor_height - height, margin_bottom as int);
    }
    difference(above, margin_bottom)
}

/// Where the indicator stands: centered at the bottom of a monitor, above a margin, in physical
/// pixels. Coordinates beyond the 32-bit integers wrap around.
pub fn hud_position(
    monitor_x: i32,
    monitor_y: i32,
    monitor_width: u32,
    monitor_height: u32,
    width: u32,
    height: u32,
    margin_bottom: i32,
) -> (place: (i32, i32))
    ensures
        place.0 == centered(monitor_x, monitor_width, width),
        place.1 == above_margin(monitor_y, monitor_height, height, margin_bottom),
{
    let x: i32 = left_edge(monitor_x, monitor_width, width);
    let y: i32 = top_edge(monitor_y, monitor_height, height, margin_bottom);
    (x, y)
}

/// An indicator that fits its monitor, with the margin, stands inside it, and as far from the left
/// edge as from the right one, up to one pixel. The edges of the monitor are 32-bit coordinates.
pub proof fn law_hud_stands_inside_the_monitor(
    monitor_x: i32,
    monitor_y: i32,
    monitor_width: u32,
    monitor_height: u32,
    width: u32,
    height: u32,
    margin_bottom: i32,
)
    requires
        width <= monitor_width <= i32::MAX,
        monitor_x + monitor_width <= i32::MAX,
        height + margin_bottom <= monitor_height,
        monitor_y + monitor_height <= i32::MAX,
        0 <= margin_bottom,
    ensures
        ({
            let x = centered(monitor_x, monitor_width, width);
            let y = above_margin(monitor_y, monitor_height, height, margin_bottom);
            let left = x - monitor_x;
            let right = monitor_x + monitor_width - (x + width);
            &&& 0 <= left <= right <= left + 1
            &&& monitor_y <= y
            &&& y + height + margin_bottom == monitor_y + monitor_height
        }),
{
}

/// A number wraps around to a 32-bit integer that lies whole turns away from it, and a number that
/// is one already stays.
pub proof fn law_wrapping_goes_by_whole_turns(number: int)
    ensures
        i32::MIN <= wrapped(number) <= i32::MAX,
        (wrapped(number) - number) % 0x1_0000_0000 == 0,
        i32::MIN <= number <= i32::MAX ==> wrapped(number) == number,
{
}

/// Whatever the monitor and the window, the bottom edge of the indicator lies the margin above that of
/// the monitor, up to whole turns.
pub proof fn law_hud_stands_above_the_margin(
    monitor_y: i32,
    monitor_height: u32,
    height: u32,
    margin_bottom: i32,
)
    ensures
        ({
            let y = above_margin(monitor_y, monitor_height, height, margin_bottom);
            &&& i32::MIN <= y <= i32::MAX
            &&& (y - (monitor_y + monitor_height - height - margin_bottom)) % 0x1_0000_0000 == 0
        }),
{
    law_wrapping_goes_by_whole_turns(monitor_y + monitor_height - height - margin_bottom);
}

proof fn lemma_half(number: int)
    ensures
        number >= 0 ==> 0 <= number - 2 * half(number) <= 1,
        number <= 0 ==> -1 <= number - 2 * half(number) <= 0,
{
}

/// The indicator is as far from the left edge of its monitor as from the right one, up to one pixel;
/// where it is wider than the monitor, it reaches beyond both edges by as much.
pub proof fn law_hud_is_centered(monitor_x: i32, monitor_width: u32, width: u32)
    requires
        monitor_width <= i32::MAX,
        width <= i32::MAX,
        i32::MIN <= monitor_x - width,
        monitor_x + monitor_width <= i32::MAX,
    ensures
        ({
            let left = centered(monitor_x, monitor_width, width) - monitor_x;
            let right = monitor_width - width - left;
            &&& width <= monitor_width ==> 0 <= left <= right <= left + 1
            &&& width >= monitor_width ==> left - 1 <= right <= left <= 0
        }),
{
    let room = monitor_width - width;
    law_wrapping_goes_by_whole_turns(room);
    lemma_half(room);
    law_wrapping_goes_by_whole_turns(monitor_x + half(room));
}

/// An indicator begins with the word, title and time that it is given, and with nothing else to say or
/// to offer; recordings are limited to three minutes.
pub proof fn law_plain_indicators_say_nothing_more(
    state: Seq<char>,
    title: Seq<char>,
    started_at_ms: u64,
)
    ensures
        ({
            let hud = plain_hud(state, title, started_at_ms);
            &&& hud.state == state
            &&& hud.title == title
            &&& hud.message.len() == 0
            &&& hud.detail.len() == 0
            &&& !hud.can_retry
            &&& !hud.has_recovery
            &&& hud.recovery_message.len() == 0
            &&& hud.started_at_ms == started_at_ms
            &&& hud.recording_limit_secs == 180
        }),
{
}

/// The title says in Portuguese what the state is, and a state that is none of a dictation is an
/// error.
pub proof fn law_titles_say_the_state(state: Seq<char>)
    ensures
        title_of("recording"@) == "GRAVANDO"@,
        title_of("processing"@) == "TRANSCREVENDO"@,
        title_of("success"@) == "COPIADO"@,
        state != "recording"@ && state != "processing"@ && state != "success"@ ==> title_of(state)
            == "ERRO"@,
{
    reveal_strlit("recording");
    reveal_strlit("processing");
    reveal_strlit("success");
    assert("recording"@.len() == 9 && "processing"@.len() == 10 && "success"@.len() == 7);
}

/// The indicator is as large as what it shows needs: largest for an error, which offers what to do,
/// and otherwise as high as a message asks for.
pub proof fn law_indicators_are_as_large_as_needed(hud: HudView)
    ensures
        hud.state == "error"@ ==> size_of(hud) == (460u32, 380u32),
        hud.state != "error"@ ==> size_of(hud).0 == 340,
        hud.state != "error"@ && hud.message.len() == 0 ==> size_of(hud).1 == 110,
        hud.state != "error"@ && hud.message.len() > 0 ==> size_of(hud).1 == 180,
{
}

/// The view of an indicator leaves nothing out.
pub proof fn law_indicators_are_viewed_whole(hud: HudState)
    ensures
        hud@.state == hud.state@,
        hud@.title == hud.title@,
        hud@.message == hud.message@,
        hud@.detail == hud.detail@,
        hud@.can_retry == hud.can_retry,
        hud@.has_recovery == hud.has_recovery,
        hud@.recovery_message == hud.recovery_message@,
        hud@.started_at_ms == hud.started_at_ms,
        hud@.recording_limit_secs == hud.recording_limit_secs,
{
}

} // verus!
