//! The application on a desktop: hotkey, tray, menu, windows and clipboard.

use crate::text::{same_bytes, same_text};
use vstd::prelude::*;

verus! {

/// The window in which the application is set up.
pub const SETUP_WINDOW_LABEL: &'static str = "setup";

/// The window of the floating indicator.
pub const HUD_WINDOW_LABEL: &'static str = "hud";

/// The window that tells about the application.
pub const ABOUT_WINDOW_LABEL: &'static str = "about";

/// A system on which the application runs.
#[derive(Debug, Clone, Copy, PartialEq, Eq, Structural)]
pub enum Platform {
    Linux,
    Macos,
    Windows,
}

/// The hotkey, as the user reads it.
pub open spec fn hotkey_on(platform: Platform) -> Seq<char> {
    match platform {
        Platform::Linux => "Super+T"@,
        Platform::Macos => "⌥+⇧+D"@,
        Platform::Windows => "Alt+Shift+D"@,
    }
}

/// The hotkey, as the user reads it.
pub fn hotkey_display_name(platform: Platform) -> (name: &'static str)
    ensures
        name@ == hotkey_on(platform),
{
    match platform {
        Platform::Linux => "Super+T",
        Platform::Macos => "⌥+⇧+D",
        Platform::Windows => "Alt+Shift+D",
    }
}

/// Whether the hotkey is known to work when the application starts.
pub open spec fn known_to_work(platform: Platform, marker_exists: bool) -> bool {
    platform != Platform::Linux || marker_exists
}

/// Whether the hotkey is known to work when the application starts. On Linux the desktop has to have
/// fired it once, which leaves a marker; elsewhere the application registers it itself.
pub fn hotkey_already_confirmed(platform: Platform, marker_exists: bool) -> (answer: bool)
    ensures
        answer == known_to_work(platform, marker_exists),
{
    match platform {
        Platform::Linux => marker_exists,
        _ => true,
    }
}

/// Whether there is nothing left to set up.
pub open spec fn is_set_up(hotkey_confirmed: bool, has_active_key: bool) -> bool {
    hotkey_confirmed && has_active_key
}

/// Whether the setup window is put away: the hotkey works, and the chosen provider has a key.
pub fn setup_window_hidden(hotkey_confirmed: bool, has_active_key: bool) -> (answer: bool)
    ensures
        answer == is_set_up(hotkey_confirmed, has_active_key),
{
    hotkey_confirmed && has_active_key
}

/// What the tray icon says.
pub open spec fn tooltip(recording: bool, platform: Platform) -> Seq<char> {
    if recording {
        "whispa — gravando ("@ + hotkey_on(platform) + " para parar)"@
    } else {
        "whispa — "@ + hotkey_on(platform) + " para ditar"@
    }
}

/// What the tray icon says.
pub fn tray_tooltip(recording: bool, platform: Platform) -> (text: String)
    ensures
        text@ == tooltip(recording, platform),
{
    if recording {
        "whispa — gravando (".to_owned().concat(hotkey_display_name(platform)).concat(
            " para parar)",
        )
    } else {
        "whispa — ".to_owned().concat(hotkey_display_name(platform)).concat(" para ditar")
    }
}

/// Whether the arguments of a started program ask to toggle the recording.
pub open spec fn asks_to_toggle(arguments: Seq<Seq<char>>) -> bool {
    exists|i: int| 0 <= i < arguments.len() && #[trigger] arguments[i] == "--toggle"@
}

/// Whether the arguments of a started program ask to toggle the recording.
pub fn is_toggle_request(argv: &[String]) -> (answer: bool)
    ensures
        answer == exists|i: int| 0 <= i < argv@.len() && (#[trigger] argv@[i])@ == "--toggle"@,
        answer == asks_to_toggle(argv@.map_values(|argument: String| argument@)),
{
    let ghost arguments = argv@.map_values(|argument: String| argument@);
    let mut i: usize = 0;
    while i < argv.len()
        invariant
            i <= argv.len(),
            arguments == argv@.map_values(|argument: String| argument@),
            forall|k: int| 0 <= k < i ==> (#[trigger] argv@[k])@ != "--toggle"@,
        decreases argv.len() - i,
    {
        if same_text(argv[i].as_str(), "--toggle") {
            assert(arguments[i as int] == "--toggle"@);
            return true;
        }
        i += 1;
    }
    false
}

/// The command that toggles the recording.
pub open spec fn toggle_command(program: Option<Seq<char>>) -> Seq<char> {
    (match program {
        Some(path) => path,
        None => "whispa"@,
    }) + " --toggle"@
}

/// The command that toggles the recording, which the user gives to the desktop as a shortcut. The
/// program goes by its name where its path is not known.
pub fn toggle_command_hint(program: Option<&str>) -> (command: String)
    ensures
        command@ == toggle_command(
            match program {
                Some(path) => Some(path@),
                None => None,
            },
        ),
{
    match program {
        Some(path) => path.to_owned().concat(" --toggle"),
        None => "whispa".to_owned().concat(" --toggle"),
    }
}

/// What an entry of the tray menu does.
#[derive(Debug, Clone, Copy, PartialEq, Eq, Structural)]
pub enum MenuAction {
    Quit,
    ShowSetup,
    ShowAbout,
    Nothing,
}

/// What an entry of the tray menu does.
pub open spec fn action_of(id: Seq<char>) -> MenuAction {
    if id == "quit"@ {
        MenuAction::Quit
    } else if id == "settings"@ {
        MenuAction::ShowSetup
    } else if id == "about"@ {
        MenuAction::ShowAbout
    } else {
        MenuAction::Nothing
    }
}

/// What an entry of the tray menu does.
pub fn menu_action(id: &str) -> (action: MenuAction)
    ensures
        action == action_of(id@),
{
    if same_text(id, "quit") {
        MenuAction::Quit
    } else if same_text(id, "settings") {
        MenuAction::ShowSetup
    } else if same_text(id, "about") {
        MenuAction::ShowAbout
    } else {
        MenuAction::Nothing
    }
}

/// Whether closing a window only puts it away.
pub open spec fn is_put_away(label: Seq<char>) -> bool {
    label == SETUP_WINDOW_LABEL@ || label == ABOUT_WINDOW_LABEL@
}

/// Whether closing a window only puts it away.
pub fn hides_on_close(label: &str) -> (answer: bool)
    ensures
        answer == is_put_away(label@),
{
    same_text(label, SETUP_WINDOW_LABEL) || same_text(label, ABOUT_WINDOW_LABEL)
}

/// The complaint about a tool that has failed.
pub open spec fn tool_complaint(tool: Seq<char>, status: Seq<char>) -> Seq<char> {
    tool + " terminou com status "@ + status
}

/// What comes of a tool of the system that has ended: nothing more to say, or a complaint with the
/// status that it ended with.
pub fn tool_result(tool: &str, succeeded: bool, status: &str) -> (result: Result<(), String>)
    ensures
        match result {
            Ok(_) => succeeded,
            Err(complaint) => !succeeded && complaint@ == tool_complaint(tool@, status@),
        },
{
    if succeeded {
        Ok(())
    } else {
        Err(tool.to_owned().concat(" terminou com status ").concat(status))
    }
}

/// Whether what the clipboard gives back is a text.
pub open spec fn gives_back(pasted: Seq<u8>, text: Seq<char>) -> bool {
    pasted == vstd::utf8::encode_utf8(text)
}

/// Compares what the clipboard gives back with the text that was put there.
pub fn confirm_clipboard(text: &str, pasted: &[u8]) -> (result: Result<(), String>)
    ensures
        match result {
            Ok(_) => gives_back(pasted@, text@),
            Err(complaint) => !gives_back(pasted@, text@) && complaint@
                == "clipboard divergiu do texto transcrito"@,
        },
{
    if same_bytes(pasted, text.as_bytes()) {
        Ok(())
    } else {
        Err("clipboard divergiu do texto transcrito".to_owned())
    }
}

/// The tray icon tells the hotkey of the platform, and what it does next: stop while a recording runs,
/// and else dictate.
pub proof fn law_the_tray_tells_the_hotkey(recording: bool, platform: Platform)
    ensures
        ({
            let text = tooltip(recording, platform);
            let before = if recording {
                "whispa — gravando ("@
            } else {
                "whispa — "@
            };
            let after = if recording {
                " para parar)"@
            } else {
                " para ditar"@
            };
            let hotkey = match platform {
                Platform::Linux => "Super+T"@,
                Platform::Macos => "⌥+⇧+D"@,
                Platform::Windows => "Alt+Shift+D"@,
            };
            let end = before.len() + hotkey.len();
            &&& hotkey_on(platform) == hotkey
            &&& text.take(before.len() as int) == before
            &&& text.subrange(before.len() as int, end as int) == hotkey
            &&& text.skip(end as int) == after
        }),
{
    let text = tooltip(recording, platform);
    let before = if recording {
        "whispa — gravando ("@
    } else {
        "whispa — "@
    };
    let after = if recording {
        " para parar)"@
    } else {
        " para ditar"@
    };
    let hotkey = hotkey_on(platform);
    let end = before.len() + hotkey.len();
    assert(text == before + hotkey + after);
    assert(text.take(before.len() as int) =~= before);
    assert(text.subrange(before.len() as int, end as int) =~= hotkey);
    assert(text.skip(end as int) =~= after);
}

/// Only on Linux has the hotkey to be seen at work, and there it has to leave its marker.
pub proof fn law_the_hotkey_is_confirmed_once(platform: Platform)
    ensures
        known_to_work(platform, true),
        known_to_work(platform, false) <==> platform != Platform::Linux,
{
}

/// The command that is given to the desktop is the program, by its path where that is known and else
/// by its name, with the argument by which a started program is asked to toggle the recording.
pub proof fn law_the_command_asks_to_toggle(path: Seq<char>)
    ensures
        toggle_command(Some(path)).take(path.len() as int) == path,
        toggle_command(Some(path)).skip(path.len() as int) == " --toggle"@,
        toggle_command(None) == toggle_command(Some("whispa"@)),
        toggle_command(Some(path)).skip(path.len() as int + 1) == "--toggle"@,
{
    reveal_strlit(" --toggle");
    reveal_strlit("--toggle");
    assert(toggle_command(Some(path)).take(path.len() as int) =~= path);
    assert(toggle_command(Some(path)).skip(path.len() as int) =~= " --toggle"@);
    assert(toggle_command(Some(path)).skip(path.len() as int + 1) =~= "--toggle"@);
}

/// Among the arguments of a program, the one that asks to toggle counts wherever it stands, and
/// nothing else does.
pub proof fn law_one_argument_asks_to_toggle(before: Seq<Seq<char>>, argument: Seq<char>, after: Seq<
    Seq<char>,
>)
    ensures
        !asks_to_toggle(Seq::empty()),
        asks_to_toggle(before.push(argument) + after) <==> argument == "--toggle"@
            || asks_to_toggle(before) || asks_to_toggle(after),
{
    let all = before.push(argument) + after;
    assert forall|i: int| 0 <= i < before.len() implies all[i] == #[trigger] before[i] by {}
    assert forall|i: int| 0 <= i < after.len() implies all[before.len() + 1 + i]
        == #[trigger] after[i] by {}
    assert(all[before.len() as int] == argument);
    if asks_to_toggle(all) {
        let i = choose|i: int| 0 <= i < all.len() && #[trigger] all[i] == "--toggle"@;
        if i < before.len() {
            assert(before[i] == "--toggle"@);
        } else if i > before.len() {
            assert(after[i - before.len() - 1] == "--toggle"@);
        }
    }
}

/// An entry of the tray menu does what its name says: only `quit` ends the application, `settings`
/// and `about` show the windows that are only put away when they are closed, and no other entry does
/// anything.
pub proof fn law_menu_entries_do_as_they_are_named(id: Seq<char>)
    ensures
        action_of(id) == MenuAction::Quit <==> id == "quit"@,
        action_of(id) == MenuAction::ShowSetup <==> id == "settings"@,
        action_of(id) == MenuAction::ShowAbout <==> id == "about"@,
{
    reveal_strlit("quit");
    reveal_strlit("settings");
    reveal_strlit("about");
    assert("quit"@.len() == 4 && "settings"@.len() == 8 && "about"@.len() == 5);
}

/// Closing puts away the windows that the tray menu can show again, and no other one.
pub proof fn law_windows_of_the_menu_are_put_away(label: Seq<char>)
    ensures
        is_put_away(label) <==> label == "setup"@ || label == "about"@,
        !is_put_away(HUD_WINDOW_LABEL@),
{
    reveal_strlit("setup");
    reveal_strlit("about");
    reveal_strlit("hud");
    assert("hud"@.len() == 3 && "setup"@.len() == 5 && "about"@.len() == 5);
}

/// The setup window stays until both are done: the hotkey is seen to work, and there is a key.
pub proof fn law_setup_takes_hotkey_and_key(hotkey_confirmed: bool, has_active_key: bool)
    ensures
        is_set_up(true, true),
        is_set_up(hotkey_confirmed, has_active_key) ==> hotkey_confirmed,
        is_set_up(hotkey_confirmed, has_active_key) ==> has_active_key,
{
}

/// A complaint begins with the tool and ends with its status.
pub proof fn law_complaints_name_tool_and_status(tool: Seq<char>, status: Seq<char>)
    ensures
        ({
            let complaint = tool_complaint(tool, status);
            let lead = " terminou com status "@;
            &&& complaint.take(tool.len() as int) == tool
            &&& complaint.skip((tool.len() + lead.len()) as int) == status
            &&& complaint.subrange(tool.len() as int, (tool.len() + lead.len()) as int) == lead
        }),
{
    let complaint = tool_complaint(tool, status);
    let lead = " terminou com status "@;
    assert(complaint.take(tool.len() as int) =~= tool);
    assert(complaint.skip((tool.len() + lead.len()) as int) =~= status);
    assert(complaint.subrange(tool.len() as int, (tool.len() + lead.len()) as int) =~= lead);
}

/// A text that reached the clipboard is always confirmed, and no other text is confirmed by it.
pub proof fn law_the_clipboard_gives_back_one_text(text: Seq<char>, other: Seq<char>, pasted: Seq<u8>)
    ensures
        gives_back(vstd::utf8::encode_utf8(text), text),
        gives_back(pasted, text) && gives_back(pasted, other) ==> text == other,
{
    vstd::utf8::encode_utf8_decode_utf8(text);
    vstd::utf8::encode_utf8_decode_utf8(other);
}

} // verus!
