use whispa::desktop::{
    confirm_clipboard, hides_on_close, hotkey_already_confirmed, hotkey_display_name,
    is_toggle_request, menu_action, setup_window_hidden, toggle_command_hint, tool_result,
    tray_tooltip,
    MenuAction, Platform, ABOUT_WINDOW_LABEL, HUD_WINDOW_LABEL, SETUP_WINDOW_LABEL,
};
use whispa::hud::{hud_position, hud_size, hud_title, HudState};
use whispa::provider::{
    api_key_file_name, has_api_key, list_provider_models, provider_base_url, provider_name,
    read_api_key, read_settings, save_api_key, ProviderSettings,
};
use whispa::text::{decimal_text, same_bytes, same_text};

#[test]
fn text_is_compared_character_by_character() {
    assert!(same_text("áudio", "áudio"));
    assert!(same_text("", ""));
    assert!(!same_text("áudio", "audio"));
    assert!(!same_text("a", "ab"));
    assert!(same_bytes(&[1, 2], &[1, 2]));
    assert!(!same_bytes(&[1, 2], &[1, 3]));
    assert!(!same_bytes(&[1], &[]));
}

#[test]
fn numbers_are_written_in_decimal() {
    for number in 0..=u16::MAX {
        assert_eq!(decimal_text(number), number.to_string());
    }
}

#[test]
fn a_saved_key_is_read_back() {
    let text = save_api_key("  chave-de-teste\n").unwrap();
    assert_eq!(text, "chave-de-teste");
    assert_eq!(read_api_key(Some(text.clone())).unwrap(), text);
    assert!(has_api_key(Some(text)));
}

#[test]
fn an_empty_key_is_refused_and_not_found() {
    assert_eq!(save_api_key(" \t\n").unwrap_err(), "chave vazia");
    assert_eq!(save_api_key("").unwrap_err(), "chave vazia");
    assert_eq!(read_api_key(Some(" \t\n".into())), None);
    assert_eq!(read_api_key(None), None);
    assert!(!has_api_key(None));
}

#[test]
fn providers_have_addresses_names_and_files_of_their_own() {
    assert_eq!(provider_base_url("openai"), "https://api.openai.com/v1/audio/transcriptions");
    assert_eq!(provider_base_url("groq"), "https://api.groq.com/openai/v1/audio/transcriptions");
    assert_eq!(provider_base_url("other"), "https://api.groq.com/openai/v1/audio/transcriptions");
    assert_eq!(provider_name("openai"), "OpenAI");
    assert_eq!(provider_name("groq"), "Groq");
    assert_eq!(api_key_file_name("groq"), "groq-api-key");
    assert_ne!(api_key_file_name("groq"), api_key_file_name("openai"));
}

#[test]
fn models_are_listed_with_the_cheapest_as_the_default() {
    let models = list_provider_models();
    let names: Vec<&str> = models.iter().map(|model| model.model).collect();
    assert_eq!(
        names,
        ["whisper-large-v3-turbo", "whisper-large-v3", "gpt-4o-mini-transcribe", "whisper-1", "gpt-4o-transcribe"]
    );
    let prices: Vec<f64> = models.iter().map(|model| model.price_per_min_e5 as f64 / 100_000.0).collect();
    assert_eq!(prices, [0.00067, 0.00185, 0.003, 0.006, 0.006]);
    let settings = ProviderSettings::default();
    assert_eq!(settings.provider, models[0].provider);
    assert_eq!(settings.model, models[0].model);
    assert_eq!(models[0].label, "Whisper Large v3 Turbo");
    assert_eq!(models[0].note, "rápido e o mais barato");
}

#[test]
fn settings_fall_back_to_the_default() {
    let chosen = ProviderSettings { provider: "openai".into(), model: "whisper-1".into() };
    let settings = read_settings(Some(chosen.clone()));
    assert_eq!((settings.provider.as_str(), settings.model.as_str()), ("openai", "whisper-1"));
    assert_eq!(read_settings(None).provider, "groq");
}

#[test]
fn a_toggle_is_asked_for_anywhere_among_the_arguments() {
    let argv = |args: &[&str]| -> Vec<String> { args.iter().map(|arg| arg.to_string()).collect() };
    assert!(is_toggle_request(&argv(&["whispa", "--toggle"])));
    assert!(is_toggle_request(&argv(&["--toggle", "x"])));
    assert!(!is_toggle_request(&argv(&["whispa", "--toggles"])));
    assert!(!is_toggle_request(&argv(&[])));
    assert_eq!(toggle_command_hint(Some("/usr/bin/whispa")), "/usr/bin/whispa --toggle");
    assert_eq!(toggle_command_hint(None), "whispa --toggle");
}

#[test]
fn the_hotkey_depends_on_the_platform() {
    assert_eq!(hotkey_display_name(Platform::Linux), "Super+T");
    assert_eq!(hotkey_display_name(Platform::Macos), "⌥+⇧+D");
    assert_eq!(hotkey_display_name(Platform::Windows), "Alt+Shift+D");
    assert_eq!(tray_tooltip(true, Platform::Linux), "whispa — gravando (Super+T para parar)");
    assert_eq!(tray_tooltip(false, Platform::Windows), "whispa — Alt+Shift+D para ditar");
    assert!(!hotkey_already_confirmed(Platform::Linux, false));
    assert!(hotkey_already_confirmed(Platform::Linux, true));
    assert!(hotkey_already_confirmed(Platform::Macos, false));
    assert!(setup_window_hidden(true, true));
    assert!(!setup_window_hidden(true, false));
    assert!(!setup_window_hidden(false, true));
}

#[test]
fn menu_and_windows_do_as_they_say() {
    assert_eq!(menu_action("quit"), MenuAction::Quit);
    assert_eq!(menu_action("settings"), MenuAction::ShowSetup);
    assert_eq!(menu_action("about"), MenuAction::ShowAbout);
    assert_eq!(menu_action("hud"), MenuAction::Nothing);
    assert!(hides_on_close(SETUP_WINDOW_LABEL));
    assert!(hides_on_close(ABOUT_WINDOW_LABEL));
    assert!(!hides_on_close(HUD_WINDOW_LABEL));
    assert_eq!((SETUP_WINDOW_LABEL, HUD_WINDOW_LABEL, ABOUT_WINDOW_LABEL), ("setup", "hud", "about"));
}

#[test]
fn a_tool_that_fails_is_named_with_its_status() {
    assert!(tool_result("pbcopy", true, "exit status: 0").is_ok());
    assert_eq!(
        tool_result("pbcopy", false, "exit status: 1").unwrap_err(),
        "pbcopy terminou com status exit status: 1"
    );
}

#[test]
fn a_clipboard_that_differs_is_noticed() {
    assert!(confirm_clipboard("çã", "çã".as_bytes()).is_ok());
    assert_eq!(
        confirm_clipboard("çã", b"ca").unwrap_err(),
        "clipboard divergiu do texto transcrito"
    );
}

#[test]
fn indicator_titles_and_sizes_follow_the_state() {
    assert_eq!(hud_title("recording"), "GRAVANDO");
    assert_eq!(hud_title("processing"), "TRANSCREVENDO");
    assert_eq!(hud_title("success"), "COPIADO");
    assert_eq!(hud_title("error"), "ERRO");
    let mut hud = HudState::new("processing", "TRANSCREVENDO", 1);
    assert_eq!(hud_size(&hud), (340, 110));
    hud.message = "mensagem".into();
    assert_eq!(hud_size(&hud), (340, 180));
    hud.state = "error".into();
    assert_eq!(hud_size(&hud), (460, 380));
    let copy = hud.clone();
    assert_eq!(copy.message, "mensagem");
}

#[test]
fn the_indicator_is_centered_above_the_margin() {
    assert_eq!(hud_position(0, 0, 1920, 1080, 340, 110, 64), (790, 906));
    assert_eq!(hud_position(-1920, 100, 1921, 1080, 340, 110, 64), (-1130, 1006));
    assert_eq!(hud_position(0, 0, 339, 1080, 340, 110, 64), (0, 906));
    assert_eq!(hud_position(0, 0, 337, 1080, 340, 110, 64), (-1, 906));
    assert_eq!(hud_position(i32::MAX, 0, 1920, 1080, 340, 110, 64), (-2_147_482_859, 906));
    assert_eq!(hud_position(0, i32::MAX, 1920, 1080, 340, 1080, 0), (790, i32::MAX));
    assert_eq!(hud_position(0, 0, u32::MAX, 1080, 1, 110, 64), (-1, 906));
}
