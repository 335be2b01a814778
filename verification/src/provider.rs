//! Transcription providers: their models and addresses, and the user's settings and keys.

use crate::text::{is_white_space, same_text, trimmed, viewed};
use vstd::prelude::*;

verus! {

/// A model that transcribes speech.
#[derive(Debug, Clone, Copy)]
pub struct ModelInfo {
    pub provider: &'static str,
    pub model: &'static str,
    pub label: &'static str,
    pub note: &'static str,
    /// The price of a minute of audio, in hundred-thousandths of a US dollar.
    pub price_per_min_e5: u32,
}

/// What a [`ModelInfo`] says.
pub struct ModelView {
    pub provider: Seq<char>,
    pub model: Seq<char>,
    pub label: Seq<char>,
    pub note: Seq<char>,
    pub price_per_min_e5: u32,
}

impl View for ModelInfo {
    type V = ModelView;

    open spec fn view(&self) -> ModelView {
        model_view(self.provider@, self.model@, self.label@, self.note@, self.price_per_min_e5)
    }
}

/// The model with the given parts.
pub open spec fn model_view(
    provider: Seq<char>,
    model: Seq<char>,
    label: Seq<char>,
    note: Seq<char>,
    price_per_min_e5: u32,
) -> ModelView {
    ModelView { provider, model, label, note, price_per_min_e5 }
}

/// The models that the user chooses from. The prices were collected by hand and can grow stale: no
/// provider offers them over an interface.
pub open spec fn models() -> Seq<ModelView> {
    seq![
        model_view(
            "groq"@,
            "whisper-large-v3-turbo"@,
            "Whisper Large v3 Turbo"@,
            "rápido e o mais barato"@,
            67,
        ),
        model_view(
            "groq"@,
            "whisper-large-v3"@,
            "Whisper Large v3"@,
            "melhor qualidade da Groq"@,
            185,
        ),
        model_view(
            "openai"@,
            "gpt-4o-mini-transcribe"@,
            "GPT-4o Mini Transcribe"@,
            "mais barato da OpenAI"@,
            300,
        ),
        model_view("openai"@, "whisper-1"@, "Whisper-1"@, "clássico da OpenAI"@, 600),
        model_view(
            "openai"@,
            "gpt-4o-transcribe"@,
            "GPT-4o Transcribe"@,
            "modelo mais novo da OpenAI"@,
            600,
        ),
    ]
}

/// The models that the user chooses from.
pub fn list_provider_models() -> (list: Vec<ModelInfo>)
    ensures
        list@.map_values(|model: ModelInfo| model@) == models(),
{
    let list: Vec<ModelInfo> = vec![
        ModelInfo {
            provider: "groq",
            model: "whisper-large-v3-turbo",
            label: "Whisper Large v3 Turbo",
            note: "rápido e o mais barato",
            price_per_min_e5: 67,
        },
        ModelInfo {
            provider: "groq",
            model: "whisper-large-v3",
            label: "Whisper Large v3",
            note: "melhor qualidade da Groq",
            price_per_min_e5: 185,
        },
        ModelInfo {
            provider: "openai",
            model: "gpt-4o-mini-transcribe",
            label: "GPT-4o Mini Transcribe",
            note: "mais barato da OpenAI",
            price_per_min_e5: 300,
        },
        ModelInfo {
            provider: "openai",
            model: "whisper-1",
            label: "Whisper-1",
            note: "clássico da OpenAI",
            price_per_min_e5: 600,
        },
        ModelInfo {
            provider: "openai",
            model: "gpt-4o-transcribe",
            label: "GPT-4o Transcribe",
            note: "modelo mais novo da OpenAI",
            price_per_min_e5: 600,
        },
    ];
    assert(list@.map_values(|model: ModelInfo| model@) =~= models());
    list
}

/// The address to which a provider's audio is posted.
pub open spec fn base_url_of(provider: Seq<char>) -> Seq<char> {
    if provider == "openai"@ {
        "https://api.openai.com/v1/audio/transcriptions"@
    } else {
        "https://api.groq.com/openai/v1/audio/transcriptions"@
    }
}

/// The address to which a provider's audio is posted.
pub fn provider_base_url(provider: &str) -> (url: &'static str)
    ensures
        url@ == base_url_of(provider@),
{
    if same_text(provider, "openai") {
        "https://api.openai.com/v1/audio/transcriptions"
    } else {
        "https://api.groq.com/openai/v1/audio/transcriptions"
    }
}

/// The name by which the user knows a provider.
pub open spec fn name_of(provider: Seq<char>) -> Seq<char> {
    if provider == "openai"@ {
        "OpenAI"@
    } else {
        "Groq"@
    }
}

/// The name by which the user knows a provider.
pub fn provider_name(provider: &str) -> (name: &'static str)
    ensures
        name@ == name_of(provider@),
{
    if same_text(provider, "openai") {
        "OpenAI"
    } else {
        "Groq"
    }
}

/// The provider and the model that the user has chosen.
#[derive(Debug)]
pub struct ProviderSettings {
    pub provider: String,
    pub model: String,
}

/// What a [`ProviderSettings`] names.
pub struct ProviderSettingsView {
    pub provider: Seq<char>,
    pub model: Seq<char>,
}

impl View for ProviderSettings {
    type V = ProviderSettingsView;

    open spec fn view(&self) -> ProviderSettingsView {
        ProviderSettingsView { provider: self.provider@, model: self.model@ }
    }
}

/// The settings of a user who has chosen nothing.
pub open spec fn default_settings() -> ProviderSettingsView {
    ProviderSettingsView { provider: "groq"@, model: "whisper-large-v3-turbo"@ }
}

impl Default for ProviderSettings {
    fn default() -> (settings: Self)
        ensures
            settings@ == default_settings(),
    {
        ProviderSettings {
            provider: "groq".to_owned(),
            model: "whisper-large-v3-turbo".to_owned(),
        }
    }
}

impl Clone for ProviderSettings {
    fn clone(&self) -> (copy: Self)
        ensures
            copy@ == self@,
    {
        ProviderSettings { provider: self.provider.clone(), model: self.model.clone() }
    }
}

/// The settings in force, from those that were saved.
pub open spec fn settings_in_force(saved: Option<ProviderSettingsView>) -> ProviderSettingsView {
    match saved {
        Some(saved) => saved,
        None => default_settings(),
    }
}

/// The settings in force, from those that were saved; none are where the file is missing or does not
/// hold settings.
pub fn read_settings(saved: Option<ProviderSettings>) -> (settings: ProviderSettings)
    ensures
        settings@ == settings_in_force(
            match saved {
                Some(saved) => Some(saved@),
                None => None,
            },
        ),
{
    match saved {
        Some(saved) => saved,
        None => ProviderSettings::default(),
    }
}

/// The name of the file that keeps a provider's key.
pub open spec fn api_key_file(provider: Seq<char>) -> Seq<char> {
    provider + "-api-key"@
}

/// The name of the file that keeps a provider's key.
pub fn api_key_file_name(provider: &str) -> (name: String)
    ensures
        name@ == api_key_file(provider@),
{
    provider.to_owned().concat("-api-key")
}

/// The key in the file that keeps it: the text without outer white space, unless nothing is left.
pub open spec fn key_in(file: Option<Seq<char>>) -> Option<Seq<char>> {
    match file {
        Some(text) => if trimmed(text).len() > 0 {
            Some(trimmed(text))
        } else {
            None
        },
        None => None,
    }
}

/// Reads the key in the text of the file that keeps it; there is no text where the file cannot be
/// read.
pub fn read_api_key(file: Option<String>) -> (key: Option<String>)
    ensures
        viewed(key) == key_in(viewed(file)),
{
    match file {
        Some(text) => {
            let key = text.as_str().trim();
            if key.is_empty() {
                None
            } else {
                Some(key.to_owned())
            }
        },
        None => None,
    }
}

/// Whether the text of a key file holds a key.
pub fn has_api_key(file: Option<String>) -> (answer: bool)
    ensures
        answer == (key_in(viewed(file)) is Some),
{
    read_api_key(file).is_some()
}

/// The text to write for a key that the user enters: the key without outer white space, or a
/// complaint where nothing is left.
pub open spec fn saved_key(key: Seq<char>) -> Result<Seq<char>, Seq<char>> {
    if trimmed(key).len() > 0 {
        Ok(trimmed(key))
    } else {
        Err("chave vazia"@)
    }
}

/// Makes the text to write for a key that the user enters.
pub fn save_api_key(key: &str) -> (result: Result<String, String>)
    ensures
        match result {
            Ok(text) => saved_key(key@) == Ok::<Seq<char>, Seq<char>>(text@),
            Err(complaint) => saved_key(key@) == Err::<Seq<char>, Seq<char>>(complaint@),
        },
{
    let trimmed_key = key.trim();
    if trimmed_key.is_empty() {
        Err("chave vazia".to_owned())
    } else {
        Ok(trimmed_key.to_owned())
    }
}

/// A saved key is read back as it was saved, and a key is refused exactly where a file with it would
/// hold no key.
pub proof fn law_saved_keys_are_read_back(key: Seq<char>)
    ensures
        match saved_key(key) {
            Ok(text) => key_in(Some(text)) == Some(text) && key_in(Some(key)) == Some(text),
            Err(_) => key_in(Some(key)) is None,
        },
{
    crate::text::law_trimming_twice_is_trimming_once(key);
}

/// Two providers never share a key file.
pub proof fn law_key_files_are_apart(one: Seq<char>, other: Seq<char>)
    requires
        one != other,
    ensures
        api_key_file(one) != api_key_file(other),
{
    if api_key_file(one) == api_key_file(other) {
        assert(one =~= api_key_file(one).take(api_key_file(one).len() - "-api-key"@.len()));
        assert(other =~= api_key_file(other).take(api_key_file(other).len() - "-api-key"@.len()));
    }
}

/// Who has chosen nothing gets a model from the list, and none costs less.
pub proof fn law_default_model_is_the_cheapest()
    ensures
        models()[0].provider == default_settings().provider,
        models()[0].model == default_settings().model,
        forall|i: int|
            0 <= i < models().len() ==> models()[0].price_per_min_e5 <= (
            #[trigger] models()[i]).price_per_min_e5,
{
}

/// The address and the name of a provider go together: OpenAI's for the provider `openai`, and Groq's
/// for any other.
pub proof fn law_addresses_go_with_names(provider: Seq<char>)
    ensures
        name_of(provider) == "OpenAI"@ <==> provider == "openai"@,
        name_of(provider) == "Groq"@ <==> provider != "openai"@,
        base_url_of(provider) == "https://api.openai.com/v1/audio/transcriptions"@ <==> provider
            == "openai"@,
        base_url_of(provider) == "https://api.groq.com/openai/v1/audio/transcriptions"@ <==> provider
            != "openai"@,
{
    reveal_strlit("OpenAI");
    reveal_strlit("Groq");
    reveal_strlit("https://api.openai.com/v1/audio/transcriptions");
    reveal_strlit("https://api.groq.com/openai/v1/audio/transcriptions");
    assert("OpenAI"@.len() == 6 && "Groq"@.len() == 4);
    assert("https://api.openai.com/v1/audio/transcriptions"@.len() == 46);
    assert("https://api.groq.com/openai/v1/audio/transcriptions"@.len() == 51);
}

/// Saved settings are in force as they were saved, and without any the default ones are: Groq, with
/// its fast model.
pub proof fn law_saved_settings_are_in_force(saved: ProviderSettingsView)
    ensures
        settings_in_force(Some(saved)) == saved,
        settings_in_force(None).provider == "groq"@,
        settings_in_force(None).model == "whisper-large-v3-turbo"@,
        settings_in_force(None) == default_settings(),
{
}

/// The name of a key file is the provider with an ending that says what the file is for.
pub proof fn law_key_files_are_named_after_providers(provider: Seq<char>)
    ensures
        api_key_file(provider).take(provider.len() as int) == provider,
        api_key_file(provider).skip(provider.len() as int) == "-api-key"@,
{
    assert(api_key_file(provider).take(provider.len() as int) =~= provider);
    assert(api_key_file(provider).skip(provider.len() as int) =~= "-api-key"@);
}

/// A key is a piece of the text that it stands in, and all that is left out around it is white space.
/// There is none exactly where the text is missing or all white space, and no such key is saved.
pub proof fn law_keys_are_what_was_entered(text: Seq<char>) -> (start: int)
    ensures
        key_in(None) is None,
        match key_in(Some(text)) {
            Some(key) => {
                let end = start + key.len();
                &&& 0 <= start < end <= text.len()
                &&& key == text.subrange(start, end)
                &&& !is_white_space(text[start]) && !is_white_space(text[end - 1])
                &&& forall|i: int|
                    0 <= i < start || end <= i < text.len() ==> is_white_space(#[trigger] text[i])
                &&& saved_key(text) == Ok::<Seq<char>, Seq<char>>(key)
            },
            None => {
                &&& forall|i: int| 0 <= i < text.len() ==> is_white_space(#[trigger] text[i])
                &&& saved_key(text) == Err::<Seq<char>, Seq<char>>("chave vazia"@)
            },
        },
{
    let start = crate::text::law_trimmed_leaves_out_white_space_only(text);
    crate::text::law_trimmed_has_no_outer_white_space(text);
    crate::text::law_white_space_is_trimmed_away(text);
    start
}

/// The notes on the models are true: the one that is called OpenAI's cheapest costs less than OpenAI's
/// others, and every model is of a provider that has an address of its own.
pub proof fn law_models_are_as_they_are_noted()
    ensures
        models().len() == 5,
        forall|i: int|
            0 <= i < models().len() ==> (#[trigger] models()[i]).provider == if i < 2 {
                "groq"@
            } else {
                "openai"@
            },
        models()[2].note == "mais barato da OpenAI"@,
        forall|i: int|
            2 < i < models().len() ==> models()[2].price_per_min_e5 < (
            #[trigger] models()[i]).price_per_min_e5,
        models()[0].note == "rápido e o mais barato"@,
        forall|i: int|
            0 < i < models().len() ==> models()[0].price_per_min_e5 < (
            #[trigger] models()[i]).price_per_min_e5,
        models()[1].note == "melhor qualidade da Groq"@,
        models()[3].note == "clássico da OpenAI"@,
        models()[4].note == "modelo mais novo da OpenAI"@,
{
}

/// The models go by the names that their providers know them by, with labels for the user.
pub proof fn law_models_have_names_and_labels()
    ensures
        models().map_values(|model: ModelView| model.model) == seq![
            "whisper-large-v3-turbo"@,
            "whisper-large-v3"@,
            "gpt-4o-mini-transcribe"@,
            "whisper-1"@,
            "gpt-4o-transcribe"@,
        ],
        models().map_values(|model: ModelView| model.label) == seq![
            "Whisper Large v3 Turbo"@,
            "Whisper Large v3"@,
            "GPT-4o Mini Transcribe"@,
            "Whisper-1"@,
            "GPT-4o Transcribe"@,
        ],
{
    assert(models().map_values(|model: ModelView| model.model) =~= seq![
        "whisper-large-v3-turbo"@,
        "whisper-large-v3"@,
        "gpt-4o-mini-transcribe"@,
        "whisper-1"@,
        "gpt-4o-transcribe"@,
    ]);
    assert(models().map_values(|model: ModelView| model.label) =~= seq![
        "Whisper Large v3 Turbo"@,
        "Whisper Large v3"@,
        "GPT-4o Mini Transcribe"@,
        "Whisper-1"@,
        "GPT-4o Transcribe"@,
    ]);
}

/// The views of models and settings leave nothing out.
pub proof fn law_choices_are_viewed_whole(model: ModelInfo, settings: ProviderSettings)
    ensures
        model@.provider == model.provider@,
        model@.model == model.model@,
        model@.label == model.label@,
        model@.note == model.note@,
        model@.price_per_min_e5 == model.price_per_min_e5,
        settings@.provider == settings.provider@,
        settings@.model == settings.model@,
{
}

} // verus!
