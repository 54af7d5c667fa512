//! What the settings pages show, and what a change on them does.
use vstd::prelude::*;
use crate::numbers::{decimal, push_decimal};
use crate::recording::devices::{device_options, kind_entries, option_texts, DeviceKind, DeviceOption, DEFAULT_DEVICE_ID};
use crate::settings::cache::{BuiltinModel, BuiltinStatus, CalendarSourceRow, CustomOpenAIConfig, OllamaModel, SettingsCache};
use crate::settings::config::{NotificationPreferences, NotificationSettings};
use crate::settings::models::{fallback_for_provider, fallback_models, filter_models, format_size_mb, merge_with_fallback, model_matches, offered_models, size_text, ProviderModels};
use crate::text::{is_blank, opt_str, opt_text, same_text, texts, trimmed};
use crate::whisper::models::{ModelInfo, ModelStatus};

verus! {

// ---------------------------------------------------------------------------
// Appearance
// ---------------------------------------------------------------------------

/// What a theme's name asks for.
#[derive(Debug, Clone, Copy, PartialEq, Eq, Structural)]
pub enum ThemeChoice {
    Light,
    Dark,
    System,
}

/// What a theme's name asks for; any other name follows the system.
pub open spec fn theme_named(mode: Seq<char>) -> ThemeChoice {
    if mode == "light"@ {
        ThemeChoice::Light
    } else if mode == "dark"@ {
        ThemeChoice::Dark
    } else {
        ThemeChoice::System
    }
}

/// What a theme's name asks for.
pub fn theme_choice(mode: &str) -> (r: ThemeChoice)
    ensures
        r == theme_named(mode@),
{
    if same_text(mode, "light") {
        ThemeChoice::Light
    } else if same_text(mode, "dark") {
        ThemeChoice::Dark
    } else {
        ThemeChoice::System
    }
}

/// The theme that is stored, or "system" where none is.
pub fn stored_theme(saved: &Option<String>) -> (r: String)
    ensures
        r@ == match *saved {
            Some(s) if s@.len() > 0 => s@,
            _ => "system"@,
        },
{
    match saved {
        Some(s) => if s.as_str().is_empty() {
            "system".to_owned()
        } else {
            s.clone()
        },
        None => "system".to_owned(),
    }
}

/// Whether a change of the system's theme is followed: "system" was chosen, or
/// nothing was yet.
pub fn follows_system(active: Option<&str>) -> (r: bool)
    ensures
        r == match opt_str(active) {
            Some(mode) => mode == "system"@,
            None => true,
        },
{
    match active {
        Some(mode) => same_text(mode, "system"),
        None => true,
    }
}

// ---------------------------------------------------------------------------
// Recording
// ---------------------------------------------------------------------------

/// The microphones or system sources that are offered, behind the default.
pub fn device_choices(cache: &SettingsCache, mic: bool) -> (r: Vec<DeviceOption>)
    ensures
        option_texts(r@) == seq![(DEFAULT_DEVICE_ID@, "System default"@)] + if mic {
            kind_entries(cache.mic_devices@, DeviceKind::Microphone)
        } else {
            kind_entries(cache.system_devices@, DeviceKind::System)
        },
{
    if mic {
        device_options(&cache.mic_devices, DeviceKind::Microphone, "System default")
    } else {
        device_options(&cache.system_devices, DeviceKind::System, "System default")
    }
}

// ---------------------------------------------------------------------------
// Transcription
// ---------------------------------------------------------------------------

/// What can be done with a model.
#[derive(Debug, Clone, PartialEq, Eq)]
pub struct ModelRow {
    pub detail: String,
    /// The download can be stopped; there is no button to start it.
    pub can_cancel: bool,
    pub download_label: &'static str,
    pub can_download: bool,
    pub can_delete: bool,
}

/// "Downloading… 40%".
pub open spec fn downloading_text(percent: u8) -> Seq<char> {
    "Downloading… "@ + decimal(percent as nat) + "%"@
}

fn downloading(percent: u8) -> (r: String)
    ensures
        r@ == downloading_text(percent),
{
    let mut out = "Downloading… ".to_owned();
    push_decimal(&mut out, percent as u64);
    out.append("%");
    out
}

/// How a speech model's status is shown. A download that is under way counts
/// before anything else.
pub open spec fn whisper_status_text(status: ModelStatus, progress: Option<u8>) -> Seq<char> {
    match progress {
        Some(p) => downloading_text(p),
        None => match status {
            ModelStatus::Available => "Available"@,
            ModelStatus::Missing => "Missing"@,
            ModelStatus::Downloading { progress } => downloading_text(progress),
            ModelStatus::Corrupted { .. } => "Corrupted — re-download"@,
            ModelStatus::Error(e) => "Error: "@ + e@,
        },
    }
}

/// The status of a model by its name: that of the first in the list, or
/// `known` where it is not there.
pub open spec fn status_of(models: Seq<ModelInfo>, name: Seq<char>, known: ModelStatus) -> ModelStatus
    decreases models.len(),
{
    if models.len() == 0 {
        known
    } else if models[0].name@ == name {
        models[0].status
    } else {
        status_of(models.skip(1), name, known)
    }
}

/// Whether a row shows a speech model.
pub open spec fn shows_whisper(row: ModelRow, cache: SettingsCache, model: ModelInfo) -> bool {
    let status = status_of(cache.whisper_models@, model.name@, model.status);
    let progress = if cache.download_progress@.contains_key(model.name@) {
        Some(cache.download_progress@[model.name@])
    } else {
        None
    };
    let running = status is Downloading || progress is Some;
    &&& row.detail@ == model.accuracy@ + " · "@ + decimal(model.size_mb as nat) + " MB · "@
        + whisper_status_text(status, progress)
    &&& row.can_cancel == running
    &&& row.download_label@ == if status is Corrupted {
        "Re-download"@
    } else {
        "Download"@
    }
    &&& row.can_download == (!(status is Available) && !running)
    &&& row.can_delete == ((status is Available || status is Corrupted) && !running)
}

fn current_status<'a>(models: &'a Vec<ModelInfo>, name: &str, known: &'a ModelStatus) -> (r:
    &'a ModelStatus)
    ensures
        *r == status_of(models@, name@, *known),
{
    let n: usize = models.len();
    let mut i: usize = 0;
    assert(models@.skip(0) =~= models@);
    while i < n
        invariant
            n == models@.len(),
            i <= n,
            status_of(models@, name@, *known) == status_of(
                models@.skip(i as int),
                name@,
                *known,
            ),
        decreases n - i,
    {
        let ghost rest = models@.skip(i as int);
        assert(rest[0] == models@[i as int]);
        if same_text(&models[i].name, name) {
            return &models[i].status;
        }
        assert(rest.skip(1) =~= models@.skip(i + 1));
        i += 1;
    }
    known
}

/// The row of a speech model.
pub fn whisper_row(cache: &SettingsCache, model: &ModelInfo) -> (r: ModelRow)
    ensures
        shows_whisper(r, *cache, *model),
{
    let status = current_status(&cache.whisper_models, &model.name, &model.status);
    let progress: Option<u8> = match cache.download_progress.get(&model.name) {
        Some(p) => Some(*p),
        None => None,
    };
    let text = match progress {
        Some(p) => downloading(p),
        None => match status {
            ModelStatus::Available => "Available".to_owned(),
            ModelStatus::Missing => "Missing".to_owned(),
            ModelStatus::Downloading { progress } => downloading(*progress),
            ModelStatus::Corrupted { .. } => "Corrupted — re-download".to_owned(),
            ModelStatus::Error(e) => {
                let mut out = "Error: ".to_owned();
                out.append(e);
                out
            },
        },
    };
    let (available, corrupted, loading) = match status {
        ModelStatus::Available => (true, false, false),
        ModelStatus::Corrupted { .. } => (false, true, false),
        ModelStatus::Downloading { .. } => (false, false, true),
        _ => (false, false, false),
    };
    let running = loading || progress.is_some();
    let mut detail = model.accuracy.clone();
    detail.append(" · ");
    push_decimal(&mut detail, model.size_mb as u64);
    detail.append(" MB · ");
    detail.append(&text);
    ModelRow {
        detail,
        can_cancel: running,
        download_label: if corrupted {
            "Re-download"
        } else {
            "Download"
        },
        can_download: !available && !running,
        can_delete: (available || corrupted) && !running,
    }
}

// ---------------------------------------------------------------------------
// Summaries
// ---------------------------------------------------------------------------

/// Which field picks the model.
#[derive(Debug, Clone, Copy, PartialEq, Eq, Structural)]
pub enum ModelField {
    /// The settings of an endpoint of the user's own.
    CustomEndpoint,
    /// The list of built-in models.
    BuiltinList,
    /// What the Ollama server has, with a list to manage it.
    Ollama,
    /// The models that the provider lists.
    Cloud,
}

/// Which field picks the model of a provider. No provider is the built-in one.
pub open spec fn field_for(provider: Seq<char>) -> ModelField {
    if provider == "custom-openai"@ {
        ModelField::CustomEndpoint
    } else if provider.len() == 0 || provider == "builtin-ai"@ {
        ModelField::BuiltinList
    } else if provider == "ollama"@ {
        ModelField::Ollama
    } else {
        ModelField::Cloud
    }
}

/// Which field picks the model of a provider.
pub fn model_field(provider: &str) -> (r: ModelField)
    ensures
        r == field_for(provider@),
{
    if same_text(provider, "custom-openai") {
        ModelField::CustomEndpoint
    } else if provider.is_empty() || same_text(provider, "builtin-ai") {
        ModelField::BuiltinList
    } else if same_text(provider, "ollama") {
        ModelField::Ollama
    } else {
        ModelField::Cloud
    }
}

/// Where a provider's models are listed.
#[derive(Debug, Clone, Copy, PartialEq, Eq, Structural)]
pub enum ModelSource {
    /// The Ollama server.
    Ollama,
    OpenRouter,
    /// The provider itself, with the stored key.
    WithKey,
    /// Nowhere: there are none.
    Nowhere,
}

/// Where a provider's models are listed. Those that take a key are the ones that
/// are known to have models.
pub fn model_source(provider: &str, more: &Vec<ProviderModels>) -> (r: ModelSource)
    ensures
        r == (if provider@ == "ollama"@ {
            ModelSource::Ollama
        } else if provider@ == "openrouter"@ {
            ModelSource::OpenRouter
        } else if fallback_models(provider@, more@) is Some {
            ModelSource::WithKey
        } else {
            ModelSource::Nowhere
        }),
{
    if same_text(provider, "ollama") {
        ModelSource::Ollama
    } else if same_text(provider, "openrouter") {
        ModelSource::OpenRouter
    } else if fallback_for_provider(provider, more).is_some() {
        ModelSource::WithKey
    } else {
        ModelSource::Nowhere
    }
}

/// The provider that is shown as chosen.
pub fn shown_provider(provider: &str) -> (r: String)
    ensures
        r@ == if provider@.len() == 0 {
            "builtin-ai"@
        } else {
            provider@
        },
{
    if provider.is_empty() {
        "builtin-ai".to_owned()
    } else {
        provider.to_owned()
    }
}

/// A change of the summary settings.
#[derive(Debug, Clone, PartialEq, Eq)]
pub enum SummaryChange {
    Provider(String),
    Model(String),
    Endpoint(String),
}

/// What is stored of the summary settings.
#[derive(Debug, Clone, PartialEq, Eq)]
pub struct SummaryRecord {
    pub provider: String,
    pub model: String,
    pub whisper_model: String,
    pub ollama_endpoint: Option<String>,
}

/// Changes the summary settings; what to store.
pub fn set_summary(cache: &mut SettingsCache, change: SummaryChange) -> (r: SummaryRecord)
    ensures
        final(cache).summary.provider@ == match change {
            SummaryChange::Provider(p) => p@,
            _ => old(cache).summary.provider@,
        },
        final(cache).summary.model@ == match change {
            SummaryChange::Model(m) => m@,
            _ => old(cache).summary.model@,
        },
        final(cache).summary.ollama_endpoint@ == match change {
            SummaryChange::Endpoint(e) => e@,
            _ => old(cache).summary.ollama_endpoint@,
        },
        *final(cache) == (SettingsCache { summary: final(cache).summary, ..*old(cache) }),
        r.provider@ == final(cache).summary.provider@,
        r.model@ == final(cache).summary.model@,
        r.whisper_model@ == old(cache).transcript.model@,
        opt_text(r.ollama_endpoint) == final(cache).endpoint(),
{
    match change {
        SummaryChange::Provider(p) => {
            cache.summary.provider = p;
        },
        SummaryChange::Model(m) => {
            cache.summary.model = m;
        },
        SummaryChange::Endpoint(e) => {
            cache.summary.ollama_endpoint = e;
        },
    }
    SummaryRecord {
        provider: cache.summary.provider.clone(),
        model: cache.summary.model.clone(),
        whisper_model: cache.transcript.model.clone(),
        ollama_endpoint: cache.ollama_endpoint(),
    }
}

/// Whether a key is stored for a provider.
pub open spec fn key_stored(cache: SettingsCache, provider: Seq<char>) -> bool {
    cache.api_key_present@.contains_key(provider) && cache.api_key_present@[provider]
}

/// How the key of a provider is shown: the field's hint and the mark beside it.
pub fn key_texts(cache: &SettingsCache, provider: &str) -> (r: (&'static str, &'static str))
    ensures
        r.0@ == if key_stored(*cache, provider@) {
            "•••••••••••••••• (saved — type to replace)"@
        } else {
            "Not set"@
        },
        r.1@ == if key_stored(*cache, provider@) {
            "Configured"@
        } else {
            "Not set"@
        },
{
    let stored = match cache.api_key_present.get(provider) {
        Some(b) => *b,
        None => false,
    };
    if stored {
        ("•••••••••••••••• (saved — type to replace)", "Configured")
    } else {
        ("Not set", "Not set")
    }
}

/// A change of the settings of an endpoint of the user's own.
#[derive(Debug, Clone, PartialEq, Eq)]
pub enum EndpointChange {
    Endpoint(String),
    Model(String),
    ApiKey(String),
}

/// Whether `after` is `before`, or nothing where there was none, with a change.
pub open spec fn endpoint_changed(
    before: Option<CustomOpenAIConfig>,
    after: CustomOpenAIConfig,
    change: EndpointChange,
) -> bool {
    &&& after.endpoint@ == match (change, before) {
        (EndpointChange::Endpoint(e), _) => e@,
        (_, Some(c)) => c.endpoint@,
        (_, None) => ""@,
    }
    &&& after.model@ == match (change, before) {
        (EndpointChange::Model(m), _) => m@,
        (_, Some(c)) => c.model@,
        (_, None) => ""@,
    }
    &&& opt_text(after.api_key) == match (change, before) {
        (EndpointChange::ApiKey(k), _) => if k@.len() == 0 {
            None
        } else {
            Some(k@)
        },
        (_, Some(c)) => opt_text(c.api_key),
        (_, None) => None,
    }
    &&& after.max_tokens == match before {
        Some(c) => c.max_tokens,
        None => None,
    }
    &&& after.temperature == match before {
        Some(c) => c.temperature,
        None => None,
    }
    &&& after.top_p == match before {
        Some(c) => c.top_p,
        None => None,
    }
}

/// Changes the settings of an endpoint of the user's own. An empty key is none.
pub fn set_custom_openai(cache: &mut SettingsCache, change: EndpointChange)
    ensures
        final(cache).custom_openai matches Some(after) && endpoint_changed(
            old(cache).custom_openai,
            after,
            change,
        ),
        final(cache).api_key_present@ == old(cache).api_key_present@.insert(
            crate::settings::cache::CUSTOM_OPENAI@,
            crate::settings::cache::is_key(final(cache).custom_openai->Some_0.api_key),
        ),
        *final(cache) == (SettingsCache {
            custom_openai: final(cache).custom_openai,
            api_key_present: final(cache).api_key_present,
            ..*old(cache)
        }),
{
    let mut config = match cache.custom_openai.take() {
        Some(c) => c,
        None => CustomOpenAIConfig {
            endpoint: "".to_owned(),
            api_key: None,
            model: "".to_owned(),
            max_tokens: None,
            temperature: None,
            top_p: None,
        },
    };
    match change {
        EndpointChange::Endpoint(e) => {
            config.endpoint = e;
        },
        EndpointChange::Model(m) => {
            config.model = m;
        },
        EndpointChange::ApiKey(k) => {
            config.api_key = if k.as_str().is_empty() {
                None
            } else {
                Some(k)
            };
        },
    }
    cache.save_custom_openai(config);
}

/// The models that a provider offers, and the notes below them.
#[derive(Debug, Clone, PartialEq, Eq)]
pub struct CloudPicker {
    pub options: Vec<String>,
    pub loading: bool,
    pub error: Option<String>,
}

/// Whether a picker shows a provider's models.
pub open spec fn shows_cloud(
    picker: CloudPicker,
    cache: SettingsCache,
    provider: Seq<char>,
    more: Seq<ProviderModels>,
) -> bool {
    &&& texts(picker.options@) == offered_models(
        provider,
        if cache.provider_models@.contains_key(provider) {
            texts(cache.provider_models@[provider]@)
        } else {
            seq![]
        },
        more,
    )
    &&& picker.loading == (cache.provider_models_loading@.contains_key(provider)
        && cache.provider_models_loading@[provider])
    &&& opt_text(picker.error) == if cache.provider_models_error@.contains_key(provider) {
        Some(
            "Couldn't fetch live models — showing a fallback list ("@
                + cache.provider_models_error@[provider]@ + ")."@,
        )
    } else {
        None
    }
}

/// The models that a provider offers.
pub fn cloud_picker(cache: &SettingsCache, provider: &str, more: &Vec<ProviderModels>) -> (r:
    CloudPicker)
    ensures
        shows_cloud(r, *cache, provider@, more@),
{
    let options = match cache.provider_models.get(provider) {
        Some(list) => merge_with_fallback(provider, list, more),
        None => {
            let none: Vec<String> = Vec::new();
            assert(texts(none@) =~= seq![]);
            merge_with_fallback(provider, &none, more)
        },
    };
    let loading = match cache.provider_models_loading.get(provider) {
        Some(b) => *b,
        None => false,
    };
    let error = match cache.provider_models_error.get(provider) {
        Some(e) => {
            let mut out = "Couldn't fetch live models — showing a fallback list (".to_owned();
            out.append(e);
            out.append(").");
            Some(out)
        },
        None => None,
    };
    CloudPicker { options, loading, error }
}

/// What stands for the list of the Ollama server's models.
#[derive(Debug, Clone, PartialEq, Eq)]
pub enum OllamaList {
    /// A text in place of the list.
    Note(&'static str),
    /// The places of the models that are shown.
    Rows(Vec<usize>),
}

/// The names of models.
pub open spec fn ollama_names(models: Seq<OllamaModel>) -> Seq<String> {
    models.map_values(|m: OllamaModel| m.name)
}

/// Whether a model of the Ollama server is shown for what was typed.
pub open spec fn ollama_shown(model: OllamaModel, query: Seq<char>) -> bool {
    trimmed(query).len() == 0 || model_matches(model.name, query)
}

fn names_of(models: &Vec<OllamaModel>) -> (r: Vec<String>)
    ensures
        r@ == ollama_names(models@),
{
    let mut out: Vec<String> = Vec::new();
    for i in 0..models.len()
        invariant
            out@ == ollama_names(models@.take(i as int)),
    {
        out.push(models[i].name.clone());
        assert(out@ =~= ollama_names(models@.take(i + 1)));
    }
    assert(models@.take(models@.len() as int) =~= models@);
    out
}

/// The list of the Ollama server's models whose names hold what was typed.
pub fn ollama_list(cache: &SettingsCache, query: &str) -> (r: OllamaList)
    ensures
        ({
            let all = cache.ollama_installed@;
            let some = exists|i: int| 0 <= i < all.len() && ollama_shown(#[trigger] all[i], query@);
            if all.len() == 0 {
                r matches OllamaList::Note(t) && t@ == (if cache.ollama_installed_loading {
                    "Loading installed models…"@
                } else {
                    "No models installed yet."@
                })
            } else if !some {
                r matches OllamaList::Note(t) && t@ == "No installed models match your search."@
            } else {
                r matches OllamaList::Rows(rows) && (forall|i: int|
                    0 <= i < all.len() ==> (rows@.contains(i as usize) == ollama_shown(
                        #[trigger] all[i],
                        query@,
                    ))) && (forall|j: int| 0 <= j < rows@.len() ==> (#[trigger] rows@[j])
                    < all.len()) && (forall|j: int, k: int|
                    0 <= j < k < rows@.len() ==> rows@[j] < rows@[k])
            }
        }),
{
    let all = &cache.ollama_installed;
    if all.len() == 0 {
        return OllamaList::Note(
            if cache.ollama_installed_loading {
                "Loading installed models…"
            } else {
                "No models installed yet."
            },
        );
    }
    let names = names_of(all);
    let shown = filter_models(&names, query);
    let mut rows: Vec<usize> = Vec::new();
    for i in 0..all.len()
        invariant
            all@ == cache.ollama_installed@,
            names@ == ollama_names(all@),
            crate::settings::models::pointed_at(shown@) == names@.filter(
                |m: String| model_matches(m, query@),
            ),
            trimmed(query@).len() == 0 ==> crate::settings::models::pointed_at(shown@) == names@,
            i <= all@.len(),
            forall|j: int|
                0 <= j < i ==> (rows@.contains(j as usize) == ollama_shown(
                    #[trigger] all@[j],
                    query@,
                )),
            forall|j: int| 0 <= j < rows@.len() ==> (#[trigger] rows@[j]) < i,
            forall|j: int, k: int| 0 <= j < k < rows@.len() ==> rows@[j] < rows@[k],
    {
        let ghost had = rows@;
        let here = is_among(&shown, &all[i].name);
        proof {
            lemma_shown(names@, query@, i as int);
            assert(names@[i as int] == all@[i as int].name);
            lemma_among(shown@, all@[i as int].name);
        }
        if here {
            rows.push(i);
        }
        assert forall|j: int| 0 <= j < i + 1 implies (rows@.contains(j as usize) == ollama_shown(
            #[trigger] all@[j],
            query@,
        )) by {
            if here {
                assert(rows@[had.len() as int] == i);
                if j < i {
                    if had.contains(j as usize) {
                        let at = choose|k: int| 0 <= k < had.len() && had[k] == j as usize;
                        assert(rows@[at] == j as usize);
                    }
                    if rows@.contains(j as usize) {
                        let at = choose|k: int| 0 <= k < rows@.len() && rows@[k] == j as usize;
                        assert(had[at] == j as usize);
                    }
                }
            }
        }
    }
    if rows.len() == 0 {
        return OllamaList::Note("No installed models match your search.");
    }
    assert(rows@.contains(rows@[0]));
    assert(ollama_shown(all@[rows@[0] as int], query@));
    OllamaList::Rows(rows)
}

fn is_among(list: &Vec<&String>, name: &String) -> (r: bool)
    ensures
        r == exists|j: int| 0 <= j < list@.len() && (#[trigger] list@[j])@ == name@,
{
    for i in 0..list.len()
        invariant
            forall|j: int| 0 <= j < i ==> (#[trigger] list@[j])@ != name@,
    {
        if same_text(list[i], name) {
            return true;
        }
    }
    false
}

proof fn lemma_among<'a>(list: Seq<&'a String>, name: String)
    ensures
        crate::settings::models::pointed_at(list).contains(name) ==> exists|j: int|
            0 <= j < list.len() && (#[trigger] list[j])@ == name@,
        (exists|j: int| 0 <= j < list.len() && (#[trigger] list[j])@ == name@) ==> exists|m: String|
            crate::settings::models::pointed_at(list).contains(m) && #[trigger] m@ == name@,
{
    let all = crate::settings::models::pointed_at(list);
    if all.contains(name) {
        let j = choose|j: int| 0 <= j < all.len() && all[j] == name;
        assert(list[j]@ == name@);
    }
    if exists|j: int| 0 <= j < list.len() && (#[trigger] list[j])@ == name@ {
        let j = choose|j: int| 0 <= j < list.len() && (#[trigger] list[j])@ == name@;
        assert(all[j] == *list[j]);
        assert(all.contains(all[j]));
        assert(all[j]@ == name@);
    }
}

proof fn lemma_shown(names: Seq<String>, query: Seq<char>, i: int)
    requires
        0 <= i < names.len(),
    ensures
        ({
            let kept = names.filter(|m: String| model_matches(m, query));
            &&& model_matches(names[i], query) ==> kept.contains(names[i])
            &&& forall|m: String| #[trigger] kept.contains(m) ==> model_matches(m, query)
        }),
{
    let keep = |m: String| model_matches(m, query);
    names.filter_lemma(keep);
    let kept = names.filter(keep);
    assert forall|m: String| #[trigger] kept.contains(m) implies model_matches(m, query) by {
        let j = choose|j: int| 0 <= j < kept.len() && kept[j] == m;
        assert(keep(kept[j]));
    }
    if model_matches(names[i], query) {
        assert(keep(names[i]));
    }
}

/// Whether a model of the Ollama server is being downloaded.
pub open spec fn pulled(cache: SettingsCache, name: Seq<char>) -> Option<u8> {
    if cache.ollama_pull_progress@.contains_key(name) {
        Some(cache.ollama_pull_progress@[name])
    } else {
        None
    }
}

/// What stands below a model of the Ollama server, and whether it can be
/// deleted.
pub fn ollama_row(cache: &SettingsCache, model: &OllamaModel) -> (r: (String, bool))
    ensures
        r.0@ == match pulled(*cache, model.name@) {
            Some(p) => model.size@ + " · downloading… "@ + decimal(p as nat) + "%"@,
            None => if cache.summary.model@ == model.name@ {
                model.size@ + " · selected"@
            } else {
                model.size@
            },
        },
        r.1 == pulled(*cache, model.name@) is None,
{
    let mut out = model.size.clone();
    match cache.ollama_pull_progress.get(&model.name) {
        Some(p) => {
            out.append(" · downloading… ");
            push_decimal(&mut out, *p as u64);
            out.append("%");
            (out, false)
        },
        None => {
            if same_text(&cache.summary.model, &model.name) {
                out.append(" · selected");
            }
            (out, true)
        },
    }
}

/// The model to download that was typed, where one was.
pub fn typed_model(typed: &str) -> (r: Option<String>)
    ensures
        opt_text(r) == crate::text::filled(typed@),
{
    crate::text::trimmed_or_none(typed)
}

/// The button beside a built-in model.
#[derive(Debug, Clone, Copy, PartialEq, Eq, Structural)]
pub enum BuiltinAction {
    /// Delete it; select it too, where it is not selected.
    Manage { can_select: bool },
    Cancel,
    Download,
    DownloadAgain,
}

/// How a built-in model's status is shown.
pub open spec fn builtin_status_text(
    status: BuiltinStatus,
    progress: Option<u8>,
    selected: bool,
) -> Seq<char> {
    match progress {
        Some(p) => downloading_text(p),
        None => match status {
            BuiltinStatus::Available => if selected {
                "Ready · selected"@
            } else {
                "Ready"@
            },
            BuiltinStatus::NotDownloaded => "Not downloaded"@,
            BuiltinStatus::Downloading { progress } => downloading_text(progress),
            BuiltinStatus::Corrupted => "Corrupted — re-download"@,
            BuiltinStatus::Error(e) => "Error: "@ + e@,
        },
    }
}

/// What stands below a built-in model, and the button beside it.
pub fn builtin_row(cache: &SettingsCache, model: &BuiltinModel) -> (r: (String, BuiltinAction))
    ensures
        ({
            let progress = if cache.builtin_download_progress@.contains_key(model.name@) {
                Some(cache.builtin_download_progress@[model.name@])
            } else {
                None
            };
            let selected = cache.summary.model@ == model.name@;
            &&& r.0@ == size_text(model.size_mb as nat) + " · "@ + builtin_status_text(
                model.status,
                progress,
                selected,
            )
            &&& r.1 == (if progress is Some || model.status is Downloading {
                BuiltinAction::Cancel
            } else if model.status is Available {
                BuiltinAction::Manage { can_select: !selected }
            } else if model.status is Corrupted {
                BuiltinAction::DownloadAgain
            } else {
                BuiltinAction::Download
            })
        }),
{
    let progress: Option<u8> = match cache.builtin_download_progress.get(&model.name) {
        Some(p) => Some(*p),
        None => None,
    };
    let selected = same_text(&cache.summary.model, &model.name);
    let text = match progress {
        Some(p) => downloading(p),
        None => match &model.status {
            BuiltinStatus::Available => if selected {
                "Ready · selected".to_owned()
            } else {
                "Ready".to_owned()
            },
            BuiltinStatus::NotDownloaded => "Not downloaded".to_owned(),
            BuiltinStatus::Downloading { progress } => downloading(*progress),
            BuiltinStatus::Corrupted => "Corrupted — re-download".to_owned(),
            BuiltinStatus::Error(e) => {
                let mut out = "Error: ".to_owned();
                out.append(e);
                out
            },
        },
    };
    let mut detail = format_size_mb(model.size_mb);
    detail.append(" · ");
    detail.append(&text);
    let action = if progress.is_some() {
        BuiltinAction::Cancel
    } else {
        match &model.status {
            BuiltinStatus::Downloading { .. } => BuiltinAction::Cancel,
            BuiltinStatus::Available => BuiltinAction::Manage { can_select: !selected },
            BuiltinStatus::Corrupted => BuiltinAction::DownloadAgain,
            _ => BuiltinAction::Download,
        }
    };
    (detail, action)
}

// ---------------------------------------------------------------------------
// Calendars
// ---------------------------------------------------------------------------

/// What a typed address and name add: the address as typed and the name, unless
/// it is blank. Nothing where the address is blank.
pub fn new_source(url: &str, label: &str) -> (r: Option<(String, Option<String>)>)
    ensures
        match r {
            Some((u, l)) => trimmed(url@).len() > 0 && u@ == url@ && opt_text(l) == (if trimmed(
                label@,
            ).len() == 0 {
                None
            } else {
                Some(label@)
            }),
            None => trimmed(url@).len() == 0,
        },
{
    if is_blank(url) {
        return None;
    }
    let label = if is_blank(label) {
        None
    } else {
        Some(label.to_owned())
    };
    Some((url.to_owned(), label))
}

/// How a calendar is shown: its name, when it was read, and whether it can be
/// read now.
pub fn source_row(cache: &SettingsCache, source: &CalendarSourceRow) -> (r: (String, String, bool))
    ensures
        r.0@ == match source.label {
            Some(l) => l@,
            None => source.url@,
        },
        r.1@ == match source.last_error {
            Some(e) => "Error: "@ + e@,
            None => match source.last_fetched_at {
                Some(at) => "Last synced "@ + at@,
                None => "Never synced"@,
            },
        },
        r.2 == !(cache.calendar_busy@.contains_key(source.id@)
            && cache.calendar_busy@[source.id@]),
{
    let label = match &source.label {
        Some(l) => l.clone(),
        None => source.url.clone(),
    };
    let status = match &source.last_error {
        Some(e) => {
            let mut out = "Error: ".to_owned();
            out.append(e);
            out
        },
        None => match &source.last_fetched_at {
            Some(at) => {
                let mut out = "Last synced ".to_owned();
                out.append(at);
                out
            },
            None => "Never synced".to_owned(),
        },
    };
    let busy = match cache.calendar_busy.get(&source.id) {
        Some(b) => *b,
        None => false,
    };
    (label, status, !busy)
}

// ---------------------------------------------------------------------------
// Notifications
// ---------------------------------------------------------------------------

/// The switches of the notification settings.
#[derive(Debug, Clone, Copy, PartialEq, Eq, Structural)]
pub enum Switch {
    RecordingNotifications,
    TimeBasedReminders,
    MeetingReminders,
    RespectDoNotDisturb,
    NotificationSound,
    ManualDoNotDisturb,
    ShowStarted,
    ShowStopped,
    ShowPaused,
    ShowResumed,
    ShowTranscribed,
    ShowReminders,
    ShowErrors,
}

/// Whether a switch is on.
pub open spec fn switched_on(s: NotificationSettings, which: Switch) -> bool {
    match which {
        Switch::RecordingNotifications => s.recording_notifications,
        Switch::TimeBasedReminders => s.time_based_reminders,
        Switch::MeetingReminders => s.meeting_reminders,
        Switch::RespectDoNotDisturb => s.respect_do_not_disturb,
        Switch::NotificationSound => s.notification_sound,
        Switch::ManualDoNotDisturb => s.manual_dnd_mode,
        Switch::ShowStarted => s.notification_preferences.show_recording_started,
        Switch::ShowStopped => s.notification_preferences.show_recording_stopped,
        Switch::ShowPaused => s.notification_preferences.show_recording_paused,
        Switch::ShowResumed => s.notification_preferences.show_recording_resumed,
        Switch::ShowTranscribed => s.notification_preferences.show_transcription_complete,
        Switch::ShowReminders => s.notification_preferences.show_meeting_reminders,
        Switch::ShowErrors => s.notification_preferences.show_system_errors,
    }
}

/// Whether a switch is on.
pub fn is_on(s: &NotificationSettings, which: Switch) -> (r: bool)
    ensures
        r == switched_on(*s, which),
{
    match which {
        Switch::RecordingNotifications => s.recording_notifications,
        Switch::TimeBasedReminders => s.time_based_reminders,
        Switch::MeetingReminders => s.meeting_reminders,
        Switch::RespectDoNotDisturb => s.respect_do_not_disturb,
        Switch::NotificationSound => s.notification_sound,
        Switch::ManualDoNotDisturb => s.manual_dnd_mode,
        Switch::ShowStarted => s.notification_preferences.show_recording_started,
        Switch::ShowStopped => s.notification_preferences.show_recording_stopped,
        Switch::ShowPaused => s.notification_preferences.show_recording_paused,
        Switch::ShowResumed => s.notification_preferences.show_recording_resumed,
        Switch::ShowTranscribed => s.notification_preferences.show_transcription_complete,
        Switch::ShowReminders => s.notification_preferences.show_meeting_reminders,
        Switch::ShowErrors => s.notification_preferences.show_system_errors,
    }
}

/// The preferences with one of their switches turned; as they are for a switch
/// that is not theirs.
pub open spec fn preferences_turned(
    p: NotificationPreferences,
    which: Switch,
    on: bool,
) -> NotificationPreferences {
    match which {
        Switch::ShowStarted => NotificationPreferences { show_recording_started: on, ..p },
        Switch::ShowStopped => NotificationPreferences { show_recording_stopped: on, ..p },
        Switch::ShowPaused => NotificationPreferences { show_recording_paused: on, ..p },
        Switch::ShowResumed => NotificationPreferences { show_recording_resumed: on, ..p },
        Switch::ShowTranscribed => NotificationPreferences { show_transcription_complete: on, ..p },
        Switch::ShowReminders => NotificationPreferences { show_meeting_reminders: on, ..p },
        Switch::ShowErrors => NotificationPreferences { show_system_errors: on, ..p },
        _ => p,
    }
}

/// The settings with one switch turned.
pub open spec fn turned(s: NotificationSettings, which: Switch, on: bool) -> NotificationSettings {
    match which {
        Switch::RecordingNotifications => NotificationSettings { recording_notifications: on, ..s },
        Switch::TimeBasedReminders => NotificationSettings { time_based_reminders: on, ..s },
        Switch::MeetingReminders => NotificationSettings { meeting_reminders: on, ..s },
        Switch::RespectDoNotDisturb => NotificationSettings { respect_do_not_disturb: on, ..s },
        Switch::NotificationSound => NotificationSettings { notification_sound: on, ..s },
        Switch::ManualDoNotDisturb => NotificationSettings { manual_dnd_mode: on, ..s },
        _ => NotificationSettings {
            notification_preferences: preferences_turned(s.notification_preferences, which, on),
            ..s
        },
    }
}

/// A switch that is turned is as it was turned, and every other one stays.
pub proof fn switches_are_independent(
    s: NotificationSettings,
    which: Switch,
    on: bool,
    other: Switch,
)
    ensures
        switched_on(turned(s, which, on), which) == on,
        other != which ==> switched_on(turned(s, which, on), other) == switched_on(s, other),
{
}

fn turn_preference(p: &mut NotificationPreferences, which: Switch, on: bool)
    ensures
        *final(p) == preferences_turned(*old(p), which, on),
{
    match which {
        Switch::ShowStarted => {
            p.show_recording_started = on;
        },
        Switch::ShowStopped => {
            p.show_recording_stopped = on;
        },
        Switch::ShowPaused => {
            p.show_recording_paused = on;
        },
        Switch::ShowResumed => {
            p.show_recording_resumed = on;
        },
        Switch::ShowTranscribed => {
            p.show_transcription_complete = on;
        },
        Switch::ShowReminders => {
            p.show_meeting_reminders = on;
        },
        Switch::ShowErrors => {
            p.show_system_errors = on;
        },
        _ => {},
    }
}

/// Turns a switch on or off: that one, and nothing else.
pub fn turn(s: &mut NotificationSettings, which: Switch, on: bool)
    ensures
        *final(s) == turned(*old(s), which, on),
{
    match which {
        Switch::RecordingNotifications => {
            s.recording_notifications = on;
        },
        Switch::TimeBasedReminders => {
            s.time_based_reminders = on;
        },
        Switch::MeetingReminders => {
            s.meeting_reminders = on;
        },
        Switch::RespectDoNotDisturb => {
            s.respect_do_not_disturb = on;
        },
        Switch::NotificationSound => {
            s.notification_sound = on;
        },
        Switch::ManualDoNotDisturb => {
            s.manual_dnd_mode = on;
        },
        _ => {
            turn_preference(&mut s.notification_preferences, which, on);
        },
    }
}

/// Where the program's source is kept.
pub const REPO_URL: &'static str = "https://github.com/Hankanman/Parley";

/// Where a fault is reported.
pub fn issues_url() -> (r: String)
    ensures
        r@ == REPO_URL@ + "/issues/new"@,
{
    let mut out = REPO_URL.to_owned();
    out.append("/issues/new");
    out
}

} // verus!
