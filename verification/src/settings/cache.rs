//! The settings as they are held while the program runs.
use vstd::prelude::*;
use crate::json::{flag_at, json_document, json_object, json_text, members_of, no_members, string_at, Blob};
use crate::meeting::summary::Template;
use crate::recording::devices::{Device, DeviceKind};
use crate::settings::config::{FeatureToggles, NotificationSettings, SummaryConfig, TranscriptConfig};
use crate::settings::integrations::McpServerInfo;
use crate::text::opt_text;
use crate::text_map::TextMap;
use crate::whisper::models::ModelInfo;

verus! {

/// The transcription provider that runs on this machine.
pub const LOCAL_WHISPER: &'static str = "localWhisper";

/// The provider behind an endpoint of the user's own.
pub const CUSTOM_OPENAI: &'static str = "custom-openai";

/// How recordings are made.
#[derive(Debug, Clone, PartialEq, Eq)]
pub struct RecordingPreferences {
    pub save_folder: String,
    pub auto_save: bool,
    pub preferred_mic_device: Option<String>,
    pub preferred_system_device: Option<String>,
}

/// An endpoint of the user's own.
#[derive(Debug, Clone, PartialEq, Eq)]
pub struct CustomOpenAIConfig {
    pub endpoint: String,
    pub api_key: Option<String>,
    pub model: String,
    pub max_tokens: Option<i32>,
    /// The bits of the number as it is stored.
    pub temperature: Option<u32>,
    /// The bits of the number as it is stored.
    pub top_p: Option<u32>,
}

/// A calendar that events are read from.
#[derive(Debug, Clone, PartialEq, Eq)]
pub struct CalendarSourceRow {
    pub id: String,
    pub url: String,
    pub label: Option<String>,
    pub last_fetched_at: Option<String>,
    pub last_error: Option<String>,
}

/// A model that an Ollama server has.
#[derive(Debug, Clone, PartialEq, Eq)]
pub struct OllamaModel {
    pub name: String,
    pub size: String,
}

/// How far a built-in model is.
#[derive(Debug, Clone, PartialEq, Eq)]
pub enum BuiltinStatus {
    Available,
    NotDownloaded,
    Downloading { progress: u8 },
    Corrupted,
    Error(String),
}

/// A model that the program runs itself.
#[derive(Debug, Clone, PartialEq, Eq)]
pub struct BuiltinModel {
    pub name: String,
    pub display_name: String,
    pub size_mb: u64,
    pub status: BuiltinStatus,
}

/// The settings as they are held while the program runs.
pub struct SettingsCache {
    pub loaded: bool,
    pub recording: RecordingPreferences,
    pub transcript: TranscriptConfig,
    pub summary: SummaryConfig,
    pub whisper_models: Vec<ModelInfo>,
    pub mic_devices: Vec<Device>,
    pub system_devices: Vec<Device>,
    /// How many percent of a speech model are there, while it is downloaded.
    pub download_progress: TextMap<u8>,
    pub download_error: Option<String>,
    /// Whether a key is stored for a provider. The keys themselves are not
    /// held.
    pub api_key_present: TextMap<bool>,
    pub custom_openai: Option<CustomOpenAIConfig>,
    pub templates: Vec<Template>,
    pub default_template_id: String,
    /// Settings of which only some members are known here; the others are kept.
    pub ui_config: Blob,
    pub features: FeatureToggles,
    pub notifications: NotificationSettings,
    pub calendar_sources: Vec<CalendarSourceRow>,
    pub calendar_busy: TextMap<bool>,
    pub mcp_info: Option<McpServerInfo>,
    /// "light", "dark" or "system".
    pub theme_pref: String,
    /// The models that a provider listed.
    pub provider_models: TextMap<Vec<String>>,
    pub provider_models_loading: TextMap<bool>,
    pub provider_models_error: TextMap<String>,
    pub ollama_installed: Vec<OllamaModel>,
    pub ollama_installed_loading: bool,
    pub ollama_pull_progress: TextMap<u8>,
    pub ollama_error: Option<String>,
    pub builtin_models: Vec<BuiltinModel>,
    pub builtin_download_progress: TextMap<u8>,
}

/// What was found in the database.
pub struct StoredSettings {
    pub transcript: Option<TranscriptConfig>,
    /// Provider, model and endpoint.
    pub summary: Option<(String, String, Option<String>)>,
    /// The providers whose keys are stored one by one, and their keys.
    pub api_keys: Vec<(String, Option<String>)>,
    pub custom_openai: Option<CustomOpenAIConfig>,
    pub default_template: Option<String>,
    /// JSON.
    pub ui_config: Option<String>,
    pub features: Option<FeatureToggles>,
    pub notifications: Option<NotificationSettings>,
    pub calendar_sources: Option<Vec<CalendarSourceRow>>,
    pub theme: Option<String>,
}

/// What was found outside the database.
pub struct FoundSettings {
    pub recording: RecordingPreferences,
    pub whisper_models: Option<Vec<ModelInfo>>,
    pub devices: Option<Vec<Device>>,
    pub templates: Vec<Template>,
    pub mcp_info: Option<McpServerInfo>,
}

/// Whether a key is one: there and not empty.
pub open spec fn is_key(key: Option<String>) -> bool {
    key matches Some(k) && k@.len() > 0
}

fn has_key(key: &Option<String>) -> (r: bool)
    ensures
        r == is_key(*key),
{
    match key {
        Some(k) => !k.as_str().is_empty(),
        None => false,
    }
}

/// The key inside the settings of an endpoint of the user's own.
pub open spec fn custom_key(config: Option<CustomOpenAIConfig>) -> Option<String> {
    match config {
        Some(c) => c.api_key,
        None => None,
    }
}

/// For which of some providers a key is stored.
pub open spec fn keys_of(keys: Seq<(String, Option<String>)>) -> Map<Seq<char>, bool>
    decreases keys.len(),
{
    if keys.len() == 0 {
        Map::empty()
    } else {
        keys_of(keys.drop_last()).insert(keys.last().0@, is_key(keys.last().1))
    }
}

/// For which providers a key is stored, where there is a database.
pub open spec fn keys_present(stored: Option<StoredSettings>) -> Map<Seq<char>, bool> {
    match stored {
        Some(s) => keys_of(s.api_keys@).insert(
            CUSTOM_OPENAI@,
            is_key(custom_key(s.custom_openai)),
        ),
        None => Map::empty(),
    }
}

fn present_keys(stored: &Option<StoredSettings>) -> (r: TextMap<bool>)
    ensures
        r@ == keys_present(*stored),
{
    let mut out: TextMap<bool> = TextMap::new();
    if let Some(s) = stored {
        for i in 0..s.api_keys.len()
            invariant
                out@ == keys_of(s.api_keys@.take(i as int)),
        {
            let ghost next = s.api_keys@.take(i + 1);
            assert(next.drop_last() =~= s.api_keys@.take(i as int));
            let kept = has_key(&s.api_keys[i].1);
            out.insert(&s.api_keys[i].0, kept);
        }
        assert(s.api_keys@.take(s.api_keys@.len() as int) =~= s.api_keys@);
        let own = match &s.custom_openai {
            Some(c) => has_key(&c.api_key),
            None => false,
        };
        out.insert(CUSTOM_OPENAI, own);
    }
    out
}

/// The devices of a kind, in order.
pub open spec fn of_kind(devices: Seq<Device>, kind: DeviceKind) -> Seq<Device> {
    devices.filter(|d: Device| d.kind == kind)
}

fn devices_of(devices: &Option<Vec<Device>>, kind: DeviceKind) -> (r: Vec<Device>)
    ensures
        r@ == match *devices {
            Some(list) => of_kind(list@, kind),
            None => seq![],
        },
{
    let mut out: Vec<Device> = Vec::new();
    if let Some(list) = devices {
        let ghost keep = |d: Device| d.kind == kind;
        reveal(Seq::filter);
        assert(out@ =~= list@.take(0).filter(keep));
        for i in 0..list.len()
            invariant
                keep == (|d: Device| d.kind == kind),
                out@ == list@.take(i as int).filter(keep),
        {
            let ghost next = list@.take(i + 1);
            reveal(Seq::filter);
            assert(next.drop_last() =~= list@.take(i as int));
            if list[i].kind == kind {
                out.push(
                    Device {
                        id: list[i].id.clone(),
                        label: list[i].label.clone(),
                        kind: list[i].kind,
                    },
                );
                assert(out@.last() == list@[i as int]);
            }
        }
        assert(list@.take(list@.len() as int) =~= list@);
    } else {
        assert(out@ =~= seq![]);
    }
    out
}

/// The template that a new summary starts with: the stored one, or the first.
pub open spec fn template_choice(stored: Option<StoredSettings>, templates: Seq<Template>) -> Seq<
    char,
> {
    match stored {
        Some(s) if s.default_template is Some && s.default_template->Some_0@.len() > 0 => {
            s.default_template->Some_0@
        },
        _ => if templates.len() > 0 {
            templates[0].0@
        } else {
            ""@
        },
    }
}

/// The stored settings whose shape is not known here, where they are JSON.
pub open spec fn stored_json(stored: Option<StoredSettings>) -> Option<Seq<char>> {
    match stored {
        Some(s) => match s.ui_config {
            Some(json) => json_document(json@),
            None => None,
        },
        None => None,
    }
}

/// Whether these are the stored settings whose shape is not known here, or an
/// object without members where there are none.
pub open spec fn is_stored_json(blob: Blob, stored: Option<StoredSettings>) -> bool {
    match stored_json(stored) {
        Some(json) => blob@ == json,
        None => json_object(blob@) == Some(no_members()),
    }
}

fn stored_blob(stored: &Option<StoredSettings>) -> (r: Blob)
    ensures
        is_stored_json(r, *stored),
{
    if let Some(s) = stored {
        if let Some(json) = &s.ui_config {
            if let Some(blob) = Blob::parse(json) {
                return blob;
            }
        }
    }
    Blob::new()
}

/// The transcription that is stored, or the one on this machine.
pub open spec fn chosen_transcript(
    stored: Option<StoredSettings>,
    default_model: Seq<char>,
    t: TranscriptConfig,
) -> bool {
    match stored {
        Some(s) if s.transcript is Some => t == s.transcript->Some_0,
        _ => t.provider@ == LOCAL_WHISPER@ && t.model@ == default_model,
    }
}

/// The summaries that are stored, or none.
pub open spec fn chosen_summary(stored: Option<StoredSettings>, c: SummaryConfig) -> bool {
    match stored {
        Some(s) if s.summary is Some => c.provider@ == s.summary->Some_0.0@ && c.model@
            == s.summary->Some_0.1@ && c.ollama_endpoint@ == match s.summary->Some_0.2 {
            Some(e) => e@,
            None => ""@,
        },
        _ => c.provider@ == ""@ && c.model@ == ""@ && c.ollama_endpoint@ == ""@,
    }
}

impl SettingsCache {
    /// The settings before anything was loaded.
    pub fn new(recording: RecordingPreferences) -> (r: Self)
        ensures
            !r.loaded,
            r.recording == recording,
            r.transcript.provider@ == ""@ && r.transcript.model@ == ""@,
            chosen_summary(None, r.summary),
            r.whisper_models@.len() == 0,
            r.mic_devices@.len() == 0,
            r.system_devices@.len() == 0,
            r.download_progress@ == Map::<Seq<char>, u8>::empty(),
            r.download_error is None,
            r.api_key_present@ == Map::<Seq<char>, bool>::empty(),
            r.custom_openai is None,
            r.templates@.len() == 0,
            r.default_template_id@ == ""@,
            r.ui_config@ == "null"@ && json_object(r.ui_config@) is None,
            !r.features.live_action_items,
            r.notifications.is_default(),
            r.calendar_sources@.len() == 0,
            r.calendar_busy@ == Map::<Seq<char>, bool>::empty(),
            r.mcp_info is None,
            r.theme_pref@ == ""@,
            r.provider_models@ == Map::<Seq<char>, Vec<String>>::empty(),
            r.provider_models_loading@ == Map::<Seq<char>, bool>::empty(),
            r.provider_models_error@ == Map::<Seq<char>, String>::empty(),
            r.ollama_installed@.len() == 0,
            !r.ollama_installed_loading,
            r.ollama_pull_progress@ == Map::<Seq<char>, u8>::empty(),
            r.ollama_error is None,
            r.builtin_models@.len() == 0,
            r.builtin_download_progress@ == Map::<Seq<char>, u8>::empty(),
    {
        SettingsCache {
            loaded: false,
            recording,
            transcript: TranscriptConfig { provider: "".to_owned(), model: "".to_owned() },
            summary: SummaryConfig {
                provider: "".to_owned(),
                model: "".to_owned(),
                ollama_endpoint: "".to_owned(),
            },
            whisper_models: Vec::new(),
            mic_devices: Vec::new(),
            system_devices: Vec::new(),
            download_progress: TextMap::new(),
            download_error: None,
            api_key_present: TextMap::new(),
            custom_openai: None,
            templates: Vec::new(),
            default_template_id: "".to_owned(),
            ui_config: Blob::null(),
            features: FeatureToggles { live_action_items: false },
            notifications: NotificationSettings::default(),
            calendar_sources: Vec::new(),
            calendar_busy: TextMap::new(),
            mcp_info: None,
            theme_pref: "".to_owned(),
            provider_models: TextMap::new(),
            provider_models_loading: TextMap::new(),
            provider_models_error: TextMap::new(),
            ollama_installed: Vec::new(),
            ollama_installed_loading: false,
            ollama_pull_progress: TextMap::new(),
            ollama_error: None,
            builtin_models: Vec::new(),
            builtin_download_progress: TextMap::new(),
        }
    }

    /// Whether these are the settings that were stored and found. What was not
    /// stored, or could not be read, has its default.
    pub open spec fn holds(
        &self,
        stored: Option<StoredSettings>,
        found: FoundSettings,
        default_model: Seq<char>,
    ) -> bool {
        &&& self.loaded
        &&& self.recording == found.recording
        &&& chosen_transcript(stored, default_model, self.transcript)
        &&& chosen_summary(stored, self.summary)
        &&& self.whisper_models@ == match found.whisper_models {
            Some(m) => m@,
            None => seq![],
        }
        &&& self.mic_devices@ == match found.devices {
            Some(d) => of_kind(d@, DeviceKind::Microphone),
            None => seq![],
        }
        &&& self.system_devices@ == match found.devices {
            Some(d) => of_kind(d@, DeviceKind::System),
            None => seq![],
        }
        &&& self.api_key_present@ == keys_present(stored)
        &&& self.custom_openai == match stored {
            Some(s) => s.custom_openai,
            None => None,
        }
        &&& self.templates == found.templates
        &&& self.default_template_id@ == template_choice(stored, found.templates@)
        &&& is_stored_json(self.ui_config, stored)
        &&& match stored {
            Some(s) if s.features is Some => self.features == s.features->Some_0,
            _ => !self.features.live_action_items,
        }
        &&& match stored {
            Some(s) if s.notifications is Some => self.notifications == s.notifications->Some_0,
            _ => self.notifications.is_default(),
        }
        &&& self.calendar_sources@ == match stored {
            Some(s) if s.calendar_sources is Some => s.calendar_sources->Some_0@,
            _ => seq![],
        }
        &&& self.mcp_info == found.mcp_info
        &&& self.theme_pref@ == match stored {
            Some(s) if s.theme is Some => s.theme->Some_0@,
            _ => "system"@,
        }
    }

    /// Whether what is not stored is the same.
    pub open spec fn same_work(&self, other: &Self) -> bool {
        &&& self.download_progress == other.download_progress
        &&& self.download_error == other.download_error
        &&& self.calendar_busy == other.calendar_busy
        &&& self.provider_models == other.provider_models
        &&& self.provider_models_loading == other.provider_models_loading
        &&& self.provider_models_error == other.provider_models_error
        &&& self.ollama_installed == other.ollama_installed
        &&& self.ollama_installed_loading == other.ollama_installed_loading
        &&& self.ollama_pull_progress == other.ollama_pull_progress
        &&& self.ollama_error == other.ollama_error
        &&& self.builtin_models == other.builtin_models
        &&& self.builtin_download_progress == other.builtin_download_progress
    }

    /// Takes over everything that was stored and found. `stored` is none where
    /// there is no database.
    pub fn apply(
        &mut self,
        stored: Option<StoredSettings>,
        found: FoundSettings,
        default_model: &str,
    )
        ensures
            final(self).holds(stored, found, default_model@),
            final(self).same_work(old(self)),
    {
        let ghost all = stored;
        self.loaded = true;
        self.recording = found.recording;
        self.mic_devices = devices_of(&found.devices, DeviceKind::Microphone);
        self.system_devices = devices_of(&found.devices, DeviceKind::System);
        self.whisper_models = match found.whisper_models {
            Some(m) => m,
            None => Vec::new(),
        };
        self.api_key_present = present_keys(&stored);
        self.ui_config = stored_blob(&stored);
        self.transcript = TranscriptConfig {
            provider: LOCAL_WHISPER.to_owned(),
            model: default_model.to_owned(),
        };
        self.summary = SummaryConfig {
            provider: "".to_owned(),
            model: "".to_owned(),
            ollama_endpoint: "".to_owned(),
        };
        self.custom_openai = None;
        self.features = FeatureToggles { live_action_items: false };
        self.notifications = NotificationSettings::default();
        self.calendar_sources = Vec::new();
        self.theme_pref = "system".to_owned();
        let mut template = String::new();
        if let Some(s) = stored {
            if let Some(t) = s.transcript {
                self.transcript = t;
            }
            if let Some((provider, model, endpoint)) = s.summary {
                let ollama_endpoint = match endpoint {
                    Some(e) => e,
                    None => "".to_owned(),
                };
                self.summary = SummaryConfig { provider, model, ollama_endpoint };
            }
            self.custom_openai = s.custom_openai;
            if let Some(t) = s.default_template {
                template = t;
            }
            if let Some(f) = s.features {
                self.features = f;
            }
            if let Some(n) = s.notifications {
                self.notifications = n;
            }
            if let Some(c) = s.calendar_sources {
                self.calendar_sources = c;
            }
            if let Some(t) = s.theme {
                self.theme_pref = t;
            }
        }
        if template.as_str().is_empty() {
            template = if found.templates.len() > 0 {
                found.templates[0].0.clone()
            } else {
                "".to_owned()
            };
        }
        self.default_template_id = template;
        self.templates = found.templates;
        self.mcp_info = found.mcp_info;
        proof {
            reveal_strlit("");
            if found.whisper_models is None {
                assert(self.whisper_models@ =~= seq![]);
            }
            assert(self.calendar_sources@ =~= match all {
                Some(s) if s.calendar_sources is Some => s.calendar_sources->Some_0@,
                _ => seq![],
            });
        }
    }

    /// The text in a member of the settings whose shape is not known here;
    /// nothing where there is none.
    pub fn ui_str(&self, key: &str) -> (r: String)
        ensures
            r@ == match string_at(self.ui_config@, key@) {
                Some(s) => s,
                None => ""@,
            },
    {
        match self.ui_config.text(key) {
            Some(s) => s,
            None => "".to_owned(),
        }
    }

    /// The truth value in a member of those settings; `default` where there is
    /// none.
    pub fn ui_bool(&self, key: &str, default: bool) -> (r: bool)
        ensures
            r == match flag_at(self.ui_config@, key@) {
                Some(b) => b,
                None => default,
            },
    {
        match self.ui_config.flag(key) {
            Some(b) => b,
            None => default,
        }
    }

    /// Sets a member of those settings; every other member is kept.
    pub fn save_ui_field(&mut self, key: &str, value: serde_json::Value)
        ensures
            json_object(final(self).ui_config@) == Some(
                members_of(old(self).ui_config@).insert(key@, json_text(value)),
            ),
            *final(self) == (SettingsCache { ui_config: final(self).ui_config, ..*old(self) }),
    {
        self.ui_config.set(key, value);
    }

    /// Notes whether a key is stored for a provider. Whether the key is to be
    /// stored, rather than deleted.
    pub fn save_api_key(&mut self, provider: &str, api_key: &str) -> (r: bool)
        ensures
            r == (api_key@.len() > 0),
            final(self).api_key_present@ == old(self).api_key_present@.insert(
                provider@,
                api_key@.len() > 0,
            ),
            *final(self) == (SettingsCache {
                api_key_present: final(self).api_key_present,
                ..*old(self)
            }),
    {
        let kept = !api_key.is_empty();
        self.api_key_present.insert(provider, kept);
        kept
    }

    /// Takes over the settings of an endpoint of the user's own.
    pub fn save_custom_openai(&mut self, config: CustomOpenAIConfig)
        ensures
            final(self).custom_openai == Some(config),
            final(self).api_key_present@ == old(self).api_key_present@.insert(
                CUSTOM_OPENAI@,
                is_key(config.api_key),
            ),
            *final(self) == (SettingsCache {
                api_key_present: final(self).api_key_present,
                custom_openai: final(self).custom_openai,
                ..*old(self)
            }),
    {
        let kept = has_key(&config.api_key);
        self.custom_openai = Some(config);
        self.api_key_present.insert(CUSTOM_OPENAI, kept);
    }

    /// Chooses a speech model of this machine.
    pub fn choose_whisper_model(&mut self, model: &str)
        ensures
            final(self).transcript.provider@ == LOCAL_WHISPER@,
            final(self).transcript.model@ == model@,
            *final(self) == (SettingsCache { transcript: final(self).transcript, ..*old(self) }),
    {
        self.transcript = TranscriptConfig {
            provider: LOCAL_WHISPER.to_owned(),
            model: model.to_owned(),
        };
    }

    /// Chooses the template that a new summary starts with.
    pub fn save_default_template(&mut self, template_id: String)
        ensures
            *final(self) == (SettingsCache { default_template_id: template_id, ..*old(self) }),
    {
        self.default_template_id = template_id;
    }

    /// Takes over the feature switches.
    pub fn save_features(&mut self, features: FeatureToggles)
        ensures
            *final(self) == (SettingsCache { features, ..*old(self) }),
    {
        self.features = features;
    }

    /// Takes over the notification settings.
    pub fn save_notifications(&mut self, settings: NotificationSettings)
        ensures
            *final(self) == (SettingsCache { notifications: settings, ..*old(self) }),
    {
        self.notifications = settings;
    }

    /// Takes over how recordings are made.
    pub fn save_recording(&mut self, preferences: RecordingPreferences)
        ensures
            *final(self) == (SettingsCache { recording: preferences, ..*old(self) }),
    {
        self.recording = preferences;
    }

    /// Chooses the theme.
    pub fn save_theme_pref(&mut self, mode: String)
        ensures
            *final(self) == (SettingsCache { theme_pref: mode, ..*old(self) }),
    {
        self.theme_pref = mode;
    }

    /// The endpoint of the Ollama server; none where it is the usual one.
    pub open spec fn endpoint(&self) -> Option<Seq<char>> {
        if self.summary.ollama_endpoint@.len() == 0 {
            None
        } else {
            Some(self.summary.ollama_endpoint@)
        }
    }

    /// The endpoint of the Ollama server; none where it is the usual one.
    pub fn ollama_endpoint(&self) -> (r: Option<String>)
        ensures
            opt_text(r) == self.endpoint(),
    {
        if self.summary.ollama_endpoint.as_str().is_empty() {
            None
        } else {
            Some(self.summary.ollama_endpoint.clone())
        }
    }

    // -- Downloads of speech models ---------------------------------------------

    /// Starts downloading a speech model.
    pub fn start_download(&mut self, model: &str)
        ensures
            final(self).download_progress@ == old(self).download_progress@.insert(model@, 0),
            *final(self) == (SettingsCache {
                download_progress: final(self).download_progress,
                download_error: None,
                ..*old(self)
            }),
    {
        self.download_progress.insert(model, 0);
        self.download_error = None;
    }

    /// Stops downloading a speech model.
    pub fn cancel_download(&mut self, model: &str)
        ensures
            final(self).download_progress@ == old(self).download_progress@.remove(model@),
            *final(self) == (SettingsCache {
                download_progress: final(self).download_progress,
                ..*old(self)
            }),
    {
        self.download_progress.remove(model);
    }

    // -- Models of a provider -----------------------------------------------------

    /// Starts listing a provider's models.
    pub fn begin_fetch_models(&mut self, provider: &str)
        ensures
            final(self).provider_models_loading@ == old(self).provider_models_loading@.insert(
                provider@,
                true,
            ),
            final(self).provider_models_error@ == old(self).provider_models_error@.remove(
                provider@,
            ),
            *final(self) == (SettingsCache {
                provider_models_loading: final(self).provider_models_loading,
                provider_models_error: final(self).provider_models_error,
                ..*old(self)
            }),
    {
        self.provider_models_loading.insert(provider, true);
        self.provider_models_error.remove(provider);
    }

    /// Takes over a provider's models, or why they could not be listed; the
    /// models listed before are kept then.
    pub fn finish_fetch_models(&mut self, provider: &str, result: Result<Vec<String>, String>)
        ensures
            final(self).provider_models_loading@ == old(self).provider_models_loading@.insert(
                provider@,
                false,
            ),
            match result {
                Ok(models) => final(self).provider_models@ == old(self).provider_models@.insert(
                    provider@,
                    models,
                ) && final(self).provider_models_error@
                    == old(self).provider_models_error@.remove(provider@),
                Err(e) => final(self).provider_models == old(self).provider_models && final(
                    self).provider_models_error@ == old(self).provider_models_error@.insert(
                    provider@,
                    e,
                ),
            },
            *final(self) == (SettingsCache {
                provider_models: final(self).provider_models,
                provider_models_loading: final(self).provider_models_loading,
                provider_models_error: final(self).provider_models_error,
                ..*old(self)
            }),
    {
        self.provider_models_loading.insert(provider, false);
        match result {
            Ok(models) => {
                self.provider_models.insert(provider, models);
                self.provider_models_error.remove(provider);
            },
            Err(e) => {
                self.provider_models_error.insert(provider, e);
            },
        }
    }

    // -- The Ollama server --------------------------------------------------------

    /// Starts listing what the Ollama server has.
    pub fn begin_refresh_ollama(&mut self)
        ensures
            *final(self) == (SettingsCache { ollama_installed_loading: true, ..*old(self) }),
    {
        self.ollama_installed_loading = true;
    }

    /// Takes over what the Ollama server has; nothing where it failed.
    pub fn finish_refresh_ollama(&mut self, result: Result<Vec<OllamaModel>, String>)
        ensures
            match result {
                Ok(models) => *final(self) == (SettingsCache {
                    ollama_installed_loading: false,
                    ollama_installed: models,
                    ollama_error: None,
                    ..*old(self)
                }),
                Err(e) => final(self).ollama_installed@.len() == 0 && *final(self) == (
                SettingsCache {
                    ollama_installed_loading: false,
                    ollama_installed: final(self).ollama_installed,
                    ollama_error: Some(e),
                    ..*old(self)
                }),
            },
    {
        self.ollama_installed_loading = false;
        match result {
            Ok(models) => {
                self.ollama_installed = models;
                self.ollama_error = None;
            },
            Err(e) => {
                self.ollama_installed = Vec::new();
                self.ollama_error = Some(e);
            },
        }
    }

    /// Takes note that listing what the Ollama server has did not come to an end;
    /// what was listed before is kept.
    pub fn crash_refresh_ollama(&mut self)
        ensures
            opt_text(final(self).ollama_error) == Some("model list refresh task panicked"@),
            *final(self) == (SettingsCache {
                ollama_installed_loading: false,
                ollama_error: final(self).ollama_error,
                ..*old(self)
            }),
    {
        self.ollama_installed_loading = false;
        self.ollama_error = Some("model list refresh task panicked".to_owned());
    }

    /// Starts downloading a model to the Ollama server.
    pub fn begin_pull(&mut self, model: &str)
        ensures
            final(self).ollama_pull_progress@ == old(self).ollama_pull_progress@.insert(model@, 0),
            *final(self) == (SettingsCache {
                ollama_pull_progress: final(self).ollama_pull_progress,
                ollama_error: None,
                ..*old(self)
            }),
    {
        self.ollama_pull_progress.insert(model, 0);
        self.ollama_error = None;
    }

    // -- Built-in models ------------------------------------------------------------

    /// Starts downloading a built-in model.
    pub fn begin_builtin_download(&mut self, model: &str)
        ensures
            final(self).builtin_download_progress@ == old(self).builtin_download_progress@.insert(
                model@,
                0,
            ),
            *final(self) == (SettingsCache {
                builtin_download_progress: final(self).builtin_download_progress,
                ..*old(self)
            }),
    {
        self.builtin_download_progress.insert(model, 0);
    }

    /// Stops downloading a built-in model.
    pub fn cancel_builtin_download(&mut self, model: &str)
        ensures
            final(self).builtin_download_progress@ == old(self).builtin_download_progress@.remove(
                model@,
            ),
            *final(self) == (SettingsCache {
                builtin_download_progress: final(self).builtin_download_progress,
                ..*old(self)
            }),
    {
        self.builtin_download_progress.remove(model);
    }

    // -- Calendars --------------------------------------------------------------------

    /// Starts reading a calendar.
    pub fn begin_calendar_refresh(&mut self, source_id: &str)
        ensures
            final(self).calendar_busy@ == old(self).calendar_busy@.insert(source_id@, true),
            *final(self) == (SettingsCache { calendar_busy: final(self).calendar_busy, ..*old(self) }),
    {
        self.calendar_busy.insert(source_id, true);
    }

    /// Takes over the calendars after one was read.
    pub fn finish_calendar_refresh(&mut self, source_id: &str, sources: Vec<CalendarSourceRow>)
        ensures
            final(self).calendar_busy@ == old(self).calendar_busy@.insert(source_id@, false),
            *final(self) == (SettingsCache {
                calendar_sources: sources,
                calendar_busy: final(self).calendar_busy,
                ..*old(self)
            }),
    {
        self.calendar_sources = sources;
        self.calendar_busy.insert(source_id, false);
    }
}

} // verus!
