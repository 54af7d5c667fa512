use parley::json::{Blob, Scalar};
use parley::recording::devices::{Device, DeviceKind};
use parley::settings::cache::{
    BuiltinModel, BuiltinStatus, CalendarSourceRow, CustomOpenAIConfig, FoundSettings, OllamaModel,
    RecordingPreferences, SettingsCache, StoredSettings,
};
use parley::settings::config::{FeatureToggles, NotificationSettings, TranscriptConfig};
use parley::settings::integrations::{claude_code_snippet, json_snippet, mcp_card, McpServerInfo};
use parley::settings::models::{
    fallback_for_provider, filter_models, format_size_mb, key_fields, merge_with_fallback, provider_options,
    ProviderModels, GROQ_FALLBACK_MODELS, OPENAI_FALLBACK_MODELS,
};
use parley::settings::pages::{
    builtin_row, cloud_picker, device_choices, follows_system, is_on, issues_url, key_texts, model_field, new_source,
    model_source, ollama_list, ollama_row, set_custom_openai, set_summary, shown_provider, source_row, stored_theme, theme_choice,
    turn, typed_model, whisper_row, BuiltinAction, EndpointChange, ModelField, ModelSource, OllamaList, SummaryChange, Switch,
    ThemeChoice,
};
use parley::whisper::models::{ModelInfo, ModelStatus};
use serde_json::Value;

fn recording() -> RecordingPreferences {
    RecordingPreferences {
        save_folder: "/rec".to_string(),
        auto_save: true,
        preferred_mic_device: None,
        preferred_system_device: None,
    }
}

fn cache() -> SettingsCache {
    SettingsCache::new(recording())
}

fn object(members: Vec<(&str, Value)>) -> Blob {
    let mut map = serde_json::Map::new();
    for (key, value) in members {
        map.insert(key.to_string(), value);
    }
    Blob { value: Value::Object(map) }
}

fn stored() -> StoredSettings {
    StoredSettings {
        transcript: None,
        summary: None,
        api_keys: vec![("openai".to_string(), Some("k".to_string())), ("groq".to_string(), Some("".to_string()))],
        custom_openai: None,
        default_template: None,
        ui_config: None,
        features: None,
        notifications: None,
        calendar_sources: None,
        theme: None,
    }
}

fn found() -> FoundSettings {
    FoundSettings {
        recording: recording(),
        whisper_models: None,
        devices: Some(vec![
            Device { id: "a".to_string(), label: "A".to_string(), kind: DeviceKind::Microphone },
            Device { id: "b".to_string(), label: "B".to_string(), kind: DeviceKind::System },
        ]),
        templates: vec![("first".to_string(), "First".to_string(), "".to_string())],
        mcp_info: None,
    }
}

fn whisper(name: &str, status: ModelStatus) -> ModelInfo {
    ModelInfo {
        name: name.to_string(),
        path: "".to_string(),
        size_mb: 75,
        accuracy: "Good".to_string(),
        speed: "".to_string(),
        status,
        description: "".to_string(),
    }
}

#[test]
fn ui_str_reads_a_present_string_field() {
    let mut cache = cache();
    cache.ui_config = object(vec![("primaryLanguage", Value::String("fr".to_string()))]);
    assert_eq!(cache.ui_str("primaryLanguage"), "fr");
}

#[test]
fn ui_str_defaults_to_empty_when_missing() {
    let cache = cache();
    assert_eq!(cache.ui_str("primaryLanguage"), "");
}

#[test]
fn ui_bool_reads_a_present_bool_field() {
    let mut cache = cache();
    cache.ui_config = object(vec![("isAutoSummary", Value::Bool(true))]);
    assert!(cache.ui_bool("isAutoSummary", false));
}

#[test]
fn ui_bool_falls_back_to_the_given_default_when_missing() {
    let cache = cache();
    assert!(!cache.ui_bool("isAutoSummary", false));
    assert!(cache.ui_bool("isAutoSummary", true));
}

#[test]
fn ui_config_fields_other_than_the_one_written_are_preserved() {
    let mut inner = serde_json::Map::new();
    inner.insert("openai".to_string(), Value::String("gpt-4o".to_string()));
    let mut cache = cache();
    cache.ui_config = object(vec![("providerModelMap", Value::Object(inner))]);
    cache.save_ui_field("primaryLanguage", Value::String("en".to_string()));
    assert_eq!(cache.ui_str("primaryLanguage"), "en");
    assert_eq!(
        cache.ui_config.value.get("providerModelMap").and_then(|v| v.get("openai")),
        Some(&Value::String("gpt-4o".to_string()))
    );
}

#[test]
fn members_are_read_as_what_they_are() {
    let mut cache = cache();
    cache.save_ui_field("isAutoSummary", Scalar::Flag(true).to_json());
    assert!(cache.ui_bool("isAutoSummary", false));
    assert_eq!(cache.ui_str("isAutoSummary"), "");
    cache.save_ui_field("isAutoSummary", Scalar::Text("true".to_string()).to_json());
    assert!(!cache.ui_bool("isAutoSummary", false));
    assert_eq!(cache.ui_str("isAutoSummary"), "true");
}

#[test]
fn notification_settings_default_matches_the_tauri_shell() {
    let defaults = NotificationSettings::default();
    assert!(defaults.recording_notifications);
    assert!(defaults.time_based_reminders);
    assert!(defaults.meeting_reminders);
    assert!(defaults.respect_do_not_disturb);
    assert!(defaults.notification_sound);
    assert!(!defaults.system_permission_granted);
    assert!(!defaults.consent_given);
    assert!(!defaults.manual_dnd_mode);
    assert!(!defaults.notification_preferences.show_recording_started);
    assert!(!defaults.notification_preferences.show_recording_stopped);
    assert!(defaults.notification_preferences.show_recording_paused);
    assert!(defaults.notification_preferences.show_recording_resumed);
    assert!(defaults.notification_preferences.show_transcription_complete);
    assert!(defaults.notification_preferences.show_meeting_reminders);
    assert!(defaults.notification_preferences.show_system_errors);
    assert_eq!(defaults.notification_preferences.meeting_reminder_minutes, vec![15, 5]);
}

#[test]
fn feature_toggles_default_to_off() {
    let defaults = FeatureToggles::default();
    assert!(!defaults.live_action_items);
}

#[test]
fn claude_code_snippet_omits_db_flag_for_the_default_path() {
    let snippet = claude_code_snippet("client", "/bin/parley-mcp", "/data/meeting_minutes.sqlite", true);
    assert_eq!(snippet, "client mcp add parley -- /bin/parley-mcp");
}

#[test]
fn claude_code_snippet_includes_db_flag_for_a_non_default_path() {
    let snippet = claude_code_snippet("client", "/bin/parley-mcp", "/custom/db.sqlite", false);
    assert_eq!(snippet, "client mcp add parley -- /bin/parley-mcp --db /custom/db.sqlite");
}

#[test]
fn json_snippet_omits_args_for_the_default_path() {
    let snippet = json_snippet("/bin/parley-mcp", "/data/meeting_minutes.sqlite", true);
    assert!(snippet.contains("\"command\": \"/bin/parley-mcp\""));
    assert!(!snippet.contains("args"));
}

#[test]
fn json_snippet_includes_args_for_a_non_default_path() {
    let snippet = json_snippet("/bin/parley-mcp", "/custom/db.sqlite", false);
    assert!(snippet.contains("\"args\": [\"--db\", \"/custom/db.sqlite\"]"));
}

#[test]
fn snippets_are_json() {
    for default in [true, false] {
        let value: Value = serde_json::from_str(&json_snippet("/bin/p", "/d", default)).unwrap();
        assert_eq!(value["mcpServers"]["parley"]["command"], Value::String("/bin/p".to_string()));
    }
    let mut info = McpServerInfo {
        binary_path: None,
        binary_found: false,
        db_path: "/d".to_string(),
        db_exists: false,
        db_is_default: false,
    };
    let card = mcp_card("client", &info);
    assert_eq!(card.db_line, "Database: /d (not created yet)");
    assert_eq!(card.binary_line, "Binary not found — build parley-mcp or set $PARLEY_MCP_BIN");
    assert_eq!(card.command, "client mcp add parley -- /absolute/path/to/parley-mcp --db /d");
    info.binary_path = Some("/bin/p".to_string());
    info.binary_found = true;
    info.db_is_default = true;
    info.db_exists = true;
    let card = mcp_card("client", &info);
    assert_eq!(card.db_line, "Database: default location (no --db flag needed)");
    assert_eq!(card.binary_line, "Binary found: /bin/p");
    assert!(card.can_show);
}

#[test]
fn merge_with_fallback_prefers_a_nonempty_fetch() {
    let fetched = vec!["gpt-5".to_string(), "gpt-5-mini".to_string()];
    assert_eq!(merge_with_fallback("openai", &fetched, &Vec::new()), fetched);
}

#[test]
fn merge_with_fallback_falls_back_when_fetch_is_empty() {
    let result = merge_with_fallback("openai", &Vec::new(), &Vec::new());
    assert_eq!(result, OPENAI_FALLBACK_MODELS.to_vec());
}

#[test]
fn merge_with_fallback_is_empty_for_providers_without_a_fallback_list() {
    assert!(merge_with_fallback("ollama", &Vec::new(), &Vec::new()).is_empty());
    assert!(merge_with_fallback("openrouter", &Vec::new(), &Vec::new()).is_empty());
}

#[test]
fn further_providers_bring_their_models() {
    let more = vec![ProviderModels { provider: "other".to_string(), label: "Other".to_string(), models: vec!["m1".to_string()] }];
    assert_eq!(fallback_for_provider("other", &more), Some(vec!["m1".to_string()]));
    assert_eq!(fallback_for_provider("none", &more), None);
    assert_eq!(merge_with_fallback("groq", &Vec::new(), &more), GROQ_FALLBACK_MODELS.to_vec());
}

#[test]
fn filter_models_is_case_insensitive_substring_match() {
    let models = vec!["Llama3:8b".to_string(), "gemma3:1b".to_string()];
    let matches = filter_models(&models, "LLAMA");
    assert_eq!(matches, vec![&models[0]]);
}

#[test]
fn filter_models_returns_everything_for_a_blank_query() {
    let models = vec!["a".to_string(), "b".to_string()];
    assert_eq!(filter_models(&models, "   ").len(), 2);
}

#[test]
fn format_size_mb_switches_units_at_one_gigabyte() {
    assert_eq!(format_size_mb(512), "512 MB");
    assert_eq!(format_size_mb(1024), "1.0 GB");
    assert_eq!(format_size_mb(2560), "2.5 GB");
}

#[test]
fn sizes_round_as_numbers_are_printed() {
    for mb in [1023u64, 1075, 1076, 1280, 1331, 4096, 999_999, u64::MAX] {
        let expected =
            if mb >= 1024 { format!("{:.1} GB", mb as f64 / 1024.0) } else { format!("{mb} MB") };
        assert_eq!(format_size_mb(mb), expected);
    }
}

#[test]
fn settings_that_are_not_stored_have_defaults() {
    let mut cache = cache();
    cache.apply(None, found(), "large");
    assert!(cache.loaded);
    assert_eq!((cache.transcript.provider.as_str(), cache.transcript.model.as_str()), ("localWhisper", "large"));
    assert_eq!(cache.summary.provider, "");
    assert_eq!(cache.mic_devices.len(), 1);
    assert_eq!(cache.system_devices[0].id, "b");
    assert!(!cache.api_key_present.contains_key("openai"));
    assert_eq!(cache.default_template_id, "first");
    assert_eq!(cache.theme_pref, "system");
    assert!(cache.whisper_models.is_empty());
}

#[test]
fn stored_settings_are_taken_over() {
    let mut s = stored();
    s.transcript = Some(TranscriptConfig { provider: "cloud".to_string(), model: "m".to_string() });
    s.summary = Some(("ollama".to_string(), "g".to_string(), None));
    s.custom_openai = Some(CustomOpenAIConfig {
        endpoint: "e".to_string(),
        api_key: Some("k".to_string()),
        model: "m".to_string(),
        max_tokens: None,
        temperature: None,
        top_p: None,
    });
    s.default_template = Some("retro".to_string());
    s.ui_config = Some("{\"primaryLanguage\":\"de\"}".to_string());
    s.features = Some(FeatureToggles { live_action_items: true });
    s.theme = Some("dark".to_string());
    let mut cache = cache();
    cache.apply(Some(s), found(), "large");
    assert_eq!(cache.transcript.provider, "cloud");
    assert_eq!(cache.summary.ollama_endpoint, "");
    assert_eq!(cache.ollama_endpoint(), None);
    assert_eq!(cache.api_key_present.get("openai"), Some(&true));
    assert_eq!(cache.api_key_present.get("groq"), Some(&false));
    assert_eq!(cache.api_key_present.get("custom-openai"), Some(&true));
    assert_eq!(cache.default_template_id, "retro");
    assert_eq!(cache.ui_str("primaryLanguage"), "de");
    assert!(cache.features.live_action_items);
    assert_eq!(cache.theme_pref, "dark");
}

#[test]
fn settings_that_cannot_be_read_count_as_none() {
    let mut s = stored();
    s.ui_config = Some("broken".to_string());
    s.default_template = Some("".to_string());
    let mut cache = cache();
    cache.apply(Some(s), found(), "large");
    assert_eq!(cache.ui_str("primaryLanguage"), "");
    assert_eq!(cache.default_template_id, "first");
}

#[test]
fn keys_are_shown_as_set_or_not() {
    let mut cache = cache();
    assert_eq!(key_texts(&cache, "openai").1, "Not set");
    assert!(cache.save_api_key("openai", "k"));
    assert_eq!(key_texts(&cache, "openai").1, "Configured");
    assert!(!cache.save_api_key("openai", ""));
    assert_eq!(key_texts(&cache, "openai"), ("Not set", "Not set"));
    set_custom_openai(&mut cache, EndpointChange::ApiKey("k".to_string()));
    set_custom_openai(&mut cache, EndpointChange::Endpoint("http://x".to_string()));
    set_custom_openai(&mut cache, EndpointChange::Model("m".to_string()));
    let config = cache.custom_openai.as_ref().unwrap();
    assert_eq!((config.endpoint.as_str(), config.model.as_str()), ("http://x", "m"));
    assert_eq!(config.api_key.as_deref(), Some("k"));
    assert_eq!(key_texts(&cache, "custom-openai").1, "Configured");
    set_custom_openai(&mut cache, EndpointChange::ApiKey("".to_string()));
    assert_eq!(cache.custom_openai.as_ref().unwrap().api_key, None);
}

#[test]
fn providers_choose_their_fields() {
    assert_eq!(model_field(""), ModelField::BuiltinList);
    assert_eq!(model_field("ollama"), ModelField::Ollama);
    assert_eq!(model_field("openai"), ModelField::Cloud);
    assert_eq!(model_field("custom-openai"), ModelField::CustomEndpoint);
    assert_eq!(shown_provider(""), "builtin-ai");
    assert_eq!(model_source("ollama", &Vec::new()), ModelSource::Ollama);
    assert_eq!(model_source("openrouter", &Vec::new()), ModelSource::OpenRouter);
    assert_eq!(model_source("groq", &Vec::new()), ModelSource::WithKey);
    assert_eq!(model_source("builtin-ai", &Vec::new()), ModelSource::Nowhere);
    let mut cache = cache();
    cache.choose_whisper_model("tiny");
    let record = set_summary(&mut cache, SummaryChange::Provider("ollama".to_string()));
    assert_eq!((record.provider.as_str(), record.whisper_model.as_str()), ("ollama", "tiny"));
    assert_eq!(record.ollama_endpoint, None);
    let record = set_summary(&mut cache, SummaryChange::Endpoint("http://h".to_string()));
    assert_eq!(record.ollama_endpoint.as_deref(), Some("http://h"));
    assert_eq!(set_summary(&mut cache, SummaryChange::Model("g".to_string())).model, "g");
}

#[test]
fn listed_models_replace_the_known_ones() {
    let mut cache = cache();
    cache.begin_fetch_models("openai");
    assert!(cloud_picker(&cache, "openai", &Vec::new()).loading);
    cache.finish_fetch_models("openai", Err("offline".to_string()));
    let picker = cloud_picker(&cache, "openai", &Vec::new());
    assert_eq!(picker.options.len(), 9);
    assert_eq!(
        picker.error.as_deref(),
        Some("Couldn't fetch live models — showing a fallback list (offline).")
    );
    cache.finish_fetch_models("openai", Ok(vec!["new".to_string()]));
    let picker = cloud_picker(&cache, "openai", &Vec::new());
    assert_eq!((picker.options, picker.loading, picker.error), (vec!["new".to_string()], false, None));
}

#[test]
fn speech_models_are_shown_with_their_buttons() {
    let mut cache = cache();
    let missing = whisper("tiny", ModelStatus::Missing);
    let row = whisper_row(&cache, &missing);
    assert_eq!(row.detail, "Good · 75 MB · Missing");
    assert!(row.can_download && !row.can_delete && !row.can_cancel);
    cache.start_download("tiny");
    let row = whisper_row(&cache, &missing);
    assert_eq!(row.detail, "Good · 75 MB · Downloading… 0%");
    assert!(row.can_cancel && !row.can_download);
    cache.cancel_download("tiny");
    cache.whisper_models = vec![whisper("tiny", ModelStatus::Corrupted { file_size: 1, expected_min_size: 2 })];
    let row = whisper_row(&cache, &missing);
    assert_eq!((row.download_label, row.can_delete), ("Re-download", true));
}

#[test]
fn ollama_models_are_listed_and_searched() {
    let mut cache = cache();
    cache.begin_refresh_ollama();
    assert_eq!(ollama_list(&cache, ""), OllamaList::Note("Loading installed models…"));
    cache.finish_refresh_ollama(Err("refused".to_string()));
    assert_eq!(ollama_list(&cache, ""), OllamaList::Note("No models installed yet."));
    let gemma = OllamaModel { name: "gemma3:1b".to_string(), size: "800 MB".to_string() };
    let llama = OllamaModel { name: "llama3".to_string(), size: "4 GB".to_string() };
    cache.finish_refresh_ollama(Ok(vec![gemma.clone(), llama.clone()]));
    assert_eq!(ollama_list(&cache, " LLAMA "), OllamaList::Rows(vec![1]));
    cache.crash_refresh_ollama();
    assert_eq!(cache.ollama_error.as_deref(), Some("model list refresh task panicked"));
    assert_eq!(cache.ollama_installed.len(), 2);
    assert_eq!(ollama_list(&cache, ""), OllamaList::Rows(vec![0, 1]));
    assert_eq!(ollama_list(&cache, "zzz"), OllamaList::Note("No installed models match your search."));
    assert_eq!(ollama_row(&cache, &gemma), ("800 MB".to_string(), true));
    cache.begin_pull("gemma3:1b");
    assert_eq!(ollama_row(&cache, &gemma), ("800 MB · downloading… 0%".to_string(), false));
    set_summary(&mut cache, SummaryChange::Model("llama3".to_string()));
    assert_eq!(ollama_row(&cache, &llama).0, "4 GB · selected");
    assert_eq!(typed_model("  x "), Some("x".to_string()));
    assert_eq!(typed_model("  "), None);
}

#[test]
fn builtin_models_are_shown_with_their_buttons() {
    let mut cache = cache();
    let mut model = BuiltinModel {
        name: "g".to_string(),
        display_name: "G".to_string(),
        size_mb: 2560,
        status: BuiltinStatus::Available,
    };
    assert_eq!(builtin_row(&cache, &model), ("2.5 GB · Ready".to_string(), BuiltinAction::Manage { can_select: true }));
    model.status = BuiltinStatus::Corrupted;
    assert_eq!(builtin_row(&cache, &model).1, BuiltinAction::DownloadAgain);
    model.status = BuiltinStatus::NotDownloaded;
    cache.begin_builtin_download("g");
    assert_eq!(builtin_row(&cache, &model), ("2.5 GB · Downloading… 0%".to_string(), BuiltinAction::Cancel));
    cache.cancel_builtin_download("g");
    assert_eq!(builtin_row(&cache, &model).1, BuiltinAction::Download);
    model.status = BuiltinStatus::Error("x".to_string());
    assert_eq!(builtin_row(&cache, &model).0, "2.5 GB · Error: x");
}

#[test]
fn calendars_are_added_and_read() {
    assert_eq!(new_source("  ", "x"), None);
    assert_eq!(new_source("http://c", " "), Some(("http://c".to_string(), None)));
    let mut cache = cache();
    let mut source = CalendarSourceRow {
        id: "1".to_string(),
        url: "http://c".to_string(),
        label: None,
        last_fetched_at: None,
        last_error: None,
    };
    assert_eq!(source_row(&cache, &source), ("http://c".to_string(), "Never synced".to_string(), true));
    cache.begin_calendar_refresh("1");
    assert!(!source_row(&cache, &source).2);
    source.last_fetched_at = Some("now".to_string());
    source.label = Some("Work".to_string());
    cache.finish_calendar_refresh("1", vec![source.clone()]);
    assert_eq!(source_row(&cache, &source), ("Work".to_string(), "Last synced now".to_string(), true));
    source.last_error = Some("x".to_string());
    assert_eq!(source_row(&cache, &source).1, "Error: x");
}

#[test]
fn switches_turn_one_thing() {
    let mut settings = NotificationSettings::default();
    turn(&mut settings, Switch::ShowStarted, true);
    assert!(is_on(&settings, Switch::ShowStarted));
    assert!(!is_on(&settings, Switch::ShowStopped));
    turn(&mut settings, Switch::NotificationSound, false);
    assert!(!settings.notification_sound);
    assert_eq!(settings.notification_preferences.meeting_reminder_minutes, vec![15, 5]);
}

#[test]
fn themes_follow_the_system_unless_chosen() {
    assert_eq!(theme_choice("light"), ThemeChoice::Light);
    assert_eq!(theme_choice("dark"), ThemeChoice::Dark);
    assert_eq!(theme_choice("blue"), ThemeChoice::System);
    assert_eq!(stored_theme(&Some("".to_string())), "system");
    assert_eq!(stored_theme(&Some("dark".to_string())), "dark");
    assert!(follows_system(None) && follows_system(Some("system")) && !follows_system(Some("dark")));
    assert_eq!(issues_url(), "https://github.com/Hankanman/Parley/issues/new");
}

#[test]
fn devices_start_with_the_system_default() {
    let mut cache = cache();
    cache.apply(None, found(), "large");
    let mics = device_choices(&cache, true);
    assert_eq!((mics[0].label.as_str(), mics[1].label.as_str()), ("System default", "A"));
    assert_eq!(device_choices(&cache, false)[1].id, "b");
}

#[test]
fn chosen_settings_are_held() {
    let mut cache = cache();
    cache.save_default_template("retro".to_string());
    cache.save_features(FeatureToggles { live_action_items: true });
    cache.save_theme_pref("dark".to_string());
    let mut notifications = NotificationSettings::default();
    notifications.consent_given = true;
    cache.save_notifications(notifications);
    let mut prefs = recording();
    prefs.auto_save = false;
    cache.save_recording(prefs);
    assert_eq!((cache.default_template_id.as_str(), cache.theme_pref.as_str()), ("retro", "dark"));
    assert!(cache.features.live_action_items && cache.notifications.consent_given && !cache.recording.auto_save);
}

#[test]
fn providers_and_keys_are_listed_in_order() {
    let more = vec![ProviderModels { provider: "other".to_string(), label: "Other".to_string(), models: Vec::new() }];
    let options: Vec<String> =
        provider_options(&more).into_iter().map(|(id, label)| format!("{id}={label}")).collect();
    assert_eq!(
        options,
        vec![
            "builtin-ai=Built-in AI (local)",
            "ollama=Ollama",
            "openai=OpenAI",
            "other=Other",
            "groq=Groq",
            "openrouter=OpenRouter",
            "custom-openai=Custom OpenAI-compatible",
        ]
    );
    let keys: Vec<String> = key_fields(&more).into_iter().map(|(id, label)| format!("{id}={label}")).collect();
    assert_eq!(
        keys,
        vec!["openai=OpenAI API key", "other=Other API key", "groq=Groq API key", "openrouter=OpenRouter API key"]
    );
    assert_eq!(key_fields(&Vec::new()).len(), 3);
}
