//! Settings are loaded, changed one at a time, and offered for choice.
use vstd::prelude::*;
use crate::json::{json_object, json_string, json_text, member_at, Blob};
use crate::laws::cleaning::holds;
use crate::laws::sidebar::{lemma_all_kept, lemma_filter_same, lemma_infix_holds, lemma_kept};
use crate::numbers::{push_tenths, to_decimal, to_tenths};
use crate::recording::devices::{device_options, option_texts, Device, DeviceKind, DeviceOption};
use crate::settings::cache::{is_key, keys_of, BuiltinModel, CalendarSourceRow, CustomOpenAIConfig, FoundSettings, OllamaModel, SettingsCache, StoredSettings};
use crate::settings::config::{FeatureToggles, NotificationPreferences, NotificationSettings, SummaryConfig, TranscriptConfig};
use crate::settings::integrations::{claude_code_snippet, json_snippet, mcp_card, McpCard, McpServerInfo};
use crate::settings::models::{fallback_for_provider, filter_models, format_size_mb, key_fields, listed_models, merge_with_fallback, model_matches, pairs, pointed_at, provider_options, ProviderModels};
use crate::settings::pages::{builtin_row, cloud_picker, device_choices, follows_system, is_on, issues_url, key_texts, model_field, model_source, new_source, ollama_list, ollama_row, ollama_shown, set_custom_openai, set_summary, shown_provider, source_row, status_of, stored_theme, theme_choice, turn, typed_model, whisper_row, BuiltinAction, CloudPicker, EndpointChange, ModelField, ModelRow, ModelSource, OllamaList, SummaryChange, SummaryRecord, Switch, ThemeChoice};
use crate::text::{is_blank, opt_text, texts, trimmed, trimmed_or_none};
use crate::whisper::models::{ModelInfo, ModelStatus};
use crate::words::lowercase;

verus! {

// ---------------------------------------------------------------------------
// Loading
// ---------------------------------------------------------------------------

/// What is stored is what is shown.
pub proof fn stored_settings_are_shown(
    cache: &mut SettingsCache,
    s: StoredSettings,
    found: FoundSettings,
    default_model: &str,
)
    requires
        call_ensures(SettingsCache::apply, (cache, Some(s), found, default_model), ()),
    ensures
        final(cache).loaded,
        s.transcript matches Some(t) ==> final(cache).transcript == t,
        s.transcript is None ==> final(cache).transcript.provider@ == "localWhisper"@ && final(
            cache).transcript.model@ == default_model@,
        s.summary matches Some(c) ==> final(cache).summary.provider@ == c.0@ && final(
            cache).summary.model@ == c.1@,
        s.summary matches Some(c) ==> (c.2 matches Some(e) ==> final(cache).summary.ollama_endpoint@
            == e@),
        s.features matches Some(f) ==> final(cache).features == f,
        s.features is None ==> !final(cache).features.live_action_items,
        s.notifications matches Some(n) ==> final(cache).notifications == n,
        s.theme matches Some(t) ==> final(cache).theme_pref@ == t@,
        s.theme is None ==> final(cache).theme_pref@ == "system"@,
        s.calendar_sources matches Some(c) ==> final(cache).calendar_sources@ == c@,
        final(cache).custom_openai == s.custom_openai,
        s.default_template matches Some(t) ==> (t@.len() > 0 ==> final(cache).default_template_id@
            == t@),
        s.default_template is None && found.templates@.len() > 0 ==> final(
            cache).default_template_id@ == found.templates@[0].0@,
        s.ui_config matches Some(json) ==> (crate::json::json_document(json@) matches Some(value)
            ==> final(cache).ui_config@ == value),
        final(cache).recording == found.recording,
        final(cache).templates == found.templates,
        final(cache).mcp_info == found.mcp_info,
        found.whisper_models matches Some(m) ==> final(cache).whisper_models@ == m@,
{
}

/// Without a database everything has its default, and what was found outside of it
/// is shown all the same.
pub proof fn missing_databases_leave_defaults(
    cache: &mut SettingsCache,
    found: FoundSettings,
    default_model: &str,
)
    requires
        call_ensures(SettingsCache::apply, (cache, None, found, default_model), ()),
    ensures
        final(cache).loaded,
        final(cache).transcript.provider@ == "localWhisper"@,
        final(cache).transcript.model@ == default_model@,
        final(cache).summary.provider@.len() == 0,
        final(cache).summary.model@.len() == 0,
        !final(cache).features.live_action_items,
        final(cache).theme_pref@ == "system"@,
        final(cache).custom_openai is None,
        final(cache).calendar_sources@.len() == 0,
        final(cache).api_key_present@ == Map::<Seq<char>, bool>::empty(),
        final(cache).recording == found.recording,
{
    reveal_strlit("");
}

/// Devices that were found are kept by kind, each where it belongs.
pub proof fn found_devices_are_kept_by_kind(
    cache: &mut SettingsCache,
    stored: Option<StoredSettings>,
    found: FoundSettings,
    default_model: &str,
    list: Vec<Device>,
    i: int,
    k: int,
)
    requires
        call_ensures(SettingsCache::apply, (cache, stored, found, default_model), ()),
        found.devices == Some(list),
    ensures
        0 <= i < list@.len() && list@[i].kind is Microphone ==> final(cache).mic_devices@.contains(
            list@[i],
        ),
        0 <= i < list@.len() && list@[i].kind is System ==> final(cache).system_devices@.contains(
            list@[i],
        ),
        0 <= k < final(cache).mic_devices@.len() ==> final(cache).mic_devices@[k].kind is Microphone
            && list@.contains(final(cache).mic_devices@[k]),
        0 <= k < final(cache).system_devices@.len() ==> final(cache).system_devices@[k].kind is System
            && list@.contains(final(cache).system_devices@[k]),
{
    let mic = |d: Device| d.kind == DeviceKind::Microphone;
    let system = |d: Device| d.kind == DeviceKind::System;
    if 0 <= i < list@.len() {
        if list@[i].kind is Microphone {
            lemma_kept(list@, mic, i);
        } else {
            lemma_kept(list@, system, i);
        }
    }
    if 0 <= k < final(cache).mic_devices@.len() {
        lemma_all_kept(list@, mic, k);
    }
    if 0 <= k < final(cache).system_devices@.len() {
        lemma_all_kept(list@, system, k);
    }
}

proof fn lemma_keys(keys: Seq<(String, Option<String>)>, at: int)
    requires
        0 <= at < keys.len(),
        forall|j: int| at < j < keys.len() ==> (#[trigger] keys[j]).0@ != keys[at].0@,
    ensures
        keys_of(keys).contains_key(keys[at].0@),
        keys_of(keys)[keys[at].0@] == is_key(keys[at].1),
    decreases keys.len(),
{
    if at < keys.len() - 1 {
        let front = keys.drop_last();
        assert forall|j: int| at < j < front.len() implies (#[trigger] front[j]).0@ != front[at].0@ by {
            assert(keys[j].0@ != keys[at].0@);
        }
        lemma_keys(front, at);
        assert(keys[keys.len() - 1].0@ != keys[at].0@);
    }
}

/// A provider has a key where one that is not empty is stored for it.
pub proof fn stored_keys_are_noted(
    cache: &mut SettingsCache,
    s: StoredSettings,
    found: FoundSettings,
    default_model: &str,
    at: int,
)
    requires
        call_ensures(SettingsCache::apply, (cache, Some(s), found, default_model), ()),
        0 <= at < s.api_keys@.len(),
        forall|j: int| at < j < s.api_keys@.len() ==> (#[trigger] s.api_keys@[j]).0@ != s.api_keys@[at].0@,
        s.api_keys@[at].0@ != "custom-openai"@,
    ensures
        final(cache).api_key_present@.contains_key(s.api_keys@[at].0@),
        final(cache).api_key_present@[s.api_keys@[at].0@] == (s.api_keys@[at].1 matches Some(k) && k@.len()
            > 0),
        final(cache).api_key_present@.contains_key("custom-openai"@),
        final(cache).api_key_present@["custom-openai"@] == (s.custom_openai matches Some(c) && (
        c.api_key matches Some(k) && k@.len() > 0)),
{
    lemma_keys(s.api_keys@, at);
}

// ---------------------------------------------------------------------------
// Members of JSON
// ---------------------------------------------------------------------------

/// A member that was set reads as it was set, and every other one as before.
pub proof fn members_read_as_they_were_set(
    cache: &mut SettingsCache,
    key: &str,
    value: serde_json::Value,
    other: Seq<char>,
)
    requires
        call_ensures(SettingsCache::save_ui_field, (cache, key, value), ()),
    ensures
        member_at(final(cache).ui_config@, key@) == Some(json_text(value)),
        other != key@ ==> member_at(final(cache).ui_config@, other) == member_at(
            old(cache).ui_config@,
            other,
        ),
        final(cache).theme_pref == old(cache).theme_pref,
        final(cache).summary == old(cache).summary,
{
    crate::json::members_read_back(
        old(cache).ui_config@,
        final(cache).ui_config@,
        key@,
        json_text(value),
        other,
    );
}

/// A text and a truth value are read out of their members, and a default where
/// there is none.
pub proof fn members_have_defaults(
    cache: &SettingsCache,
    key: &str,
    default: bool,
    text: String,
    flag: bool,
)
    requires
        call_ensures(SettingsCache::ui_str, (cache, key), text),
        call_ensures(SettingsCache::ui_bool, (cache, key, default), flag),
    ensures
        member_at(cache.ui_config@, key@) is None ==> text@.len() == 0 && flag == default,
        member_at(cache.ui_config@, key@) matches Some(m) ==> (json_string(m) matches Some(s) ==> text@
            == s),
        member_at(cache.ui_config@, key@) == Some("true"@) ==> flag,
        member_at(cache.ui_config@, key@) == Some("false"@) && "false"@ != "true"@ ==> !flag,
{
    reveal_strlit("");
    reveal_strlit("true");
    reveal_strlit("false");
}

/// A blob that is no object becomes one with the member that is set.
pub proof fn blobs_become_objects(blob: &mut Blob, key: &str, value: serde_json::Value)
    requires
        call_ensures(Blob::set, (blob, key, value), ()),
        json_object(old(blob)@) is None,
    ensures
        json_object(final(blob)@) matches Some(m) && m.dom() == Set::<Seq<char>>::empty().insert(key@)
            && m[key@] == json_text(value),
{
    let m = crate::json::no_members().insert(key@, json_text(value));
    assert(m.dom() =~= Set::<Seq<char>>::empty().insert(key@));
}

// ---------------------------------------------------------------------------
// Changes
// ---------------------------------------------------------------------------

/// A key that is empty is deleted, and any other stored; the provider is marked
/// accordingly.
pub proof fn keys_are_stored_or_deleted(
    cache: &mut SettingsCache,
    provider: &str,
    key: &str,
    other: Seq<char>,
    r: bool,
)
    requires
        call_ensures(SettingsCache::save_api_key, (cache, provider, key), r),
    ensures
        r <==> key@.len() > 0,
        final(cache).api_key_present@.contains_key(provider@) && final(
            cache).api_key_present@[provider@] == r,
        other != provider@ && old(cache).api_key_present@.contains_key(other) ==> final(
            cache).api_key_present@[other] == old(cache).api_key_present@[other],
        final(cache).summary == old(cache).summary,
{
}

/// The field of a key says whether one is saved.
pub proof fn key_fields_say_whether_one_is_saved(
    cache: &SettingsCache,
    provider: &str,
    r: (&'static str, &'static str),
)
    requires
        call_ensures(key_texts, (cache, provider), r),
    ensures
        cache.api_key_present@.contains_key(provider@) && cache.api_key_present@[provider@] ==> r.1@
            == "Configured"@ && r.0@ == "•••••••••••••••• (saved — type to replace)"@,
        !cache.api_key_present@.contains_key(provider@) ==> r.1@ == "Not set"@ && r.0@ == "Not set"@,
        cache.api_key_present@.contains_key(provider@) && !cache.api_key_present@[provider@] ==> r.1@
            == "Not set"@,
{
}

/// A speech model that is chosen is used on this machine.
pub proof fn chosen_speech_models_are_local(cache: &mut SettingsCache, model: &str)
    requires
        call_ensures(SettingsCache::choose_whisper_model, (cache, model), ()),
    ensures
        final(cache).transcript.provider@ == "localWhisper"@,
        final(cache).transcript.model@ == model@,
        final(cache).summary == old(cache).summary,
{
}

/// A change of the summary settings changes the one thing, and all of them are
/// stored.
pub proof fn summary_changes_change_one_thing(
    cache: &mut SettingsCache,
    change: SummaryChange,
    r: SummaryRecord,
)
    requires
        call_ensures(set_summary, (cache, change), r),
    ensures
        change matches SummaryChange::Provider(p) ==> r.provider@ == p@ && r.model@ == old(
            cache).summary.model@,
        change matches SummaryChange::Model(m) ==> r.model@ == m@ && r.provider@ == old(
            cache).summary.provider@,
        change matches SummaryChange::Endpoint(e) ==> r.provider@ == old(cache).summary.provider@
            && r.model@ == old(cache).summary.model@ && (e@.len() > 0 ==> (
        r.ollama_endpoint matches Some(x) && x@ == e@)) && (e@.len() == 0 ==> r.ollama_endpoint is None),
        r.whisper_model@ == old(cache).transcript.model@,
        final(cache).summary.provider@ == r.provider@,
        final(cache).summary.model@ == r.model@,
        final(cache).transcript == old(cache).transcript,
{
}

/// A change of the user's own endpoint changes the one thing and keeps the rest.
pub proof fn endpoint_changes_change_one_thing(
    cache: &mut SettingsCache,
    change: EndpointChange,
    had: CustomOpenAIConfig,
    now: CustomOpenAIConfig,
)
    requires
        call_ensures(set_custom_openai, (cache, change), ()),
        old(cache).custom_openai == Some(had),
        final(cache).custom_openai == Some(now),
    ensures
        change matches EndpointChange::Endpoint(e) ==> now.endpoint@ == e@ && now.model@ == had.model@
            && opt_text(now.api_key) == opt_text(had.api_key),
        change matches EndpointChange::Model(m) ==> now.model@ == m@ && now.endpoint@ == had.endpoint@
            && opt_text(now.api_key) == opt_text(had.api_key),
        change matches EndpointChange::ApiKey(k) ==> now.endpoint@ == had.endpoint@ && now.model@
            == had.model@ && (k@.len() > 0 ==> (now.api_key matches Some(x) && x@ == k@)) && (k@.len()
            == 0 ==> now.api_key is None),
        now.max_tokens == had.max_tokens,
        now.temperature == had.temperature,
        now.top_p == had.top_p,
        final(cache).api_key_present@["custom-openai"@] == (now.api_key matches Some(k) && k@.len() > 0),
{
}

/// The first change of the user's own endpoint makes its settings, which hold that
/// change alone.
pub proof fn first_endpoint_changes_stand_alone(cache: &mut SettingsCache, change: EndpointChange)
    requires
        call_ensures(set_custom_openai, (cache, change), ()),
        old(cache).custom_openai is None,
    ensures
        final(cache).custom_openai matches Some(now) && (change matches EndpointChange::Endpoint(e)
            ==> now.endpoint@ == e@ && now.model@.len() == 0 && now.api_key is None),
        final(cache).custom_openai matches Some(now) && (change matches EndpointChange::Model(m)
            ==> now.model@ == m@ && now.endpoint@.len() == 0),
{
    reveal_strlit("");
}

/// Turning a switch changes that switch, and a reading of any other stays.
pub proof fn switches_turn_alone(
    s: &mut NotificationSettings,
    which: Switch,
    on: bool,
    other: Switch,
    before: &NotificationSettings,
    after: &NotificationSettings,
    this_after: bool,
    other_before: bool,
    other_after: bool,
)
    requires
        call_ensures(turn, (s, which, on), ()),
        *before == *old(s),
        *after == *final(s),
        call_ensures(is_on, (after, which), this_after),
        call_ensures(is_on, (before, other), other_before),
        call_ensures(is_on, (after, other), other_after),
    ensures
        this_after == on,
        other != which ==> other_after == other_before,
        final(s).consent_given == old(s).consent_given,
        final(s).system_permission_granted == old(s).system_permission_granted,
        final(s).notification_preferences.meeting_reminder_minutes == old(
            s).notification_preferences.meeting_reminder_minutes,
{
    crate::settings::pages::switches_are_independent(*old(s), which, on, other);
}

/// Each switch stands for the setting of its name.
pub proof fn switches_stand_for_their_settings(s: &NotificationSettings, which: Switch, r: bool)
    requires
        call_ensures(is_on, (s, which), r),
    ensures
        which is RecordingNotifications ==> r == s.recording_notifications,
        which is TimeBasedReminders ==> r == s.time_based_reminders,
        which is MeetingReminders ==> r == s.meeting_reminders,
        which is RespectDoNotDisturb ==> r == s.respect_do_not_disturb,
        which is NotificationSound ==> r == s.notification_sound,
        which is ManualDoNotDisturb ==> r == s.manual_dnd_mode,
        which is ShowStarted ==> r == s.notification_preferences.show_recording_started,
        which is ShowStopped ==> r == s.notification_preferences.show_recording_stopped,
        which is ShowPaused ==> r == s.notification_preferences.show_recording_paused,
        which is ShowResumed ==> r == s.notification_preferences.show_recording_resumed,
        which is ShowTranscribed ==> r == s.notification_preferences.show_transcription_complete,
        which is ShowReminders ==> r == s.notification_preferences.show_meeting_reminders,
        which is ShowErrors ==> r == s.notification_preferences.show_system_errors,
{
}

// ---------------------------------------------------------------------------
// Models of providers
// ---------------------------------------------------------------------------

/// The models that a provider lists are offered as it lists them; those that it is
/// known to have only where it lists none.
pub proof fn listed_models_are_offered(
    provider: &str,
    fetched: &Vec<String>,
    more: &Vec<ProviderModels>,
    known: Option<Vec<String>>,
    r: Vec<String>,
)
    requires
        call_ensures(merge_with_fallback, (provider, fetched, more), r),
        call_ensures(fallback_for_provider, (provider, more), known),
    ensures
        fetched@.len() > 0 ==> texts(r@) == texts(fetched@),
        fetched@.len() == 0 ==> (known matches Some(k) ==> texts(r@) == texts(k@)),
        fetched@.len() == 0 && known is None ==> r@.len() == 0,
{
    assert(texts(fetched@).len() == fetched@.len());
    assert(texts(r@).len() == r@.len());
}

proof fn lemma_listed(more: Seq<ProviderModels>, provider: Seq<char>, at: int)
    ensures
        0 <= at < more.len() && more[at].provider@ == provider && (forall|j: int|
            0 <= j < at ==> (#[trigger] more[j]).provider@ != provider) ==> listed_models(
            more,
            provider,
        ) == Some(texts(more[at].models@)),
        (forall|j: int| 0 <= j < more.len() ==> (#[trigger] more[j]).provider@ != provider)
            ==> listed_models(more, provider) is None,
    decreases more.len(),
{
    if more.len() > 0 {
        let rest = more.skip(1);
        lemma_listed(rest, provider, at - 1);
        if 0 < at < more.len() && more[at].provider@ == provider && (forall|j: int|
            0 <= j < at ==> (#[trigger] more[j]).provider@ != provider) {
            assert(more[0].provider@ != provider);
            assert(rest[at - 1] == more[at]);
            assert forall|j: int| 0 <= j < at - 1 implies (#[trigger] rest[j]).provider@ != provider by {
                assert(more[j + 1].provider@ != provider);
            }
        }
        if forall|j: int| 0 <= j < more.len() ==> (#[trigger] more[j]).provider@ != provider {
            assert(more[0].provider@ != provider);
            assert forall|j: int| 0 <= j < rest.len() implies (#[trigger] rest[j]).provider@
                != provider by {
                assert(more[j + 1].provider@ != provider);
            }
        }
    }
}

/// A further provider is known to have the models that are given for it; Ollama and
/// OpenRouter are known to have none.
pub proof fn further_providers_have_their_models(
    provider: &str,
    more: &Vec<ProviderModels>,
    at: int,
    r: Option<Vec<String>>,
)
    requires
        call_ensures(fallback_for_provider, (provider, more), r),
        provider@ != "openai"@,
        provider@ != "groq"@,
    ensures
        0 <= at < more@.len() && more@[at].provider@ == provider@ && (forall|j: int|
            0 <= j < at ==> (#[trigger] more@[j]).provider@ != provider@) ==> (r matches Some(list)
            && texts(list@) == texts(more@[at].models@)),
        (forall|j: int| 0 <= j < more@.len() ==> (#[trigger] more@[j]).provider@ != provider@)
            ==> r is None,
{
    lemma_listed(more@, provider@, at);
}

/// The built-in providers are known to have the models of their lists.
pub proof fn built_in_providers_have_their_models(
    provider: &str,
    more: &Vec<ProviderModels>,
    r: Option<Vec<String>>,
)
    requires
        call_ensures(fallback_for_provider, (provider, more), r),
    ensures
        provider@ == "openai"@ ==> (r matches Some(list) && list@.len() == 9 && list@[0]@ == "gpt-4o"@
            && list@[1]@ == "gpt-4o-mini"@ && list@[8]@ == "o3-mini"@),
        provider@ == "groq"@ ==> (r matches Some(list) && list@.len() == 4 && list@[0]@
            == "llama-3.3-70b-versatile"@ && list@[3]@ == "gemma2-9b-it"@),
{
    reveal_strlit("openai");
    reveal_strlit("groq");
    assert("openai"@.len() != "groq"@.len());
    if let Some(list) = r {
        assert(texts(list@).len() == list@.len());
        if provider@ == "openai"@ {
            assert(texts(list@)[0] == list@[0]@);
            assert(texts(list@)[1] == list@[1]@);
            assert(texts(list@)[8] == list@[8]@);
        }
        if provider@ == "groq"@ {
            assert(texts(list@)[0] == list@[0]@);
            assert(texts(list@)[3] == list@[3]@);
        }
    }
}

/// The models are found, in their order, whose name holds what was typed, in any
/// case and without white space around it.
pub proof fn models_are_found_by_what_was_typed<'a>(
    models: &'a Vec<String>,
    query: &str,
    r: Vec<&'a String>,
)
    requires
        call_ensures(filter_models, (models, query), r),
    ensures
        trimmed(query@).len() == 0 ==> pointed_at(r@) == models@,
        pointed_at(r@) == models@.filter(
            |m: String| holds(lowercase(m@), lowercase(trimmed(query@))),
        ),
{
    let p = |m: String| model_matches(m, query@);
    let q = |m: String| holds(lowercase(m@), lowercase(trimmed(query@)));
    assert forall|i: int| 0 <= i < models@.len() implies p(#[trigger] models@[i]) == q(models@[i]) by {
        lemma_infix_holds(lowercase(models@[i]@), lowercase(trimmed(query@)));
    }
    lemma_filter_same(models@, p, q);
}

/// A size reads in megabytes below a gigabyte, and else in gigabytes with one digit
/// behind the point.
pub proof fn sizes_read_in_the_unit_that_fits(
    mb: u64,
    whole: String,
    tenths: u128,
    out: &mut String,
    r: String,
)
    requires
        call_ensures(format_size_mb, (mb,), r),
        call_ensures(to_decimal, (mb,), whole),
        call_ensures(to_tenths, (mb, 1024), tenths),
        old(out)@.len() == 0,
        call_ensures(push_tenths, (out, tenths), ()),
    ensures
        mb < 1024 ==> r@ == whole@ + " MB"@,
        mb >= 1024 ==> r@ == final(out)@ + " GB"@,
{
    assert(final(out)@ =~= crate::numbers::tenths(tenths as nat));
}

/// The local providers come first, then the others, and the user's own endpoint
/// last; those that take a key of their own have a field for it.
pub proof fn providers_are_offered_in_order(
    none: &Vec<ProviderModels>,
    providers: Vec<(String, String)>,
    keys: Vec<(String, String)>,
)
    requires
        none@.len() == 0,
        call_ensures(provider_options, (none,), providers),
        call_ensures(key_fields, (none,), keys),
    ensures
        pairs(providers@) == seq![
            ("builtin-ai"@, "Built-in AI (local)"@),
            ("ollama"@, "Ollama"@),
            ("openai"@, "OpenAI"@),
            ("groq"@, "Groq"@),
            ("openrouter"@, "OpenRouter"@),
            ("custom-openai"@, "Custom OpenAI-compatible"@),
        ],
        pairs(keys@) == seq![
            ("openai"@, "OpenAI API key"@),
            ("groq"@, "Groq API key"@),
            ("openrouter"@, "OpenRouter API key"@),
        ],
{
    assert(pairs(providers@) =~= seq![
        ("builtin-ai"@, "Built-in AI (local)"@),
        ("ollama"@, "Ollama"@),
        ("openai"@, "OpenAI"@),
        ("groq"@, "Groq"@),
        ("openrouter"@, "OpenRouter"@),
        ("custom-openai"@, "Custom OpenAI-compatible"@),
    ]);
    assert(pairs(keys@) =~= seq![
        ("openai"@, "OpenAI API key"@),
        ("groq"@, "Groq API key"@),
        ("openrouter"@, "OpenRouter API key"@),
    ]);
}

/// Further providers stand behind OpenAI, in their order, and each has a key.
pub proof fn further_providers_are_offered(
    more: &Vec<ProviderModels>,
    providers: Vec<(String, String)>,
    keys: Vec<(String, String)>,
    i: int,
)
    requires
        call_ensures(provider_options, (more,), providers),
        call_ensures(key_fields, (more,), keys),
        0 <= i < more@.len(),
    ensures
        providers@.len() == more@.len() + 6,
        providers@[i + 3].0@ == more@[i].provider@,
        providers@[i + 3].1@ == more@[i].label@,
        keys@.len() == more@.len() + 3,
        keys@[i + 1].0@ == more@[i].provider@,
        keys@[i + 1].1@ == more@[i].label@ + " API key"@,
{
    reveal_strlit("");
    let a = pairs(providers@);
    let b = pairs(keys@);
    assert(a.len() == providers@.len());
    assert(b.len() == keys@.len());
    assert(a[i + 3] == (providers@[i + 3].0@, providers@[i + 3].1@));
    assert(b[i + 1] == (keys@[i + 1].0@, keys@[i + 1].1@));
    assert(more@[i].label@ + ""@ =~= more@[i].label@);
}

/// Each provider has the field that its models are picked with, and none at all is
/// the built-in one.
pub proof fn providers_have_their_field(
    provider: &str,
    more: &Vec<ProviderModels>,
    field: ModelField,
    source: ModelSource,
    known: Option<Vec<String>>,
    shown: String,
)
    requires
        call_ensures(model_field, (provider,), field),
        call_ensures(model_source, (provider, more), source),
        call_ensures(fallback_for_provider, (provider, more), known),
        call_ensures(shown_provider, (provider,), shown),
    ensures
        provider@ == "custom-openai"@ ==> field is CustomEndpoint,
        provider@.len() == 0 ==> shown@ == "builtin-ai"@,
        provider@.len() > 0 ==> shown@ == provider@,
        field is Ollama ==> provider@ == "ollama"@,
        field is CustomEndpoint ==> provider@ == "custom-openai"@,
        field is BuiltinList ==> provider@.len() == 0 || provider@ == "builtin-ai"@,
        field is Cloud ==> provider@ != "ollama"@ && provider@ != "builtin-ai"@ && provider@
            != "custom-openai"@ && provider@.len() > 0,
        source is Ollama <==> provider@ == "ollama"@,
        source is OpenRouter ==> provider@ == "openrouter"@,
        source is WithKey ==> known is Some,
        known is Some && provider@ != "ollama"@ && provider@ != "openrouter"@ ==> source is WithKey,
        known is None && provider@ != "ollama"@ && provider@ != "openrouter"@ ==> source is Nowhere,
{
}

/// A provider's picker offers what is listed or known, and says why nothing was
/// listed.
pub proof fn pickers_offer_what_is_listed(
    cache: &SettingsCache,
    provider: &str,
    more: &Vec<ProviderModels>,
    listed: &Vec<String>,
    merged: Vec<String>,
    r: CloudPicker,
)
    requires
        call_ensures(cloud_picker, (cache, provider, more), r),
        call_ensures(merge_with_fallback, (provider, listed, more), merged),
    ensures
        cache.provider_models@.contains_key(provider@) && cache.provider_models@[provider@]@ == listed@
            ==> texts(r.options@) == texts(merged@),
        !cache.provider_models@.contains_key(provider@) && listed@.len() == 0 ==> texts(r.options@)
            == texts(merged@),
        cache.provider_models_error@.contains_key(provider@) ==> (r.error matches Some(e) && e@
            == "Couldn't fetch live models — showing a fallback list ("@
            + cache.provider_models_error@[provider@]@ + ")."@),
        !cache.provider_models_error@.contains_key(provider@) ==> r.error is None,
        r.loading == (cache.provider_models_loading@.contains_key(provider@)
            && cache.provider_models_loading@[provider@]),
{
    if listed@.len() == 0 {
        assert(texts(listed@) =~= seq![]);
    }
}

/// What a provider lists is kept for it, and why it could not be listed is; the
/// list before stays then, and so do those of others.
pub proof fn lists_of_models_are_kept(
    cache: &mut SettingsCache,
    provider: &str,
    result: Result<Vec<String>, String>,
    other: Seq<char>,
)
    requires
        call_ensures(SettingsCache::finish_fetch_models, (cache, provider, result), ()),
    ensures
        result matches Ok(list) ==> final(cache).provider_models@.contains_key(provider@) && final(
            cache).provider_models@[provider@] == list && !final(
            cache).provider_models_error@.contains_key(provider@),
        result matches Err(why) ==> final(cache).provider_models == old(cache).provider_models && final(
            cache).provider_models_error@.contains_key(provider@) && final(
            cache).provider_models_error@[provider@] == why,
        other != provider@ && old(cache).provider_models@.contains_key(other) ==> final(
            cache).provider_models@.contains_key(other) && final(cache).provider_models@[other] == old(
            cache).provider_models@[other],
        !final(cache).provider_models_loading@[provider@],
{
}

// ---------------------------------------------------------------------------
// Models on this machine
// ---------------------------------------------------------------------------

/// A speech model can be downloaded where it is not there, deleted where it is, and
/// its download cancelled while that runs.
pub proof fn speech_models_offer_what_can_be_done(
    cache: &SettingsCache,
    model: &ModelInfo,
    r: ModelRow,
)
    requires
        call_ensures(whisper_row, (cache, model), r),
        cache.whisper_models@.len() == 0,
    ensures
        cache.download_progress@.contains_key(model.name@) ==> r.can_cancel && !r.can_download
            && !r.can_delete,
        !cache.download_progress@.contains_key(model.name@) ==> match model.status {
            ModelStatus::Available => !r.can_download && r.can_delete && !r.can_cancel,
            ModelStatus::Missing => r.can_download && !r.can_delete && !r.can_cancel
                && r.download_label@ == "Download"@,
            ModelStatus::Corrupted { .. } => r.can_download && r.can_delete && !r.can_cancel
                && r.download_label@ == "Re-download"@,
            ModelStatus::Downloading { .. } => r.can_cancel && !r.can_download && !r.can_delete,
            ModelStatus::Error(_) => r.can_download && !r.can_delete,
        },
{
}

proof fn lemma_status(models: Seq<ModelInfo>, name: Seq<char>, known: ModelStatus, at: int)
    requires
        0 <= at < models.len(),
        models[at].name@ == name,
        forall|j: int| 0 <= j < at ==> (#[trigger] models[j]).name@ != name,
    ensures
        status_of(models, name, known) == models[at].status,
    decreases models.len(),
{
    if at > 0 {
        let rest = models.skip(1);
        assert(models[0].name@ != name);
        assert forall|j: int| 0 <= j < at - 1 implies (#[trigger] rest[j]).name@ != name by {
            assert(models[j + 1].name@ != name);
        }
        lemma_status(rest, name, known, at - 1);
    }
}

/// A speech model's row says how good it is, how large, and how its file is; what
/// was found last counts.
pub proof fn speech_models_are_described(
    cache: &SettingsCache,
    model: &ModelInfo,
    at: int,
    mb: u64,
    of_mb: String,
    r: ModelRow,
)
    requires
        call_ensures(whisper_row, (cache, model), r),
        !cache.download_progress@.contains_key(model.name@),
        0 <= at < cache.whisper_models@.len(),
        cache.whisper_models@[at].name@ == model.name@,
        forall|j: int|
            0 <= j < at ==> (#[trigger] cache.whisper_models@[j]).name@ != model.name@,
        mb == model.size_mb,
        call_ensures(to_decimal, (mb,), of_mb),
    ensures
        cache.whisper_models@[at].status is Available ==> r.detail@ == model.accuracy@ + " · "@ + of_mb@
            + " MB · "@ + "Available"@ && r.can_delete && !r.can_download,
        cache.whisper_models@[at].status is Missing ==> r.detail@ == model.accuracy@ + " · "@ + of_mb@
            + " MB · "@ + "Missing"@ && r.can_download,
        cache.whisper_models@[at].status is Corrupted ==> r.detail@ == model.accuracy@ + " · "@ + of_mb@
            + " MB · "@ + "Corrupted — re-download"@,
{
    lemma_status(cache.whisper_models@, model.name@, model.status, at);
}

/// A built-in model that is there can be selected and deleted; one that is not can
/// be downloaded; a download can be cancelled.
pub proof fn built_in_models_offer_what_can_be_done(
    cache: &SettingsCache,
    model: &BuiltinModel,
    size: String,
    r: (String, BuiltinAction),
)
    requires
        call_ensures(builtin_row, (cache, model), r),
        call_ensures(format_size_mb, (model.size_mb,), size),
        !cache.builtin_download_progress@.contains_key(model.name@),
    ensures
        model.status is Available ==> r.1 == (BuiltinAction::Manage {
            can_select: cache.summary.model@ != model.name@,
        }),
        model.status is Available && cache.summary.model@ == model.name@ ==> r.0@ == size@ + " · "@
            + "Ready · selected"@,
        model.status is Available && cache.summary.model@ != model.name@ ==> r.0@ == size@ + " · "@
            + "Ready"@,
        model.status is NotDownloaded ==> r.1 is Download && r.0@ == size@ + " · "@
            + "Not downloaded"@,
        model.status is Downloading ==> r.1 is Cancel,
        model.status is Corrupted ==> r.1 is DownloadAgain,
        model.status is Error ==> r.1 is Download,
{
}

/// A model of the Ollama server is marked where it is selected, and cannot be
/// deleted while it is downloaded.
pub proof fn ollama_models_are_described(
    cache: &SettingsCache,
    model: &OllamaModel,
    p: u64,
    of_p: String,
    r: (String, bool),
)
    requires
        call_ensures(ollama_row, (cache, model), r),
        call_ensures(to_decimal, (p,), of_p),
    ensures
        cache.ollama_pull_progress@.contains_key(model.name@) ==> !r.1 && (
        cache.ollama_pull_progress@[model.name@] == p ==> r.0@ == model.size@ + " · downloading… "@
            + of_p@ + "%"@),
        !cache.ollama_pull_progress@.contains_key(model.name@) ==> r.1,
        !cache.ollama_pull_progress@.contains_key(model.name@) && cache.summary.model@ == model.name@
            ==> r.0@ == model.size@ + " · selected"@,
        !cache.ollama_pull_progress@.contains_key(model.name@) && cache.summary.model@ != model.name@
            ==> r.0@ == model.size@,
{
}

/// The models of the Ollama server are listed, in their order, whose name holds
/// what was typed.
pub proof fn ollama_models_are_found(cache: &SettingsCache, query: &str, i: int, r: OllamaList)
    requires
        call_ensures(ollama_list, (cache, query), r),
    ensures
        cache.ollama_installed@.len() == 0 && cache.ollama_installed_loading ==> (
        r matches OllamaList::Note(t) && t@ == "Loading installed models…"@),
        cache.ollama_installed@.len() == 0 && !cache.ollama_installed_loading ==> (
        r matches OllamaList::Note(t) && t@ == "No models installed yet."@),
        0 <= i < cache.ollama_installed@.len() && (trimmed(query@).len() == 0 || holds(
            lowercase(cache.ollama_installed@[i].name@),
            lowercase(trimmed(query@)),
        )) ==> (r matches OllamaList::Rows(rows) && rows@.contains(i as usize)),
        0 <= i < cache.ollama_installed@.len() && trimmed(query@).len() > 0 && !holds(
            lowercase(cache.ollama_installed@[i].name@),
            lowercase(trimmed(query@)),
        ) ==> (r matches OllamaList::Rows(rows) ==> !rows@.contains(i as usize)),
{
    let all = cache.ollama_installed@;
    if 0 <= i < all.len() {
        lemma_infix_holds(lowercase(all[i].name@), lowercase(trimmed(query@)));
        let given = (cache, query);
        let list = given.0.ollama_installed@;
        assert(list[i] == all[i]);
        assert(ollama_shown(list[i], given.1@) == ollama_shown(all[i], query@));
    }
}

/// A model that was typed is taken without white space around it.
pub proof fn typed_models_are_trimmed(typed: &str, core: Option<String>, r: Option<String>)
    requires
        call_ensures(typed_model, (typed,), r),
        call_ensures(trimmed_or_none, (typed,), core),
    ensures
        opt_text(r) == opt_text(core),
{
}

// ---------------------------------------------------------------------------
// The rest
// ---------------------------------------------------------------------------

/// A theme is what its name says, and the system's for any other name.
pub proof fn themes_are_what_they_are_called(
    mode: &str,
    r: ThemeChoice,
    saved: &Option<String>,
    stored: String,
    active: Option<&str>,
    follows: bool,
)
    requires
        call_ensures(theme_choice, (mode,), r),
        call_ensures(stored_theme, (saved,), stored),
        call_ensures(follows_system, (active,), follows),
    ensures
        mode@ == "light"@ <==> r is Light,
        r is Dark ==> mode@ == "dark"@,
        mode@ != "light"@ && mode@ != "dark"@ ==> r is System,
        *saved matches Some(s) ==> (s@.len() > 0 ==> stored@ == s@),
        *saved is None ==> stored@ == "system"@,
        active is None ==> follows,
        active matches Some(a) ==> (follows <==> a@ == "system"@),
{
}

/// A calendar is added with its address as typed, and with its name unless that is
/// blank.
pub proof fn calendars_are_added_as_typed(
    url: &str,
    label: &str,
    no_url: bool,
    no_label: bool,
    r: Option<(String, Option<String>)>,
)
    requires
        call_ensures(new_source, (url, label), r),
        call_ensures(is_blank, (url,), no_url),
        call_ensures(is_blank, (label,), no_label),
    ensures
        no_url <==> r is None,
        r matches Some((u, l)) ==> u@ == url@,
        r matches Some((u, l)) ==> (no_label ==> l is None),
        r matches Some((u, l)) ==> (!no_label ==> (l matches Some(t) && t@ == label@)),
{
}

/// A calendar goes by its name or its address, says when it was read or why it
/// could not be, and is read once at a time.
pub proof fn calendars_say_when_they_were_read(
    cache: &SettingsCache,
    source: &CalendarSourceRow,
    r: (String, String, bool),
)
    requires
        call_ensures(source_row, (cache, source), r),
    ensures
        source.label matches Some(l) ==> r.0@ == l@,
        source.label is None ==> r.0@ == source.url@,
        source.last_error matches Some(e) ==> r.1@ == "Error: "@ + e@,
        source.last_error is None ==> (source.last_fetched_at matches Some(at) ==> r.1@
            == "Last synced "@ + at@),
        source.last_error is None && source.last_fetched_at is None ==> r.1@ == "Never synced"@,
        cache.calendar_busy@.contains_key(source.id@) && cache.calendar_busy@[source.id@] ==> !r.2,
        !cache.calendar_busy@.contains_key(source.id@) ==> r.2,
{
}

/// The devices of a kind are offered behind the system's own choice.
pub proof fn devices_are_offered_by_kind(
    cache: &SettingsCache,
    label: &str,
    mics: Vec<DeviceOption>,
    systems: Vec<DeviceOption>,
    of_mic: Vec<DeviceOption>,
    of_system: Vec<DeviceOption>,
)
    requires
        label@ == "System default"@,
        call_ensures(device_options, (&cache.mic_devices, DeviceKind::Microphone, label), mics),
        call_ensures(device_options, (&cache.system_devices, DeviceKind::System, label), systems),
        call_ensures(device_choices, (cache, true), of_mic),
        call_ensures(device_choices, (cache, false), of_system),
    ensures
        option_texts(of_mic@) == option_texts(mics@),
        option_texts(of_system@) == option_texts(systems@),
{
}

/// The server is registered under its path, and its database is named unless it is
/// where the server looks by itself.
pub proof fn servers_are_registered_with_their_database(
    client: &str,
    binary: &str,
    db: &str,
    usual: bool,
    command: String,
    json: String,
)
    requires
        call_ensures(claude_code_snippet, (client, binary, db, usual), command),
        call_ensures(json_snippet, (binary, db, usual), json),
    ensures
        usual ==> command@ == client@ + " mcp add parley -- "@ + binary@,
        !usual ==> command@ == client@ + " mcp add parley -- "@ + binary@ + " --db "@ + db@,
        usual ==> json@ == "{\n  \"mcpServers\": {\n    \"parley\": {\n      \"command\": \""@ + binary@
            + "\"\n    }\n  }\n}"@,
        !usual ==> json@ == "{\n  \"mcpServers\": {\n    \"parley\": {\n      \"command\": \""@ + binary@
            + "\",\n      \"args\": [\"--db\", \""@ + db@ + "\"]\n    }\n  }\n}"@,
{
}

/// The page says where the server and its database are, and how to register it.
pub proof fn pages_say_where_the_server_is(
    client: &str,
    info: &McpServerInfo,
    binary: &str,
    db: &str,
    command: String,
    json: String,
    r: McpCard,
)
    requires
        call_ensures(mcp_card, (client, info), r),
        info.binary_path matches Some(p) ==> binary@ == p@,
        info.binary_path is None ==> binary@ == "/absolute/path/to/parley-mcp"@,
        db@ == info.db_path@,
        call_ensures(claude_code_snippet, (client, binary, db, info.db_is_default), command),
        call_ensures(json_snippet, (binary, db, info.db_is_default), json),
    ensures
        r.command@ == command@,
        r.json@ == json@,
        r.can_show == (info.binary_path is Some && info.binary_found),
        info.binary_path matches Some(p) ==> (info.binary_found ==> r.binary_line@ == "Binary found: "@
            + p@),
        info.binary_path matches Some(p) ==> (!info.binary_found ==> r.binary_line@
            == "Binary not found at last known path: "@ + p@),
{
}

/// Faults are reported where the source is kept.
pub proof fn faults_are_reported_at_the_source(r: String)
    requires
        call_ensures(issues_url, (), r),
    ensures
        r@ == "https://github.com/Hankanman/Parley"@ + "/issues/new"@,
{
}

/// All notifications are on where nothing was chosen, but for the start and the stop
/// of a recording, and meetings are announced twice; neither consent nor permission
/// is given yet.
pub proof fn defaults_remind_twice(p: NotificationPreferences, s: NotificationSettings)
    requires
        call_ensures(NotificationPreferences::default, (), p),
        call_ensures(NotificationSettings::default, (), s),
    ensures
        !p.show_recording_started && !p.show_recording_stopped,
        p.show_recording_paused && p.show_recording_resumed,
        p.show_meeting_reminders && p.show_system_errors && p.show_transcription_complete,
        p.meeting_reminder_minutes@ == seq![15u64, 5u64],
        !s.consent_given && !s.system_permission_granted && !s.manual_dnd_mode,
        s.recording_notifications && s.notification_sound && s.respect_do_not_disturb,
        s.time_based_reminders && s.meeting_reminders,
        !s.notification_preferences.show_recording_started
            && !s.notification_preferences.show_recording_stopped
            && s.notification_preferences.show_recording_paused
            && s.notification_preferences.show_system_errors,
{
}

/// Each setting that is saved is the new one, and no other changes.
pub proof fn saved_settings_change_alone(
    a: &mut SettingsCache,
    template: String,
    b: &mut SettingsCache,
    features: FeatureToggles,
    c: &mut SettingsCache,
    notifications: NotificationSettings,
    d: &mut SettingsCache,
    recording: crate::settings::cache::RecordingPreferences,
    e: &mut SettingsCache,
    theme: String,
)
    requires
        call_ensures(SettingsCache::save_default_template, (a, template), ()),
        call_ensures(SettingsCache::save_features, (b, features), ()),
        call_ensures(SettingsCache::save_notifications, (c, notifications), ()),
        call_ensures(SettingsCache::save_recording, (d, recording), ()),
        call_ensures(SettingsCache::save_theme_pref, (e, theme), ()),
    ensures
        *final(a) == (SettingsCache { default_template_id: template, ..*old(a) }),
        *final(b) == (SettingsCache { features, ..*old(b) }),
        *final(c) == (SettingsCache { notifications, ..*old(c) }),
        *final(d) == (SettingsCache { recording, ..*old(d) }),
        *final(e) == (SettingsCache { theme_pref: theme, ..*old(e) }),
{
}

/// The user's own endpoint is kept as it is given, with a mark for its key.
pub proof fn own_endpoints_are_kept(cache: &mut SettingsCache, config: CustomOpenAIConfig)
    requires
        call_ensures(SettingsCache::save_custom_openai, (cache, config), ()),
    ensures
        final(cache).custom_openai == Some(config),
        final(cache).api_key_present@["custom-openai"@] == (config.api_key matches Some(k) && k@.len()
            > 0),
        final(cache).summary == old(cache).summary,
{
}

/// The server's endpoint is the one that is set, and the usual one where none is.
pub proof fn set_endpoints_are_used(cache: &SettingsCache, r: Option<String>)
    requires
        call_ensures(SettingsCache::ollama_endpoint, (cache,), r),
    ensures
        cache.summary.ollama_endpoint@.len() == 0 ==> r is None,
        cache.summary.ollama_endpoint@.len() > 0 ==> (r matches Some(e) && e@
            == cache.summary.ollama_endpoint@),
{
}

/// A download that starts stands at nought, and one that is cancelled is gone; the
/// others go on.
pub proof fn downloads_start_at_nought(
    a: &mut SettingsCache,
    b: &mut SettingsCache,
    c: &mut SettingsCache,
    d: &mut SettingsCache,
    e: &mut SettingsCache,
    model: &str,
    other: Seq<char>,
)
    requires
        call_ensures(SettingsCache::start_download, (a, model), ()),
        call_ensures(SettingsCache::cancel_download, (b, model), ()),
        call_ensures(SettingsCache::begin_builtin_download, (c, model), ()),
        call_ensures(SettingsCache::cancel_builtin_download, (d, model), ()),
        call_ensures(SettingsCache::begin_pull, (e, model), ()),
        other != model@,
    ensures
        final(a).download_progress@.contains_key(model@) && final(a).download_progress@[model@] == 0
            && final(a).download_error is None,
        final(a).download_progress@.contains_key(other) == old(a).download_progress@.contains_key(other),
        !final(b).download_progress@.contains_key(model@),
        final(b).download_progress@.contains_key(other) == old(b).download_progress@.contains_key(other),
        final(c).builtin_download_progress@.contains_key(model@) && final(
            c).builtin_download_progress@[model@] == 0,
        !final(d).builtin_download_progress@.contains_key(model@),
        final(e).ollama_pull_progress@.contains_key(model@) && final(e).ollama_pull_progress@[model@] == 0
            && final(e).ollama_error is None,
{
}

/// A provider's models are being listed until they are there.
pub proof fn lists_are_loading_until_they_are_there(cache: &mut SettingsCache, provider: &str, other: Seq<char>)
    requires
        call_ensures(SettingsCache::begin_fetch_models, (cache, provider), ()),
        other != provider@,
    ensures
        final(cache).provider_models_loading@.contains_key(provider@) && final(
            cache).provider_models_loading@[provider@],
        !final(cache).provider_models_error@.contains_key(provider@),
        final(cache).provider_models == old(cache).provider_models,
        final(cache).provider_models_error@.contains_key(other) == old(
            cache).provider_models_error@.contains_key(other),
{
}

/// What the server has is listed; why it could not be is said, and then nothing is
/// listed. Where listing broke off, the list before stays.
pub proof fn servers_list_what_they_have(
    a: &mut SettingsCache,
    b: &mut SettingsCache,
    result: Result<Vec<OllamaModel>, String>,
    c: &mut SettingsCache,
)
    requires
        call_ensures(SettingsCache::begin_refresh_ollama, (a,), ()),
        call_ensures(SettingsCache::finish_refresh_ollama, (b, result), ()),
        call_ensures(SettingsCache::crash_refresh_ollama, (c,), ()),
    ensures
        final(a).ollama_installed_loading && final(a).ollama_installed == old(a).ollama_installed,
        result matches Ok(models) ==> final(b).ollama_installed == models && final(b).ollama_error is None,
        result matches Err(why) ==> final(b).ollama_installed@.len() == 0 && final(b).ollama_error
            == Some(why),
        !final(b).ollama_installed_loading,
        !final(c).ollama_installed_loading && final(c).ollama_installed == old(c).ollama_installed && (
        final(c).ollama_error matches Some(e) && e@ == "model list refresh task panicked"@),
{
}

/// A calendar is busy while it is read, and what was read is taken over.
pub proof fn calendars_are_busy_while_read(
    a: &mut SettingsCache,
    b: &mut SettingsCache,
    id: &str,
    sources: Vec<CalendarSourceRow>,
)
    requires
        call_ensures(SettingsCache::begin_calendar_refresh, (a, id), ()),
        call_ensures(SettingsCache::finish_calendar_refresh, (b, id, sources), ()),
    ensures
        final(a).calendar_busy@.contains_key(id@) && final(a).calendar_busy@[id@],
        final(a).calendar_sources == old(a).calendar_sources,
        !final(b).calendar_busy@[id@],
        final(b).calendar_sources == sources,
{
}

/// A blob reads the texts and truth values of its members.
pub proof fn blobs_read_their_members(blob: &Blob, key: &str, text: Option<String>, flag: Option<bool>)
    requires
        call_ensures(Blob::text, (blob, key), text),
        call_ensures(Blob::flag, (blob, key), flag),
    ensures
        member_at(blob@, key@) is None ==> text is None && flag is None,
        member_at(blob@, key@) matches Some(m) ==> opt_text(text) == json_string(m),
        member_at(blob@, key@) == Some("true"@) ==> flag == Some(true),
        member_at(blob@, key@) == Some("false"@) ==> flag == Some(false),
{
    reveal_strlit("true");
    reveal_strlit("false");
    assert("true"@.len() != "false"@.len());
}

/// A text is JSON or not, and an empty object has no members.
pub proof fn texts_are_json_or_not(text: &str, r: Option<Blob>, empty: Blob)
    requires
        call_ensures(Blob::parse, (text,), r),
        call_ensures(Blob::new, (), empty),
    ensures
        r is Some <==> crate::json::json_document(text@) is Some,
        r matches Some(b) ==> crate::json::json_document(text@) == Some(b@),
        json_object(empty@) matches Some(m) && m == Map::<Seq<char>, Seq<char>>::empty(),
{
}

/// A missing switch counts as on, and reminders are set for a quarter of an hour
/// and five minutes.
pub proof fn missing_switches_are_on(on: bool, minutes: Vec<u64>)
    requires
        call_ensures(crate::notifications::default_true, (), on),
        call_ensures(crate::notifications::default_reminder_minutes, (), minutes),
    ensures
        on,
        minutes@.len() == 2 && minutes@[0] == 15 && minutes@[1] == 5,
{
}

/// A scalar becomes JSON of its kind.
pub proof fn scalars_become_json(text: String, b: bool, of_text: serde_json::Value, of_flag: serde_json::Value, null: Blob)
    requires
        call_ensures(crate::json::Scalar::to_json, (&crate::json::Scalar::Text(text),), of_text),
        call_ensures(crate::json::Scalar::to_json, (&crate::json::Scalar::Flag(b),), of_flag),
        call_ensures(Blob::null, (), null),
    ensures
        json_string(crate::json::json_text(of_text)) == Some(text@),
        b ==> crate::json::json_text(of_flag) == "true"@,
        !b ==> crate::json::json_text(of_flag) == "false"@,
        null@ == "null"@,
{
}

/// Settings start with nothing loaded and nothing under way.
pub proof fn settings_start_empty(recording: crate::settings::cache::RecordingPreferences, r: SettingsCache)
    requires
        call_ensures(SettingsCache::new, (recording,), r),
    ensures
        !r.loaded,
        r.recording == recording,
        r.whisper_models@.len() == 0 && r.mic_devices@.len() == 0 && r.system_devices@.len() == 0,
        r.download_error is None && r.custom_openai is None && r.mcp_info is None && r.ollama_error is None,
        !r.features.live_action_items && !r.ollama_installed_loading,
        r.calendar_sources@.len() == 0 && r.templates@.len() == 0 && r.builtin_models@.len() == 0,
        r.theme_pref@ == ""@ && r.default_template_id@ == ""@,
        forall|k: Seq<char>| !#[trigger] r.download_progress@.contains_key(k),
        forall|k: Seq<char>| !#[trigger] r.calendar_busy@.contains_key(k),
        forall|k: Seq<char>| !#[trigger] r.api_key_present@.contains_key(k),
{
}

/// Where nothing was chosen no provider, model or server is, and no feature is on.
pub proof fn defaults_choose_nothing(t: TranscriptConfig, s: SummaryConfig, f: FeatureToggles)
    requires
        call_ensures(TranscriptConfig::default, (), t),
        call_ensures(SummaryConfig::default, (), s),
        call_ensures(FeatureToggles::default, (), f),
    ensures
        t.provider@.len() == 0 && t.model@.len() == 0,
        s.provider@.len() == 0 && s.model@.len() == 0 && s.ollama_endpoint@.len() == 0,
        !f.live_action_items,
{
}

/// While a speech model is downloaded its row says how far that is; one that failed
/// says why.
pub proof fn speech_downloads_are_shown(
    cache: &SettingsCache,
    model: &ModelInfo,
    mb: u64,
    of_mb: String,
    p: u64,
    of_p: String,
    r: ModelRow,
)
    requires
        call_ensures(whisper_row, (cache, model), r),
        mb == model.size_mb,
        call_ensures(to_decimal, (mb,), of_mb),
        call_ensures(to_decimal, (p,), of_p),
    ensures
        cache.download_progress@.contains_key(model.name@) && cache.download_progress@[model.name@] == p
            ==> r.detail@ == model.accuracy@ + " · "@ + of_mb@ + " MB · "@ + ("Downloading… "@ + of_p@
            + "%"@) && r.can_cancel && !r.can_download && !r.can_delete,
        !cache.download_progress@.contains_key(model.name@) && cache.whisper_models@.len() == 0 ==> (
        model.status matches ModelStatus::Downloading { progress } ==> (progress == p ==> r.detail@
            == model.accuracy@ + " · "@ + of_mb@ + " MB · "@ + ("Downloading… "@ + of_p@ + "%"@))),
        !cache.download_progress@.contains_key(model.name@) && cache.whisper_models@.len() == 0 ==> (
        model.status matches ModelStatus::Error(e) ==> r.detail@ == model.accuracy@ + " · "@ + of_mb@
            + " MB · "@ + ("Error: "@ + e@)),
{
}

/// While a built-in model is downloaded its row says how far that is; one that is
/// broken says so.
pub proof fn built_in_downloads_are_shown(
    cache: &SettingsCache,
    model: &BuiltinModel,
    size: String,
    p: u64,
    of_p: String,
    r: (String, BuiltinAction),
)
    requires
        call_ensures(builtin_row, (cache, model), r),
        call_ensures(format_size_mb, (model.size_mb,), size),
        call_ensures(to_decimal, (p,), of_p),
    ensures
        cache.builtin_download_progress@.contains_key(model.name@)
            && cache.builtin_download_progress@[model.name@] == p ==> r.0@ == size@ + " · "@ + (
        "Downloading… "@ + of_p@ + "%"@) && r.1 is Cancel,
        !cache.builtin_download_progress@.contains_key(model.name@) ==> (
        model.status matches crate::settings::cache::BuiltinStatus::Downloading { progress } ==> (
        progress == p ==> r.0@ == size@ + " · "@ + ("Downloading… "@ + of_p@ + "%"@))),
        !cache.builtin_download_progress@.contains_key(model.name@) && model.status is Corrupted
            ==> r.0@ == size@ + " · "@ + "Corrupted — re-download"@,
        !cache.builtin_download_progress@.contains_key(model.name@) ==> (
        model.status matches crate::settings::cache::BuiltinStatus::Error(e) ==> r.0@ == size@ + " · "@
            + ("Error: "@ + e@)),
{
}

} // verus!
