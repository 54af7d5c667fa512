use chrono::{DateTime, Utc};
use parley::clock::Moment;
use parley::fonts::{apply_system_mono_font, strip_pango_size, system_mono_family};
use parley::notifications::{
    due_reminders, maybe_notify, notification_text, reminder_horizon, reminder_tick, should_notify, upcoming_events,
    CalendarEntry, Kind, SettingsMini, UpcomingEvent,
};
use parley::recording::controls::RecordingPhase;
use parley::settings::config::NotificationPreferences;
use parley::tray::{build_menu, tray_event_kind, tray_icon, Tray, TrayAction, TrayEvent, TrayEventKind};
use parley::updates::{check_for_updates, is_newer, ReleaseReply};

fn settings_all_on() -> SettingsMini {
    SettingsMini {
        consent_given: true,
        system_permission_granted: true,
        manual_dnd_mode: false,
        notification_preferences: NotificationPreferences {
            show_recording_started: true,
            show_recording_stopped: true,
            show_recording_paused: true,
            show_recording_resumed: true,
            show_transcription_complete: true,
            show_meeting_reminders: true,
            show_system_errors: true,
            meeting_reminder_minutes: vec![15, 5],
        },
    }
}

fn at(t: DateTime<Utc>) -> Moment {
    Moment { seconds: t.timestamp(), nanos: t.timestamp_subsec_nanos() }
}

fn event(id: &str, minutes_from_now: i64, title: Option<&str>, now: DateTime<Utc>) -> UpcomingEvent {
    UpcomingEvent {
        id: id.to_string(),
        title: title.map(|s| s.to_string()),
        start_at: at(now + chrono::Duration::minutes(minutes_from_now)),
    }
}

#[test]
fn strips_a_trailing_point_size() {
    assert_eq!(strip_pango_size("Adwaita Mono 11").as_deref(), Some("Adwaita Mono"));
    assert_eq!(strip_pango_size("Source Code Pro 10").as_deref(), Some("Source Code Pro"));
}

#[test]
fn keeps_families_without_a_size() {
    assert_eq!(strip_pango_size("Hack").as_deref(), Some("Hack"));
    assert_eq!(strip_pango_size("JetBrains Mono").as_deref(), Some("JetBrains Mono"));
}

#[test]
fn keeps_a_family_whose_last_word_only_contains_a_digit() {
    assert_eq!(strip_pango_size("M+ 1m").as_deref(), Some("M+ 1m"));
}

#[test]
fn small_numbers_belong_to_the_name() {
    assert_eq!(strip_pango_size("Go Mono 2").as_deref(), Some("Go Mono 2"));
    assert_eq!(strip_pango_size("Go Mono 2 10").as_deref(), Some("Go Mono 2"));
    assert_eq!(strip_pango_size("Hack 5").as_deref(), Some("Hack"));
}

#[test]
fn rejects_empty_input() {
    assert_eq!(strip_pango_size("   "), None);
}

#[test]
fn the_first_tool_that_answers_names_the_font() {
    assert_eq!(system_mono_family(Some("'Adwaita Mono 11'\n"), Some("Hack")).as_deref(), Some("Adwaita Mono"));
    assert_eq!(system_mono_family(None, Some("Noto Mono,Noto\n")).as_deref(), Some("Noto Mono"));
    assert_eq!(system_mono_family(Some("''"), None), None);
    let installed = vec!["Hack".to_string()];
    assert_eq!(apply_system_mono_font(Some("Hack".to_string()), &installed).as_deref(), Some("Hack"));
    assert_eq!(apply_system_mono_font(Some("Gone".to_string()), &installed), None);
}

#[test]
fn no_consent_blocks_everything_except_test() {
    let mut settings = settings_all_on();
    settings.consent_given = false;
    assert!(!should_notify(&settings, &Kind::Started));
    assert!(should_notify(&settings, &Kind::Test));
}

#[test]
fn no_system_permission_blocks_everything_except_test() {
    let mut settings = settings_all_on();
    settings.system_permission_granted = false;
    assert!(!should_notify(&settings, &Kind::Stopped));
    assert!(should_notify(&settings, &Kind::Test));
}

#[test]
fn manual_dnd_blocks_everything_except_test() {
    let mut settings = settings_all_on();
    settings.manual_dnd_mode = true;
    assert!(!should_notify(&settings, &Kind::SystemError("boom".to_string())));
    assert!(should_notify(&settings, &Kind::Test));
}

#[test]
fn per_kind_toggle_gates_that_kind_only() {
    let mut settings = settings_all_on();
    settings.notification_preferences.show_recording_paused = false;
    assert!(!should_notify(&settings, &Kind::Paused));
    assert!(should_notify(&settings, &Kind::Resumed));
    assert!(should_notify(&settings, &Kind::Started));
}

#[test]
fn defaults_match_the_tauri_shell_defaults() {
    let settings = SettingsMini::default();
    let p = &settings.notification_preferences;
    assert!(!p.show_recording_started);
    assert!(!p.show_recording_stopped);
    assert!(p.show_recording_paused);
    assert!(p.show_recording_resumed);
    assert!(p.show_transcription_complete);
    assert!(p.show_meeting_reminders);
    assert!(p.show_system_errors);
    assert_eq!(p.meeting_reminder_minutes, vec![15, 5]);
}

#[test]
fn due_reminders_fires_the_largest_reached_threshold() {
    let now = Utc::now();
    let events = vec![event("e1", 12, Some("Standup"), now)];
    let due = due_reminders(&events, &at(now), &vec![15, 5], &Vec::new());
    assert_eq!(due, vec![("e1".to_string(), 15, Some("Standup".to_string()))]);
}

#[test]
fn due_reminders_skips_events_that_already_started() {
    let now = Utc::now();
    let events = vec![event("e1", -1, None, now)];
    let due = due_reminders(&events, &at(now), &vec![15, 5], &Vec::new());
    assert!(due.is_empty());
}

#[test]
fn due_reminders_skips_events_outside_every_threshold() {
    let now = Utc::now();
    let events = vec![event("e1", 30, None, now)];
    let due = due_reminders(&events, &at(now), &vec![15, 5], &Vec::new());
    assert!(due.is_empty());
}

#[test]
fn due_reminders_dedupes_per_event_id() {
    let now = Utc::now();
    let events = vec![event("e1", 3, None, now)];
    let already = vec!["e1".to_string()];
    let due = due_reminders(&events, &at(now), &vec![15, 5], &already);
    assert!(due.is_empty());
}

#[test]
fn a_reminder_is_given_once() {
    let now = Utc::now();
    let entries = vec![
        CalendarEntry {
            id: "e1".to_string(),
            summary: Some("Standup".to_string()),
            start_at: at(now + chrono::Duration::minutes(4)),
            is_all_day: false,
        },
        CalendarEntry {
            id: "e2".to_string(),
            summary: None,
            start_at: at(now + chrono::Duration::minutes(4)),
            is_all_day: true,
        },
    ];
    assert_eq!(upcoming_events(&entries, &at(now)).len(), 1);
    let preferences = NotificationPreferences::default();
    assert_eq!(reminder_horizon(&preferences), Some(16));
    let mut already = Vec::new();
    assert_eq!(reminder_tick(&preferences, &entries, &at(now), &mut already).len(), 1);
    assert_eq!(already, vec!["e1".to_string()]);
    assert!(reminder_tick(&preferences, &entries, &at(now), &mut already).is_empty());
}

#[test]
fn notifications_have_texts() {
    let (_, body) = notification_text(&Kind::MeetingReminder { minutes: 5, title: Some("Standup".to_string()) });
    assert!(body.contains("Standup") && body.contains('5'));
    assert!(maybe_notify(&settings_all_on(), &Kind::Test).is_some());
    let mut quiet = settings_all_on();
    quiet.consent_given = false;
    assert_eq!(maybe_notify(&quiet, &Kind::Stopped), None);
}

#[test]
fn is_newer_detects_a_newer_release() {
    assert_eq!(is_newer("1.2.3", "v1.3.0"), Ok(true));
}

#[test]
fn is_newer_false_when_up_to_date() {
    assert_eq!(is_newer("1.2.3", "v1.2.3"), Ok(false));
}

#[test]
fn is_newer_false_when_current_is_ahead_of_a_stale_release() {
    assert_eq!(is_newer("2.0.0", "v1.9.9"), Ok(false));
}

#[test]
fn is_newer_handles_an_unprefixed_tag() {
    assert_eq!(is_newer("1.0.0", "1.0.1"), Ok(true));
}

#[test]
fn is_newer_errors_on_malformed_versions() {
    assert!(is_newer("1.0.0", "not-a-version").is_err());
}

#[test]
fn update_checks_are_told_in_words() {
    let reply = ReleaseReply::Release { tag_name: "v2.0.0".to_string(), html_url: "https://x".to_string() };
    assert_eq!(check_for_updates("1.0.0", &reply), "Parley 2.0.0 is available — https://x");
    assert_eq!(check_for_updates("2.0.0", &reply), "You're up to date.");
    assert_eq!(check_for_updates("?", &reply), "Couldn't check for updates right now.");
    assert_eq!(check_for_updates("1.0.0", &ReleaseReply::Failed), "Couldn't check for updates right now.");
    assert!(is_newer("1.0.0-beta", "v1.0.0").unwrap());
    assert!(is_newer("", "v1.0.0").unwrap_err().starts_with("couldn't parse the current version ()"));
}

#[test]
fn the_tray_notices_pauses_by_phase() {
    let mut tray = Tray::new();
    assert_eq!(tray.on_event(TrayEvent::State(RecordingPhase::Recording)), None);
    assert_eq!(tray.on_event(TrayEvent::State(RecordingPhase::Paused)), Some(Kind::Paused));
    assert_eq!(tray.on_event(TrayEvent::State(RecordingPhase::Recording)), Some(Kind::Resumed));
    assert_eq!(tray.on_event(TrayEvent::Refined), Some(Kind::TranscriptionComplete));
    assert_eq!(
        tray.on_event(TrayEvent::TranscriptionError(None)),
        Some(Kind::SystemError("Transcription error".to_string()))
    );
    assert_eq!(tray_event_kind("recording-state"), TrayEventKind::State);
    assert_eq!(tray_event_kind("x"), TrayEventKind::Other);
}

#[test]
fn the_tray_menu_offers_what_can_be_done() {
    let menu = build_menu(RecordingPhase::Idle);
    assert_eq!(menu[0].label, "Not recording");
    let enabled: Vec<TrayAction> = menu.iter().filter(|i| i.enabled).map(|i| i.action).collect();
    assert!(enabled.contains(&TrayAction::StartRecording));
    assert!(!enabled.contains(&TrayAction::StopRecording));
}

#[test]
fn the_tray_icon_is_a_red_disc() {
    let icon = tray_icon();
    assert_eq!(icon.len(), 32 * 32 * 4);
    assert_eq!(&icon[0..4], &[0, 0, 0, 0]);
    let middle = (16 * 32 + 16) * 4;
    assert_eq!(&icon[middle..middle + 4], &[220, 70, 70, 255]);
}
