use parley::clock::Stamp;
use parley::json::Blob;
use parley::recording::controls::{
    button_state, default_meeting_title, format_elapsed, levels_from_update, row_time, stop_path, stop_save_path,
    AudioLevelData, ButtonState, ElapsedClock, Levels, RecordingPhase,
};
use parley::recording::devices::{
    device_options, picked_device, plan_start, recording_pickers, saved_preference, Device, DeviceKind, MatchedEvent,
};
use parley::recording::page::{
    action_item_key, event_kind, extractor_to_start, is_own_voice, user_message, EventKind, Extractor, ListEdit,
    RecordingEvent, RecordingView, ToastKind, TranscriptUpdate,
};
use parley::recording::rows::{upsert_row, RowChange, TranscriptRow};
use parley::settings::config::FeatureToggles;

const SECOND: i64 = 1_000_000_000;

fn row(seq: u64, start: i64, text: &str) -> TranscriptRow {
    TranscriptRow {
        sequence_id: seq,
        audio_start_time: start * SECOND,
        speaker: "You".to_string(),
        text: text.to_string(),
        source: "mic".to_string(),
    }
}

fn update(seq: u64, start: i64, text: &str, source: &str) -> RecordingEvent {
    RecordingEvent::Update(TranscriptUpdate {
        sequence_id: seq,
        audio_start_time: start * SECOND,
        speaker: None,
        text: text.to_string(),
        source: source.to_string(),
    })
}

fn fixed_local_instant() -> Stamp {
    Stamp { year: 2026, month: 9, day: 11, hour: 8, minute: 25, second: 23 }
}

fn device(id: &str, kind: DeviceKind) -> Device {
    Device { id: id.to_string(), label: format!("Device {id}"), kind }
}

#[test]
fn upsert_inserts_in_chronological_order_even_out_of_arrival_order() {
    let mut rows = Vec::new();
    upsert_row(&mut rows, row(2, 5, "second"));
    upsert_row(&mut rows, row(1, 1, "first"));
    upsert_row(&mut rows, row(3, 10, "third"));
    let texts: Vec<&str> = rows.iter().map(|r| r.text.as_str()).collect();
    assert_eq!(texts, vec!["first", "second", "third"]);
}

#[test]
fn upsert_replaces_a_row_with_the_same_sequence_id_in_place() {
    let mut rows = Vec::new();
    upsert_row(&mut rows, row(1, 1, "first"));
    upsert_row(&mut rows, row(2, 2, "second"));
    let change = upsert_row(&mut rows, row(1, 1, "first (revised)"));
    assert_eq!(change, RowChange::ReplacedAt(0));
    assert_eq!(rows.len(), 2);
    assert_eq!(rows[0].text, "first (revised)");
    assert_eq!(rows[1].text, "second");
}

#[test]
fn upsert_repositions_a_row_whose_order_key_changed() {
    let mut rows = Vec::new();
    upsert_row(&mut rows, row(1, 1, "first"));
    upsert_row(&mut rows, row(2, 2, "second"));
    let change = upsert_row(&mut rows, row(1, 3, "first (moved later)"));
    assert_eq!(change, RowChange::Repositioned { removed_at: 0, inserted_at: 1 });
    let texts: Vec<&str> = rows.iter().map(|r| r.text.as_str()).collect();
    assert_eq!(texts, vec!["second", "first (moved later)"]);
}

#[test]
fn duplicate_sequence_id_and_order_key_is_a_true_no_op_replace() {
    let mut rows = Vec::new();
    upsert_row(&mut rows, row(1, 1, "first"));
    let change = upsert_row(&mut rows, row(1, 1, "first"));
    assert_eq!(change, RowChange::ReplacedAt(0));
    assert_eq!(rows.len(), 1);
}

#[test]
fn upsert_reports_appended_for_the_common_in_order_case() {
    let mut rows = Vec::new();
    assert_eq!(upsert_row(&mut rows, row(1, 1, "first")), RowChange::Appended);
    assert_eq!(upsert_row(&mut rows, row(2, 2, "second")), RowChange::Appended);
}

#[test]
fn upsert_reports_inserted_at_for_a_late_out_of_order_arrival() {
    let mut rows = Vec::new();
    upsert_row(&mut rows, row(1, 1, "first"));
    upsert_row(&mut rows, row(3, 3, "third"));
    let change = upsert_row(&mut rows, row(2, 2, "second"));
    assert_eq!(change, RowChange::InsertedAt(1));
}

#[test]
fn elapsed_formats_mm_ss_under_an_hour() {
    assert_eq!(format_elapsed(0), "00:00");
    assert_eq!(format_elapsed(5), "00:05");
    assert_eq!(format_elapsed(65), "01:05");
    assert_eq!(format_elapsed(3599), "59:59");
}

#[test]
fn elapsed_formats_h_mm_ss_past_an_hour() {
    assert_eq!(format_elapsed(3600), "1:00:00");
    assert_eq!(format_elapsed(3661), "1:01:01");
}

#[test]
fn default_title_matches_frontend_format() {
    assert_eq!(default_meeting_title(&fixed_local_instant()), "Meeting 11_09_26_08_25_23");
}

#[test]
fn stop_save_path_matches_the_shared_recording_dash_timestamp_wav_shape() {
    let path = stop_save_path("/tmp/app-data", &fixed_local_instant());
    assert_eq!(path, "/tmp/app-data/recording-2026-09-11T08-25-23.wav");
    assert_eq!(stop_path(&None, &fixed_local_instant()), "recording.wav");
}

#[test]
fn levels_are_read_by_role_key() {
    let levels = vec![
        AudioLevelData { device_name: "mic".to_string(), rms_level: 0.42 },
        AudioLevelData { device_name: "system".to_string(), rms_level: 0.13 },
    ];
    let levels = levels_from_update(&levels, 0.0);
    assert_eq!(levels.mic, 0.42);
    assert_eq!(levels.system, 0.13);
}

#[test]
fn levels_default_to_zero_when_a_source_is_missing() {
    let none: Vec<AudioLevelData<f32>> = Vec::new();
    let Levels { mic, system } = levels_from_update(&none, 0.0);
    assert_eq!((mic, system), (0.0, 0.0));
}

#[test]
fn button_state_matches_the_recording_lifecycle() {
    assert_eq!(button_state(RecordingPhase::Idle), ButtonState { can_start: true, ..Default::default() });
    assert_eq!(button_state(RecordingPhase::Error), ButtonState { can_start: true, ..Default::default() });
    assert_eq!(button_state(RecordingPhase::Starting), ButtonState::default());
    assert_eq!(
        button_state(RecordingPhase::Recording),
        ButtonState { can_pause: true, can_stop: true, ..Default::default() }
    );
    assert_eq!(
        button_state(RecordingPhase::Paused),
        ButtonState { can_resume: true, can_stop: true, ..Default::default() }
    );
    assert_eq!(button_state(RecordingPhase::Stopping), ButtonState::default());
    assert_eq!(button_state(RecordingPhase::Finalising), ButtonState::default());
}

#[test]
fn the_clock_runs_while_recording_and_stands_while_paused() {
    let mut clock = ElapsedClock::default();
    clock.rebase(Some(10_000), RecordingPhase::Recording, 1_000);
    assert_eq!(clock.displayed_secs(3_500), 12);
    clock.rebase(Some(12_500), RecordingPhase::Paused, 3_500);
    assert_eq!(clock.displayed_secs(9_000), 12);
    assert_eq!(row_time(65 * SECOND), "01:05");
    assert_eq!(row_time(-5), "00:00");
}

#[test]
fn devices_are_offered_by_kind() {
    let devices = vec![device("a", DeviceKind::Microphone), device("b", DeviceKind::System)];
    let mics = device_options(&devices, DeviceKind::Microphone, "Default");
    assert_eq!(mics.len(), 2);
    assert_eq!(mics[1].label, "Device a");
    let (mics, systems) = recording_pickers(&devices);
    assert_eq!((mics.len(), systems.len()), (2, 2));
    assert_eq!(saved_preference("default".to_string()), None);
    assert_eq!(picked_device(&saved_preference("a".to_string())), "a");
    assert_eq!(picked_device(&None), "default");
}

#[test]
fn recordings_take_the_name_of_the_event() {
    let event = Some(MatchedEvent { id: "e1".to_string(), summary: Some("Standup".to_string()) });
    let plan = plan_start("typed", &event);
    assert_eq!(plan.title, "Standup");
    assert_eq!(plan.event_id.as_deref(), Some("e1"));
    assert_eq!(plan.notice.as_deref(), Some("Linked to \"Standup\" from your calendar"));
    assert_eq!(plan_start("typed", &None).title, "typed");
}

#[test]
fn a_recording_runs_from_start_to_stop() {
    let mut page = RecordingView::new();
    let r = page.handle_core_event(RecordingEvent::State { phase: RecordingPhase::Starting, active_ms: None }, 0);
    assert_eq!(r.edits, vec![ListEdit { from: 0, to: 0, count: 0 }]);
    let r = page.handle_core_event(
        RecordingEvent::State { phase: RecordingPhase::Recording, active_ms: Some(0) },
        0,
    );
    assert_eq!(r.extractor, Extractor::Start);
    page.handle_core_event(RecordingEvent::Partial { source: "mic".to_string(), text: "hel".to_string() }, 0);
    let draw = page.draw(2_000);
    assert_eq!(draw.partials, vec![("You (live)", "hel".to_string())]);
    assert_eq!(draw.elapsed, "00:02");
    assert!(!draw.devices_enabled);
    let r = page.handle_core_event(update(1, 1, "hello", "mic"), 0);
    assert_eq!(r.edits, vec![ListEdit { from: 0, to: 0, count: 1 }]);
    assert!(page.draw(0).partials.is_empty());
    assert_eq!(page.rows[0].speaker, "Me");
    assert!(is_own_voice(&page.rows[0]));
    page.handle_core_event(
        RecordingEvent::LiveActionItems(vec!["Call Bob".to_string(), " call  bob. ".to_string()]),
        0,
    );
    assert_eq!(page.draw(0).items, vec!["• Call Bob".to_string()]);
    page.handle_core_event(RecordingEvent::Refining, 0);
    assert_eq!(page.draw(0).note, Some("Refining meeting…"));
    page.pending_calendar_event_id = Some("e1".to_string());
    let r = page.handle_core_event(
        RecordingEvent::Stopped { meeting_id: Some("m1".to_string()), folder_path: Some("/f".to_string()) },
        0,
    );
    assert_eq!(r.open.as_deref(), Some("m1"));
    assert_eq!(r.refine, Some(("m1".to_string(), "/f".to_string())));
    assert_eq!(r.link, Some(("m1".to_string(), "e1".to_string())));
    assert_eq!(page.pending_calendar_event_id, None);
}

#[test]
fn problems_are_queued_as_messages() {
    let mut page = RecordingView::new();
    page.handle_core_event(RecordingEvent::RecordingError("no mic".to_string()), 0);
    page.handle_core_event(RecordingEvent::Warning("low disk".to_string()), 0);
    let toasts = page.take_toasts();
    assert_eq!(toasts.len(), 2);
    assert_eq!(toasts[0].kind, ToastKind::Error);
    assert_eq!(toasts[1].kind, ToastKind::Warning);
    assert!(page.take_toasts().is_empty());
}

#[test]
fn live_items_are_the_same_in_any_case_and_spacing() {
    assert_eq!(action_item_key("  Call   BOB. "), action_item_key("call bob"));
    assert_eq!(event_kind("recording-stopped"), EventKind::Stopped);
    assert_eq!(event_kind("x"), EventKind::Other);
}

#[test]
fn live_items_need_a_database_a_switch_and_a_model() {
    let model = Some(("ollama".to_string(), "llama3".to_string()));
    let on = Some(FeatureToggles { live_action_items: true });
    let off = Some(FeatureToggles { live_action_items: false });
    assert_eq!(extractor_to_start(true, &on, model.clone()), model);
    assert_eq!(extractor_to_start(false, &on, model.clone()), None);
    assert_eq!(extractor_to_start(true, &off, model.clone()), None);
    assert_eq!(extractor_to_start(true, &None, model), None);
    assert_eq!(extractor_to_start(true, &on, None), None);
}

#[test]
fn a_page_that_opens_on_a_recording_takes_it_over() {
    let mut page = RecordingView::new();
    page.handle_core_event(update(1, 1, "hello", "mic"), 0);
    page.sync_initial_state(RecordingPhase::Recording, Some(60_000), 1_000);
    assert_eq!(page.phase, RecordingPhase::Recording);
    assert_eq!(page.draw(3_000).elapsed, "01:02");
    assert_eq!(page.rows.len(), 1);
    let r = page.handle_core_event(
        RecordingEvent::State { phase: RecordingPhase::Recording, active_ms: Some(62_000) },
        3_000,
    );
    assert_eq!(r.extractor, Extractor::Keep);
}

#[test]
fn transcription_errors_carry_a_message() {
    let told = Blob::parse("{\"userMessage\":\"No model\",\"code\":3}").unwrap();
    assert_eq!(user_message(&told).as_deref(), Some("No model"));
    assert_eq!(user_message(&Blob::parse("{\"userMessage\":7}").unwrap()), None);
    assert_eq!(user_message(&Blob::null()), None);
}
