use chrono::{DateTime, Utc};
use parley::action_items::items::ActionItem;
use parley::clock::Moment;
use parley::meeting::format::{Confidence, ConfidenceLevel, MeetingTranscript};
use parley::meeting::items::{next_source, ExtractSource, ItemsPanel};
use parley::meeting::notes::{note_footer, MeetingNote, NotesPanel};
use parley::meeting::page::{
    export_label, export_save_message, meeting_event_kind, wants_confidence, CopyOutcome, ExportEnd, MeetingDetails, MeetingEventKind, MeetingView,
    PlayStep, Tone, TranscriptBody,
};
use parley::meeting::retranscribe::{language_typed, OpenStep, RetranscribePanel, StartStep};
use parley::meeting::speaker_chip::{Attendee, AttendeeSuggestion};
use parley::meeting::speakers::{
    finish_profiles, finish_save, picked_attendee, toggle_speaker_edit, SpeakerEditState, SpeakerSave, VoiceProfile,
};
use parley::meeting::summary::{
    lower_status_kind, markdown_in, status_kind, GenerateStep, StatusKind, SummaryPanel, SummaryPhase, SummaryProcess,
};
use parley::whisper::models::{ModelInfo, ModelStatus};

const SECOND: i64 = 1_000_000_000;

fn now() -> Moment {
    let t = Utc::now();
    Moment { seconds: t.timestamp(), nanos: t.timestamp_subsec_nanos() }
}

fn templates() -> Vec<(String, String, String)> {
    ["standard_meeting", "retro", "one_on_one"]
        .iter()
        .map(|id| (id.to_string(), format!("Name of {id}"), "".to_string()))
        .collect()
}

fn piece(id: &str, text: &str) -> MeetingTranscript {
    MeetingTranscript {
        id: id.to_string(),
        text: text.to_string(),
        timestamp: "t".to_string(),
        audio_start_time: Some(0),
        audio_end_time: Some(2 * SECOND),
        duration: None,
        speaker: None,
        voice_profile_id: None,
        source: None,
        confidence: Some(Confidence { percent: 45, level: ConfidenceLevel::Medium }),
    }
}

fn details() -> MeetingDetails {
    MeetingDetails {
        title: "Sync".to_string(),
        created_at: "2026-07-15T10:00:00Z".to_string(),
        transcripts: vec![piece("s1", "Hello"), piece("s2", "World")],
    }
}

fn open_page() -> MeetingView {
    let mut page = MeetingView::new(templates());
    assert!(page.load("m1".to_string(), true));
    page.finish_load(1, Ok(Some(details())), Some(Some("/rec".to_string())));
    page
}

fn process(status: &str, result: Option<&str>, error: Option<&str>) -> SummaryProcess {
    SummaryProcess {
        status: status.to_string(),
        result: result.map(str::to_string),
        error: error.map(str::to_string),
    }
}

fn note(id: &str, created_at: &str) -> MeetingNote {
    MeetingNote {
        id: id.to_string(),
        body: "b".to_string(),
        source: "manual".to_string(),
        created_at: created_at.to_string(),
    }
}

fn profile(id: &str, name: &str, email: Option<&str>) -> VoiceProfile {
    VoiceProfile { id: id.to_string(), name: name.to_string(), email: email.map(str::to_string) }
}

fn model(name: &str, status: ModelStatus) -> ModelInfo {
    ModelInfo {
        name: name.to_string(),
        path: "".to_string(),
        size_mb: 1,
        accuracy: "".to_string(),
        speed: "".to_string(),
        status,
        description: "".to_string(),
    }
}

#[test]
fn replies_for_a_meeting_that_was_left_are_dropped() {
    let mut page = MeetingView::new(templates());
    page.load("m1".to_string(), true);
    page.load("m2".to_string(), true);
    page.finish_load(1, Ok(Some(details())), Some(Some("/rec".to_string())));
    assert_eq!(page.title, "");
    assert!(page.transcripts_loading);
    page.finish_summary(1, Ok(Some(process("completed", Some("{\"markdown\":\"old\"}"), None))));
    assert_eq!(page.summary.markdown, "");
    page.finish_load(2, Ok(None), None);
    assert_eq!(page.transcript_body(), TranscriptBody::Failed("Meeting not found".to_string()));
}

#[test]
fn meetings_are_loaded_and_renamed() {
    let mut page = open_page();
    assert_eq!(page.header_title(), "Sync");
    let created = DateTime::parse_from_rfc3339("2026-07-15T10:00:00Z").unwrap();
    assert_eq!(page.created_at.unwrap().seconds, created.timestamp());
    assert_eq!(page.transcript_body(), TranscriptBody::Rows);
    assert!(page.can_retranscribe());
    assert_eq!(page.start_edit_title(), "Sync");
    assert_eq!(page.save_title("  ", true), None);
    assert!(page.editing_title);
    assert_eq!(page.save_title(" Plan ", true), Some(("m1".to_string(), " Plan ".to_string())));
    assert_eq!(page.header_title(), " Plan ");
    page.title = " ".to_string();
    assert_eq!(page.header_title(), "Untitled meeting");
}

#[test]
fn meetings_that_cannot_be_loaded_say_why() {
    let mut page = MeetingView::new(templates());
    assert_eq!(page.transcript_body(), TranscriptBody::Empty);
    assert!(!page.load("m1".to_string(), false));
    assert!(matches!(page.transcript_body(), TranscriptBody::Failed(_)));
    page.load("m1".to_string(), true);
    assert_eq!(page.transcript_body(), TranscriptBody::Loading);
    page.finish_load(2, Err("locked".to_string()), None);
    assert_eq!(page.transcript_body(), TranscriptBody::Failed("Failed to load meeting: locked".to_string()));
}

#[test]
fn stored_summaries_are_read() {
    assert_eq!(markdown_in(&Some("{\"markdown\":\"# Hi\",\"x\":1}".to_string())).as_deref(), Some("# Hi"));
    assert_eq!(markdown_in(&Some("{\"markdown\":7}".to_string())), None);
    assert_eq!(markdown_in(&Some("[\"markdown\"]".to_string())), None);
    assert_eq!(markdown_in(&Some("no json".to_string())), None);
    assert_eq!(markdown_in(&None), None);
    assert_eq!(status_kind("PENDING"), StatusKind::Running);
    assert_eq!(status_kind("Failed"), StatusKind::Failed);
    assert_eq!(lower_status_kind("summarizing"), StatusKind::Running);
    assert_eq!(lower_status_kind("completed"), StatusKind::Settled);
}

#[test]
fn summaries_settle_run_or_fail() {
    let mut page = open_page();
    page.finish_summary(1, Ok(Some(process("completed", Some("{\"markdown\":\"# Hi\"}"), None))));
    assert_eq!(page.summary.phase, SummaryPhase::Idle);
    assert_eq!(page.summary.shown, "# Hi");
    assert_eq!(page.summary.header().button, "Regenerate summary");
    page.finish_summary(1, Ok(Some(process("processing", None, None))));
    assert_eq!(page.summary.phase, SummaryPhase::Generating);
    assert!(page.summary.polling && page.summary.keeps_polling());
    assert_eq!(page.summary.markdown, "# Hi");
    page.finish_summary(1, Ok(Some(process("error", None, None))));
    assert_eq!(page.summary.phase, SummaryPhase::Error("Summary generation failed".to_string()));
    page.finish_summary(1, Err("x".to_string()));
    assert_eq!(page.summary.header().status.as_deref(), Some("Failed to load summary: x"));
    page.finish_summary(1, Ok(None));
    assert_eq!(page.summary.phase, SummaryPhase::Idle);
}

#[test]
fn summaries_are_made_from_the_transcript() {
    let mut page = open_page();
    assert_eq!(page.generate_summary(false), (GenerateStep::Ignored, None));
    let (step, ask) = page.generate_summary(true);
    assert_eq!(step, GenerateStep::Start);
    let ask = ask.unwrap();
    assert_eq!(ask.transcript, "[00:00] Hello\n[00:00] World");
    assert_eq!(ask.template_id, "standard_meeting");
    page.continue_generate(1, false);
    assert_eq!(
        page.summary.phase,
        SummaryPhase::Error("No model configured — set one up in Settings first.".to_string())
    );
    page.transcripts.clear();
    assert_eq!(page.generate_summary(true).0, GenerateStep::NoTranscript);
}

#[test]
fn streamed_summaries_are_shown_bit_by_bit() {
    let mut page = open_page();
    assert!(!page.on_summary_stream("m2", "x", false));
    assert!(!page.on_summary_stream("m1", "", false));
    let text = "ééééééééééééééééééééé end";
    assert!(page.on_summary_stream("m1", text, false));
    assert!(!page.on_summary_stream("m1", "!", false));
    assert_eq!(page.summary.markdown, format!("{text}!"));
    assert_eq!(page.summary.shown, "");
    let mut steps = 0;
    loop {
        let done = page.reveal_tick(1);
        steps += 1;
        assert_eq!(format!("{}{}", page.summary.shown, page.summary.pending), page.summary.markdown);
        if done {
            break;
        }
    }
    assert!(steps > 3);
    assert_eq!(page.summary.shown, page.summary.markdown);
    assert!(!page.on_summary_stream("m1", " now", true));
    assert!(page.summary.shown.ends_with(" now"));
    assert!(page.reveal_tick(7));
}

#[test]
fn edits_of_a_summary_are_kept_until_saved() {
    let mut page = open_page();
    page.finish_summary(1, Ok(Some(process("completed", Some("{\"markdown\":\"a\"}"), None))));
    assert_eq!(page.summary.start_edit(), "a");
    assert!(page.has_unsaved_summary_edits("b"));
    assert!(!page.has_unsaved_summary_edits("a"));
    assert_eq!(page.save_summary_and_leave("b", true), Some(("m1".to_string(), "b".to_string())));
    assert_eq!(page.summary.header().save_label, "Saving…");
    page.finish_save_summary(1, false, "b");
    assert!(page.summary.editing && !page.summary.saving);
    page.finish_save_summary(1, true, "b");
    assert_eq!(page.summary.markdown, "b");
    assert!(!page.summary.editing);
    page.summary.start_edit();
    page.discard_summary_edits();
    assert!(!page.has_unsaved_summary_edits("c"));
    page.finish_save_summary(9, true, "other");
    assert_eq!(page.summary.markdown, "b");
}

#[test]
fn templates_are_gone_through_in_turn() {
    let mut panel = SummaryPanel::new(templates());
    panel.apply_default_template(Some("one_on_one"));
    assert_eq!(panel.selected_template, "one_on_one");
    panel.cycle_template();
    assert_eq!(panel.selected_template, "standard_meeting");
    panel.cycle_template();
    assert_eq!(panel.selected_template, "retro");
    assert_eq!(panel.header().template, "Name of retro");
    assert_eq!(panel.header().template_hint, "Summary template");
    panel.apply_default_template(Some("one_on_one"));
    assert_eq!(panel.selected_template, "retro");
    let mut none = SummaryPanel::new(Vec::new());
    none.cycle_template();
    assert_eq!(none.selected_template, "standard_meeting");
    assert_eq!(none.header().template, "Template");
    panel.toggle_custom_prompt();
    assert!(panel.show_custom_prompt);
}

#[test]
fn transcripts_and_summaries_are_copied() {
    let mut page = open_page();
    assert!(matches!(page.copy_transcript(), CopyOutcome::Copy(text, "Transcript copied to clipboard")
        if text.starts_with("# Transcript of the Meeting: m1 - Sync")));
    assert_eq!(page.copy_summary(&now()), CopyOutcome::Nothing("No summary content available to copy"));
    page.summary.markdown = "# Hi".to_string();
    assert!(matches!(page.copy_summary(&now()), CopyOutcome::Copy(text, _) if text.ends_with("# Hi")));
    page.transcripts.clear();
    assert_eq!(page.copy_transcript(), CopyOutcome::Nothing("No transcripts available to copy"));
    assert_eq!(export_label("json"), "Meeting copied as JSON");
    assert_eq!(export_label("markdown"), "Meeting copied as Markdown");
}

#[test]
fn audio_is_transcribed_again() {
    let mut panel = RetranscribePanel::new();
    assert_eq!(panel.open_panel(false), OpenStep::NoAudio);
    assert_eq!(panel.open_panel(true), OpenStep::LoadModels);
    panel.finish_models(Some(vec![
        model("a", ModelStatus::Available),
        model("b", ModelStatus::Missing),
        model("c", ModelStatus::Available),
    ]));
    assert_eq!(panel.model_label(), "a");
    panel.cycle_model();
    assert_eq!(panel.model_label(), "c");
    panel.cycle_model();
    assert_eq!(panel.model_label(), "a");
    let (id, folder) = (Some("m1".to_string()), Some("/rec".to_string()));
    assert_eq!(panel.start(&id, &None, false, ""), StartStep::Ignored);
    assert_eq!(panel.start(&id, &folder, true, ""), StartStep::Busy);
    match panel.start(&id, &folder, false, " fr ") {
        StartStep::Start(ask) => {
            assert_eq!(ask.language.as_deref(), Some("fr"));
            assert_eq!(ask.model.as_deref(), Some("a"));
            assert_eq!(ask.provider.as_deref(), Some("localWhisper"));
        }
        other => panic!("{other:?}"),
    }
    assert_eq!(panel.progress_line(), "0% — Starting…");
    panel.on_progress(40, "Decoding".to_string());
    assert_eq!(panel.progress_line(), "40% — Decoding");
    assert_eq!(panel.on_complete(3), "Retranscription complete: 3 segments");
    panel.on_error("x".to_string());
    assert!(!panel.shows_form());
    assert_eq!(language_typed("AUTO"), None);
    assert_eq!(language_typed(" "), None);
}

#[test]
fn reports_about_another_meeting_are_ignored() {
    let mut page = open_page();
    page.on_retranscription_progress("m2", 40, "x".to_string());
    assert_eq!(page.retranscribe.progress_pct, 0);
    page.on_retranscription_progress("m1", 40, "x".to_string());
    assert_eq!(page.retranscribe.progress_pct, 40);
    assert_eq!(page.on_retranscription_complete("m2", 1), None);
    assert!(page.on_retranscription_complete("m1", 1).is_some());
    page.on_retranscription_error("m1", "bad".to_string());
    assert_eq!(page.retranscribe.error.as_deref(), Some("bad"));
    assert!(!page.on_action_items_extracted("m2"));
    assert!(page.on_action_items_extracted("m1"));
}

#[test]
fn one_piece_plays_at_a_time() {
    let mut page = open_page();
    assert_eq!(page.toggle_segment_playback("s1", false), PlayStep::Ignored);
    assert_eq!(page.toggle_segment_playback("s1", true), PlayStep::Play);
    assert_eq!(page.toggle_segment_playback("s2", true), PlayStep::Play);
    assert_eq!(page.finish_play(1, "s1", Ok(())), None);
    assert_eq!(page.playing_segment, None);
    assert_eq!(page.finish_play(1, "s2", Ok(())), None);
    assert!(page.segment_row(&piece("s2", "x")).is_playing);
    assert_eq!(page.toggle_segment_playback("s2", true), PlayStep::Stop);
    assert_eq!(page.toggle_segment_playback("s1", true), PlayStep::Play);
    assert!(page.segment_row(&piece("s1", "x")).is_loading);
    assert_eq!(page.finish_play(1, "s1", Err("no clip".to_string())).as_deref(), Some("no clip"));
    page.on_segment_playback_ended();
    assert_eq!(page.loading_segment, None);
}

#[test]
fn rows_show_time_speaker_and_confidence() {
    let mut page = open_page();
    let row = page.segment_row(&piece("s1", "Hello"));
    assert_eq!((row.time.as_str(), row.speaker.as_str()), ("[00:00]", "Speaker"));
    assert!(!row.editable && row.can_play);
    assert_eq!(row.confidence, None);
    page.finish_confidence(1, &Some("{\"showConfidenceIndicator\":true}".to_string()));
    let row = page.segment_row(&piece("s1", "Hello"));
    assert_eq!(row.confidence, Some((Tone::Warning, "45% confidence - Medium confidence".to_string())));
    let mut named = piece("s1", "Hello");
    named.speaker = Some("Speaker 1".to_string());
    named.audio_end_time = Some(0);
    let row = page.segment_row(&named);
    assert!(row.editable && !row.can_play && !row.highlighted);
}

#[test]
fn confidence_is_shown_unless_it_is_off() {
    assert!(wants_confidence(&None));
    assert!(wants_confidence(&Some("broken".to_string())));
    assert!(wants_confidence(&Some("{\"showConfidenceIndicator\":\"no\"}".to_string())));
    assert!(!wants_confidence(&Some("{\"showConfidenceIndicator\":false}".to_string())));
}

#[test]
fn speaker_panels_open_and_close() {
    let mut open: Option<SpeakerEditState> = None;
    assert!(toggle_speaker_edit(&mut open, "s1", "Speaker 1", None, &None));
    assert!(!toggle_speaker_edit(&mut open, "s1", "Speaker 1", None, &None));
    assert!(open.is_none());
    assert!(toggle_speaker_edit(&mut open, "s1", "Speaker 1", None, &None));
    let profiles = vec![profile("p1", "Alice", Some("a@x")), profile("p2", "Bob", None)];
    assert_eq!(finish_profiles(&mut open, "other", Some(Vec::new())), None);
    assert_eq!(finish_profiles(&mut open, "s1:Speaker 1", Some(profiles)), None);
    let state = open.as_mut().unwrap();
    assert_eq!(state.target_label().as_deref(), Some("Create new speaker…"));
    assert_eq!(state.begin_save(" ", ""), None);
    assert_eq!(
        state.begin_save(" Carol ", " "),
        Some(SpeakerSave::Promote { speaker: "Speaker 1".to_string(), name: "Carol".to_string(), email: None })
    );
    assert_eq!(state.save_label(), "Saving…");
    assert!(!finish_save(&mut open, "s1:Speaker 1", Err("taken".to_string())));
    let state = open.as_mut().unwrap();
    assert_eq!(state.error.as_deref(), Some("taken"));
    state.cycle_merge_target();
    assert_eq!(state.target_label().as_deref(), Some("Alice"));
    assert_eq!(
        state.merge_note().as_deref(),
        Some("This cluster's samples will be folded into Alice (a@x), and every transcript from this meeting will be relabelled.")
    );
    assert_eq!(state.save_label(), "Merge");
    assert!(state.can_save(""));
    assert!(matches!(state.begin_save("", ""), Some(SpeakerSave::Merge { profile_id, .. }) if profile_id == "p1"));
    state.cycle_merge_target();
    state.cycle_merge_target();
    assert_eq!(state.merge_target, None);
    assert!(finish_save(&mut open, "s1:Speaker 1", Ok(())));
    assert!(open.is_none());
}

#[test]
fn named_speakers_are_renamed() {
    let mut open: Option<SpeakerEditState> = None;
    toggle_speaker_edit(&mut open, "s1", "Alice", Some("p1".to_string()), &None);
    let profiles = vec![profile("p1", "Alice", Some("a@x"))];
    assert_eq!(finish_profiles(&mut open, "s1:Alice", Some(profiles)).as_deref(), Some("a@x"));
    let state = open.as_mut().unwrap();
    assert_eq!(state.target_label(), None);
    assert_eq!(
        state.begin_save("Alicia", " a@y "),
        Some(SpeakerSave::Rename {
            profile_id: "p1".to_string(),
            name: "Alicia".to_string(),
            email: Some("a@y".to_string())
        })
    );
}

#[test]
fn attendees_are_offered_as_names() {
    let mut open: Option<SpeakerEditState> = None;
    let t = now();
    let event = parley::meeting::calendar::CalendarEvent {
        id: "e".to_string(),
        summary: None,
        location: None,
        start_at: t,
        end_at: t,
        attendees: vec![Attendee {
            name: Some("Alice".to_string()),
            email: None,
            role: None,
            status: None,
            is_organizer: false,
        }],
    };
    toggle_speaker_edit(&mut open, "s1", "Speaker 1", None, &Some(event));
    let state = open.unwrap();
    assert_eq!(state.chips("ali"), vec![("Alice".to_string(), false)]);
    assert_eq!(state.chips(" Alice "), vec![("Alice".to_string(), true)]);
    assert!(state.chips("bob").is_empty());
}

#[test]
fn notes_are_added_and_put_back() {
    let mut panel = NotesPanel::new();
    panel.finish_load(Some(vec![note("1", "2026-01-01"), note("2", "2026-01-02")]));
    panel.set_composing(true);
    assert_eq!(panel.begin_save("  "), None);
    assert_eq!(panel.begin_save(" hi ").as_deref(), Some("hi"));
    assert_eq!(panel.begin_save("again"), None);
    assert_eq!(panel.finish_save(true, Err("full".to_string())).as_deref(), Some("Failed to add note: full"));
    assert!(panel.composing);
    assert_eq!(panel.finish_save(true, Ok(note("3", "2026-01-03"))), None);
    assert!(!panel.composing);
    let removed = panel.begin_delete("2");
    assert_eq!(panel.notes.len(), 2);
    panel.finish_delete(false, removed);
    let ids: Vec<&str> = panel.notes.iter().map(|n| n.id.as_str()).collect();
    assert_eq!(ids, ["1", "2", "3"]);
    assert_eq!(panel.begin_delete("9"), None);
    let removed = panel.begin_delete("1");
    panel.finish_delete(true, removed);
    assert_eq!(panel.notes.len(), 2);
    let mut agent = note("4", "not a date");
    agent.source = "agent".to_string();
    assert_eq!(note_footer(&agent), " · added by an agent");
    assert_eq!(note_footer(&note("5", "not a date")), "");
}

#[test]
fn items_of_a_meeting_are_edited() {
    let mut panel = ItemsPanel::new();
    assert_eq!(panel.header(false).empty_text, Some("No action items yet. Add one below."));
    assert_eq!(panel.header(true).extract_label, Some("Extract from summary"));
    let item = ActionItem {
        id: "1".to_string(),
        meeting_id: "m1".to_string(),
        text: "Call".to_string(),
        assignee: None,
        due_hint: None,
        status: "open".to_string(),
        source: "manual".to_string(),
        external_ref: None,
        source_start_ms: None,
        source_end_ms: None,
        source_quote: None,
        created_at: "t".to_string(),
        updated_at: "t".to_string(),
        completed_at: None,
    };
    panel.finish_load(Some(vec![item]));
    assert_eq!(panel.header(true).badge.as_deref(), Some("1"));
    assert_eq!(panel.toggle_status("1", false), "done");
    assert_eq!(panel.header(true).badge.as_deref(), Some("All done"));
    assert_eq!(panel.header(true).extract_label, Some("Re-extract"));
    assert_eq!(panel.start_edit("1").as_deref(), Some("Call"));
    assert_eq!(panel.save_edit(" Ring ", true), Some(("1".to_string(), "Ring".to_string())));
    panel.set_adding(true);
    assert_eq!(panel.save_add(" "), None);
    assert!(panel.adding);
    assert_eq!(panel.save_add(" New ").as_deref(), Some("New"));
    assert!(!panel.adding);
    assert!(panel.begin_extract());
    assert!(!panel.begin_extract());
    panel.delete("1");
    assert!(panel.items.is_empty());
    assert_eq!(next_source(None, false), Some(ExtractSource::Transcript));
    assert_eq!(next_source(Some(ExtractSource::Transcript), true), Some(ExtractSource::Summary));
    assert_eq!(next_source(Some(ExtractSource::Summary), true), None);
}

#[test]
fn failed_extractions_are_told_for_the_open_meeting() {
    let mut page = open_page();
    assert_eq!(page.finish_extract(1, Ok(2)), (true, None));
    assert_eq!(page.finish_extract(1, Err("x".to_string())).1.as_deref(), Some("Extraction failed: x"));
    assert_eq!(page.finish_extract(5, Err("x".to_string())), (false, None));
}

#[test]
fn meeting_events_are_told_apart_by_name() {
    assert_eq!(meeting_event_kind("summary-stream", "ended"), Some(MeetingEventKind::SummaryStream));
    assert_eq!(meeting_event_kind("ended", "ended"), Some(MeetingEventKind::PlaybackEnded));
    assert_eq!(meeting_event_kind("x", "ended"), None);
}

#[test]
fn the_page_takes_over_what_its_parts_load() {
    let mut page = open_page();
    page.finish_reload_transcript(1, Some(vec![piece("s9", "New")]));
    assert_eq!(page.transcripts[0].id, "s9");
    page.finish_reload_transcript(0, Some(Vec::new()));
    assert_eq!(page.transcripts.len(), 1);
    page.finish_calendar_event(1, Some(None));
    assert!(!page.calendar.loading);
    page.finish_notes(1, Some(vec![note("1", "a"), note("2", "b")]));
    let removed = page.notes.begin_delete("1");
    assert!(page.finish_delete_note(1, false, removed));
    assert_eq!(page.notes.notes[0].id, "1");
    assert!(!page.finish_delete_note(1, true, None));
    page.finish_action_items(1, Some(Vec::new()));
    assert!(!page.items.loading);
    assert_eq!(page.calendar_anchor(&now()).seconds, page.created_at.unwrap().seconds);
    assert_eq!(page.pick_calendar_event(false), None);
    assert_eq!(page.pick_calendar_event(true).as_deref(), Some("m1"));
    assert!(page.calendar.mutating);
    page.calendar.open_picker(true);
    page.finish_calendar_picker(1, Err("late".to_string()), &now());
    assert_eq!(page.calendar.picker_error.as_deref(), Some("late"));
    page.calendar.close_picker();
    assert!(!page.calendar.picker_open);
    assert!(page.finish_speaker_save(1, "k", Ok(())));
    assert!(!page.finish_speaker_save(0, "k", Ok(())));
    page.start_edit_title();
    page.cancel_edit_title();
    assert!(!page.editing_title);
    page.retranscribe.open_panel(true);
    page.retranscribe.close();
    assert!(!page.retranscribe.open);
}

#[test]
fn exports_tell_how_they_ended() {
    assert_eq!(export_save_message(ExportEnd::Cancelled), None);
    assert_eq!(export_save_message(ExportEnd::Written), Some(("Meeting exported", true)));
    assert_eq!(export_save_message(ExportEnd::NotWritten), Some(("Failed to write export", false)));
    assert_eq!(export_save_message(ExportEnd::Failed), Some(("Failed to export meeting", false)));
}

#[test]
fn the_timer_for_a_summary_ends_with_it() {
    let mut page = open_page();
    page.finish_summary(1, Ok(Some(process("pending", None, None))));
    assert_eq!(page.poll_tick(1), (true, true));
    assert_eq!(page.poll_tick(0), (false, true));
    page.finish_summary(1, Ok(None));
    assert_eq!(page.poll_tick(1), (true, false));
}

#[test]
fn picked_attendees_fill_the_fields() {
    let with = AttendeeSuggestion { label: "Ada".to_string(), email: Some("ada@x.org".to_string()) };
    assert_eq!(picked_attendee(&with), ("Ada".to_string(), "ada@x.org".to_string()));
    let without = AttendeeSuggestion { label: "Bo".to_string(), email: None };
    assert_eq!(picked_attendee(&without), ("Bo".to_string(), String::new()));
}

#[test]
fn instructions_show_outside_of_edits() {
    let mut panel = SummaryPanel::new(templates());
    assert!(panel.can_toggle_custom_prompt());
    assert!(!panel.custom_prompt_shows());
    panel.toggle_custom_prompt();
    assert!(panel.custom_prompt_shows());
    let _ = panel.start_edit();
    assert!(!panel.custom_prompt_shows());
    panel.phase = SummaryPhase::Generating;
    assert!(!panel.can_toggle_custom_prompt());
}
