use chrono::{DateTime, Utc};
use parley::clock::{Moment, Stamp};
use parley::meeting::format::{
    build_transcript_text, confidence_tooltip, copy_summary_on, copy_summary_text, copy_transcript_on,
    copy_transcript_text, format_header_date, format_note_time, has_unsaved_summary_edits, header_date, note_time,
    resolve_default_template, segment_timestamp, summary_reveal_chars_per_tick, Confidence, ConfidenceLevel,
    MeetingTranscript,
};

const SECOND: i64 = 1_000_000_000;

fn moment(t: DateTime<Utc>) -> Moment {
    Moment { seconds: t.timestamp(), nanos: t.timestamp_subsec_nanos() }
}

fn july() -> Moment {
    moment(DateTime::parse_from_rfc3339("2026-07-15T10:00:00Z").unwrap().with_timezone(&Utc))
}

fn stamp(hour: u32, minute: u32) -> Stamp {
    Stamp { year: 2026, month: 9, day: 11, hour, minute, second: 5 }
}

fn seg(text: &str, audio_start_time: Option<i64>) -> MeetingTranscript {
    MeetingTranscript {
        id: "1".to_string(),
        text: text.to_string(),
        timestamp: "2026-09-11T00:00:00Z".to_string(),
        audio_start_time,
        audio_end_time: None,
        duration: None,
        speaker: None,
        voice_profile_id: None,
        source: None,
        confidence: None,
    }
}

#[test]
fn timestamp_from_audio_start_time() {
    assert_eq!(segment_timestamp(Some(65 * SECOND), "2026-09-11T00:00:00Z"), "[01:05]");
    assert_eq!(segment_timestamp(Some(0), "x"), "[00:00]");
    assert_eq!(segment_timestamp(Some(3599 * SECOND + 900_000_000), "x"), "[59:59]");
}

#[test]
fn falls_back_to_wall_clock_timestamp() {
    assert_eq!(segment_timestamp(None, "2026-09-11T00:00:00Z"), "2026-09-11T00:00:00Z");
    assert_eq!(segment_timestamp(Some(-SECOND), "fallback"), "fallback");
}

#[test]
fn long_recordings_count_minutes_past_an_hour() {
    assert_eq!(segment_timestamp(Some(6_005 * SECOND), "x"), "[100:05]");
}

#[test]
fn builds_one_line_per_segment() {
    let transcripts = vec![seg("Hello", Some(0)), seg("World", Some(65 * SECOND))];
    assert_eq!(build_transcript_text(&transcripts), "[00:00] Hello\n[01:05] World");
}

#[test]
fn empty_transcript_list_is_empty_string() {
    assert_eq!(build_transcript_text(&Vec::new()), "");
}

#[test]
fn copy_transcript_includes_header_date_and_speaker_lines() {
    let mut a = seg("Hello", Some(0));
    a.speaker = Some("Alice".to_string());
    let transcripts = vec![a, seg("World", Some(65 * SECOND))];
    let text = copy_transcript_text("meeting-1", "Weekly Sync", Some(july()), &transcripts);
    assert!(text.starts_with("# Transcript of the Meeting: meeting-1 - Weekly Sync\n\n"));
    assert!(text.contains("## Date:"));
    assert!(text.contains("[00:00] Alice: Hello  "));
    assert!(text.contains("[01:05] World  "));
}

#[test]
fn copied_transcript_is_dated_in_local_time() {
    let transcripts = vec![seg("Hello", Some(0))];
    assert_eq!(
        copy_transcript_on("m", "T", Some(stamp(14, 3)), &transcripts),
        "# Transcript of the Meeting: m - T\n\n## Date: 9/11/2026\n\n[00:00] Hello  "
    );
    assert_eq!(
        copy_transcript_on("m", "T", None, &Vec::new()),
        "# Transcript of the Meeting: m - T\n\n## Date: \n\n"
    );
}

#[test]
fn copy_summary_includes_metadata_and_body_verbatim() {
    let now = moment(Utc::now());
    let text = copy_summary_text("meeting-1", "Weekly Sync", Some(july()), &now, "## Key Points\n\n- Shipped");
    assert!(text.starts_with("# Meeting Summary: Weekly Sync\n\n"));
    assert!(text.contains("**Meeting ID:** meeting-1\n"));
    assert!(text.contains("**Date:**"));
    assert!(text.contains("**Copied on:**"));
    assert!(text.ends_with("---\n\n## Key Points\n\n- Shipped"));
}

#[test]
fn copied_summary_names_both_times() {
    assert_eq!(
        copy_summary_on("m", "T", Some(stamp(14, 3)), &stamp(8, 25), "body"),
        "# Meeting Summary: T\n\n**Meeting ID:** m\n**Date:** September 11, 2026, 02:03 PM\n\
         **Copied on:** September 11, 2026, 08:25 AM\n\n---\n\nbody"
    );
}

#[test]
fn header_and_note_times_in_local_time() {
    assert_eq!(header_date(&stamp(14, 3)), "11 Sep 2026, 14:03");
    assert_eq!(note_time(&stamp(14, 30)), "Sep 11, 2:30 PM");
    let local = DateTime::parse_from_rfc3339("2026-07-15T10:00:00Z").unwrap().with_timezone(&chrono::Local);
    assert_eq!(format_header_date(&july()), local.format("%-d %b %Y, %H:%M").to_string());
}

#[test]
fn resolve_default_template_uses_configured_when_available() {
    let available = vec!["standard_meeting".to_string(), "one_on_one".to_string()];
    assert_eq!(resolve_default_template(Some("one_on_one"), &available), "one_on_one");
}

#[test]
fn resolve_default_template_falls_back_to_standard_meeting() {
    let available = vec!["standard_meeting".to_string(), "one_on_one".to_string()];
    assert_eq!(resolve_default_template(Some("missing"), &available), "standard_meeting");
    assert_eq!(resolve_default_template(None, &available), "standard_meeting");
}

#[test]
fn resolve_default_template_falls_back_to_first_available() {
    let available = vec!["one_on_one".to_string(), "retro".to_string()];
    assert_eq!(resolve_default_template(None, &available), "one_on_one");
}

#[test]
fn resolve_default_template_falls_back_to_standard_meeting_id_when_nothing_loaded() {
    assert_eq!(resolve_default_template(None, &Vec::new()), "standard_meeting");
}

#[test]
fn no_unsaved_edits_when_not_editing() {
    assert!(!has_unsaved_summary_edits(false, "changed", "original"));
}

#[test]
fn no_unsaved_edits_when_text_matches_saved() {
    assert!(!has_unsaved_summary_edits(true, "same", "same"));
}

#[test]
fn unsaved_edits_when_editing_and_text_differs() {
    assert!(has_unsaved_summary_edits(true, "changed", "original"));
}

#[test]
fn confidence_tooltip_matches_react_format() {
    let high = Confidence { percent: 87, level: ConfidenceLevel::High };
    let low = Confidence { percent: 35, level: ConfidenceLevel::Low };
    assert_eq!(confidence_tooltip(&high), "87% confidence - High confidence");
    assert_eq!(confidence_tooltip(&low), "35% confidence - Low confidence");
}

#[test]
fn confidence_levels_have_names() {
    assert_eq!(ConfidenceLevel::Good.label(), "Good confidence");
    assert_eq!(ConfidenceLevel::Medium.label(), "Medium confidence");
}

#[test]
fn format_note_time_renders_valid_rfc3339() {
    let formatted = format_note_time("2026-09-11T14:30:00Z");
    assert!(!formatted.is_empty());
    let local = DateTime::parse_from_rfc3339("2026-09-11T14:30:00Z").unwrap().with_timezone(&chrono::Local);
    assert_eq!(formatted, local.format("%b %-d, %-I:%M %p").to_string());
}

#[test]
fn format_note_time_is_empty_for_unparseable_input() {
    assert_eq!(format_note_time("not-a-date"), "");
}

#[test]
fn summary_reveal_chars_per_tick_drains_small_buffers_fully() {
    assert_eq!(summary_reveal_chars_per_tick(0), 0);
    assert_eq!(summary_reveal_chars_per_tick(1), 1);
    assert_eq!(summary_reveal_chars_per_tick(2), 2);
}

#[test]
fn summary_reveal_chars_per_tick_scales_with_backlog() {
    assert_eq!(summary_reveal_chars_per_tick(80), 10);
    assert_eq!(summary_reveal_chars_per_tick(3), 2);
    assert_eq!(summary_reveal_chars_per_tick(1), 1);
}
