use chrono::{DateTime, Datelike, Duration, Local, TimeZone, Timelike, Utc};
use parley::clock::{Moment, Stamp};
use parley::shell::meeting_list::{
    build_content_matches, content_match_label, filter_by_title, group_by_days, group_label, group_meetings,
    meeting_label, ContentMatch, MeetingRow,
};
use parley::shell::navigation::{
    is_refresh_event, AppShell, LeaveChoice, NavEffects, NavOutcome, QuitGuard, Route, SearchStep,
};

fn utc(y: i32, m: u32, d: u32, h: u32) -> DateTime<Utc> {
    Utc.with_ymd_and_hms(y, m, d, h, 0, 0).unwrap()
}

fn local(y: i32, m: u32, d: u32, h: u32) -> DateTime<Local> {
    Local.with_ymd_and_hms(y, m, d, h, 0, 0).unwrap()
}

fn moment(t: DateTime<Utc>) -> Moment {
    Moment { seconds: t.timestamp(), nanos: t.timestamp_subsec_nanos() }
}

fn stamp(t: DateTime<Local>) -> Stamp {
    Stamp {
        year: t.year(),
        month: t.month(),
        day: t.day(),
        hour: t.hour(),
        minute: t.minute(),
        second: t.second(),
    }
}

fn row(id: &str, title: &str, y: i32, m: u32, d: u32) -> MeetingRow {
    MeetingRow { id: id.to_string(), title: title.to_string(), created_at: moment(utc(y, m, d, 10)) }
}

fn content_match(id: &str) -> ContentMatch {
    ContentMatch { meeting_id: id.to_string(), title: format!("Meeting {id}"), snippet: "…hit…".to_string() }
}

#[test]
fn same_calendar_day_is_today() {
    let now = local(2026, 9, 11, 18);
    let created = now.with_hour(2).unwrap().with_timezone(&Utc);
    assert_eq!(group_label(&stamp(now), &moment(created)), "Today");
}

#[test]
fn previous_calendar_day_is_yesterday() {
    let now = local(2026, 9, 11, 12);
    let created = (now - Duration::days(1)).with_timezone(&Utc);
    assert_eq!(group_label(&stamp(now), &moment(created)), "Yesterday");
}

#[test]
fn within_a_week_but_not_yesterday_is_this_week() {
    let now = local(2026, 9, 11, 12);
    let created = (now - Duration::days(4)).with_timezone(&Utc);
    assert_eq!(group_label(&stamp(now), &moment(created)), "This week");
}

#[test]
fn a_week_or_more_ago_is_older() {
    let now = local(2026, 9, 11, 12);
    let created = (now - Duration::days(10)).with_timezone(&Utc);
    assert_eq!(group_label(&stamp(now), &moment(created)), "Older");
}

#[test]
fn exactly_seven_days_ago_is_older_not_this_week() {
    let now = local(2026, 9, 11, 12);
    let created = (now - Duration::days(7)).with_timezone(&Utc);
    assert_eq!(group_label(&stamp(now), &moment(created)), "Older");
}

#[test]
fn groups_preserve_input_order_within_bucket_and_skip_empty_buckets() {
    let now = local(2026, 9, 11, 12);
    let meetings = vec![
        row("1", "Standup", 2026, 9, 11),
        row("2", "Planning", 2026, 9, 11),
        row("3", "Retro", 2026, 8, 1),
    ];
    let grouped = group_meetings(&stamp(now), &meetings);
    assert_eq!(grouped.len(), 2);
    assert_eq!(grouped[0].0, "Today");
    assert_eq!(grouped[0].1.iter().map(|m| m.id.as_str()).collect::<Vec<_>>(), ["1", "2"]);
    assert_eq!(grouped[1].0, "Older");
    assert_eq!(grouped[1].1[0].id, "3");
}

#[test]
fn groups_follow_the_number_of_days() {
    let meetings = vec![row("1", "A", 2026, 9, 11), row("2", "B", 2026, 9, 10), row("3", "C", 2026, 9, 5)];
    let grouped = group_by_days(100, &meetings, &vec![100, 99, 94]);
    let labels: Vec<&str> = grouped.iter().map(|g| g.0).collect();
    assert_eq!(labels, ["Today", "Yesterday", "This week"]);
}

#[test]
fn filter_by_title_is_case_insensitive_substring() {
    let meetings = vec![row("1", "Team Standup", 2026, 9, 11), row("2", "1:1 with Sam", 2026, 9, 11)];
    let hits = filter_by_title(&meetings, "stand");
    assert_eq!(hits.len(), 1);
    assert_eq!(hits[0].id, "1");
}

#[test]
fn filter_by_title_empty_query_matches_all() {
    let meetings = vec![row("1", "Team Standup", 2026, 9, 11), row("2", "1:1 with Sam", 2026, 9, 11)];
    assert_eq!(filter_by_title(&meetings, "   ").len(), 2);
}

#[test]
fn build_content_matches_dedupes_by_meeting_keeping_first_hit() {
    let rows = vec![content_match("1"), content_match("1"), content_match("2")];
    let matches = build_content_matches(rows, &Vec::new());
    assert_eq!(matches.len(), 2);
    assert_eq!(matches[0].meeting_id, "1");
    assert_eq!(matches[1].meeting_id, "2");
}

#[test]
fn build_content_matches_excludes_already_shown_meetings() {
    let rows = vec![content_match("1"), content_match("2")];
    let matches = build_content_matches(rows, &vec!["1".to_string()]);
    assert_eq!(matches.len(), 1);
    assert_eq!(matches[0].meeting_id, "2");
}

#[test]
fn build_content_matches_empty_input_is_empty() {
    assert!(build_content_matches(Vec::new(), &Vec::new()).is_empty());
}

#[test]
fn blank_titles_are_named() {
    assert_eq!(meeting_label("Sync"), "Sync");
    assert_ne!(meeting_label("  "), "  ");
    assert_eq!(content_match_label(&content_match("1")), "Meeting 1 — …hit…");
}

#[test]
fn unsaved_edits_are_asked_about() {
    let mut shell = AppShell::new();
    assert_eq!(shell.attempt_navigate(Route::Recording, false), NavOutcome::Stay);
    let went = shell.attempt_navigate(Route::Meeting("m1".to_string()), false);
    assert_eq!(
        went,
        NavOutcome::Went(NavEffects { load_meeting: Some("m1".to_string()), leave_speakers: false })
    );
    assert!(shell.is_active("m1"));
    assert_eq!(shell.attempt_navigate(Route::Settings, true), NavOutcome::Confirm);
    assert!(shell.is_active("m1"));
    shell.navigate(Route::Speakers);
    assert!(shell.navigate(Route::Settings).leave_speakers);
}

#[test]
fn searches_for_an_older_query_are_dropped() {
    let mut shell = AppShell::new();
    assert_eq!(shell.search_transcript_content("  ", true), SearchStep::Cleared);
    assert_eq!(shell.search_transcript_content("plan", false), SearchStep::Nothing);
    assert_eq!(shell.search_transcript_content("plan", true), SearchStep::Debounce);
    shell.finish_search("pla", "plan", Some(vec![content_match("1")]));
    assert!(shell.content_matches.is_empty());
    shell.finish_search("plan", "plan", Some(vec![content_match("1")]));
    assert_eq!(shell.content_matches.len(), 1);
    let (changed, no_match, hits) = shell.draw_sidebar(0, 0, "plan");
    assert!(changed && no_match && hits);
    assert!(!shell.draw_sidebar(0, 0, "plan").0);
}

#[test]
fn the_meeting_list_reloads_on_its_events() {
    assert!(is_refresh_event("meeting-refined"));
    assert!(!is_refresh_event("summary-stream"));
    let mut shell = AppShell::new();
    assert!(!shell.begin_load_meetings(false));
    assert!(shell.begin_load_meetings(true));
    shell.finish_load_meetings(Some(vec![row("1", "A", 2026, 9, 11)]));
    assert_eq!(shell.meetings.len(), 1);
    shell.finish_load_meetings(None);
    assert!(shell.meetings.is_empty());
}

#[test]
fn quitting_begins_once() {
    let mut quit = QuitGuard { started: false };
    assert!(quit.request_quit());
    assert!(!quit.request_quit());
}

#[test]
fn leaving_with_edits_saves_or_drops_them() {
    let mut shell = AppShell::new();
    shell.navigate(Route::Meeting("m1".to_string()));
    assert_eq!(shell.confirm_leave_meeting(Route::Settings, LeaveChoice::Cancel), None);
    assert!(shell.is_active("m1"));
    let (_, save) = shell.confirm_leave_meeting(Route::Settings, LeaveChoice::Save).unwrap();
    assert!(save);
    let (effects, save) =
        shell.confirm_leave_meeting(Route::Meeting("m2".to_string()), LeaveChoice::Discard).unwrap();
    assert!(!save);
    assert_eq!(effects.load_meeting.as_deref(), Some("m2"));
}
