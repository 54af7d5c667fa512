use chrono::{DateTime, Duration, Local, TimeZone, Utc};
use parley::clock::{Moment, Stamp};
use parley::meeting::calendar::{
    calendar_window, event_card, event_card_on, filter_events, format_offset, format_time_range, picker_row_on,
    sort_by_proximity, time_range_on, CalendarEvent, CalendarPanel, LinkFault, LinkOutcome, PickerBody, NO_EVENTS,
};
use parley::meeting::speaker_chip::Attendee;

fn dt(y: i32, m: u32, d: u32, h: u32, min: u32) -> DateTime<Utc> {
    Utc.with_ymd_and_hms(y, m, d, h, min, 0).unwrap()
}

fn at(t: DateTime<Utc>) -> Moment {
    Moment { seconds: t.timestamp(), nanos: t.timestamp_subsec_nanos() }
}

fn stamp(day: u32, hour: u32) -> Stamp {
    Stamp { year: 2026, month: 9, day, hour, minute: 0, second: 0 }
}

fn event(id: &str, summary: Option<&str>, start: DateTime<Utc>) -> CalendarEvent {
    CalendarEvent {
        id: id.to_string(),
        summary: summary.map(str::to_string),
        location: Some("Room 5".to_string()),
        start_at: at(start),
        end_at: at(start + Duration::hours(1)),
        attendees: Vec::new(),
    }
}

#[test]
fn same_day_range_uses_short_form() {
    let noon_utc = dt(2026, 9, 11, 12, 0);
    let s = noon_utc;
    let e = noon_utc + Duration::hours(1);
    assert_eq!(s.with_timezone(&Local).date_naive(), e.with_timezone(&Local).date_naive());
    let out = format_time_range(&at(s), &at(e));
    assert!(out.contains('·'), "expected a same-day separator in {out:?}");
}

#[test]
fn spanning_days_uses_long_form() {
    let s = dt(2026, 9, 11, 12, 0);
    let e = s + Duration::hours(30);
    assert_ne!(s.with_timezone(&Local).date_naive(), e.with_timezone(&Local).date_naive());
    let out = format_time_range(&at(s), &at(e));
    assert!(!out.contains('·'), "expected the long form (no ·) in {out:?}");
}

#[test]
fn ranges_in_local_time() {
    assert_eq!(time_range_on(&stamp(11, 14), &stamp(11, 15)), "Fri, Sep 11 · 2:00 PM – 3:00 PM");
    assert_eq!(time_range_on(&stamp(11, 14), &stamp(12, 15)), "Fri, Sep 11 2:00 PM – Sat, Sep 12 3:00 PM");
}

#[test]
fn offset_within_a_minute_is_at_recording_time() {
    let anchor = at(dt(2026, 9, 11, 14, 0));
    let event = at(dt(2026, 9, 11, 14, 0));
    assert_eq!(format_offset(&event, &anchor), "at recording time");
}

#[test]
fn offset_minutes_before() {
    let anchor = at(dt(2026, 9, 11, 14, 0));
    let event = at(dt(2026, 9, 11, 13, 55));
    assert_eq!(format_offset(&event, &anchor), "5m before");
}

#[test]
fn offset_hours_after() {
    let anchor = at(dt(2026, 9, 11, 14, 0));
    let event = at(dt(2026, 9, 11, 16, 0));
    assert_eq!(format_offset(&event, &anchor), "2h after");
}

#[test]
fn offset_days_after() {
    let anchor = at(dt(2026, 9, 11, 14, 0));
    let event = at(dt(2026, 9, 14, 14, 0));
    assert_eq!(format_offset(&event, &anchor), "3d after");
}

#[test]
fn offsets_round_half_away_from_zero() {
    let anchor = dt(2026, 9, 11, 14, 0);
    assert_eq!(format_offset(&at(anchor + Duration::seconds(90)), &at(anchor)), "2m after");
    assert_eq!(format_offset(&at(anchor - Duration::seconds(90)), &at(anchor)), "2m before");
    assert_eq!(format_offset(&at(anchor + Duration::minutes(89)), &at(anchor)), "1h after");
    assert_eq!(format_offset(&at(anchor + Duration::milliseconds(3_599_999)), &at(anchor)), "60m after");
    assert_eq!(format_offset(&at(anchor + Duration::milliseconds(59_999)), &at(anchor)), "at recording time");
}

#[test]
fn proximity_sort_orders_closest_first() {
    let anchor = at(dt(2026, 9, 11, 14, 0));
    let mut events = vec![at(dt(2026, 9, 13, 14, 0)), at(dt(2026, 9, 11, 14, 5)), at(dt(2026, 9, 10, 14, 0))];
    sort_by_proximity(&mut events, &anchor, |e| *e);
    assert_eq!(events[0], at(dt(2026, 9, 11, 14, 5)));
}

#[test]
fn events_as_far_keep_their_order() {
    let anchor = dt(2026, 9, 11, 14, 0);
    let mut events = vec![at(anchor + Duration::hours(1)), at(anchor - Duration::hours(1)), at(anchor)];
    sort_by_proximity(&mut events, &at(anchor), |e| *e);
    assert_eq!(events, vec![at(anchor), at(anchor + Duration::hours(1)), at(anchor - Duration::hours(1))]);
}

#[test]
fn the_picker_looks_a_week_to_either_side() {
    let anchor = dt(2026, 9, 11, 14, 0);
    let (from, to) = calendar_window(&at(anchor));
    assert_eq!(from, at(anchor - Duration::days(7)));
    assert_eq!(to, at(anchor + Duration::days(7)));
    let leap = Moment { seconds: 1_483_228_799, nanos: 1_500_000_000 };
    let chrono_leap = DateTime::from_timestamp(leap.seconds, leap.nanos).unwrap();
    let (from, to) = calendar_window(&leap);
    assert_eq!(from, at(chrono_leap - Duration::days(7)));
    assert_eq!(to, at(chrono_leap + Duration::days(7)));
}

#[test]
fn linked_events_are_shown() {
    let mut e = event("e1", None, dt(2026, 9, 11, 14, 0));
    e.attendees.push(Attendee { name: None, email: None, role: None, status: None, is_organizer: false });
    let card = event_card_on(&e, &stamp(11, 14), &stamp(11, 15));
    assert_eq!(card.title, "(untitled event)");
    assert_eq!(card.location.as_deref(), Some("Room 5"));
    assert_eq!(card.attendees.as_deref(), Some("1 attendee"));
    e.location = Some("".to_string());
    e.attendees.clear();
    let card = event_card(&e);
    assert_eq!((card.location, card.attendees), (None, None));
}

#[test]
fn the_picker_filters_and_marks_events() {
    let start = dt(2026, 9, 11, 14, 0);
    let mut panel = CalendarPanel::new();
    assert!(panel.open_picker(true));
    assert_eq!(panel.picker_body("", &at(start)), PickerBody::Loading);
    let far = event("far", Some("Planning"), start + Duration::days(2));
    let near = event("near", Some("Standup"), start);
    panel.finish_open_picker(Ok(vec![far, near.clone()]), &at(start));
    panel.finish_load(Some(Some(near)));
    match panel.picker_body(" STAND ", &at(start)) {
        PickerBody::Rows(rows) => {
            assert_eq!(rows.len(), 1);
            assert_eq!(rows[0].button, "Linked");
            assert!(!rows[0].enabled);
            assert!(rows[0].detail.ends_with(" · at recording time"));
        }
        other => panic!("{other:?}"),
    }
    match panel.picker_body("room", &at(start)) {
        PickerBody::Rows(rows) => {
            let ids: Vec<&str> = rows.iter().map(|r| r.event_id.as_str()).collect();
            assert_eq!(ids, ["near", "far"]);
        }
        other => panic!("{other:?}"),
    }
    assert_eq!(panel.picker_body("zzz", &at(start)), PickerBody::NoEvents(NO_EVENTS.to_string()));
    let row = picker_row_on(&event("x", None, start), &stamp(11, 14), &at(start), &None, true);
    assert_eq!(row.detail, "Fri Sep 11, 2:00 PM · at recording time");
    assert!(!row.enabled);
}

#[test]
fn the_picker_shows_thirty_events() {
    let start = dt(2026, 9, 11, 14, 0);
    let events: Vec<CalendarEvent> =
        (0..40).map(|i| event(&format!("e{i}"), Some("Sync"), start + Duration::minutes(i))).collect();
    assert_eq!(filter_events(&events, "sync").len(), 40);
    let mut panel = CalendarPanel::new();
    panel.open_picker(true);
    panel.finish_open_picker(Ok(events), &at(start));
    assert!(matches!(panel.picker_body("", &at(start)), PickerBody::Rows(rows) if rows.len() == 30));
}

#[test]
fn linking_closes_the_picker() {
    let mut panel = CalendarPanel::new();
    panel.open_picker(false);
    assert_eq!(panel.picker_error.as_deref(), Some("No database — complete onboarding first."));
    panel.begin_link();
    assert_eq!(panel.finish_link(Ok(false)), LinkOutcome::Nothing);
    assert!(panel.picker_open);
    assert_eq!(panel.finish_link(Ok(true)), LinkOutcome::Reload);
    assert!(!panel.picker_open);
    assert_eq!(
        panel.finish_link(Err(LinkFault::Refused("x".to_string()))),
        LinkOutcome::Fail("Couldn't link that calendar event: x".to_string())
    );
    assert_eq!(
        panel.finish_link(Err(LinkFault::Crashed("y".to_string()))),
        LinkOutcome::Fail("Calendar link task panicked: y".to_string())
    );
    panel.finish_open_picker(Err("late".to_string()), &at(dt(2026, 9, 11, 14, 0)));
    assert_ne!(panel.picker_error.as_deref(), Some("late"));
}
