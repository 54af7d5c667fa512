//! Calendar events are offered for a meeting, linked to it and shown.
use vstd::prelude::*;
use crate::clock::{millis_between, millis_from, seconds_from, stamp_text, Moment, Stamp};
use crate::laws::cleaning::holds;
use crate::laws::sidebar::{lemma_all_kept, lemma_filter_same, lemma_infix_holds, lemma_kept};
use crate::meeting::calendar::{calendar_window, closer_event, event_card_on, event_label, event_matches, filter_events, format_offset, matching_events, picker_row_on, size_of, time_range_on, CalendarEvent, CalendarPanel, EventCard, LinkFault, LinkOutcome, PickerBody, PickerRow};
use crate::numbers::to_decimal;
use crate::sorting::{sorting_orders, stably_sorted};
use crate::text::trimmed;
use crate::words::lowercase;

verus! {

/// Milliseconds and seconds between two moments without leap seconds are those of
/// their difference, without what is left over.
pub proof fn moments_lie_apart_by_their_difference(a: &Moment, b: &Moment, millis: i64, secs: i64)
    requires
        a.nanos < 1_000_000_000,
        b.nanos < 1_000_000_000,
        call_ensures(millis_from, (a, b), millis),
        call_ensures(seconds_from, (a, b), secs),
    ensures
        ({
            let nanos = (a.seconds - b.seconds) * 1_000_000_000 + (a.nanos - b.nanos);
            &&& nanos >= 0 ==> millis * 1_000_000 <= nanos < (millis + 1) * 1_000_000
            &&& nanos >= 0 ==> secs * 1_000_000_000 <= nanos < (secs + 1) * 1_000_000_000
            &&& nanos <= 0 ==> (millis - 1) * 1_000_000 < nanos <= millis * 1_000_000
            &&& nanos <= 0 ==> (secs - 1) * 1_000_000_000 < nanos <= secs * 1_000_000_000
        }),
{
}

/// A moment comes after another where it is later.
pub proof fn later_moments_come_after(a: &Moment, b: &Moment, r: bool)
    requires
        call_ensures(Moment::is_after, (a, b), r),
    ensures
        r <==> (a.seconds > b.seconds || (a.seconds == b.seconds && a.nanos > b.nanos)),
{
}

/// An event of one day shows the day once, any other both of its days.
pub proof fn event_times_show_their_days(start: &Stamp, end: &Stamp, r: String)
    requires
        call_ensures(time_range_on, (start, end), r),
    ensures
        start.year == end.year && start.month == end.month && start.day == end.day ==> r@
            == stamp_text(*start, "%a, %b %-d"@) + " · "@ + stamp_text(*start, "%-I:%M %p"@) + " – "@
            + stamp_text(*end, "%-I:%M %p"@),
        start.year != end.year || start.month != end.month || start.day != end.day ==> r@
            == stamp_text(*start, "%a, %b %-d"@) + " "@ + stamp_text(*start, "%-I:%M %p"@) + " – "@
            + stamp_text(*end, "%a, %b %-d %-I:%M %p"@),
{
}

/// Below a minute an event is at the time of the recording. Else it is so many
/// minutes, hours or days before or after it, to the nearest.
pub proof fn offsets_are_in_the_unit_that_fits(
    start: &Moment,
    anchor: &Moment,
    millis: i64,
    n: u64,
    of_n: String,
    r: String,
)
    requires
        call_ensures(format_offset, (start, anchor), r),
        call_ensures(millis_from, (start, anchor), millis),
        call_ensures(to_decimal, (n,), of_n),
    ensures
        -60_000 < millis < 60_000 ==> r@ == "at recording time"@,
        60_000 <= millis < 3_600_000 && n * 60_000 - 30_000 <= millis < n * 60_000 + 30_000 ==> r@
            == of_n@ + "m after"@,
        3_600_000 <= millis < 86_400_000 && n * 3_600_000 - 1_800_000 <= millis < n * 3_600_000
            + 1_800_000 ==> r@ == of_n@ + "h after"@,
        millis >= 86_400_000 && n * 86_400_000 - 43_200_000 <= millis < n * 86_400_000 + 43_200_000
            ==> r@ == of_n@ + "d after"@,
        -3_600_000 < millis <= -60_000 && n * 60_000 - 30_000 <= -millis < n * 60_000 + 30_000 ==> r@
            == of_n@ + "m before"@,
        -86_400_000 < millis <= -3_600_000 && n * 3_600_000 - 1_800_000 <= -millis < n * 3_600_000
            + 1_800_000 ==> r@ == of_n@ + "h before"@,
        millis <= -86_400_000 && n * 86_400_000 - 43_200_000 <= -millis < n * 86_400_000
            + 43_200_000 ==> r@ == of_n@ + "d before"@,
{
    let size = size_of(millis as int);
    lemma_nearest(size, 60_000, n as int);
    lemma_nearest(size, 3_600_000, n as int);
    lemma_nearest(size, 86_400_000, n as int);
    lemma_units();
    let d = of_n@;
    assert(d + "m "@ + "after"@ =~= d + ("m "@ + "after"@));
    assert(d + "h "@ + "after"@ =~= d + ("h "@ + "after"@));
    assert(d + "d "@ + "after"@ =~= d + ("d "@ + "after"@));
    assert(d + "m "@ + "before"@ =~= d + ("m "@ + "before"@));
    assert(d + "h "@ + "before"@ =~= d + ("h "@ + "before"@));
    assert(d + "d "@ + "before"@ =~= d + ("d "@ + "before"@));
}

proof fn lemma_units()
    ensures
        "m "@ + "after"@ == "m after"@,
        "h "@ + "after"@ == "h after"@,
        "d "@ + "after"@ == "d after"@,
        "m "@ + "before"@ == "m before"@,
        "h "@ + "before"@ == "h before"@,
        "d "@ + "before"@ == "d before"@,
{
    reveal_strlit("m ");
    reveal_strlit("h ");
    reveal_strlit("d ");
    reveal_strlit("after");
    reveal_strlit("before");
    reveal_strlit("m after");
    reveal_strlit("h after");
    reveal_strlit("d after");
    reveal_strlit("m before");
    reveal_strlit("h before");
    reveal_strlit("d before");
    assert("m "@ + "after"@ =~= "m after"@);
    assert("h "@ + "after"@ =~= "h after"@);
    assert("d "@ + "after"@ =~= "d after"@);
    assert("m "@ + "before"@ =~= "m before"@);
    assert("h "@ + "before"@ =~= "h before"@);
    assert("d "@ + "before"@ =~= "d before"@);
}

proof fn lemma_nearest(size: int, unit: int, n: int)
    requires
        unit > 0,
        unit % 2 == 0,
    ensures
        n * unit - unit / 2 <= size < n * unit + unit / 2 ==> crate::numbers::round_half_up(size, unit)
            == n,
{
    if n * unit - unit / 2 <= size < n * unit + unit / 2 {
        let a = 2 * size + unit;
        let b = 2 * unit;
        assert(n * b == 2 * (n * unit)) by (nonlinear_arith)
            requires
                b == 2 * unit,
        ;
        assert(0 <= a - n * b < b);
        assert(a / b == n) by (nonlinear_arith)
            requires
                0 <= a - n * b < b,
                b > 0,
        ;
    }
}

/// Events are offered from a week before a meeting to a week after it.
pub proof fn a_week_to_either_side_is_offered(anchor: &Moment, r: (Moment, Moment))
    requires
        anchor.nanos < 1_000_000_000,
        call_ensures(calendar_window, (anchor,), r),
    ensures
        r.0.seconds == anchor.seconds - 7 * 24 * 3600,
        r.1.seconds == anchor.seconds + 7 * 24 * 3600,
        r.0.nanos == anchor.nanos,
        r.1.nanos == anchor.nanos,
{
}

/// An event goes by its name, and by "(untitled event)" where it has none.
pub proof fn events_go_by_their_names(summary: &Option<String>, r: String)
    requires
        call_ensures(event_label, (summary,), r),
    ensures
        *summary matches Some(s) ==> (s@.len() > 0 ==> r@ == s@),
        *summary matches Some(s) && s@.len() == 0 ==> r@ == "(untitled event)"@,
        *summary is None ==> r@ == "(untitled event)"@,
{
}

/// The linked event is shown with its name, its time, its place if it has one, and
/// how many attend it.
pub proof fn linked_events_are_shown(
    event: &CalendarEvent,
    start: &Stamp,
    end: &Stamp,
    name: String,
    time: String,
    n: u64,
    of_n: String,
    r: EventCard,
)
    requires
        call_ensures(event_card_on, (event, start, end), r),
        call_ensures(event_label, (&event.summary,), name),
        call_ensures(time_range_on, (start, end), time),
        n == event.attendees@.len(),
        call_ensures(to_decimal, (n,), of_n),
    ensures
        r.title@ == name@,
        r.time@ == time@,
        event.location matches Some(l) ==> (l@.len() > 0 ==> (r.location matches Some(p) && p@ == l@)),
        event.location is None ==> r.location is None,
        n == 0 ==> r.attendees is None,
        n == 1 ==> (r.attendees matches Some(a) && a@ == of_n@ + " attendee"@),
        n > 1 ==> (r.attendees matches Some(a) && a@ == of_n@ + " attendees"@),
{
    reveal_strlit("");
    reveal_strlit("s");
    reveal_strlit(" attendee");
    reveal_strlit(" attendees");
    assert(of_n@ + " attendee"@ + ""@ =~= of_n@ + " attendee"@);
    assert(of_n@ + " attendee"@ + "s"@ =~= of_n@ + " attendees"@);
}

/// The name or place of an event as it is searched.
pub open spec fn searched(t: Option<String>) -> Seq<char> {
    match t {
        Some(s) => lowercase(s@),
        None => lowercase(""@),
    }
}

/// The events are found, in their order, whose name or place holds what was typed,
/// in any case and without white space around it.
pub proof fn events_are_found_by_name_and_place(
    events: &Vec<CalendarEvent>,
    query: &str,
    r: Vec<usize>,
    i: int,
)
    requires
        call_ensures(filter_events, (events, query), r),
        0 <= i < events@.len(),
        lowercase(trimmed(query@)).len() > 0,
    ensures
        forall|j: int, k: int| 0 <= j < k < r@.len() ==> r@[j] < r@[k],
        (exists|k: int| 0 <= k < r@.len() && events@[(#[trigger] r@[k]) as int] == events@[i]) <==> (
        holds(searched(events@[i].summary), lowercase(trimmed(query@))) || holds(
            searched(events@[i].location),
            lowercase(trimmed(query@)),
        )),
{
    let q = lowercase(trimmed(query@));
    let keep = |e: CalendarEvent| event_matches(e, query@);
    let found = events@.filter(keep);
    let got = r@.map_values(|i: usize| events@[i as int]);
    assert(got == found);
    lemma_infix_holds(searched(events@[i].summary), q);
    lemma_infix_holds(searched(events@[i].location), q);
    if keep(events@[i]) {
        lemma_kept(events@, keep, i);
        let k = choose|k: int| 0 <= k < found.len() && found[k] == events@[i];
        assert(got[k] == events@[r@[k] as int]);
    }
    if exists|k: int| 0 <= k < r@.len() && events@[(#[trigger] r@[k]) as int] == events@[i] {
        let k = choose|k: int| 0 <= k < r@.len() && events@[(#[trigger] r@[k]) as int] == events@[i];
        assert(got[k] == events@[i]);
        lemma_all_kept(events@, keep, k);
    }
}

/// Where nothing was typed every event is found.
pub proof fn nothing_typed_finds_every_event(events: &Vec<CalendarEvent>, query: &str, r: Vec<usize>)
    requires
        call_ensures(filter_events, (events, query), r),
        lowercase(trimmed(query@)).len() == 0,
    ensures
        r@.len() == events@.len(),
        forall|k: int| 0 <= k < r@.len() ==> #[trigger] r@[k] == k,
{
    let keep = |e: CalendarEvent| event_matches(e, query@);
    lemma_filter_same(events@, keep, |e: CalendarEvent| true);
    lemma_everything(events@);
    let got = r@.map_values(|i: usize| events@[i as int]);
    assert(got.len() == r@.len());
    lemma_counts_up(r@, r@.len() as int);
}

proof fn lemma_everything<T>(s: Seq<T>)
    ensures
        s.filter(|x: T| true) == s,
    decreases s.len(),
{
    reveal(Seq::filter);
    if s.len() > 0 {
        lemma_everything(s.drop_last());
        assert(s.drop_last().push(s.last()) =~= s);
    }
}

proof fn lemma_counts_up(r: Seq<usize>, n: int)
    requires
        r.len() == n,
        forall|i: int| 0 <= i < r.len() ==> (#[trigger] r[i]) < n,
        forall|i: int, j: int| 0 <= i < j < r.len() ==> r[i] < r[j],
    ensures
        forall|k: int| 0 <= k < r.len() ==> #[trigger] r[k] == k,
{
    assert forall|k: int| 0 <= k < r.len() implies #[trigger] r[k] == k by {
        lemma_at_least(r, k);
        lemma_at_most(r, k, n);
    }
}

proof fn lemma_at_least(r: Seq<usize>, k: int)
    requires
        0 <= k < r.len(),
        forall|i: int, j: int| 0 <= i < j < r.len() ==> r[i] < r[j],
    ensures
        r[k] >= k,
    decreases k,
{
    if k > 0 {
        lemma_at_least(r, k - 1);
        assert(r[k - 1] < r[k]);
    }
}

proof fn lemma_at_most(r: Seq<usize>, k: int, n: int)
    requires
        0 <= k < r.len(),
        r.len() == n,
        forall|i: int| 0 <= i < r.len() ==> (#[trigger] r[i]) < n,
        forall|i: int, j: int| 0 <= i < j < r.len() ==> r[i] < r[j],
    ensures
        r[k] <= k,
    decreases n - k,
{
    if k < n - 1 {
        lemma_at_most(r, k + 1, n);
        assert(r[k] < r[k + 1]);
    } else {
        assert(r[k] < n);
    }
}

/// A row of the picker shows an event with its name, its start and how far it is
/// from the meeting. The linked one is marked and cannot be linked again.
pub proof fn picker_rows_show_their_event(
    event: &CalendarEvent,
    local: &Stamp,
    anchor: &Moment,
    current: &Option<String>,
    busy: bool,
    name: String,
    offset: String,
    start: &Moment,
    r: PickerRow,
)
    requires
        call_ensures(picker_row_on, (event, local, anchor, current, busy), r),
        call_ensures(event_label, (&event.summary,), name),
        *start == event.start_at,
        call_ensures(format_offset, (start, anchor), offset),
    ensures
        r.event_id@ == event.id@,
        r.title@ == name@,
        r.detail@ == stamp_text(*local, "%a %b %-d, %-I:%M %p"@) + " · "@ + offset@,
        *current matches Some(c) && c@ == event.id@ ==> r.is_current && r.button@ == "Linked"@
            && !r.enabled,
        *current matches Some(c) && c@ != event.id@ ==> !r.is_current && r.button@ == "Link"@ && r.enabled
            == !busy,
        *current is None ==> !r.is_current && r.button@ == "Link"@ && r.enabled == !busy,
{
}

/// The events on offer stand with the closest to the meeting first, and none is
/// left out; a picker that was closed meanwhile stays as it is.
pub proof fn closest_events_are_offered_first(
    panel: &mut CalendarPanel,
    list: Vec<CalendarEvent>,
    anchor: &Moment,
    i: int,
    j: int,
    near: i64,
    far: i64,
    a: &Moment,
    b: &Moment,
)
    requires
        call_ensures(CalendarPanel::finish_open_picker, (panel, Ok(list), anchor), ()),
        call_ensures(millis_from, (a, anchor), near),
        call_ensures(millis_from, (b, anchor), far),
    ensures
        !old(panel).picker_open ==> *final(panel) == *old(panel),
        old(panel).picker_open ==> (final(panel).picker_events matches Some(shown)
            && shown@.to_multiset() == list@.to_multiset() && (0 <= i < j < shown@.len() && *a
            == shown@[i].start_at && *b == shown@[j].start_at ==> (if near < 0 {
            -near
        } else {
            near as int
        }) <= (if far < 0 {
            -far
        } else {
            far as int
        }))),
{
    if old(panel).picker_open {
        let leq = closer_event(*anchor);
        sorting_orders(list@, leq);
        let shown = stably_sorted(list@, leq);
        if 0 <= i < j < shown.len() {
            assert(leq(shown[i], shown[j]));
        }
    }
}

/// The picker shows thirty events at most, in the order in which they are offered,
/// and says so where there is none.
pub proof fn pickers_show_thirty_events(
    panel: &CalendarPanel,
    query: &str,
    anchor: &Moment,
    list: Vec<CalendarEvent>,
    found: Vec<usize>,
    r: PickerBody,
    i: int,
)
    requires
        call_ensures(CalendarPanel::picker_body, (panel, query, anchor), r),
        panel.picker_events == Some(list),
        call_ensures(filter_events, (&list, query), found),
    ensures
        found@.len() == 0 ==> r is NoEvents,
        found@.len() > 0 ==> r is Rows,
        r matches PickerBody::Rows(rows) ==> rows@.len() == if found@.len() > 30 {
            30
        } else {
            found@.len()
        },
        r matches PickerBody::Rows(rows) ==> (0 <= i < rows@.len() ==> rows@[i].event_id@
            == list@[found@[i] as int].id@),
{
    let got = found@.map_values(|i: usize| list@[i as int]);
    assert(got == matching_events(list@, query@));
    assert(got.len() == found@.len());
    if let PickerBody::Rows(rows) = r {
        if 0 <= i < rows@.len() {
            assert(got[i] == list@[found@[i] as int]);
            assert(crate::meeting::calendar::shows_row_somewhere(
                rows@[i],
                got[i],
                *anchor,
                panel.current(),
                panel.mutating,
            ));
        }
    }
}

/// Linking an event closes the picker and loads the event; a link that fails
/// leaves the picker open and is told.
pub proof fn links_close_the_picker(
    panel: &mut CalendarPanel,
    result: Result<bool, LinkFault>,
    r: LinkOutcome,
)
    requires
        call_ensures(CalendarPanel::finish_link, (panel, result), r),
    ensures
        !final(panel).mutating,
        result matches Ok(done) && done ==> r is Reload && !final(panel).picker_open,
        result matches Ok(done) && !done ==> r is Nothing,
        !(result matches Ok(done) && done) ==> final(panel).picker_open == old(panel).picker_open,
        result matches Err(LinkFault::Refused(e)) ==> (r matches LinkOutcome::Fail(t) && t@
            == "Couldn't link that calendar event: "@ + e@),
        result matches Err(LinkFault::Crashed(e)) ==> (r matches LinkOutcome::Fail(t) && t@
            == "Calendar link task panicked: "@ + e@),
        final(panel).event == old(panel).event,
{
}

/// An event that was loaded is the linked one; where loading failed, the one
/// before stays.
pub proof fn loaded_events_are_linked(panel: &mut CalendarPanel, event: Option<Option<CalendarEvent>>)
    requires
        call_ensures(CalendarPanel::finish_load, (panel, event), ()),
    ensures
        !final(panel).loading,
        event matches Some(e) ==> final(panel).event == e,
        event is None ==> final(panel).event == old(panel).event,
        final(panel).picker_open == old(panel).picker_open,
{
}

/// The picker opens empty, waiting for its events; without a database that is said.
pub proof fn pickers_open_empty(panel: &mut CalendarPanel, has_db: bool, r: bool)
    requires
        call_ensures(CalendarPanel::open_picker, (panel, has_db), r),
    ensures
        r == has_db,
        final(panel).picker_open,
        final(panel).picker_events is None,
        has_db ==> final(panel).picker_error is None,
        !has_db ==> (final(panel).picker_error matches Some(e) && e@
            == "No database — complete onboarding first."@),
        final(panel).event == old(panel).event,
{
}

/// Closing the picker keeps the linked event, linking is under way until it ends,
/// and another meeting starts without an event.
pub proof fn panels_keep_their_event(
    a: &mut CalendarPanel,
    b: &mut CalendarPanel,
    c: &mut CalendarPanel,
    new: CalendarPanel,
)
    requires
        call_ensures(CalendarPanel::close_picker, (a,), ()),
        call_ensures(CalendarPanel::begin_link, (b,), ()),
        call_ensures(CalendarPanel::reset, (c,), ()),
        call_ensures(CalendarPanel::new, (), new),
    ensures
        !final(a).picker_open && final(a).event == old(a).event,
        final(b).mutating && final(b).event == old(b).event && final(b).picker_open == old(
            b).picker_open,
        final(c).event is None && final(c).loading && !final(c).picker_open && final(
            c).picker_events is None,
        new.event is None && !new.loading && !new.mutating && !new.picker_open,
{
}

/// A picker that is open says why its events could not be loaded.
pub proof fn failed_pickers_say_why(panel: &mut CalendarPanel, why: String, anchor: &Moment)
    requires
        call_ensures(CalendarPanel::finish_open_picker, (panel, Err(why), anchor), ()),
    ensures
        old(panel).picker_open ==> final(panel).picker_error == Some(why),
        !old(panel).picker_open ==> *final(panel) == *old(panel),
{
}

/// The time of an event is that of its local times, each within a day of its time
/// in UTC.
pub proof fn event_times_are_local(start: &Moment, end: &Moment, r: String)
    requires
        call_ensures(crate::meeting::calendar::format_time_range, (start, end), r),
    ensures
        exists|s: Stamp, e: Stamp| #[trigger]
            crate::clock::local_to(s, *start) && #[trigger] crate::clock::local_to(e, *end) && r@
                == crate::meeting::calendar::time_range(s, e),
{
}

/// Sorting by proximity puts what is closer first and loses nothing.
pub proof fn closer_items_come_first<T, F: Fn(&T) -> Moment>(
    events: &mut Vec<T>,
    anchor: &Moment,
    start_of: F,
    i: int,
    j: int,
    a: Moment,
    b: Moment,
)
    requires
        forall|k: int|
            0 <= k < old(events)@.len() ==> crate::meeting::calendar::gives_moment(
                start_of,
                #[trigger] old(events)@[k],
            ),
        call_ensures(
            crate::meeting::calendar::sort_by_proximity::<T, F>,
            (events, anchor, start_of),
            (),
        ),
        0 <= i < j < final(events)@.len(),
        a == crate::meeting::calendar::moment_of(start_of, final(events)@[i]),
        b == crate::meeting::calendar::moment_of(start_of, final(events)@[j]),
    ensures
        final(events)@.to_multiset() == old(events)@.to_multiset(),
        size_of(millis_between(a, *anchor)) <= size_of(millis_between(b, *anchor)),
{
    let leq = crate::meeting::calendar::no_farther::<T, F>(start_of, *anchor);
    crate::meeting::calendar::closest_comes_first(old(events)@, start_of, *anchor);
    let sorted = stably_sorted(old(events)@, leq);
    assert(leq(sorted[i], sorted[j]));
}

/// A distance has no sign.
pub proof fn distances_have_no_sign(n: int)
    ensures
        n >= 0 ==> size_of(n) == n,
        n < 0 ==> size_of(n) == -n,
{
}

/// A moment counts where it is of the supported years, with a leap second only at
/// the end of a minute.
pub proof fn moments_count_in_the_supported_years(m: &Moment, r: bool)
    requires
        call_ensures(Moment::is_valid, (m,), r),
    ensures
        r <==> -2_800_000_000_000 <= m.seconds <= 2_800_000_000_000 && (m.nanos < 1_000_000_000 || (
        m.nanos < 2_000_000_000 && m.seconds % 60 == 59)),
{
}

/// A date counts where the calendar has it.
pub proof fn dates_count_where_the_calendar_has_them(t: &Stamp, r: bool)
    requires
        call_ensures(Stamp::is_valid, (t,), r),
        -262_000 <= t.year <= 262_000,
        t.hour < 24 && t.minute < 60 && t.second < 60,
    ensures
        r ==> 1 <= t.month <= 12 && 1 <= t.day <= 31,
        r && (t.month == 4 || t.month == 6 || t.month == 9 || t.month == 11) ==> t.day <= 30,
        1 <= t.month <= 12 && 1 <= t.day <= 28 ==> r,
        t.month == 2 && t.day == 29 ==> (r <==> t.year % 4 == 0 && (t.year % 100 != 0 || t.year % 400
            == 0)),
        t.month == 2 && t.day > 29 ==> !r,
        1 <= t.month <= 12 && t.month != 2 && 29 <= t.day <= 30 ==> r,
        (t.month == 1 || t.month == 3 || t.month == 5 || t.month == 7 || t.month == 8 || t.month == 10
            || t.month == 12) && t.day == 31 ==> r,
{
}

/// Times past the end of a day do not count.
pub proof fn times_count_within_their_day(t: &Stamp, r: bool)
    requires
        call_ensures(Stamp::is_valid, (t,), r),
    ensures
        t.hour >= 24 || t.minute >= 60 || t.second >= 60 ==> !r,
{
}

/// Days are counted one by one through the calendar.
pub proof fn days_are_counted_one_by_one(a: &Stamp, b: &Stamp, of_a: i64, of_b: i64)
    requires
        a.valid() && b.valid(),
        call_ensures(Stamp::days, (a,), of_a),
        call_ensures(Stamp::days, (b,), of_b),
    ensures
        a.year == b.year && a.month == b.month ==> of_b - of_a == b.day - a.day,
        a.year == b.year && b.month == a.month + 1 && b.day == 1 && a.day == 28 && a.month == 2 ==> of_b
            - of_a == (if a.year % 4 == 0 && (a.year % 100 != 0 || a.year % 400 == 0) {
            2int
        } else {
            1int
        }),
        a.year == b.year && b.month == a.month + 1 && b.day == 1 && a.day == 30 && (a.month == 4
            || a.month == 6 || a.month == 9 || a.month == 11) ==> of_b - of_a == 1,
        a.year == b.year && b.month == a.month + 1 && b.day == 1 && a.day == 31 ==> of_b - of_a == 1,
        b.year == a.year + 1 && a.month == 12 && a.day == 31 && b.month == 1 && b.day == 1 ==> of_b
            - of_a == 1,
        a.year == 1970 && a.month == 1 && a.day == 1 ==> of_a == 719_163,
{
    reveal_with_fuel(crate::clock::days_before, 13);
}

/// The card of an event shows its name, place and number of guests, and its times
/// where it takes place.
pub proof fn cards_show_local_times(event: &CalendarEvent, r: EventCard, start: &Stamp, end: &Stamp, fixed: EventCard)
    requires
        event.start_at.valid() && event.end_at.valid(),
        call_ensures(crate::meeting::calendar::event_card, (event,), r),
        call_ensures(event_card_on, (event, start, end), fixed),
    ensures
        r.title@ == fixed.title@,
        r.location is Some == fixed.location is Some,
        r.location matches Some(a) ==> (fixed.location matches Some(b) ==> a@ == b@),
        r.attendees is Some == fixed.attendees is Some,
        r.attendees matches Some(a) ==> (fixed.attendees matches Some(b) ==> a@ == b@),
        exists|s: Stamp, e: Stamp| #[trigger]
            crate::clock::local_to(s, event.start_at) && #[trigger] crate::clock::local_to(
                e,
                event.end_at,
            ) && r.time@ == crate::meeting::calendar::time_range(s, e),
{
    let (s, e) = choose|s: Stamp, e: Stamp| #[trigger]
        crate::clock::local_to(s, event.start_at) && #[trigger] crate::clock::local_to(e, event.end_at)
            && crate::meeting::calendar::shows_event(r, *event, s, e);
    assert(crate::clock::local_to(s, event.start_at));
    assert(crate::clock::local_to(e, event.end_at));
}

} // verus!
