//! Calendar events beside a meeting: their times, how far they are from it and
//! which of them the picker offers.
use vstd::prelude::*;
use crate::clock::{format_stamp, local_stamp, local_to, millis_between, millis_from, stamp_text, Moment, Stamp, DAY_PATTERN, DAY_TIME_PATTERN, PICKER_PATTERN, TIME_PATTERN};
use crate::meeting::speaker_chip::Attendee;
use crate::numbers::{decimal, push_decimal, round_half_up};
use crate::sorting::{in_order, lemma_sort_map_good, sort_stably, sorting_orders, stably_sorted};
use crate::text::{opt_text, opt_text_is, trim, trimmed};
use crate::words::{contains, has_infix, lowercase, to_lowercase};

verus! {

/// A calendar event.
#[derive(Debug, Clone, PartialEq, Eq)]
pub struct CalendarEvent {
    pub id: String,
    pub summary: Option<String>,
    pub location: Option<String>,
    pub start_at: Moment,
    pub end_at: Moment,
    pub attendees: Vec<Attendee>,
}

/// The time of an event, for local dates and times: with the day once where it
/// starts and ends on one day, else with both.
pub open spec fn time_range(start: Stamp, end: Stamp) -> Seq<char> {
    let head = stamp_text(start, DAY_PATTERN@);
    let time = stamp_text(start, TIME_PATTERN@);
    if start.same_day(end) {
        head + " · "@ + time + " – "@ + stamp_text(end, TIME_PATTERN@)
    } else {
        head + " "@ + time + " – "@ + stamp_text(end, DAY_TIME_PATTERN@)
    }
}

/// The time of an event, for local dates and times.
pub fn time_range_on(start: &Stamp, end: &Stamp) -> (r: String)
    requires
        start.valid(),
        end.valid(),
    ensures
        r@ == time_range(*start, *end),
{
    let same_day = start.year == end.year && start.month == end.month && start.day == end.day;
    let mut out = format_stamp(start, DAY_PATTERN);
    if same_day {
        out.append(" · ");
    } else {
        out.append(" ");
    }
    out.append(&format_stamp(start, TIME_PATTERN));
    out.append(" – ");
    if same_day {
        out.append(&format_stamp(end, TIME_PATTERN));
    } else {
        out.append(&format_stamp(end, DAY_TIME_PATTERN));
    }
    assert(out@ =~= time_range(*start, *end));
    out
}

/// The time of an event in the machine's time zone.
pub fn format_time_range(start: &Moment, end: &Moment) -> (r: String)
    requires
        start.valid(),
        end.valid(),
    ensures
        exists|s: Stamp, e: Stamp| #[trigger]
            local_to(s, *start) && #[trigger] local_to(e, *end) && r@ == time_range(s, e),
{
    let s = local_stamp(start);
    let e = local_stamp(end);
    time_range_on(&s, &e)
}

/// The size of a number.
pub open spec fn size_of(n: int) -> int {
    if n < 0 {
        -n
    } else {
        n
    }
}

/// How far an event is from a meeting, by milliseconds: "5m before", "2h after".
pub open spec fn offset_text(millis: int) -> Seq<char> {
    let size = size_of(millis);
    let side = if millis < 0 {
        "before"@
    } else {
        "after"@
    };
    if size < 60_000 {
        "at recording time"@
    } else if size < 3_600_000 {
        decimal(round_half_up(size, 60_000) as nat) + "m "@ + side
    } else if size < 86_400_000 {
        decimal(round_half_up(size, 3_600_000) as nat) + "h "@ + side
    } else {
        decimal(round_half_up(size, 86_400_000) as nat) + "d "@ + side
    }
}

/// How far an event is from a meeting: in minutes, hours or days, rounded to
/// the nearest.
pub fn format_offset(event_start: &Moment, anchor: &Moment) -> (r: String)
    requires
        event_start.valid(),
        anchor.valid(),
    ensures
        r@ == offset_text(millis_between(*event_start, *anchor)),
{
    let millis: i64 = millis_from(event_start, anchor);
    let size: u64 = if millis < 0 {
        (-millis) as u64
    } else {
        millis as u64
    };
    if size < 60_000 {
        return "at recording time".to_owned();
    }
    let mut out = String::new();
    if size < 3_600_000 {
        push_decimal(&mut out, (2 * size + 60_000) / 120_000);
        out.append("m ");
    } else if size < 86_400_000 {
        push_decimal(&mut out, (2 * size + 3_600_000) / 7_200_000);
        out.append("h ");
    } else {
        push_decimal(&mut out, (2 * size + 86_400_000) / 172_800_000);
        out.append("d ");
    }
    if millis < 0 {
        out.append("before");
    } else {
        out.append("after");
    }
    assert(out@ =~= offset_text(millis as int));
    out
}

/// How far a moment is from another, in whole milliseconds.
pub open spec fn distance(m: Moment, anchor: Moment) -> int {
    size_of(millis_between(m, anchor))
}

/// The moment that a function gives for an item.
pub open spec fn moment_of<T, F: Fn(&T) -> Moment>(start_of: F, e: T) -> Moment {
    choose|m: Moment| start_of.ensures((&e,), m)
}

/// Whether a function gives one valid moment for an item.
pub open spec fn gives_moment<T, F: Fn(&T) -> Moment>(start_of: F, e: T) -> bool {
    &&& start_of.requires((&e,))
    &&& forall|m: Moment| #[trigger] start_of.ensures((&e,), m) ==> m.valid()
    &&& forall|m: Moment, n: Moment| #[trigger]
        start_of.ensures((&e,), m) && #[trigger] start_of.ensures((&e,), n) ==> m == n
}

/// Whether one item is at most as far from a moment as another.
pub open spec fn no_farther<T, F: Fn(&T) -> Moment>(start_of: F, anchor: Moment) -> spec_fn(
    T,
    T,
) -> bool {
    |a: T, b: T|
        distance(moment_of(start_of, a), anchor) <= distance(moment_of(start_of, b), anchor)
}

/// Sorts by distance from `anchor`, the closest first; those that are as far
/// keep their order.
pub fn sort_by_proximity<T, F: Fn(&T) -> Moment>(
    events: &mut Vec<T>,
    anchor: &Moment,
    start_of: F,
)
    requires
        anchor.valid(),
        forall|i: int| 0 <= i < old(events)@.len() ==> gives_moment(start_of, #[trigger] old(events)@[i]),
    ensures
        final(events)@ == stably_sorted(old(events)@, no_farther(start_of, *anchor)),
        forall|i: int|
            0 <= i < old(events)@.len() ==> start_of.ensures(
                (&#[trigger] old(events)@[i],),
                moment_of(start_of, old(events)@[i]),
            ),
{
    let ghost all = events@;
    let mut turned: Vec<T> = Vec::new();
    while events.len() > 0
        invariant
            turned@.len() + events@.len() == all.len(),
            events@ == all.take(events@.len() as int),
            forall|i: int| 0 <= i < turned@.len() ==> turned@[i] == all[all.len() - 1 - i],
        decreases events@.len(),
    {
        let x = events.pop().unwrap();
        turned.push(x);
    }
    let ghost item = |p: (u64, T)| p.1;
    let ghost good = |p: (u64, T)| p.0 == distance(moment_of(start_of, p.1), *anchor);
    let mut keyed: Vec<(u64, T)> = Vec::new();
    while turned.len() > 0
        invariant
            anchor.valid(),
            turned@.len() + keyed@.len() == all.len(),
            forall|i: int| 0 <= i < turned@.len() ==> turned@[i] == all[all.len() - 1 - i],
            forall|i: int| 0 <= i < keyed@.len() ==> (#[trigger] keyed@[i]).1 == all[i],
            forall|i: int| 0 <= i < all.len() ==> gives_moment(start_of, #[trigger] all[i]),
            forall|i: int| 0 <= i < keyed@.len() ==> good(#[trigger] keyed@[i]),
            forall|i: int|
                0 <= i < keyed@.len() ==> start_of.ensures(
                    (&(#[trigger] all[i]),),
                    moment_of(start_of, all[i]),
                ),
            good == (|p: (u64, T)| p.0 == distance(moment_of(start_of, p.1), *anchor)),
        decreases turned@.len(),
    {
        let ghost at = keyed@.len();
        let x = turned.pop().unwrap();
        assert(x == all[at as int]);
        assert(gives_moment(start_of, all[at as int]));
        let m = start_of(&x);
        assert(moment_of(start_of, x) == m);
        let millis: i64 = millis_from(&m, anchor);
        let far: u64 = if millis < 0 {
            (-millis) as u64
        } else {
            millis as u64
        };
        keyed.push((far, x));
        assert(good((far, x)));
    }
    let ghost by_key = |a: (u64, T), b: (u64, T)| a.0 <= b.0;
    let compare = |a: &(u64, T), b: &(u64, T)| -> (o: bool)
        ensures
            o == (a.0 <= b.0),
        { a.0 <= b.0 };
    proof {
        lemma_sort_map_good(keyed@, item, by_key, no_farther(start_of, *anchor), good);
        assert(keyed@.map_values(item) =~= all);
    }
    let sorted = sort_stably(keyed, compare, Ghost(by_key));
    let ghost done = sorted@;
    let mut back: Vec<T> = Vec::new();
    let mut rest = sorted;
    while rest.len() > 0
        invariant
            back@.len() + rest@.len() == done.len(),
            rest@ == done.take(rest@.len() as int),
            forall|i: int| 0 <= i < back@.len() ==> back@[i] == done[done.len() - 1 - i].1,
        decreases rest@.len(),
    {
        let (_, x) = rest.pop().unwrap();
        back.push(x);
    }
    let mut out: Vec<T> = Vec::new();
    while back.len() > 0
        invariant
            out@.len() + back@.len() == done.len(),
            forall|i: int| 0 <= i < back@.len() ==> back@[i] == done[done.len() - 1 - i].1,
            forall|i: int| 0 <= i < out@.len() ==> out@[i] == (#[trigger] done[i]).1,
        decreases back@.len(),
    {
        let x = back.pop().unwrap();
        out.push(x);
    }
    assert(out@ =~= done.map_values(item));
    *events = out;
}

/// Whatever is offered first is closest, and nothing is lost.
pub proof fn closest_comes_first<T, F: Fn(&T) -> Moment>(
    events: Seq<T>,
    start_of: F,
    anchor: Moment,
)
    ensures
        in_order(
            stably_sorted(events, no_farther(start_of, anchor)),
            no_farther(start_of, anchor),
        ),
        stably_sorted(events, no_farther(start_of, anchor)).to_multiset()
            == events.to_multiset(),
{
    sorting_orders(events, no_farther(start_of, anchor));
}

/// Days before and after a meeting whose events are offered.
pub const CALENDAR_WINDOW_DAYS: i64 = 7;

/// A moment some seconds later, or earlier for a number below zero. One within
/// a leap second leaves it toward that side.
pub open spec fn moved(m: Moment, seconds: int) -> (int, int) {
    if m.nanos < 1_000_000_000 {
        (m.seconds + seconds, m.nanos as int)
    } else if seconds > 0 {
        (m.seconds + seconds, m.nanos - 1_000_000_000)
    } else {
        (m.seconds + 1 + seconds, m.nanos - 1_000_000_000)
    }
}

/// The moments between which events are offered for a meeting.
pub fn calendar_window(anchor: &Moment) -> (r: (Moment, Moment))
    requires
        anchor.valid(),
    ensures
        (r.0.seconds as int, r.0.nanos as int) == moved(*anchor, -CALENDAR_WINDOW_DAYS * 86_400),
        (r.1.seconds as int, r.1.nanos as int) == moved(*anchor, CALENDAR_WINDOW_DAYS * 86_400),
{
    let width: i64 = CALENDAR_WINDOW_DAYS * 86_400;
    if anchor.nanos < 1_000_000_000 {
        (
            Moment { seconds: anchor.seconds - width, nanos: anchor.nanos },
            Moment { seconds: anchor.seconds + width, nanos: anchor.nanos },
        )
    } else {
        let nanos: u32 = anchor.nanos - 1_000_000_000;
        (
            Moment { seconds: anchor.seconds + 1 - width, nanos },
            Moment { seconds: anchor.seconds + width, nanos },
        )
    }
}

/// What an event is called.
pub open spec fn event_title(summary: Option<String>) -> Seq<char> {
    match summary {
        Some(s) if s@.len() > 0 => s@,
        _ => "(untitled event)"@,
    }
}

/// What an event is called.
pub fn event_label(summary: &Option<String>) -> (r: String)
    ensures
        r@ == event_title(*summary),
{
    match summary {
        Some(s) => if s.as_str().is_empty() {
            "(untitled event)".to_owned()
        } else {
            s.clone()
        },
        None => "(untitled event)".to_owned(),
    }
}

/// How the linked event is shown.
#[derive(Debug, Clone, PartialEq, Eq)]
pub struct EventCard {
    pub title: String,
    pub time: String,
    pub location: Option<String>,
    pub attendees: Option<String>,
}

/// "1 attendee", "3 attendees".
pub open spec fn attendees_text(n: nat) -> Seq<char> {
    decimal(n) + " attendee"@ + if n == 1 {
        ""@
    } else {
        "s"@
    }
}

/// Whether a card shows an event with its local times.
pub open spec fn shows_event(card: EventCard, event: CalendarEvent, start: Stamp, end: Stamp) -> bool {
    &&& card.title@ == event_title(event.summary)
    &&& card.time@ == time_range(start, end)
    &&& opt_text(card.location) == match event.location {
        Some(l) if l@.len() > 0 => Some(l@),
        _ => None,
    }
    &&& opt_text(card.attendees) == if event.attendees@.len() > 0 {
        Some(attendees_text(event.attendees@.len()))
    } else {
        None
    }
}

/// The linked event, for local times.
pub fn event_card_on(event: &CalendarEvent, start: &Stamp, end: &Stamp) -> (r: EventCard)
    requires
        start.valid(),
        end.valid(),
    ensures
        shows_event(r, *event, *start, *end),
{
    let location = match &event.location {
        Some(l) => if l.as_str().is_empty() {
            None
        } else {
            Some(l.clone())
        },
        None => None,
    };
    let n: usize = event.attendees.len();
    let attendees = if n > 0 {
        let mut out = String::new();
        push_decimal(&mut out, n as u64);
        out.append(" attendee");
        if n == 1 {
            out.append("");
        } else {
            out.append("s");
        }
        assert(out@ =~= attendees_text(n as nat));
        Some(out)
    } else {
        None
    };
    EventCard {
        title: event_label(&event.summary),
        time: time_range_on(start, end),
        location,
        attendees,
    }
}

/// The linked event in the machine's time zone.
pub fn event_card(event: &CalendarEvent) -> (r: EventCard)
    requires
        event.start_at.valid(),
        event.end_at.valid(),
    ensures
        exists|s: Stamp, e: Stamp| #[trigger]
            local_to(s, event.start_at) && #[trigger] local_to(e, event.end_at) && shows_event(
                r,
                *event,
                s,
                e,
            ),
{
    let s = local_stamp(&event.start_at);
    let e = local_stamp(&event.end_at);
    event_card_on(event, &s, &e)
}

/// A text, or nothing.
pub open spec fn text_or_nothing(t: Option<String>) -> Seq<char> {
    match t {
        Some(s) => s@,
        None => ""@,
    }
}

/// Whether an event's name or place holds what was typed, in whatever case;
/// any event does where nothing was typed.
pub open spec fn event_matches(event: CalendarEvent, query: Seq<char>) -> bool {
    let q = lowercase(trimmed(query));
    ||| q.len() == 0
    ||| has_infix(lowercase(text_or_nothing(event.summary)), q)
    ||| has_infix(lowercase(text_or_nothing(event.location)), q)
}

/// The number of events that are offered at most.
pub const PICKER_ROWS: usize = 30;

/// The events that hold what was typed, in order.
pub open spec fn matching_events(events: Seq<CalendarEvent>, query: Seq<char>) -> Seq<
    CalendarEvent,
> {
    events.filter(|e: CalendarEvent| event_matches(e, query))
}

fn matches_query(event: &CalendarEvent, q: &str) -> (r: bool)
    ensures
        r == (q@.len() == 0 || has_infix(lowercase(text_or_nothing(event.summary)), q@)
            || has_infix(lowercase(text_or_nothing(event.location)), q@)),
{
    let summary = match &event.summary {
        Some(s) => to_lowercase(s),
        None => to_lowercase(""),
    };
    let location = match &event.location {
        Some(s) => to_lowercase(s),
        None => to_lowercase(""),
    };
    q.is_empty() || contains(&summary, q) || contains(&location, q)
}

/// The places of the events that hold what was typed, in order.
pub fn filter_events(events: &Vec<CalendarEvent>, query: &str) -> (r: Vec<usize>)
    ensures
        forall|i: int| 0 <= i < r@.len() ==> (#[trigger] r@[i]) < events@.len(),
        r@.map_values(|i: usize| events@[i as int]) == matching_events(events@, query@),
        forall|i: int, j: int| 0 <= i < j < r@.len() ==> r@[i] < r@[j],
{
    let q = to_lowercase(&trim(query));
    let ghost keep = |e: CalendarEvent| event_matches(e, query@);
    let ghost get = |i: usize| events@[i as int];
    let mut out: Vec<usize> = Vec::new();
    reveal(Seq::filter);
    assert(out@.map_values(get) =~= events@.take(0).filter(keep));
    for i in 0..events.len()
        invariant
            q@ == lowercase(trimmed(query@)),
            keep == (|e: CalendarEvent| event_matches(e, query@)),
            get == (|i: usize| events@[i as int]),
            out@.map_values(get) == events@.take(i as int).filter(keep),
            forall|j: int| 0 <= j < out@.len() ==> (#[trigger] out@[j]) < i,
            forall|j: int, k: int| 0 <= j < k < out@.len() ==> out@[j] < out@[k],
            i <= events@.len(),
    {
        let ghost next = events@.take(i + 1);
        let ghost had = out@;
        reveal(Seq::filter);
        assert(next.drop_last() =~= events@.take(i as int));
        assert(next.last() == events@[i as int]);
        if matches_query(&events[i], &q) {
            out.push(i);
            assert(out@.map_values(get) =~= had.map_values(get).push(events@[i as int]));
        }
    }
    assert(events@.take(events@.len() as int) =~= events@);
    out
}

/// A row of the picker.
#[derive(Debug, Clone, PartialEq, Eq)]
pub struct PickerRow {
    pub event_id: String,
    pub title: String,
    pub detail: String,
    pub is_current: bool,
    pub button: &'static str,
    pub enabled: bool,
}

/// Whether a row shows an event that starts at a local date and time.
pub open spec fn shows_row(
    row: PickerRow,
    event: CalendarEvent,
    local: Stamp,
    anchor: Moment,
    current: Option<Seq<char>>,
    busy: bool,
) -> bool {
    &&& row.event_id@ == event.id@
    &&& row.title@ == event_title(event.summary)
    &&& row.detail@ == stamp_text(local, PICKER_PATTERN@) + " · "@ + offset_text(
        millis_between(event.start_at, anchor),
    )
    &&& row.is_current == (current == Some(event.id@))
    &&& row.button@ == if row.is_current {
        "Linked"@
    } else {
        "Link"@
    }
    &&& row.enabled == !(busy || row.is_current)
}

/// Whether a row shows an event in some time zone.
pub open spec fn shows_row_somewhere(
    row: PickerRow,
    event: CalendarEvent,
    anchor: Moment,
    current: Option<Seq<char>>,
    busy: bool,
) -> bool {
    exists|local: Stamp|
        local_to(local, event.start_at) && #[trigger] shows_row(
            row,
            event,
            local,
            anchor,
            current,
            busy,
        )
}

/// A row of the picker, for a local date and time of the event's start.
pub fn picker_row_on(
    event: &CalendarEvent,
    local: &Stamp,
    anchor: &Moment,
    current: &Option<String>,
    busy: bool,
) -> (r: PickerRow)
    requires
        local.valid(),
        event.start_at.valid(),
        anchor.valid(),
    ensures
        shows_row(r, *event, *local, *anchor, opt_text(*current), busy),
{
    let is_current = opt_text_is(current, &event.id);
    let mut detail = format_stamp(local, PICKER_PATTERN);
    detail.append(" · ");
    detail.append(&format_offset(&event.start_at, anchor));
    PickerRow {
        event_id: event.id.clone(),
        title: event_label(&event.summary),
        detail,
        is_current,
        button: if is_current {
            "Linked"
        } else {
            "Link"
        },
        enabled: !(busy || is_current),
    }
}

/// The calendar's part of the meeting page.
pub struct CalendarPanel {
    /// The linked event.
    pub event: Option<CalendarEvent>,
    pub loading: bool,
    pub mutating: bool,
    pub picker_open: bool,
    /// The events on offer; none while they are being loaded.
    pub picker_events: Option<Vec<CalendarEvent>>,
    pub picker_error: Option<String>,
}

/// The body of the picker.
#[derive(Debug, Clone, PartialEq, Eq)]
pub enum PickerBody {
    Loading,
    NoEvents(String),
    Rows(Vec<PickerRow>),
}

/// What stands where there are no events to offer.
pub const NO_EVENTS: &'static str =
    "No events within ±7 days of the recording. Try refreshing your calendar in Settings.";

/// What is to be done once a link was set.
#[derive(Debug, Clone, PartialEq, Eq)]
pub enum LinkOutcome {
    /// Load the linked event again.
    Reload,
    Nothing,
    /// Show an error.
    Fail(String),
}

/// Why an event could not be linked.
#[derive(Debug, Clone, PartialEq, Eq)]
pub enum LinkFault {
    /// Storing the link failed.
    Refused(String),
    /// The work did not come to an end.
    Crashed(String),
}

/// Whether `r` is what is to be done once linking ended.
pub open spec fn link_leads_to(result: Result<bool, LinkFault>, r: LinkOutcome) -> bool {
    match result {
        Ok(linked) => r == if linked {
            LinkOutcome::Reload
        } else {
            LinkOutcome::Nothing
        },
        Err(LinkFault::Refused(e)) => r matches LinkOutcome::Fail(text) && text@
            == "Couldn't link that calendar event: "@ + e@,
        Err(LinkFault::Crashed(e)) => r matches LinkOutcome::Fail(text) && text@
            == "Calendar link task panicked: "@ + e@,
    }
}

impl CalendarPanel {
    /// The panel before any meeting was shown.
    pub fn new() -> (r: Self)
        ensures
            r == (CalendarPanel {
                event: None,
                loading: false,
                mutating: false,
                picker_open: false,
                picker_events: None,
                picker_error: None,
            }),
    {
        CalendarPanel {
            event: None,
            loading: false,
            mutating: false,
            picker_open: false,
            picker_events: None,
            picker_error: None,
        }
    }

    /// The panel of a meeting that is being loaded.
    pub open spec fn cleared(self) -> Self {
        CalendarPanel {
            event: None,
            loading: true,
            mutating: self.mutating,
            picker_open: false,
            picker_events: None,
            picker_error: None,
        }
    }

    /// Starts over for another meeting.
    pub fn reset(&mut self)
        ensures
            *final(self) == old(self).cleared(),
    {
        self.event = None;
        self.loading = true;
        self.picker_open = false;
        self.picker_events = None;
        self.picker_error = None;
    }

    /// The panel with the linked event taken over.
    pub open spec fn with_event(self, event: Option<Option<CalendarEvent>>) -> Self {
        CalendarPanel {
            loading: false,
            event: match event {
                Some(e) => e,
                None => self.event,
            },
            ..self
        }
    }

    /// Takes over the linked event. One that could not be loaded leaves what was
    /// there.
    pub fn finish_load(&mut self, event: Option<Option<CalendarEvent>>)
        ensures
            *final(self) == old(self).with_event(event),
    {
        self.loading = false;
        if let Some(e) = event {
            self.event = e;
        }
    }

    /// Opens the picker; whether there are events to load.
    pub fn open_picker(&mut self, has_db: bool) -> (r: bool)
        ensures
            r == has_db,
            opt_text(final(self).picker_error) == if has_db {
                None
            } else {
                Some("No database — complete onboarding first."@)
            },
            *final(self) == (CalendarPanel {
                picker_open: true,
                picker_events: None,
                picker_error: final(self).picker_error,
                ..*old(self)
            }),
    {
        self.picker_open = true;
        self.picker_events = None;
        self.picker_error = None;
        if !has_db {
            self.picker_error = Some("No database — complete onboarding first.".to_owned());
            return false;
        }
        true
    }

    /// Whether this is `had` after the events on offer were taken over.
    pub open spec fn offering(
        &self,
        had: &Self,
        events: Result<Vec<CalendarEvent>, String>,
        anchor: Moment,
    ) -> bool {
        if !had.picker_open {
            *self == *had
        } else {
            match events {
                Ok(list) => (self.picker_events matches Some(shown) && shown@ == stably_sorted(
                    list@,
                    closer_event(anchor),
                )) && *self == (CalendarPanel { picker_events: self.picker_events, ..*had }),
                Err(e) => *self == (CalendarPanel { picker_error: Some(e), ..*had }),
            }
        }
    }

    /// Takes over the events on offer, the closest to the meeting first. Nothing
    /// happens where the picker was closed meanwhile.
    pub fn finish_open_picker(
        &mut self,
        events: Result<Vec<CalendarEvent>, String>,
        anchor: &Moment,
    )
        requires
            anchor.valid(),
            events matches Ok(list) ==> forall|i: int|
                0 <= i < list@.len() ==> (#[trigger] list@[i]).start_at.valid(),
        ensures
            final(self).offering(old(self), events, *anchor),
    {
        if !self.picker_open {
            return;
        }
        match events {
            Ok(list) => {
                let mut list = list;
                let ghost had = list@;
                let start_of = |e: &CalendarEvent| -> (m: Moment)
                    ensures
                        m == e.start_at,
                    { e.start_at };
                sort_by_proximity(&mut list, anchor, start_of);
                proof {
                    let good = |e: CalendarEvent| moment_of(start_of, e) == e.start_at;
                    let same = |e: CalendarEvent| e;
                    lemma_sort_map_good(
                        had,
                        same,
                        no_farther(start_of, *anchor),
                        closer_event(*anchor),
                        good,
                    );
                    assert(had.map_values(same) =~= had);
                    assert(list@.map_values(same) =~= list@);
                }
                self.picker_events = Some(list);
            },
            Err(e) => {
                self.picker_error = Some(e);
            },
        }
    }

    /// Closes the picker.
    pub fn close_picker(&mut self)
        ensures
            *final(self) == (CalendarPanel { picker_open: false, ..*old(self) }),
    {
        self.picker_open = false;
    }

    /// Starts linking or unlinking an event.
    pub fn begin_link(&mut self)
        ensures
            *final(self) == (CalendarPanel { mutating: true, ..*old(self) }),
    {
        self.mutating = true;
    }

    /// The panel after linking ended.
    pub open spec fn linked(self, result: Result<bool, LinkFault>) -> Self {
        CalendarPanel {
            mutating: false,
            picker_open: if result == Ok::<bool, LinkFault>(true) {
                false
            } else {
                self.picker_open
            },
            ..self
        }
    }

    /// Takes over how linking ended: whether there was a meeting to link, or why
    /// it failed.
    pub fn finish_link(&mut self, result: Result<bool, LinkFault>) -> (r: LinkOutcome)
        ensures
            *final(self) == old(self).linked(result),
            link_leads_to(result, r),
    {
        self.mutating = false;
        match result {
            Ok(linked) => if linked {
                self.picker_open = false;
                LinkOutcome::Reload
            } else {
                LinkOutcome::Nothing
            },
            Err(LinkFault::Refused(e)) => {
                let mut out = "Couldn't link that calendar event: ".to_owned();
                out.append(&e);
                LinkOutcome::Fail(out)
            },
            Err(LinkFault::Crashed(e)) => {
                let mut out = "Calendar link task panicked: ".to_owned();
                out.append(&e);
                LinkOutcome::Fail(out)
            },
        }
    }

    /// The number of rows that the picker shows.
    pub open spec fn row_count(events: Seq<CalendarEvent>, query: Seq<char>) -> int {
        let n = matching_events(events, query).len();
        if n > PICKER_ROWS {
            PICKER_ROWS as int
        } else {
            n as int
        }
    }

    /// The body of the picker: a row for each of the first events that hold what
    /// was typed.
    pub fn picker_body(&self, query: &str, anchor: &Moment) -> (r: PickerBody)
        requires
            anchor.valid(),
            self.picker_events matches Some(list) ==> forall|i: int|
                0 <= i < list@.len() ==> (#[trigger] list@[i]).start_at.valid(),
        ensures
            match self.picker_events {
                None => r is Loading,
                Some(list) => if matching_events(list@, query@).len() == 0 {
                    r matches PickerBody::NoEvents(text) && text@ == NO_EVENTS@
                } else {
                    r matches PickerBody::Rows(rows) && rows@.len() == Self::row_count(
                        list@,
                        query@,
                    ) && forall|i: int|
                        0 <= i < rows@.len() ==> shows_row_somewhere(
                            #[trigger] rows@[i],
                            matching_events(list@, query@)[i],
                            *anchor,
                            self.current(),
                            self.mutating,
                        )
                },
            },
    {
        match &self.picker_events {
            None => PickerBody::Loading,
            Some(list) => {
                let found = filter_events(list, query);
                let ghost matching = matching_events(list@, query@);
                assert(found@.map_values(|i: usize| list@[i as int]).len() == matching.len());
                if found.len() == 0 {
                    return PickerBody::NoEvents(NO_EVENTS.to_owned());
                }
                let n: usize = if found.len() > PICKER_ROWS {
                    PICKER_ROWS
                } else {
                    found.len()
                };
                let current = match &self.event {
                    Some(e) => Some(e.id.clone()),
                    None => None,
                };
                assert(opt_text(current) == self.current());
                let mut rows: Vec<PickerRow> = Vec::new();
                let busy = self.mutating;
                for i in 0..n
                    invariant
                        n <= found@.len(),
                        anchor.valid(),
                        forall|j: int| 0 <= j < list@.len() ==> (#[trigger] list@[j]).start_at.valid(),
                        forall|j: int| 0 <= j < found@.len() ==> (#[trigger] found@[j]) < list@.len(),
                        found@.map_values(|i: usize| list@[i as int]) == matching,
                        opt_text(current) == self.current(),
                        busy == self.mutating,
                        rows@.len() == i,
                        forall|j: int|
                            0 <= j < i ==> shows_row_somewhere(
                                #[trigger] rows@[j],
                                matching[j],
                                *anchor,
                                self.current(),
                                self.mutating,
                            ),
                {
                    let at: usize = found[i];
                    let event = &list[at];
                    assert(found@.map_values(|i: usize| list@[i as int])[i as int] == *event);
                    let local = local_stamp(&event.start_at);
                    let row = picker_row_on(event, &local, anchor, &current, busy);
                    rows.push(row);
                    assert(shows_row(
                        rows@[i as int],
                        matching[i as int],
                        local,
                        *anchor,
                        self.current(),
                        self.mutating,
                    ));
                }
                PickerBody::Rows(rows)
            },
        }
    }

    /// The id of the linked event.
    pub open spec fn current(&self) -> Option<Seq<char>> {
        match self.event {
            Some(e) => Some(e.id@),
            None => None,
        }
    }
}

/// Whether one event starts at most as far from a moment as another.
pub open spec fn closer_event(anchor: Moment) -> spec_fn(CalendarEvent, CalendarEvent) -> bool {
    |a: CalendarEvent, b: CalendarEvent|
        distance(a.start_at, anchor) <= distance(b.start_at, anchor)
}

} // verus!
