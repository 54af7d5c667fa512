//! Desktop notifications: which are shown, what they say, and when a meeting
//! is reminded of.
use vstd::prelude::*;
use crate::clock::{seconds_between, seconds_from, Moment};
use crate::numbers::{decimal, push_decimal};
use crate::settings::config::NotificationPreferences;
use crate::text::{contains_text, opt_text, texts};

verus! {

/// Something to notify about.
#[derive(Debug, Clone, PartialEq, Eq)]
pub enum Kind {
    Started,
    Stopped,
    Paused,
    Resumed,
    TranscriptionComplete,
    SystemError(String),
    MeetingReminder { minutes: u64, title: Option<String> },
    Test,
}

/// The part of the notification settings that decides what is shown.
#[derive(Debug, Clone, PartialEq, Eq)]
pub struct SettingsMini {
    pub consent_given: bool,
    pub system_permission_granted: bool,
    pub manual_dnd_mode: bool,
    pub notification_preferences: NotificationPreferences,
}

/// What a missing switch counts as.
pub fn default_true() -> (r: bool)
    ensures
        r,
{
    true
}

/// The minutes before a meeting at which to remind of it unless others were
/// chosen.
pub fn default_reminder_minutes() -> (r: Vec<u64>)
    ensures
        r@ == seq![15u64, 5u64],
{
    let mut minutes: Vec<u64> = Vec::new();
    minutes.push(15);
    minutes.push(5);
    assert(minutes@ =~= seq![15u64, 5u64]);
    minutes
}

impl Default for SettingsMini {
    /// What holds where nothing was stored: everything is permitted.
    fn default() -> (r: Self)
        ensures
            r.consent_given,
            r.system_permission_granted,
            !r.manual_dnd_mode,
            r.notification_preferences.is_default(),
    {
        SettingsMini {
            consent_given: true,
            system_permission_granted: true,
            manual_dnd_mode: false,
            notification_preferences: NotificationPreferences::default(),
        }
    }
}

/// The switch for one kind of notification.
pub open spec fn kind_enabled(p: NotificationPreferences, kind: Kind) -> bool {
    match kind {
        Kind::Started => p.show_recording_started,
        Kind::Stopped => p.show_recording_stopped,
        Kind::Paused => p.show_recording_paused,
        Kind::Resumed => p.show_recording_resumed,
        Kind::TranscriptionComplete => p.show_transcription_complete,
        Kind::SystemError(_) => p.show_system_errors,
        Kind::MeetingReminder { .. } => p.show_meeting_reminders,
        Kind::Test => true,
    }
}

/// Whether a notification is shown: a test always, anything else only with
/// consent, with the system's permission, outside do-not-disturb, and where
/// its own switch is on.
pub open spec fn shown(settings: SettingsMini, kind: Kind) -> bool {
    kind is Test || (settings.consent_given && settings.system_permission_granted
        && !settings.manual_dnd_mode && kind_enabled(settings.notification_preferences, kind))
}

/// Whether a notification is shown.
pub fn should_notify(settings: &SettingsMini, kind: &Kind) -> (r: bool)
    ensures
        r == shown(*settings, *kind),
{
    if matches!(kind, Kind::Test) {
        return true;
    }
    if !settings.consent_given || !settings.system_permission_granted || settings.manual_dnd_mode {
        return false;
    }
    let p = &settings.notification_preferences;
    match kind {
        Kind::Started => p.show_recording_started,
        Kind::Stopped => p.show_recording_stopped,
        Kind::Paused => p.show_recording_paused,
        Kind::Resumed => p.show_recording_resumed,
        Kind::TranscriptionComplete => p.show_transcription_complete,
        Kind::SystemError(_) => p.show_system_errors,
        Kind::MeetingReminder { .. } => p.show_meeting_reminders,
        Kind::Test => true,
    }
}

/// Without consent, without permission or in do-not-disturb nothing but a test
/// is shown, and a test always is.
pub proof fn only_tests_pass_a_closed_gate(settings: SettingsMini, kind: Kind)
    requires
        !settings.consent_given || !settings.system_permission_granted || settings.manual_dnd_mode,
    ensures
        shown(settings, kind) <==> kind is Test,
{
}

/// The title of a notification.
pub open spec fn title_text(kind: Kind) -> Seq<char> {
    if kind is SystemError {
        "Parley Error"@
    } else {
        "Parley"@
    }
}

/// What a notification says.
pub open spec fn body_text(kind: Kind) -> Seq<char> {
    match kind {
        Kind::Started =>
            "Recording has started. Please inform others in the meeting that you are recording."@,
        Kind::Stopped => "Recording has been stopped and saved"@,
        Kind::Paused => "Recording has been paused"@,
        Kind::Resumed => "Recording has been resumed"@,
        Kind::TranscriptionComplete => "Transcription has been completed"@,
        Kind::SystemError(message) => message@,
        Kind::MeetingReminder { minutes, title } => match title {
            Some(t) => "Meeting '"@ + t@ + "' starts in "@ + decimal(minutes as nat) + " minutes"@,
            None => "Meeting starts in "@ + decimal(minutes as nat) + " minutes"@,
        },
        Kind::Test => "This is a test notification to verify the system is working correctly"@,
    }
}

/// The title of a notification, and what it says.
pub fn notification_text(kind: &Kind) -> (r: (&'static str, String))
    ensures
        r.0@ == title_text(*kind),
        r.1@ == body_text(*kind),
{
    match kind {
        Kind::Started => (
            "Parley",
            "Recording has started. Please inform others in the meeting that you are recording.".to_owned(),
        ),
        Kind::Stopped => ("Parley", "Recording has been stopped and saved".to_owned()),
        Kind::Paused => ("Parley", "Recording has been paused".to_owned()),
        Kind::Resumed => ("Parley", "Recording has been resumed".to_owned()),
        Kind::TranscriptionComplete => ("Parley", "Transcription has been completed".to_owned()),
        Kind::SystemError(message) => ("Parley Error", message.clone()),
        Kind::MeetingReminder { minutes, title } => {
            let mut out = match title {
                Some(t) => {
                    let mut out = "Meeting '".to_owned();
                    out.append(t);
                    out.append("' starts in ");
                    out
                },
                None => "Meeting starts in ".to_owned(),
            };
            push_decimal(&mut out, *minutes);
            out.append(" minutes");
            ("Parley", out)
        },
        Kind::Test => (
            "Parley",
            "This is a test notification to verify the system is working correctly".to_owned(),
        ),
    }
}

/// What to show for an event: nothing where the settings hold it back.
pub fn maybe_notify(settings: &SettingsMini, kind: &Kind) -> (r: Option<(&'static str, String)>)
    ensures
        match r {
            Some((title, body)) => shown(*settings, *kind) && title@ == title_text(*kind) && body@
                == body_text(*kind),
            None => !shown(*settings, *kind),
        },
{
    if should_notify(settings, kind) {
        Some(notification_text(kind))
    } else {
        None
    }
}

// ---------------------------------------------------------------------------
// Meeting reminders
// ---------------------------------------------------------------------------

/// A meeting that is coming up.
#[derive(Debug, Clone, PartialEq, Eq)]
pub struct UpcomingEvent {
    pub id: String,
    pub title: Option<String>,
    pub start_at: Moment,
}

/// A reminder that is due: the event, the minutes it was set for, the title.
pub type Reminder = (String, u64, Option<String>);

/// A reminder that is due, as texts.
pub open spec fn reminder_texts(r: Reminder) -> (Seq<char>, u64, Option<Seq<char>>) {
    (r.0@, r.1, opt_text(r.2))
}

/// The largest of some numbers; zero where there are none.
pub open spec fn largest(minutes: Seq<u64>) -> u64
    decreases minutes.len(),
{
    if minutes.len() == 0 {
        0
    } else if minutes.last() > largest(minutes.drop_last()) {
        minutes.last()
    } else {
        largest(minutes.drop_last())
    }
}

/// The largest of some numbers; zero where there are none.
pub fn max_minutes(minutes: &Vec<u64>) -> (r: u64)
    ensures
        r == largest(minutes@),
{
    let mut best: u64 = 0;
    for i in 0..minutes.len()
        invariant
            best == largest(minutes@.take(i as int)),
    {
        assert(minutes@.take(i + 1).drop_last() =~= minutes@.take(i as int));
        if minutes[i] > best {
            best = minutes[i];
        }
    }
    assert(minutes@.take(minutes@.len() as int) =~= minutes@);
    best
}

/// [`largest`] is one of the numbers, and none is larger.
pub proof fn lemma_largest(minutes: Seq<u64>)
    ensures
        forall|i: int| 0 <= i < minutes.len() ==> #[trigger] minutes[i] <= largest(minutes),
        minutes.len() > 0 ==> minutes.contains(largest(minutes)),
    decreases minutes.len(),
{
    if minutes.len() > 0 {
        let front = minutes.drop_last();
        lemma_largest(front);
        assert forall|i: int| 0 <= i < minutes.len() implies #[trigger] minutes[i] <= largest(
            minutes,
        ) by {
            if i < front.len() {
                assert(minutes[i] == front[i]);
            }
        }
        if largest(minutes) == minutes.last() {
            assert(minutes[minutes.len() - 1] == largest(minutes));
        } else if front.len() > 0 {
            let k = choose|k: int| 0 <= k < front.len() && front[k] == largest(front);
            assert(minutes[k] == largest(minutes));
        }
    }
}

/// Whether an event has come within a number of minutes, and not started.
pub open spec fn within(event: UpcomingEvent, now: Moment, minutes: u64) -> bool {
    0 <= seconds_between(event.start_at, now) <= minutes * 60
}

/// Whether an event is due a reminder: it has not been reminded of, has not
/// started, and has come within the largest number of minutes configured.
pub open spec fn is_due(
    event: UpcomingEvent,
    now: Moment,
    reminder_minutes: Seq<u64>,
    already: Seq<Seq<char>>,
) -> bool {
    reminder_minutes.len() > 0 && !already.contains(event.id@) && within(
        event,
        now,
        largest(reminder_minutes),
    )
}

/// The reminders that are due, in the order of the events. Each is for the
/// largest number of minutes, the first that an event comes within.
pub open spec fn due_of(
    events: Seq<UpcomingEvent>,
    now: Moment,
    reminder_minutes: Seq<u64>,
    already: Seq<Seq<char>>,
) -> Seq<(Seq<char>, u64, Option<Seq<char>>)>
    decreases events.len(),
{
    if events.len() == 0 {
        Seq::empty()
    } else {
        let before = due_of(events.drop_last(), now, reminder_minutes, already);
        let event = events.last();
        if is_due(event, now, reminder_minutes, already) {
            before.push((event.id@, largest(reminder_minutes), opt_text(event.title)))
        } else {
            before
        }
    }
}

/// The reminders that are due, as texts.
pub open spec fn due_texts(due: Seq<Reminder>) -> Seq<(Seq<char>, u64, Option<Seq<char>>)> {
    due.map_values(|r: Reminder| reminder_texts(r))
}

/// Which of `events` are due a reminder at `now`. An event is reminded of once:
/// the caller adds the ids handed out to `already_notified`.
pub fn due_reminders(
    events: &Vec<UpcomingEvent>,
    now: &Moment,
    reminder_minutes: &Vec<u64>,
    already_notified: &Vec<String>,
) -> (r: Vec<Reminder>)
    requires
        now.valid(),
        forall|i: int| 0 <= i < events@.len() ==> (#[trigger] events@[i]).start_at.valid(),
    ensures
        due_texts(r@) == due_of(events@, *now, reminder_minutes@, texts(already_notified@)),
{
    let mut due: Vec<Reminder> = Vec::new();
    let most = max_minutes(reminder_minutes);
    assert(due_texts(due@) =~= due_of(
        events@.take(0),
        *now,
        reminder_minutes@,
        texts(already_notified@),
    ));
    for i in 0..events.len()
        invariant
            now.valid(),
            forall|k: int| 0 <= k < events@.len() ==> (#[trigger] events@[k]).start_at.valid(),
            most == largest(reminder_minutes@),
            due_texts(due@) == due_of(
                events@.take(i as int),
                *now,
                reminder_minutes@,
                texts(already_notified@),
            ),
    {
        let ghost next = events@.take(i + 1);
        assert(next.drop_last() =~= events@.take(i as int));
        assert(next.last() == events@[i as int]);
        let event = &events[i];
        let seconds = seconds_from(&event.start_at, now);
        if reminder_minutes.len() > 0 && !contains_text(already_notified, &event.id) && seconds
            >= 0 && seconds as u128 <= most as u128 * 60 {
            let ghost had = due@;
            let title = match &event.title {
                Some(t) => Some(t.clone()),
                None => None,
            };
            let reminder = (event.id.clone(), most, title);
            due.push(reminder);
            assert(due_texts(due@) =~= due_texts(had).push(reminder_texts(reminder)));
        }
    }
    assert(events@.take(events@.len() as int) =~= events@);
    due
}

/// An entry of the calendar.
#[derive(Debug, Clone, PartialEq, Eq)]
pub struct CalendarEntry {
    pub id: String,
    pub summary: Option<String>,
    pub start_at: Moment,
    pub is_all_day: bool,
}

/// The entries that can be reminded of: those with a time, after `now`.
pub open spec fn upcoming_of(entries: Seq<CalendarEntry>, now: Moment) -> Seq<UpcomingEvent>
    decreases entries.len(),
{
    if entries.len() == 0 {
        Seq::empty()
    } else {
        let e = entries.last();
        let before = upcoming_of(entries.drop_last(), now);
        if !e.is_all_day && e.start_at.after(now) {
            before.push(UpcomingEvent { id: e.id, title: e.summary, start_at: e.start_at })
        } else {
            before
        }
    }
}

/// The entries that can be reminded of: those with a time, after `now`.
pub fn upcoming_events(entries: &Vec<CalendarEntry>, now: &Moment) -> (r: Vec<UpcomingEvent>)
    requires
        now.valid(),
        forall|i: int| 0 <= i < entries@.len() ==> (#[trigger] entries@[i]).start_at.valid(),
    ensures
        r@ == upcoming_of(entries@, *now),
        forall|i: int| 0 <= i < r@.len() ==> (#[trigger] r@[i]).start_at.valid(),
{
    let mut out: Vec<UpcomingEvent> = Vec::new();
    for i in 0..entries.len()
        invariant
            now.valid(),
            forall|k: int| 0 <= k < entries@.len() ==> (#[trigger] entries@[k]).start_at.valid(),
            out@ == upcoming_of(entries@.take(i as int), *now),
            forall|k: int| 0 <= k < out@.len() ==> (#[trigger] out@[k]).start_at.valid(),
    {
        let ghost next = entries@.take(i + 1);
        assert(next.drop_last() =~= entries@.take(i as int));
        assert(next.last() == entries@[i as int]);
        let e = &entries[i];
        if !e.is_all_day && e.start_at.is_after(now) {
            let title = match &e.summary {
                Some(t) => Some(t.clone()),
                None => None,
            };
            out.push(UpcomingEvent { id: e.id.clone(), title, start_at: e.start_at });
        }
    }
    assert(entries@.take(entries@.len() as int) =~= entries@);
    out
}

/// How many minutes ahead the calendar is to be read for reminders: one more
/// than the largest number configured, or not at all where reminders are off.
pub fn reminder_horizon(preferences: &NotificationPreferences) -> (r: Option<u64>)
    requires
        largest(preferences.meeting_reminder_minutes@) < u64::MAX,
    ensures
        r == if preferences.show_meeting_reminders
            && preferences.meeting_reminder_minutes@.len() > 0 {
            Some((largest(preferences.meeting_reminder_minutes@) + 1) as u64)
        } else {
            None
        },
{
    if preferences.show_meeting_reminders && preferences.meeting_reminder_minutes.len() > 0 {
        Some(max_minutes(&preferences.meeting_reminder_minutes) + 1)
    } else {
        None
    }
}

/// The ids of some reminders.
pub open spec fn reminder_ids(due: Seq<Reminder>) -> Seq<Seq<char>> {
    due.map_values(|r: Reminder| r.0@)
}

/// Hands out the reminders that are due at `now`, and remembers that they were.
pub fn reminder_tick(
    preferences: &NotificationPreferences,
    entries: &Vec<CalendarEntry>,
    now: &Moment,
    already_notified: &mut Vec<String>,
) -> (r: Vec<Reminder>)
    requires
        now.valid(),
        forall|i: int| 0 <= i < entries@.len() ==> (#[trigger] entries@[i]).start_at.valid(),
    ensures
        due_texts(r@) == if preferences.show_meeting_reminders {
            due_of(
                upcoming_of(entries@, *now),
                *now,
                preferences.meeting_reminder_minutes@,
                texts(old(already_notified)@),
            )
        } else {
            Seq::empty()
        },
        texts(final(already_notified)@) == texts(old(already_notified)@) + reminder_ids(r@),
        forall|i: int|
            0 <= i < r@.len() ==> !texts(old(already_notified)@).contains(
                #[trigger] reminder_ids(r@)[i],
            ) && texts(final(already_notified)@).contains(reminder_ids(r@)[i]),
{
    let ghost before = already_notified@;
    if !preferences.show_meeting_reminders {
        let none: Vec<Reminder> = Vec::new();
        assert(due_texts(none@) =~= Seq::empty());
        assert(texts(before) + reminder_ids(none@) =~= texts(before));
        return none;
    }
    let upcoming = upcoming_events(entries, now);
    let due = due_reminders(
        &upcoming,
        now,
        &preferences.meeting_reminder_minutes,
        already_notified,
    );
    proof {
        lemma_due_are_new(
            upcoming@,
            *now,
            preferences.meeting_reminder_minutes@,
            texts(before),
        );
    }
    assert(texts(before) + reminder_ids(due@).take(0) =~= texts(before));
    for i in 0..due.len()
        invariant
            texts(already_notified@) == texts(before) + reminder_ids(due@).take(i as int),
    {
        let ghost had = already_notified@;
        already_notified.push(due[i].0.clone());
        assert(texts(already_notified@) =~= texts(had).push(due@[i as int].0@));
        assert(texts(already_notified@) =~= texts(before) + reminder_ids(due@).take(i + 1));
    }
    proof {
        assert(reminder_ids(due@).take(due@.len() as int) =~= reminder_ids(due@));
        assert forall|i: int| 0 <= i < due@.len() implies !texts(before).contains(
            #[trigger] reminder_ids(due@)[i],
        ) && texts(already_notified@).contains(reminder_ids(due@)[i]) by {
            assert(due_texts(due@)[i].0 == reminder_ids(due@)[i]);
            assert(texts(already_notified@)[texts(before).len() + i] == reminder_ids(due@)[i]);
        }
    }
    due
}

pub(crate) proof fn lemma_due_are_new(
    events: Seq<UpcomingEvent>,
    now: Moment,
    minutes: Seq<u64>,
    already: Seq<Seq<char>>,
)
    ensures
        forall|i: int|
            0 <= i < due_of(events, now, minutes, already).len() ==> !already.contains(
                (#[trigger] due_of(events, now, minutes, already)[i]).0,
            ),
    decreases events.len(),
{
    if events.len() > 0 {
        lemma_due_are_new(events.drop_last(), now, minutes, already);
        let before = due_of(events.drop_last(), now, minutes, already);
        let all = due_of(events, now, minutes, already);
        assert forall|i: int| 0 <= i < all.len() implies !already.contains(
            (#[trigger] all[i]).0,
        ) by {
            if i < before.len() {
                assert(all[i] == before[i]);
            }
        }
    }
}

/// An event that has been reminded of is never due again.
pub proof fn reminders_fire_once(
    event: UpcomingEvent,
    now: Moment,
    minutes: Seq<u64>,
    already: Seq<Seq<char>>,
)
    requires
        already.contains(event.id@),
    ensures
        !is_due(event, now, minutes, already),
{
}

/// An event is due as soon as it comes within any of the numbers of minutes
/// configured, and the reminder is for the largest of them.
pub proof fn reminders_use_the_largest_threshold(
    event: UpcomingEvent,
    now: Moment,
    minutes: Seq<u64>,
    already: Seq<Seq<char>>,
)
    requires
        !already.contains(event.id@),
    ensures
        is_due(event, now, minutes, already) <==> exists|i: int|
            0 <= i < minutes.len() && within(event, now, #[trigger] minutes[i]),
{
    lemma_largest(minutes);
    if is_due(event, now, minutes, already) {
        let k = choose|k: int| 0 <= k < minutes.len() && minutes[k] == largest(minutes);
        assert(within(event, now, minutes[k]));
    }
    if exists|i: int| 0 <= i < minutes.len() && within(event, now, #[trigger] minutes[i]) {
        let i = choose|i: int| 0 <= i < minutes.len() && within(event, now, #[trigger] minutes[i]);
        assert(minutes[i] <= largest(minutes));
    }
}

} // verus!
