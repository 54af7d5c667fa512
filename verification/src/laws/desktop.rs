//! Notifications, reminders, the tray, updates and the desktop's font.
use vstd::prelude::*;
use crate::clock::{seconds_from, Moment};
use crate::fonts::{apply_system_mono_font, fontconfig_mono_family, gsettings_mono_family, strip_pango_size, system_mono_family};
use crate::notifications::{due_of, due_reminders, due_texts, is_due, largest, lemma_largest, max_minutes, maybe_notify, notification_text, reminder_horizon, reminder_ids, reminder_texts, reminder_tick, should_notify, upcoming_events, upcoming_of, CalendarEntry, Kind, Reminder, SettingsMini, UpcomingEvent};
use crate::numbers::to_decimal;
use crate::recording::controls::RecordingPhase;
use crate::settings::config::NotificationPreferences;
use crate::text::{opt_text, texts, trim, trimmed};
use crate::tray::{build_menu, item_view, menu_in, status_label, tray_event_kind, tray_icon, Tray, TrayEvent, TrayEventKind, TrayItem};
use crate::updates::{check_for_updates, is_newer, update_message, version_of_tag, version_verdict, ReleaseReply};

verus! {

/// A notification is shown where the user has agreed to it, the system permits it,
/// nobody asked not to be disturbed, and its own switch is on. A test always is.
pub proof fn notifications_pass_every_gate(settings: &SettingsMini, kind: &Kind, r: bool)
    requires
        call_ensures(should_notify, (settings, kind), r),
    ensures
        *kind is Test ==> r,
        !(*kind is Test) && !settings.consent_given ==> !r,
        !(*kind is Test) && !settings.system_permission_granted ==> !r,
        !(*kind is Test) && settings.manual_dnd_mode ==> !r,
        settings.consent_given && settings.system_permission_granted && !settings.manual_dnd_mode
            ==> match *kind {
            Kind::Started => r == settings.notification_preferences.show_recording_started,
            Kind::Stopped => r == settings.notification_preferences.show_recording_stopped,
            Kind::Paused => r == settings.notification_preferences.show_recording_paused,
            Kind::Resumed => r == settings.notification_preferences.show_recording_resumed,
            Kind::TranscriptionComplete => r
                == settings.notification_preferences.show_transcription_complete,
            Kind::SystemError(_) => r == settings.notification_preferences.show_system_errors,
            Kind::MeetingReminder { .. } => r
                == settings.notification_preferences.show_meeting_reminders,
            Kind::Test => r,
        },
{
}

/// What is shown is the text of what happened, where it is shown at all.
pub proof fn notifications_say_what_happened(
    settings: &SettingsMini,
    kind: &Kind,
    passes: bool,
    text: (&'static str, String),
    r: Option<(&'static str, String)>,
)
    requires
        call_ensures(maybe_notify, (settings, kind), r),
        call_ensures(should_notify, (settings, kind), passes),
        call_ensures(notification_text, (kind,), text),
    ensures
        r is Some <==> passes,
        r matches Some((title, body)) ==> title@ == text.0@ && body@ == text.1@,
        *kind is SystemError ==> text.0@ == "Parley Error"@,
        !(*kind is SystemError) ==> text.0@ == "Parley"@,
        *kind matches Kind::SystemError(m) ==> text.1@ == m@,
        *kind is Started ==> text.1@
            == "Recording has started. Please inform others in the meeting that you are recording."@,
        *kind is Stopped ==> text.1@ == "Recording has been stopped and saved"@,
        *kind is Paused ==> text.1@ == "Recording has been paused"@,
        *kind is Resumed ==> text.1@ == "Recording has been resumed"@,
        *kind is TranscriptionComplete ==> text.1@ == "Transcription has been completed"@,
{
}

/// A reminder says which meeting starts, where it has a title, and in how many
/// minutes.
pub proof fn reminders_say_when_a_meeting_starts(
    kind: &Kind,
    minutes: u64,
    title: Option<String>,
    of_minutes: String,
    text: (&'static str, String),
)
    requires
        *kind == (Kind::MeetingReminder { minutes, title }),
        call_ensures(notification_text, (kind,), text),
        call_ensures(to_decimal, (minutes,), of_minutes),
    ensures
        title matches Some(t) ==> text.1@ == "Meeting '"@ + t@ + "' starts in "@ + of_minutes@
            + " minutes"@,
        title is None ==> text.1@ == "Meeting starts in "@ + of_minutes@ + " minutes"@,
{
}

/// The largest number is one of those given, and none of them is larger.
pub proof fn the_largest_number_is_found(minutes: &Vec<u64>, r: u64, i: int)
    requires
        call_ensures(max_minutes, (minutes,), r),
    ensures
        0 <= i < minutes@.len() ==> minutes@[i] <= r,
        minutes@.len() > 0 ==> minutes@.contains(r),
        minutes@.len() == 0 ==> r == 0,
{
    lemma_largest(minutes@);
}

proof fn lemma_due_has(
    events: Seq<UpcomingEvent>,
    now: Moment,
    minutes: Seq<u64>,
    already: Seq<Seq<char>>,
    at: int,
)
    requires
        0 <= at < events.len(),
        is_due(events[at], now, minutes, already),
    ensures
        due_of(events, now, minutes, already).contains(
            (events[at].id@, largest(minutes), opt_text(events[at].title)),
        ),
    decreases events.len(),
{
    let all = due_of(events, now, minutes, already);
    let e = (events[at].id@, largest(minutes), opt_text(events[at].title));
    if at == events.len() - 1 {
        assert(all[all.len() - 1] == e);
    } else {
        let front = events.drop_last();
        let before = due_of(front, now, minutes, already);
        lemma_due_has(front, now, minutes, already, at);
        let k = choose|k: int| 0 <= k < before.len() && before[k] == e;
        assert(all[k] == e);
    }
}

/// Whether a reminder is for one of some events that is due.
pub open spec fn for_due_event(
    events: Seq<UpcomingEvent>,
    now: Moment,
    minutes: Seq<u64>,
    already: Seq<Seq<char>>,
    r: (Seq<char>, u64, Option<Seq<char>>),
) -> bool {
    exists|i: int|
        0 <= i < events.len() && is_due(#[trigger] events[i], now, minutes, already) && r == (
            events[i].id@,
            largest(minutes),
            opt_text(events[i].title),
        )
}

proof fn lemma_due_only(
    events: Seq<UpcomingEvent>,
    now: Moment,
    minutes: Seq<u64>,
    already: Seq<Seq<char>>,
    k: int,
)
    requires
        0 <= k < due_of(events, now, minutes, already).len(),
    ensures
        for_due_event(events, now, minutes, already, due_of(events, now, minutes, already)[k]),
    decreases events.len(),
{
    let front = events.drop_last();
    let before = due_of(front, now, minutes, already);
    if k < before.len() {
        lemma_due_only(front, now, minutes, already, k);
        let i = choose|i: int|
            0 <= i < front.len() && is_due(#[trigger] front[i], now, minutes, already) && before[k]
                == (front[i].id@, largest(minutes), opt_text(front[i].title));
        assert(events[i] == front[i]);
    } else {
        assert(is_due(events[events.len() - 1], now, minutes, already));
    }
}

/// An event is reminded of exactly where it has not been, has not started, and
/// starts within the largest number of minutes that was set.
pub proof fn events_are_reminded_of_in_time(
    events: &Vec<UpcomingEvent>,
    now: &Moment,
    minutes: &Vec<u64>,
    already: &Vec<String>,
    at: int,
    start: &Moment,
    secs: i64,
    most: u64,
    r: Vec<Reminder>,
)
    requires
        call_ensures(due_reminders, (events, now, minutes, already), r),
        0 <= at < events@.len(),
        *start == events@[at].start_at,
        call_ensures(seconds_from, (start, now), secs),
        call_ensures(max_minutes, (minutes,), most),
        forall|i: int, j: int|
            0 <= i < j < events@.len() ==> (#[trigger] events@[i]).id@ != (#[trigger] events@[j]).id@,
    ensures
        (exists|k: int| 0 <= k < r@.len() && (#[trigger] r@[k]).0@ == events@[at].id@) <==> (
        minutes@.len() > 0 && 0 <= secs <= most * 60 && !texts(already@).contains(events@[at].id@)),
        forall|k: int| 0 <= k < r@.len() ==> (#[trigger] r@[k]).1 == most,
        forall|k: int|
            0 <= k < r@.len() && (#[trigger] r@[k]).0@ == events@[at].id@ ==> opt_text(r@[k].2)
                == opt_text(events@[at].title),
{
    let told = texts(already@);
    let due = due_of(events@, *now, minutes@, told);
    let all = due_texts(r@);
    assert(all == due);
    assert(all.len() == r@.len());
    if is_due(events@[at], *now, minutes@, told) {
        lemma_due_has(events@, *now, minutes@, told, at);
        let e = (events@[at].id@, largest(minutes@), opt_text(events@[at].title));
        let k = choose|k: int| 0 <= k < due.len() && due[k] == e;
        assert(all[k] == reminder_texts(r@[k]));
        assert(r@[k].0@ == events@[at].id@);
    }
    assert forall|k: int| 0 <= k < r@.len() implies (#[trigger] r@[k]).1 == most && (r@[k].0@
        == events@[at].id@ ==> is_due(events@[at], *now, minutes@, told) && opt_text(r@[k].2)
        == opt_text(events@[at].title)) by {
        assert(all[k] == reminder_texts(r@[k]));
        lemma_due_only(events@, *now, minutes@, told, k);
        let i = choose|i: int|
            0 <= i < events@.len() && is_due(#[trigger] events@[i], *now, minutes@, told) && due[k]
                == (events@[i].id@, largest(minutes@), opt_text(events@[i].title));
        if r@[k].0@ == events@[at].id@ {
            if i < at {
                assert(events@[i].id@ != events@[at].id@);
            }
            if at < i {
                assert(events@[at].id@ != events@[i].id@);
            }
        }
    }
}

/// Whether an event stands for an entry of the calendar.
pub open spec fn stands_for_entry(entries: Seq<CalendarEntry>, now: Moment, e: UpcomingEvent) -> bool {
    exists|i: int|
        0 <= i < entries.len() && !(#[trigger] entries[i]).is_all_day && entries[i].start_at.after(now)
            && e.id == entries[i].id && e.title == entries[i].summary && e.start_at
            == entries[i].start_at
}

proof fn lemma_upcoming(entries: Seq<CalendarEntry>, now: Moment)
    ensures
        forall|k: int|
            0 <= k < upcoming_of(entries, now).len() ==> stands_for_entry(
                entries,
                now,
                #[trigger] upcoming_of(entries, now)[k],
            ),
        forall|i: int|
            0 <= i < entries.len() && !(#[trigger] entries[i]).is_all_day
                && entries[i].start_at.after(now) ==> upcoming_of(entries, now).contains(
                UpcomingEvent {
                    id: entries[i].id,
                    title: entries[i].summary,
                    start_at: entries[i].start_at,
                },
            ),
    decreases entries.len(),
{
    if entries.len() > 0 {
        let front = entries.drop_last();
        let before = upcoming_of(front, now);
        let all = upcoming_of(entries, now);
        lemma_upcoming(front, now);
        assert forall|k: int| 0 <= k < all.len() implies stands_for_entry(
            entries,
            now,
            #[trigger] all[k],
        ) by {
            if k < before.len() {
                assert(all[k] == before[k]);
                assert(stands_for_entry(front, now, before[k]));
                let i = choose|i: int|
                    0 <= i < front.len() && !(#[trigger] front[i]).is_all_day
                        && front[i].start_at.after(now) && before[k].id == front[i].id
                        && before[k].title == front[i].summary && before[k].start_at
                        == front[i].start_at;
                assert(entries[i] == front[i]);
            } else {
                assert(!entries[entries.len() - 1].is_all_day);
            }
        }
        assert forall|i: int|
            0 <= i < entries.len() && !(#[trigger] entries[i]).is_all_day
                && entries[i].start_at.after(now) implies all.contains(
            UpcomingEvent {
                id: entries[i].id,
                title: entries[i].summary,
                start_at: entries[i].start_at,
            },
        ) by {
            let e = UpcomingEvent {
                id: entries[i].id,
                title: entries[i].summary,
                start_at: entries[i].start_at,
            };
            if i < front.len() {
                assert(front[i] == entries[i]);
                assert(before.contains(e));
                let k = choose|k: int| 0 <= k < before.len() && before[k] == e;
                assert(all[k] == e);
            } else {
                assert(all[all.len() - 1] == e);
            }
        }
    }
}

/// Events that have a time and have not started can be reminded of, and no others.
pub proof fn events_with_a_time_are_coming_up(
    entries: &Vec<CalendarEntry>,
    now: &Moment,
    r: Vec<UpcomingEvent>,
    i: int,
    k: int,
)
    requires
        call_ensures(upcoming_events, (entries, now), r),
    ensures
        0 <= i < entries@.len() && !entries@[i].is_all_day && (entries@[i].start_at.seconds
            > now.seconds || (entries@[i].start_at.seconds == now.seconds && entries@[i].start_at.nanos
            > now.nanos)) ==> exists|j: int|
            0 <= j < r@.len() && (#[trigger] r@[j]).id == entries@[i].id && r@[j].title
                == entries@[i].summary && r@[j].start_at == entries@[i].start_at,
        0 <= k < r@.len() ==> r@[k].start_at.seconds > now.seconds || (r@[k].start_at.seconds
            == now.seconds && r@[k].start_at.nanos > now.nanos),
        0 <= k < r@.len() ==> exists|j: int|
            0 <= j < entries@.len() && (#[trigger] entries@[j]).id == r@[k].id && !entries@[j].is_all_day,
{
    lemma_upcoming(entries@, *now);
    if 0 <= i < entries@.len() && !entries@[i].is_all_day && entries@[i].start_at.after(*now) {
        let e = UpcomingEvent {
            id: entries@[i].id,
            title: entries@[i].summary,
            start_at: entries@[i].start_at,
        };
        assert(r@.contains(e));
        let j = choose|j: int| 0 <= j < r@.len() && r@[j] == e;
        assert(r@[j].id == entries@[i].id);
    }
    if 0 <= k < r@.len() {
        assert(stands_for_entry(entries@, *now, r@[k]));
    }
}

/// The calendar is read one minute further ahead than is reminded, and not at all
/// where reminders are off.
pub proof fn calendars_are_read_far_enough(
    preferences: &NotificationPreferences,
    most: u64,
    r: Option<u64>,
)
    requires
        call_ensures(reminder_horizon, (preferences,), r),
        call_ensures(max_minutes, (&preferences.meeting_reminder_minutes,), most),
        most < u64::MAX,
    ensures
        !preferences.show_meeting_reminders ==> r is None,
        preferences.meeting_reminder_minutes@.len() == 0 ==> r is None,
        preferences.show_meeting_reminders && preferences.meeting_reminder_minutes@.len() > 0 ==> r
            == Some((most + 1) as u64),
{
}

/// Reminders are handed out once: what was handed out is remembered, nothing that
/// was is handed out again, and nothing is where reminders are off.
pub proof fn reminders_are_handed_out_once(
    preferences: &NotificationPreferences,
    entries: &Vec<CalendarEntry>,
    now: &Moment,
    already: &mut Vec<String>,
    r: Vec<Reminder>,
    k: int,
)
    requires
        call_ensures(reminder_tick, (preferences, entries, now, already), r),
    ensures
        !preferences.show_meeting_reminders ==> r@.len() == 0,
        0 <= k < r@.len() ==> texts(final(already)@).contains(r@[k].0@) && !texts(
            old(already)@,
        ).contains(r@[k].0@),
        final(already)@.len() == old(already)@.len() + r@.len(),
        forall|i: int|
            0 <= i < old(already)@.len() ==> (#[trigger] final(already)@[i])@ == old(already)@[i]@,
{
    let ids = reminder_ids(r@);
    assert(due_texts(r@).len() == r@.len());
    assert(ids.len() == r@.len());
    if 0 <= k < r@.len() {
        assert(ids[k] == r@[k].0@);
    }
    let after = texts(final(already)@);
    assert(after.len() == final(already)@.len());
    assert(texts(old(already)@).len() == old(already)@.len());
    assert forall|i: int| 0 <= i < old(already)@.len() implies (#[trigger] final(already)@[i])@ == old(
        already)@[i]@ by {
        assert(after[i] == final(already)@[i]@);
        assert(texts(old(already)@)[i] == old(already)@[i]@);
    }
}

/// Reminders are those that are due of the events coming up.
pub proof fn ticks_hand_out_what_is_due(
    preferences: &NotificationPreferences,
    entries: &Vec<CalendarEntry>,
    now: &Moment,
    already: &mut Vec<String>,
    coming: &Vec<UpcomingEvent>,
    told: &Vec<String>,
    due: Vec<Reminder>,
    r: Vec<Reminder>,
)
    requires
        call_ensures(reminder_tick, (preferences, entries, now, already), r),
        preferences.show_meeting_reminders,
        call_ensures(upcoming_events, (entries, now), *coming),
        texts(told@) == texts(old(already)@),
        call_ensures(due_reminders, (coming, now, &preferences.meeting_reminder_minutes, told), due),
    ensures
        due_texts(r@) == due_texts(due@),
{
}

// ---------------------------------------------------------------------------
// Tray
// ---------------------------------------------------------------------------

/// The menu says what the recording does, and offers what can be done to it:
/// starting one where there is none, pausing one that runs, resuming one that is
/// paused, stopping one that does either. Opening, settings, updates and quitting
/// are always there.
pub proof fn menus_offer_what_can_be_done(phase: RecordingPhase, label: &'static str, r: Vec<TrayItem>)
    requires
        call_ensures(build_menu, (phase,), r),
        call_ensures(status_label, (phase,), label),
    ensures
        r@.len() == 12,
        r@[0].label@ == label@ && r@[0].action is Status && !r@[0].enabled,
        r@[2].action is StartRecording && r@[2].enabled == (phase is Idle) && r@[2].label@
            == "Start recording"@,
        r@[3].action is PauseRecording && r@[3].enabled == (phase is Recording) && r@[3].label@
            == "Pause recording"@,
        r@[4].action is ResumeRecording && r@[4].enabled == (phase is Paused) && r@[4].label@
            == "Resume recording"@,
        r@[5].action is StopRecording && r@[5].enabled == (phase is Recording || phase is Paused)
            && r@[5].label@ == "Stop recording"@,
        r@[7].action is OpenParley && r@[7].enabled,
        r@[8].action is Settings && r@[8].enabled,
        r@[9].action is CheckForUpdates && r@[9].enabled,
        r@[11].action is Quit && r@[11].enabled,
        phase is Idle ==> label@ == "Not recording"@,
        phase is Recording ==> label@ == "Recording…"@,
        phase is Paused ==> label@ == "Paused"@,
        phase is Starting ==> label@ == "Starting…"@,
        phase is Stopping ==> label@ == "Stopping…"@,
        phase is Finalising ==> label@ == "Finalising…"@,
        phase is Error ==> label@ == "Recording error"@,
{
    let all = r@.map_values(|i: TrayItem| item_view(i));
    assert(all.len() == r@.len());
    assert(menu_in(phase).len() == 12);
    assert(all[0] == item_view(r@[0]));
    assert(all[2] == item_view(r@[2]));
    assert(all[3] == item_view(r@[3]));
    assert(all[4] == item_view(r@[4]));
    assert(all[5] == item_view(r@[5]));
    assert(all[7] == item_view(r@[7]));
    assert(all[8] == item_view(r@[8]));
    assert(all[9] == item_view(r@[9]));
    assert(all[11] == item_view(r@[11]));
}

/// Pausing and resuming are notified about when they happen, and so are starts,
/// ends, finished transcripts and errors; nothing else is.
pub proof fn events_are_notified_about(tray: &mut Tray, event: TrayEvent, r: Option<Kind>)
    requires
        call_ensures(Tray::on_event, (tray, event), r),
    ensures
        event matches TrayEvent::State(now) ==> final(tray).phase == now,
        !(event is State) ==> final(tray).phase == old(tray).phase,
        event matches TrayEvent::State(now) ==> (old(tray).phase is Recording && now is Paused ==> r
            == Some(Kind::Paused)),
        event matches TrayEvent::State(now) ==> (old(tray).phase is Paused && now is Recording ==> r
            == Some(Kind::Resumed)),
        event matches TrayEvent::State(now) ==> (!(old(tray).phase is Recording && now is Paused) && !(
        old(tray).phase is Paused && now is Recording) ==> r is None),
        event is Started ==> r == Some(Kind::Started),
        event is Stopped ==> r == Some(Kind::Stopped),
        event is Refined ==> r == Some(Kind::TranscriptionComplete),
        event matches TrayEvent::RecordingError(m) ==> r == Some(Kind::SystemError(m)),
        event matches TrayEvent::TranscriptionError(m) ==> (r matches Some(Kind::SystemError(t)) && t@
            == (match m {
            Some(x) => x@,
            None => "Transcription error"@,
        })),
        event is Other ==> r is None,
{
}

/// Events are told apart by their names.
pub proof fn tray_events_have_names(name: &str, r: TrayEventKind)
    requires
        call_ensures(tray_event_kind, (name,), r),
    ensures
        r is State <==> name@ == "recording-state"@,
        r is Started ==> name@ == "recording-started"@,
        r is Stopped ==> name@ == "recording-stopped"@,
        r is Refined ==> name@ == "meeting-refined"@,
        r is RecordingError ==> name@ == "recording-error"@,
        r is TranscriptionError ==> name@ == "transcription-error"@,
        name@ == "recording-started"@ || name@ == "recording-stopped"@ || name@ == "meeting-refined"@
            || name@ == "recording-error"@ || name@ == "transcription-error"@ ==> !(r is Other),
{
}

/// The icon is a filled red circle on a clear square of 32 pixels.
pub proof fn the_icon_is_a_red_circle(r: Vec<u8>, x: int, y: int)
    requires
        call_ensures(tray_icon, (), r),
        0 <= x < 32,
        0 <= y < 32,
    ensures
        r@.len() == 4096,
        (x - 15) * (x - 15) + (y - 15) * (y - 15) <= 169 ==> r@[4 * (32 * y + x)] == 220 && r@[4 * (32
            * y + x) + 1] == 70 && r@[4 * (32 * y + x) + 2] == 70 && r@[4 * (32 * y + x) + 3] == 255,
        (x - 15) * (x - 15) + (y - 15) * (y - 15) > 169 ==> r@[4 * (32 * y + x) + 3] == 0,
{
    let p = 32 * y + x;
    assert((4 * p) / 4 == p && (4 * p + 1) / 4 == p && (4 * p + 2) / 4 == p && (4 * p + 3) / 4 == p);
    assert(p % 32 == x && p / 32 == y);
    assert(0 <= 4 * p && 4 * p + 3 < 4096);
}

// ---------------------------------------------------------------------------
// Updates
// ---------------------------------------------------------------------------

/// A tag names the version behind its "v".
pub proof fn tags_name_versions(tag: &str, rest: Seq<char>, r: String)
    requires
        call_ensures(version_of_tag, (tag,), r),
    ensures
        tag@ == seq!['v'] + rest ==> r@ == rest,
        tag@.len() == 0 || tag@[0] != 'v' ==> r@ == tag@,
{
    reveal_strlit("v");
    assert("v"@ =~= seq!['v']);
    if tag@ == seq!['v'] + rest {
        assert(tag@.subrange(0, 1) =~= "v"@);
        assert(tag@.subrange(1, tag@.len() as int) =~= rest);
    }
    if tag@.len() > 0 && tag@[0] != 'v' {
        assert(tag@.subrange(0, 1)[0] != "v"@[0]);
    }
}

/// Versions of three numbers go by the first number in which they differ.
pub proof fn newer_versions_have_larger_numbers(
    current: &str,
    tag: &str,
    latest: String,
    a: (u64, u64, u64),
    b: (u64, u64, u64),
    r: Result<bool, String>,
)
    requires
        call_ensures(is_newer, (current, tag), r),
        call_ensures(version_of_tag, (tag,), latest),
        current@ == crate::updates::plain_version(a.0, a.1, a.2),
        latest@ == crate::updates::plain_version(b.0, b.1, b.2),
    ensures
        b.0 > a.0 ==> (r matches Ok(n) && n),
        b.0 < a.0 ==> (r matches Ok(n) && !n),
        b.0 == a.0 && b.1 > a.1 ==> (r matches Ok(n) && n),
        b.0 == a.0 && b.1 < a.1 ==> (r matches Ok(n) && !n),
        b.0 == a.0 && b.1 == a.1 ==> (r matches Ok(n) && n == (b.2 > a.2)),
{
}

/// A version that cannot be read is an error that names it; the running one is
/// looked at first.
pub proof fn unreadable_versions_are_errors(
    current: &str,
    latest: &str,
    fault: Option<String>,
    latest_fault: Option<String>,
    later: bool,
    r: Result<bool, String>,
)
    requires
        call_ensures(version_verdict, (current, latest, fault, latest_fault, later), r),
    ensures
        fault matches Some(e) ==> (r matches Err(m) && m@ == "couldn't parse the current version ("@
            + current@ + "): "@ + e@),
        fault is None ==> (latest_fault matches Some(e) ==> (r matches Err(m) && m@
            == "couldn't parse the latest release version ("@ + latest@ + "): "@ + e@)),
        fault is None && latest_fault is None ==> r == Ok::<bool, String>(later),
{
}

/// A newer release is announced with its version and its page; else the user is up
/// to date, or nothing could be found out.
pub proof fn newer_releases_are_announced(
    newer: &Result<bool, String>,
    tag: &str,
    url: &str,
    rest: Seq<char>,
    r: String,
)
    requires
        call_ensures(update_message, (newer, tag, url), r),
        tag@ == seq!['v'] + rest,
        rest.len() > 0,
        rest[0] != 'v',
    ensures
        *newer matches Ok(b) ==> (b ==> r@ == "Parley "@ + rest + " is available — "@ + url@),
        *newer matches Ok(b) ==> (!b ==> r@ == "You're up to date."@),
        *newer is Err ==> r@ == "Couldn't check for updates right now."@,
{
    assert(tag@[0] == 'v');
    assert(tag@.subrange(1, tag@.len() as int) =~= rest);
    assert(crate::text::trim_start_of(rest, crate::text::CharSet::Only('v')) == rest);
    assert(crate::text::trim_start_of(tag@, crate::text::CharSet::Only('v')) == rest);
}

/// What is told about updates is what comparing the release with what runs came to.
pub proof fn releases_are_compared_with_what_runs(
    current: &str,
    reply: &ReleaseReply,
    tag: &str,
    url: &str,
    newer: Result<bool, String>,
    message: String,
    r: String,
)
    requires
        call_ensures(check_for_updates, (current, reply), r),
        call_ensures(is_newer, (current, tag), newer),
        call_ensures(update_message, (&newer, tag, url), message),
    ensures
        *reply is Failed ==> r@ == "Couldn't check for updates right now."@,
        *reply matches ReleaseReply::Release { tag_name, html_url } ==> (tag_name@ == tag@ && html_url@
            == url@ ==> r@ == message@),
{
}

// ---------------------------------------------------------------------------
// Fonts
// ---------------------------------------------------------------------------

/// The size at the end of a font's description goes, and its family stays. What is
/// not behind a space, or is no number from five on, belongs to the family.
pub proof fn sizes_go_and_families_stay(
    desc: &str,
    core: String,
    family: Seq<char>,
    size: Seq<char>,
    r: Option<String>,
)
    requires
        call_ensures(strip_pango_size, (desc,), r),
        call_ensures(trim, (desc,), core),
    ensures
        core@.len() == 0 ==> r is None,
        core@ == family.push(' ') + size && family.len() > 0 && trimmed(family) == family && (forall|
            i: int,
        |
            0 <= i < size.len() ==> #[trigger] size[i] != ' ') ==> (if crate::numbers::is_u32_text(size)
            && crate::numbers::value_of(crate::numbers::unsigned_part(size)) >= 5 {
            r matches Some(f) && f@ == family
        } else {
            r matches Some(f) && f@ == core@
        }),
        core@.len() > 0 && (forall|i: int| 0 <= i < core@.len() ==> #[trigger] core@[i] != ' ') ==> (
        r matches Some(f) && f@ == core@),
{
    let d = core@;
    crate::paths::lemma_last_at(d, ' ');
    if d == family.push(' ') + size && family.len() > 0 && (forall|i: int|
        0 <= i < size.len() ==> #[trigger] size[i] != ' ') {
        let at = crate::paths::last_at(d, ' ');
        assert(d[family.len() as int] == ' ');
        if at > family.len() {
            assert(d[at] == size[at - family.len() - 1]);
        }
        assert(at == family.len());
        assert(d.subrange(at + 1, d.len() as int) =~= size);
        assert(d.subrange(0, at) =~= family);
    }
}

/// What the desktop says of its font comes first, and what the font system says
/// where the desktop says nothing.
pub proof fn the_desktop_has_the_first_word(
    gsettings: Option<&str>,
    fontconfig: Option<&str>,
    a: &str,
    b: &str,
    of_a: Option<String>,
    of_b: Option<String>,
    r: Option<String>,
)
    requires
        call_ensures(system_mono_family, (gsettings, fontconfig), r),
        call_ensures(gsettings_mono_family, (a,), of_a),
        call_ensures(fontconfig_mono_family, (b,), of_b),
    ensures
        gsettings matches Some(s) ==> (s@ == a@ ==> (of_a matches Some(f) ==> (r matches Some(g) && g@
            == f@))),
        gsettings is None ==> (fontconfig matches Some(s) ==> (s@ == b@ ==> opt_text(r) == opt_text(
            of_b,
        ))),
        gsettings matches Some(s) ==> (s@ == a@ && of_a is None ==> (fontconfig matches Some(t) ==> (t@
            == b@ ==> opt_text(r) == opt_text(of_b)))),
        gsettings is None && fontconfig is None ==> r is None,
{
}

/// A font is used where it is installed and never otherwise.
pub proof fn installed_fonts_are_used(family: Option<String>, installed: &Vec<String>, r: Option<String>)
    requires
        call_ensures(apply_system_mono_font, (family, installed), r),
    ensures
        family is None ==> r is None,
        r matches Some(f) ==> texts(installed@).contains(f@) && (family matches Some(g) && g@ == f@),
        family matches Some(f) ==> (texts(installed@).contains(f@) ==> r is Some),
{
}

/// What the desktop prints is a description in quotes, of which the family is taken.
pub proof fn quoted_descriptions_are_read(
    output: &str,
    core: &str,
    r: Option<String>,
    family: Option<String>,
)
    requires
        call_ensures(gsettings_mono_family, (output,), r),
        trimmed(output@) == seq!['\''] + core@ + seq!['\''],
        core@.len() > 0,
        core@[0] != '\'',
        core@.last() != '\'',
        call_ensures(strip_pango_size, (core,), family),
    ensures
        opt_text(r) == opt_text(family),
{
    let set = crate::text::CharSet::Only('\'');
    let s = trimmed(output@);
    let q = seq!['\''];
    assert(s[0] == '\'');
    let rest = s.subrange(1, s.len() as int);
    assert(rest =~= core@ + q);
    assert(rest[0] == core@[0]);
    assert(crate::text::trim_start_of(rest, set) == rest);
    assert(crate::text::trim_start_of(s, set) == rest);
    assert(rest.last() == '\'');
    assert(rest.drop_last() =~= core@);
    assert(crate::text::trim_end_of(core@, set) == core@);
    assert(crate::text::trim_end_of(rest, set) == core@);
}

/// What the font system prints is a list of names, of which the first is taken.
pub proof fn the_first_name_is_taken(
    output: &str,
    first: Seq<char>,
    rest: Seq<char>,
    r: Option<String>,
)
    requires
        call_ensures(fontconfig_mono_family, (output,), r),
        trimmed(output@) == first.push(',') + rest,
        forall|i: int| 0 <= i < first.len() ==> #[trigger] first[i] != ',',
    ensures
        trimmed(first).len() > 0 ==> (r matches Some(f) && f@ == trimmed(first)),
        trimmed(first).len() == 0 ==> r is None,
{
    let s = trimmed(output@);
    crate::paths::lemma_first_at(s, ',');
    let n = crate::paths::first_at(s, ',') as int;
    assert(s[first.len() as int] == ',');
    if n < first.len() {
        assert(s[n] == first[n]);
    }
    if n > first.len() {
        assert(s[first.len() as int] != ',');
    }
    assert(s.subrange(0, n) =~= first);
}

/// A tray starts with nothing being recorded.
pub proof fn trays_start_idle(r: Tray)
    requires
        call_ensures(Tray::new, (), r),
    ensures
        r.phase is Idle,
{
}

/// Where nothing was stored notifications are permitted, all but those of the start
/// and the stop of a recording are on, and a meeting is announced a quarter of an
/// hour and five minutes before it.
pub proof fn nothing_stored_permits_notifications(r: SettingsMini)
    requires
        call_ensures(SettingsMini::default, (), r),
    ensures
        r.consent_given && r.system_permission_granted && !r.manual_dnd_mode,
        !r.notification_preferences.show_recording_started,
        !r.notification_preferences.show_recording_stopped,
        r.notification_preferences.show_recording_paused,
        r.notification_preferences.show_recording_resumed,
        r.notification_preferences.show_transcription_complete,
        r.notification_preferences.show_system_errors,
        r.notification_preferences.meeting_reminder_minutes@ == seq![15u64, 5u64],
{
}

} // verus!
