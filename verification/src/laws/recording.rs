//! While a recording runs, its transcript, its clock and its controls are shown.
use vstd::prelude::*;
use crate::clock::Stamp;
use crate::numbers::{decimal, digit, to_decimal, two_digits};
use crate::recording::controls::{button_state, format_elapsed, is_active_phase, last_level, levels_from_update, row_time, stop_path, AudioLevelData, ButtonState, ElapsedClock, Levels, RecordingPhase};
use crate::recording::devices::{device_options, kind_entries, option_texts, picked_device, plan_start, recording_pickers, saved_preference, Device, DeviceKind, DeviceOption, MatchedEvent, StartPlan};
use crate::recording::page::{action_item_key, event_kind, extractor_to_start, is_own_voice, item_key, item_keys, live_items_stay_distinct, row_for, user_message, with_items, EventKind, ListEdit, PageView, Reaction, RecordingDraw, RecordingEvent, RecordingView, Toast, ToastKind, TranscriptUpdate};
use crate::recording::rows::{compare_rows, lemma_insertion_point_bounds, lemma_row_with_id, row_with_id, sorted_rows, upsert_row, upserted, upserting_keeps_ids_distinct, upserting_keeps_order, upserting_keeps_other_rows, RowChange, TranscriptRow};
use crate::settings::config::FeatureToggles;
use crate::text::{is_blank, opt_text, texts};

verus! {

/// A number below a hundred as two digits.
pub open spec fn both_digits(n: int) -> Seq<char> {
    seq![((48 + n / 10) as u8) as char, ((48 + n % 10) as u8) as char]
}

pub(crate) proof fn lemma_both_digits(n: nat)
    requires
        n < 100,
    ensures
        two_digits(n) == both_digits(n as int),
{
    if n < 10 {
        assert(two_digits(n) =~= both_digits(n as int));
    } else {
        assert(decimal(n / 10) == seq![digit((n / 10) as int)]);
        assert(two_digits(n) =~= both_digits(n as int));
    }
}

/// The piece of a transcript that comes in is shown with its text, its time and
/// its source, under the speaker that was recognised. Where nobody was, it is
/// "Me" who speaks into the microphone, and a "Speaker" everywhere else.
pub proof fn pieces_stand_under_their_speakers(
    page: &mut RecordingView,
    update: TranscriptUpdate,
    r: Vec<ListEdit>,
)
    requires
        old(page).wf(),
        call_ensures(RecordingView::apply_transcript_update, (page, update), r),
    ensures
        exists|i: int|
            0 <= i < final(page).rows@.len() && (#[trigger] final(page).rows@[i]).sequence_id
                == update.sequence_id && final(page).rows@[i].text@ == update.text@
                && final(page).rows@[i].audio_start_time == update.audio_start_time
                && final(page).rows@[i].source@ == update.source@ && match update.speaker {
                Some(s) => final(page).rows@[i].speaker@ == s@,
                None => if update.source@ == "mic"@ {
                    final(page).rows@[i].speaker@ == "Me"@
                } else {
                    final(page).rows@[i].speaker@ == "Speaker"@
                },
            },
{
    let row = choose|row: TranscriptRow|
        #![trigger row_for(update, row)]
        row_for(update, row) && final(page)@.rows == upserted(old(page)@.rows, row).0;
    upserting_keeps_order(old(page).rows@, row);
    assert(final(page).rows@ == final(page)@.rows);
    assert(final(page).rows@.contains(row));
    let i = choose|i: int| 0 <= i < final(page).rows@.len() && final(page).rows@[i] == row;
    assert(final(page).rows@[i].sequence_id == update.sequence_id);
}

/// The same holds of the piece that an event brings in.
pub proof fn pieces_of_events_stand_under_their_speakers(
    page: &mut RecordingView,
    update: TranscriptUpdate,
    now_ms: u64,
    r: Reaction,
)
    requires
        old(page).wf(),
        call_ensures(
            RecordingView::handle_core_event,
            (page, RecordingEvent::Update(update), now_ms),
            r,
        ),
    ensures
        exists|i: int|
            0 <= i < final(page).rows@.len() && (#[trigger] final(page).rows@[i]).sequence_id
                == update.sequence_id && final(page).rows@[i].text@ == update.text@
                && final(page).rows@[i].audio_start_time == update.audio_start_time
                && final(page).rows@[i].source@ == update.source@ && match update.speaker {
                Some(s) => final(page).rows@[i].speaker@ == s@,
                None => if update.source@ == "mic"@ {
                    final(page).rows@[i].speaker@ == "Me"@
                } else {
                    final(page).rows@[i].speaker@ == "Speaker"@
                },
            },
        forall|i: int, j: int|
            0 <= i < j < final(page).rows@.len() ==> {
                let (a, b) = (#[trigger] final(page).rows@[i], #[trigger] final(page).rows@[j]);
                a.sequence_id != b.sequence_id && (a.audio_start_time < b.audio_start_time || (
                a.audio_start_time == b.audio_start_time && a.sequence_id < b.sequence_id))
            },
        forall|row: TranscriptRow|
            row.sequence_id != update.sequence_id ==> (old(page).rows@.contains(row)
                <==> #[trigger] final(page).rows@.contains(row)),
        !final(page).partials@.contains_key(update.source@),
        forall|s: Seq<char>|
            s != update.source@ ==> (old(page).partials@.contains_key(s)
                <==> #[trigger] final(page).partials@.contains_key(s)),
        final(page).phase == old(page).phase,
        final(page).live_action_items@.len() == old(page).live_action_items@.len(),
{
    let row = choose|row: TranscriptRow|
        #![trigger row_for(update, row)]
        row_for(update, row) && final(page)@ == (PageView {
            partials: old(page)@.partials.remove(update.source@),
            rows: upserted(old(page)@.rows, row).0,
            shown: upserted(old(page)@.rows, row).0.len() as int,
            ..old(page)@
        });
    upserting_keeps_order(old(page).rows@, row);
    assert(final(page).rows@ == final(page)@.rows);
    assert(final(page).rows@.contains(row));
    let i = choose|i: int| 0 <= i < final(page).rows@.len() && final(page).rows@[i] == row;
    assert(final(page).rows@[i].sequence_id == update.sequence_id);
    assert(final(page).partials@ == final(page)@.partials);
    assert(final(page)@.phase == old(page)@.phase);
    assert(texts(final(page).live_action_items@).len() == texts(old(page).live_action_items@).len());
    assert forall|a: int, b: int| 0 <= a < b < final(page).rows@.len() implies {
        let (x, y) = (#[trigger] final(page).rows@[a], #[trigger] final(page).rows@[b]);
        x.sequence_id != y.sequence_id && (x.audio_start_time < y.audio_start_time || (
        x.audio_start_time == y.audio_start_time && x.sequence_id < y.sequence_id))
    } by {
        let (x, y) = (final(page).rows@[a], final(page).rows@[b]);
        assert(final(page).wf());
        assert(x.not_after(y));
        assert(x.sequence_id != y.sequence_id);
    }
    assert forall|other: TranscriptRow| other.sequence_id != update.sequence_id implies (
    old(page).rows@.contains(other) <==> #[trigger] final(page).rows@.contains(other)) by {
        upserting_keeps_other_rows(old(page).rows@, row, other);
    }
}

/// Rows are ordered by when they start, and those that start together by their
/// numbers.
pub proof fn rows_are_compared_by_time(a: &TranscriptRow, b: &TranscriptRow, r: std::cmp::Ordering)
    requires
        call_ensures(compare_rows, (a, b), r),
    ensures
        a.audio_start_time < b.audio_start_time ==> r is Less,
        a.audio_start_time > b.audio_start_time ==> r is Greater,
        a.audio_start_time == b.audio_start_time && a.sequence_id < b.sequence_id ==> r is Less,
        a.audio_start_time == b.audio_start_time && a.sequence_id > b.sequence_id ==> r is Greater,
        a.audio_start_time == b.audio_start_time && a.sequence_id == b.sequence_id ==> r is Equal,
{
}

/// Putting a row in keeps the rows in chronological order and every other row as
/// it was; the row takes the place of the one with its number, or is one more.
pub proof fn rows_go_in_by_time(
    rows: &mut Vec<TranscriptRow>,
    row: TranscriptRow,
    change: RowChange,
    other: TranscriptRow,
)
    requires
        forall|i: int, j: int|
            0 <= i < j < old(rows)@.len() ==> {
                let (a, b) = (#[trigger] old(rows)@[i], #[trigger] old(rows)@[j]);
                a.sequence_id != b.sequence_id && (a.audio_start_time < b.audio_start_time || (
                a.audio_start_time == b.audio_start_time && a.sequence_id < b.sequence_id))
            },
        call_ensures(upsert_row, (rows, row), change),
    ensures
        forall|i: int, j: int|
            0 <= i < j < final(rows)@.len() ==> {
                let (a, b) = (#[trigger] final(rows)@[i], #[trigger] final(rows)@[j]);
                a.sequence_id != b.sequence_id && (a.audio_start_time < b.audio_start_time || (
                a.audio_start_time == b.audio_start_time && a.sequence_id < b.sequence_id))
            },
        final(rows)@.contains(row),
        other.sequence_id != row.sequence_id ==> (old(rows)@.contains(other)
            <==> final(rows)@.contains(other)),
        (exists|i: int|
            0 <= i < old(rows)@.len() && (#[trigger] old(rows)@[i]).sequence_id == row.sequence_id)
            ==> final(rows)@.len() == old(rows)@.len(),
        (forall|i: int|
            0 <= i < old(rows)@.len() ==> (#[trigger] old(rows)@[i]).sequence_id != row.sequence_id)
            ==> final(rows)@.len() == old(rows)@.len() + 1,
{
    assert forall|i: int, j: int| 0 <= i < j < old(rows)@.len() implies #[trigger] old(
        rows)@[i].not_after(#[trigger] old(rows)@[j]) by {
        let (a, b) = (old(rows)@[i], old(rows)@[j]);
        assert(a.sequence_id != b.sequence_id);
    }
    assert(sorted_rows(old(rows)@));
    assert(crate::recording::rows::distinct_ids(old(rows)@));
    upserting_keeps_order(old(rows)@, row);
    upserting_keeps_ids_distinct(old(rows)@, row);
    if other.sequence_id != row.sequence_id {
        upserting_keeps_other_rows(old(rows)@, row, other);
    }
    lemma_row_with_id(old(rows)@, row.sequence_id);
    lemma_insertion_point_bounds(old(rows)@, row);
    if let Some(at) = row_with_id(old(rows)@, row.sequence_id) {
        lemma_insertion_point_bounds(old(rows)@.remove(at), row);
    }
    assert forall|i: int, j: int| 0 <= i < j < final(rows)@.len() implies {
        let (a, b) = (#[trigger] final(rows)@[i], #[trigger] final(rows)@[j]);
        a.sequence_id != b.sequence_id && (a.audio_start_time < b.audio_start_time || (
        a.audio_start_time == b.audio_start_time && a.sequence_id < b.sequence_id))
    } by {
        let (a, b) = (final(rows)@[i], final(rows)@[j]);
        assert(a.not_after(b));
        assert(a.sequence_id != b.sequence_id);
    }
}

/// The report on a change says what happened to the list: how the rows after it
/// come of those before it.
pub proof fn changes_are_reported(rows: &mut Vec<TranscriptRow>, row: TranscriptRow, change: RowChange)
    requires
        call_ensures(upsert_row, (rows, row), change),
        old(rows)@.len() <= usize::MAX,
    ensures
        change is Appended ==> final(rows)@ == old(rows)@.push(row),
        change matches RowChange::InsertedAt(i) ==> i < old(rows)@.len() && final(rows)@ == old(
            rows)@.insert(i as int, row),
        change matches RowChange::ReplacedAt(i) ==> i < old(rows)@.len() && final(rows)@ == old(
            rows)@.update(i as int, row) && old(rows)@[i as int].sequence_id == row.sequence_id,
        change matches RowChange::Repositioned { removed_at, inserted_at } ==> removed_at < old(
            rows)@.len() && final(rows)@ == old(rows)@.remove(removed_at as int).insert(
            inserted_at as int,
            row,
        ) && old(rows)@[removed_at as int].sequence_id == row.sequence_id,
{
    crate::recording::rows::change_names_real_places(old(rows)@, row);
    lemma_row_with_id(old(rows)@, row.sequence_id);
}

/// What a source is saying is shown until it says something else or nothing, and
/// nothing of what other sources are saying changes.
pub proof fn previews_follow_their_source(
    page: &mut RecordingView,
    source: String,
    text: String,
    now_ms: u64,
    r: Reaction,
    other: Seq<char>,
)
    requires
        old(page).wf(),
        call_ensures(
            RecordingView::handle_core_event,
            (page, RecordingEvent::Partial { source, text }, now_ms),
            r,
        ),
    ensures
        text@.len() == 0 ==> !final(page).partials@.contains_key(source@),
        text@.len() > 0 ==> final(page).partials@.contains_key(source@)
            && final(page).partials@[source@]@ == text@,
        other != source@ ==> final(page).partials@.contains_key(other) == old(
            page).partials@.contains_key(other),
        other != source@ && old(page).partials@.contains_key(other) ==> final(
            page).partials@[other] == old(page).partials@[other],
        final(page).rows@ == old(page).rows@,
{
    assert(final(page).partials@ == final(page)@.partials);
    assert(final(page)@.rows == old(page)@.rows);
}

/// A recording that starts empties the transcript; one that goes on, pauses or
/// ends keeps it.
pub proof fn starting_empties_the_transcript(
    page: &mut RecordingView,
    phase: RecordingPhase,
    active_ms: Option<u64>,
    now_ms: u64,
    r: Reaction,
)
    requires
        old(page).wf(),
        call_ensures(
            RecordingView::handle_core_event,
            (page, RecordingEvent::State { phase, active_ms }, now_ms),
            r,
        ),
    ensures
        final(page).phase == phase,
        phase is Starting && !(old(page).phase is Starting) ==> final(page).rows@.len() == 0
            && final(page).partials@ == Map::<Seq<char>, String>::empty(),
        !(phase is Starting) ==> final(page).rows@ == old(page).rows@ && final(page).partials@
            == old(page).partials@ && r.edits@.len() == 0,
        (old(page).phase is Recording || old(page).phase is Paused) == (phase is Recording
            || phase is Paused) ==> r.extractor is Keep && texts(final(page).live_action_items@)
            == texts(old(page).live_action_items@),
        !(old(page).phase is Recording || old(page).phase is Paused) && (phase is Recording
            || phase is Paused) ==> r.extractor is Start && final(page).live_action_items@.len() == 0,
        (old(page).phase is Recording || old(page).phase is Paused) && !(phase is Recording
            || phase is Paused) ==> r.extractor is Stop && texts(final(page).live_action_items@)
            == texts(old(page).live_action_items@),
        final(page).elapsed.running == (phase is Recording),
        final(page).elapsed.base_host_ms == now_ms,
        active_ms matches Some(ms) ==> final(page).elapsed.base_active_ms == ms,
        active_ms is None ==> final(page).elapsed.base_active_ms == 0,
{
    let after = RecordingView::after_state(old(page)@, phase, active_ms, now_ms);
    assert(final(page)@ == after);
    assert(final(page).rows@ == after.rows);
    assert(final(page).partials@ == after.partials);
    assert(texts(final(page).live_action_items@) == after.live_action_items);
    assert(texts(final(page).live_action_items@).len() == final(page).live_action_items@.len());
    assert(final(page)@.elapsed == final(page).elapsed);
}

/// A saved meeting is opened when its recording stops. It is refined where its
/// recording was kept, and linked to the event that took place at its start.
pub proof fn stopped_meetings_are_opened(
    page: &mut RecordingView,
    id: String,
    folder: Option<String>,
    now_ms: u64,
    r: Reaction,
)
    requires
        old(page).wf(),
        call_ensures(
            RecordingView::handle_core_event,
            (
                page,
                RecordingEvent::Stopped { meeting_id: Some(id), folder_path: folder },
                now_ms,
            ),
            r,
        ),
    ensures
        r.open matches Some(m) && m@ == id@,
        folder matches Some(f) ==> (r.refine matches Some((m, g)) && m@ == id@ && g@ == f@),
        folder is None ==> r.refine is None,
        old(page).pending_calendar_event_id matches Some(e) ==> (r.link matches Some((m, l)) && m@
            == id@ && l@ == e@),
        old(page).pending_calendar_event_id is None ==> r.link is None,
        final(page).pending_calendar_event_id is None,
        final(page).rows@ == old(page).rows@,
{
    assert(final(page)@.pending_calendar_event_id is None);
    assert(final(page)@.rows == old(page)@.rows);
}

/// Errors and warnings are told once each, in their own words, as what they are.
pub proof fn faults_are_told(
    page: &mut RecordingView,
    event: RecordingEvent,
    now_ms: u64,
    r: Reaction,
)
    requires
        old(page).wf(),
        call_ensures(RecordingView::handle_core_event, (page, event, now_ms), r),
    ensures
        event matches RecordingEvent::RecordingError(m) ==> final(page).toasts@.len() == old(
            page).toasts@.len() + 1 && final(page).toasts@.last().message@ == m@ && final(
            page).toasts@.last().kind is Error,
        event matches RecordingEvent::Warning(m) ==> final(page).toasts@.len() == old(
            page).toasts@.len() + 1 && final(page).toasts@.last().message@ == m@ && final(
            page).toasts@.last().kind is Warning,
        event matches RecordingEvent::TranscriptionError(m) ==> final(page).toasts@.len() == old(
            page).toasts@.len() + 1 && final(page).toasts@.last().kind is Error && final(
            page).toasts@.last().message@ == (match m {
            Some(text) => text@,
            None => "Transcription error"@,
        }),
        event is Refining ==> final(page).refining,
        event is Refined ==> !final(page).refining,
        event is Update || event is Partial || event is State || event is LiveActionItems ==> final(
            page).toasts@ == old(page).toasts@,
        !(event is Refining) && !(event is Refined) ==> final(page).refining == old(page).refining,
{
    assert(final(page).toasts@ == final(page)@.toasts);
    assert(old(page).toasts@ == old(page)@.toasts);
    assert(final(page).refining == final(page)@.refining);
    assert(old(page).refining == old(page)@.refining);
}

/// A live action item that is not listed yet is listed behind the others, and no
/// item that was listed goes; two that differ in case, in white space or in a full
/// stop at the end are one.
pub proof fn live_items_are_listed_once(
    page: &mut RecordingView,
    item: String,
    items: Vec<String>,
    now_ms: u64,
    r: Reaction,
)
    requires
        old(page).wf(),
        items@ == seq![item],
        call_ensures(
            RecordingView::handle_core_event,
            (page, RecordingEvent::LiveActionItems(items), now_ms),
            r,
        ),
    ensures
        (forall|i: int|
            0 <= i < old(page).live_action_items@.len() ==> item_key(
                (#[trigger] old(page).live_action_items@[i])@,
            ) != item_key(item@)) ==> texts(final(page).live_action_items@) == texts(
            old(page).live_action_items@,
        ).push(item@),
        (exists|i: int|
            0 <= i < old(page).live_action_items@.len() && item_key(
                (#[trigger] old(page).live_action_items@[i])@,
            ) == item_key(item@)) ==> texts(final(page).live_action_items@) == texts(
            old(page).live_action_items@,
        ),
{
    let had = texts(old(page).live_action_items@);
    let new = texts(items@);
    assert(new =~= seq![item@]);
    assert(new.drop_last() =~= Seq::<Seq<char>>::empty());
    assert(with_items(had, new.drop_last()) == had);
    assert(final(page)@.live_action_items == with_items(had, new));
    let keys = item_keys(had);
    if keys.contains(item_key(item@)) {
        let i = choose|i: int| 0 <= i < keys.len() && keys[i] == item_key(item@);
        assert(item_key(old(page).live_action_items@[i]@) == item_key(item@));
    }
    if exists|i: int|
        0 <= i < old(page).live_action_items@.len() && item_key(
            (#[trigger] old(page).live_action_items@[i])@,
        ) == item_key(item@) {
        let i = choose|i: int|
            0 <= i < old(page).live_action_items@.len() && item_key(
                (#[trigger] old(page).live_action_items@[i])@,
            ) == item_key(item@);
        assert(keys[i] == item_key(item@));
    }
}

/// What items are compared by depends on their words in lower case alone, and
/// never ends in a full stop or a space.
pub proof fn items_are_compared_by_their_words(a: &str, b: &str, of_a: String, of_b: String)
    requires
        call_ensures(action_item_key, (a,), of_a),
        call_ensures(action_item_key, (b,), of_b),
    ensures
        crate::words::words_of(crate::words::lowercase(a@)) == crate::words::words_of(
            crate::words::lowercase(b@),
        ) ==> of_a@ == of_b@,
        of_a@.len() > 0 ==> of_a@.last() != '.' && of_a@.last() != ' ',
        of_a@.len() <= crate::words::squeezed(crate::words::lowercase(a@)).len(),
        of_a@ == crate::words::squeezed(crate::words::lowercase(a@)).subrange(0, of_a@.len() as int),
{
    crate::text::lemma_trim_end(
        crate::words::squeezed(crate::words::lowercase(a@)),
        crate::text::CharSet::Either('.', ' '),
    );
}

/// The page that is drawn shows the controls of its phase, the note while a
/// meeting is refined, and each live action item behind a bullet.
pub proof fn pages_are_drawn_as_they_are(page: &RecordingView, now_ms: u64, r: RecordingDraw, i: int)
    requires
        call_ensures(RecordingView::draw, (page, now_ms), r),
    ensures
        r.devices_enabled == (page.phase is Idle || page.phase is Error),
        r.buttons.can_start == (page.phase is Idle || page.phase is Error),
        r.buttons.can_pause == (page.phase is Recording),
        r.buttons.can_resume == (page.phase is Paused),
        r.buttons.can_stop == (page.phase is Recording || page.phase is Paused),
        r.note is Some <==> page.refining,
        r.note matches Some(n) ==> n@ == "Refining meeting…"@,
        r.items@.len() == page.live_action_items@.len(),
        0 <= i < r.items@.len() ==> r.items@[i]@ == "• "@ + page.live_action_items@[i]@,
{
    assert(texts(r.items@).len() == r.items@.len());
    assert(texts(page.live_action_items@).len() == page.live_action_items@.len());
    if 0 <= i < r.items@.len() {
        assert(texts(r.items@)[i] == r.items@[i]@);
        assert(texts(page.live_action_items@)[i] == page.live_action_items@[i]@);
    }
}

/// Whether some source is saying a text.
pub open spec fn is_said(partials: Map<Seq<char>, String>, text: Seq<char>) -> bool {
    exists|s: Seq<char>| #[trigger] partials.contains_key(s) && partials[s]@ == text
}

/// What each source is saying is drawn, the microphone's as one's own.
pub proof fn previews_are_drawn(page: &RecordingView, now_ms: u64, r: RecordingDraw, source: Seq<char>)
    requires
        call_ensures(RecordingView::draw, (page, now_ms), r),
    ensures
        page.partials@.contains_key(source) ==> exists|i: int|
            0 <= i < r.partials@.len() && (#[trigger] r.partials@[i]).1@ == page.partials@[source]@
                && r.partials@[i].0@ == if source == "mic"@ {
                "You (live)"@
            } else {
                "System (live)"@
            },
        forall|i: int|
            0 <= i < r.partials@.len() ==> is_said(page.partials@, (#[trigger] r.partials@[i]).1@),
{
    let sources = choose|sources: Seq<Seq<char>>| #[trigger]
        sources.no_duplicates() && sources.len() == r.partials@.len() && (forall|key: Seq<char>|
            #[trigger]
            sources.contains(key) == page.partials@.dom().contains(key)) && forall|i: int|
            0 <= i < r.partials@.len() ==> (#[trigger] r.partials@[i]).0@
                == crate::recording::page::partial_label(sources[i]) && r.partials@[i].1@
                == page.partials@[sources[i]]@;
    if page.partials@.contains_key(source) {
        assert(sources.contains(source));
        let i = choose|i: int| 0 <= i < sources.len() && sources[i] == source;
        assert(r.partials@[i].1@ == page.partials@[source]@);
    }
    assert forall|i: int| 0 <= i < r.partials@.len() implies is_said(
        page.partials@,
        (#[trigger] r.partials@[i]).1@,
    ) by {
        assert(sources.contains(sources[i]));
        assert(page.partials@.contains_key(sources[i]));
    }
}

/// One's own voice is what comes from the microphone.
pub proof fn own_voices_come_from_the_microphone(row: &TranscriptRow, r: bool)
    requires
        call_ensures(is_own_voice, (row,), r),
    ensures
        r <==> row.source@ == "mic"@,
{
}

/// A recording can be started where none is, paused while it runs, resumed while
/// it is paused, and stopped in both cases.
pub proof fn controls_follow_the_phase(phase: RecordingPhase, r: ButtonState, active: bool)
    requires
        call_ensures(button_state, (phase,), r),
        call_ensures(is_active_phase, (phase,), active),
    ensures
        r.can_start == (phase is Idle || phase is Error),
        r.can_pause == (phase is Recording),
        r.can_resume == (phase is Paused),
        r.can_stop == (phase is Recording || phase is Paused),
        active == (phase is Recording || phase is Paused),
{
}

/// Times below an hour are minutes and seconds with two digits each; from an hour
/// on the hours stand before them.
pub proof fn elapsed_times_are_clock_times(total: u64, r: String, hours: u64, of_hours: String)
    requires
        call_ensures(format_elapsed, (total,), r),
        hours == total / 3600,
        call_ensures(to_decimal, (hours,), of_hours),
    ensures
        total < 3600 ==> r@ == both_digits(total as int / 60) + seq![':'] + both_digits(
            total as int % 60,
        ),
        total >= 3600 ==> r@ == of_hours@ + seq![':'] + both_digits((total as int % 3600) / 60)
            + seq![':'] + both_digits(total as int % 60),
{
    lemma_both_digits(((total as nat % 3600) / 60) as nat);
    lemma_both_digits((total as nat % 60) as nat);
}

/// The time beside a row is that of its start, and the start of the recording
/// where it is given as before that.
pub proof fn rows_show_when_they_start(start: i64, secs: u64, r: String, of_secs: String)
    requires
        call_ensures(row_time, (start,), r),
        call_ensures(format_elapsed, (secs,), of_secs),
        start >= 0 ==> secs * 1_000_000_000 <= start < (secs + 1) * 1_000_000_000,
        start < 0 ==> secs == 0,
    ensures
        r@ == of_secs@,
{
}

/// The clock goes on from what was reported while the recording runs, and stands
/// still otherwise.
pub proof fn clocks_run_while_recording(
    clock: &mut ElapsedClock,
    active_ms: u64,
    phase: RecordingPhase,
    now_ms: u64,
    later: u64,
    shown: u64,
    after: &ElapsedClock,
)
    requires
        call_ensures(ElapsedClock::rebase, (clock, Some(active_ms), phase, now_ms), ()),
        *after == *final(clock),
        call_ensures(ElapsedClock::displayed_secs, (after, later), shown),
    ensures
        phase is Recording && later >= now_ms ==> shown == (active_ms + (later - now_ms)) / 1000,
        !(phase is Recording) || later < now_ms ==> shown == active_ms / 1000,
{
}

/// The last level that was reported for a role is shown, and none for a role of
/// which there is no report.
pub proof fn meters_show_the_last_level<L: Copy>(
    levels: &Vec<AudioLevelData<L>>,
    silent: L,
    r: Levels<L>,
    at: int,
)
    requires
        call_ensures(levels_from_update, (levels, silent), r),
    ensures
        0 <= at < levels@.len() && levels@[at].device_name@ == "mic"@ && (forall|j: int|
            at < j < levels@.len() ==> (#[trigger] levels@[j]).device_name@ != "mic"@) ==> r.mic
            == levels@[at].rms_level,
        0 <= at < levels@.len() && levels@[at].device_name@ == "system"@ && (forall|j: int|
            at < j < levels@.len() ==> (#[trigger] levels@[j]).device_name@ != "system"@) ==> r.system
            == levels@[at].rms_level,
        (forall|j: int| 0 <= j < levels@.len() ==> (#[trigger] levels@[j]).device_name@ != "mic"@)
            ==> r.mic == silent,
        (forall|j: int| 0 <= j < levels@.len() ==> (#[trigger] levels@[j]).device_name@ != "system"@)
            ==> r.system == silent,
{
    lemma_last_level(levels@, "mic"@, silent, at);
    lemma_last_level(levels@, "system"@, silent, at);
}

proof fn lemma_last_level<L>(levels: Seq<AudioLevelData<L>>, role: Seq<char>, silent: L, at: int)
    ensures
        0 <= at < levels.len() && levels[at].device_name@ == role && (forall|j: int|
            at < j < levels.len() ==> (#[trigger] levels[j]).device_name@ != role) ==> last_level(
            levels,
            role,
            silent,
        ) == levels[at].rms_level,
        (forall|j: int| 0 <= j < levels.len() ==> (#[trigger] levels[j]).device_name@ != role)
            ==> last_level(levels, role, silent) == silent,
    decreases levels.len(),
{
    if levels.len() > 0 {
        let front = levels.drop_last();
        lemma_last_level(front, role, silent, at);
        let last = levels.len() - 1;
        if 0 <= at < last && levels[at].device_name@ == role && (forall|j: int|
            at < j < levels.len() ==> (#[trigger] levels[j]).device_name@ != role) {
            assert(levels[last].device_name@ != role);
            assert forall|j: int| at < j < front.len() implies (#[trigger] front[j]).device_name@
                != role by {
                assert(levels[j].device_name@ != role);
            }
            assert(front[at].device_name@ == role);
        }
        if forall|j: int| 0 <= j < levels.len() ==> (#[trigger] levels[j]).device_name@ != role {
            assert(levels[last].device_name@ != role);
            assert forall|j: int| 0 <= j < front.len() implies (#[trigger] front[j]).device_name@
                != role by {
                assert(levels[j].device_name@ != role);
            }
        }
    }
}

proof fn lemma_entries(devices: Seq<Device>, kind: DeviceKind, at: int)
    requires
        0 <= at < devices.len(),
    ensures
        devices[at].kind == kind ==> kind_entries(devices, kind).contains(
            (devices[at].id@, devices[at].label@),
        ),
    decreases devices.len(),
{
    let all = kind_entries(devices, kind);
    if at == devices.len() - 1 {
        if devices[at].kind == kind {
            assert(all[all.len() - 1] == (devices[at].id@, devices[at].label@));
        }
    } else {
        let front = devices.drop_last();
        let before = kind_entries(front, kind);
        lemma_entries(front, kind, at);
        if devices[at].kind == kind {
            let e = (devices[at].id@, devices[at].label@);
            let k = choose|k: int| 0 <= k < before.len() && before[k] == e;
            assert(all[k] == e);
        }
    }
}

/// Whether an entry is that of a device of a kind.
pub open spec fn is_device(devices: Seq<Device>, kind: DeviceKind, entry: (Seq<char>, Seq<char>)) -> bool {
    exists|i: int|
        0 <= i < devices.len() && (#[trigger] devices[i]).kind == kind && entry == (
            devices[i].id@,
            devices[i].label@,
        )
}

proof fn lemma_only_entries(devices: Seq<Device>, kind: DeviceKind)
    ensures
        forall|k: int|
            0 <= k < kind_entries(devices, kind).len() ==> is_device(
                devices,
                kind,
                #[trigger] kind_entries(devices, kind)[k],
            ),
    decreases devices.len(),
{
    if devices.len() > 0 {
        let front = devices.drop_last();
        lemma_only_entries(front, kind);
        let all = kind_entries(devices, kind);
        let before = kind_entries(front, kind);
        assert forall|k: int| 0 <= k < all.len() implies is_device(
            devices,
            kind,
            #[trigger] all[k],
        ) by {
            if k < before.len() {
                assert(all[k] == before[k]);
                assert(is_device(front, kind, before[k]));
                let i = choose|i: int|
                    0 <= i < front.len() && (#[trigger] front[i]).kind == kind && before[k] == (
                        front[i].id@,
                        front[i].label@,
                    );
                assert(devices[i] == front[i]);
            } else {
                assert(devices[devices.len() - 1].kind == kind);
            }
        }
    }
}

/// A picker offers the default first, and then every device of its kind and no
/// other.
pub proof fn pickers_offer_the_devices_of_their_kind(
    devices: &Vec<Device>,
    kind: DeviceKind,
    default_label: &str,
    r: Vec<DeviceOption>,
    at: int,
)
    requires
        call_ensures(device_options, (devices, kind, default_label), r),
    ensures
        r@.len() > 0,
        r@[0].id@ == "default"@,
        r@[0].label@ == default_label@,
        0 <= at < devices@.len() && devices@[at].kind == kind ==> exists|k: int|
            1 <= k < r@.len() && (#[trigger] r@[k]).id@ == devices@[at].id@ && r@[k].label@
                == devices@[at].label@,
        forall|k: int|
            1 <= k < r@.len() ==> is_device(
                devices@,
                kind,
                ((#[trigger] r@[k]).id@, r@[k].label@),
            ),
{
    let entries = kind_entries(devices@, kind);
    let all = option_texts(r@);
    assert(all.len() == r@.len());
    assert(all[0] == (r@[0].id@, r@[0].label@));
    lemma_only_entries(devices@, kind);
    if 0 <= at < devices@.len() && devices@[at].kind == kind {
        lemma_entries(devices@, kind, at);
        let e = (devices@[at].id@, devices@[at].label@);
        let k = choose|k: int| 0 <= k < entries.len() && entries[k] == e;
        assert(all[k + 1] == entries[k]);
        assert(all[k + 1] == (r@[k + 1].id@, r@[k + 1].label@));
    }
    assert forall|k: int| 1 <= k < r@.len() implies is_device(
        devices@,
        kind,
        ((#[trigger] r@[k]).id@, r@[k].label@),
    ) by {
        assert(all[k] == entries[k - 1]);
        assert(all[k] == (r@[k].id@, r@[k].label@));
    }
}

/// The recording page has one picker for microphones and one for what the system
/// plays.
pub proof fn recordings_pick_both_sides(
    devices: &Vec<Device>,
    mic: Vec<DeviceOption>,
    system: Vec<DeviceOption>,
    r: (Vec<DeviceOption>, Vec<DeviceOption>),
    mic_label: &str,
    system_label: &str,
)
    requires
        mic_label@ == "Default Microphone"@,
        system_label@ == "Default System Audio"@,
        call_ensures(device_options, (devices, DeviceKind::Microphone, mic_label), mic),
        call_ensures(device_options, (devices, DeviceKind::System, system_label), system),
        call_ensures(recording_pickers, (devices,), r),
    ensures
        option_texts(r.0@) == option_texts(mic@),
        option_texts(r.1@) == option_texts(system@),
{
}

/// A picked device is saved under its id and shown again; the default is saved as
/// no choice at all.
pub proof fn picked_devices_are_shown_again(
    picked: String,
    saved: Option<String>,
    shown: String,
)
    requires
        call_ensures(saved_preference, (picked,), saved),
        call_ensures(picked_device, (&saved,), shown),
    ensures
        shown@ == picked@,
        saved is None <==> picked@ == "default"@,
{
}

/// A recording takes the name of the event that is taking place, if that has one,
/// and else the name that was typed; it is to be linked to that event, and the
/// user is told.
pub proof fn recordings_are_named_after_their_event(
    typed: &str,
    event: &Option<MatchedEvent>,
    r: StartPlan,
    summary: &str,
    blank: bool,
)
    requires
        call_ensures(plan_start, (typed, event), r),
        call_ensures(is_blank, (summary,), blank),
    ensures
        *event is None ==> r.title@ == typed@ && r.event_id is None && r.notice is None,
        *event matches Some(e) ==> (r.event_id matches Some(id) && id@ == e.id@),
        *event matches Some(e) && e.summary is None ==> r.title@ == typed@,
        *event matches Some(e) && (e.summary matches Some(s) && s@ == summary@) ==> r.title@
            == if blank {
            typed@
        } else {
            summary@
        },
        *event matches Some(e) && (e.summary matches Some(s) && s@ == summary@) ==> (
        r.notice matches Some(n) && n@ == "Linked to \""@ + summary@ + "\" from your calendar"@),
{
}

/// Without a database, with the switch off or without a model nothing is started;
/// else the configured model is.
pub proof fn live_items_are_extracted_where_switched_on(
    has_db: bool,
    features: &Option<FeatureToggles>,
    config: Option<(String, String)>,
    r: Option<(String, String)>,
)
    requires
        call_ensures(extractor_to_start, (has_db, features, config), r),
    ensures
        !has_db ==> r is None,
        *features is None ==> r is None,
        *features matches Some(f) && !f.live_action_items ==> r is None,
        config is None ==> r is None,
        has_db && (*features matches Some(f) && f.live_action_items) ==> r == config,
{
}

/// A recording that stops without a data directory leaves a bare file name.
pub proof fn recordings_go_to_the_data_directory(dir: &Option<String>, now: &Stamp, r: String)
    requires
        call_ensures(stop_path, (dir, now), r),
    ensures
        *dir is None ==> r@ == "recording.wav"@,
{
}

/// Events are told apart by their names.
pub proof fn recording_events_have_names(name: &str, r: EventKind)
    requires
        call_ensures(event_kind, (name,), r),
    ensures
        r is State <==> name@ == "recording-state"@,
        r is Update ==> name@ == "transcript-update"@,
        r is Partial ==> name@ == "transcript-partial"@,
        r is LiveActionItems ==> name@ == "live-action-items"@,
        r is Levels ==> name@ == "audio-levels"@,
        r is RecordingError ==> name@ == "recording-error"@,
        r is TranscriptionError ==> name@ == "transcription-error"@,
        r is Warning ==> name@ == "transcription-warning"@ || name@ == "chunk-drop-warning"@,
        r is Stopped ==> name@ == "recording-stopped"@,
        r is Refining ==> name@ == "meeting-refining"@,
        r is Refined ==> name@ == "meeting-refined"@ || name@ == "meeting-refine-failed"@,
        r is Other ==> name@ != "transcript-update"@ && name@ != "transcript-partial"@ && name@
            != "live-action-items"@ && name@ != "audio-levels"@ && name@ != "recording-error"@ && name@
            != "transcription-error"@ && name@ != "transcription-warning"@ && name@
            != "chunk-drop-warning"@ && name@ != "recording-stopped"@ && name@ != "meeting-refining"@
            && name@ != "meeting-refined"@ && name@ != "meeting-refine-failed"@,
{
}

/// A page starts idle and empty.
pub proof fn pages_start_idle(r: RecordingView)
    requires
        call_ensures(RecordingView::new, (), r),
    ensures
        r.phase is Idle,
        r.rows@.len() == 0,
        r.toasts@.len() == 0,
        r.live_action_items@.len() == 0,
        !r.refining && !r.elapsed.running,
        r.pending_calendar_event_id is None,
{
    assert(r@.rows == r.rows@);
    assert(r@.toasts == r.toasts@);
    assert(texts(r.live_action_items@).len() == r.live_action_items@.len());
    assert(r@.phase == r.phase && r@.refining == r.refining && r@.elapsed == r.elapsed);
}

/// Messages are handed out once, oldest first.
pub proof fn messages_are_handed_out_once(
    a: &mut RecordingView,
    kind: ToastKind,
    message: String,
    b: &mut RecordingView,
    r: Vec<Toast>,
)
    requires
        call_ensures(RecordingView::toast, (a, kind, message), ()),
        call_ensures(RecordingView::take_toasts, (b,), r),
    ensures
        final(a).toasts@ == old(a).toasts@.push(Toast { kind, message }),
        final(a).rows@ == old(a).rows@,
        r@ == old(b).toasts@,
        final(b).toasts@.len() == 0,
        final(b).rows@ == old(b).rows@,
{
    assert(final(a)@.toasts == final(a).toasts@ && old(a)@.toasts == old(a).toasts@);
    assert(final(b)@.toasts == final(b).toasts@);
    assert(final(a)@.rows == old(a)@.rows && final(b)@.rows == old(b)@.rows);
}

/// A page that opens on a recording takes over its phase and its clock, and nothing
/// else changes.
pub proof fn opened_pages_take_the_recording_over(
    page: &mut RecordingView,
    phase: RecordingPhase,
    active_ms: Option<u64>,
    now_ms: u64,
)
    requires
        call_ensures(RecordingView::sync_initial_state, (page, phase, active_ms, now_ms), ()),
    ensures
        final(page).phase == phase,
        final(page).elapsed.running == (phase is Recording),
        final(page).elapsed.base_host_ms == now_ms,
        active_ms matches Some(ms) ==> final(page).elapsed.base_active_ms == ms,
        final(page).rows@ == old(page).rows@,
        final(page).partials@ == old(page).partials@,
        texts(final(page).live_action_items@) == texts(old(page).live_action_items@),
{
    assert(final(page)@.elapsed == final(page).elapsed);
    assert(final(page)@.rows == old(page)@.rows);
    assert(final(page)@.partials == old(page)@.partials);
    assert(final(page)@.phase == final(page).phase);
    assert(final(page)@.live_action_items == old(page)@.live_action_items);
}

/// What an error tells the user is the text under "userMessage".
pub proof fn errors_tell_their_message(payload: &crate::json::Blob, r: Option<String>)
    requires
        call_ensures(user_message, (payload,), r),
    ensures
        crate::json::member_at(payload@, "userMessage"@) is None ==> r is None,
        crate::json::member_at(payload@, "userMessage"@) matches Some(m) ==> opt_text(r)
            == crate::json::json_string(m),
{
}

/// A preview, a state and an end do by themselves what they do as events.
pub proof fn parts_of_the_page_do_what_events_do(
    a: &mut RecordingView,
    source: String,
    text: String,
    b: &mut RecordingView,
    items: Vec<String>,
    added: bool,
)
    requires
        old(a).wf(),
        old(b).wf(),
        call_ensures(RecordingView::apply_partial, (a, source, text), ()),
        call_ensures(RecordingView::add_live_items, (b, items), added),
    ensures
        text@.len() == 0 ==> !final(a).partials@.contains_key(source@),
        text@.len() > 0 ==> final(a).partials@.contains_key(source@) && final(a).partials@[source@]@
            == text@,
        final(a).rows@ == old(a).rows@,
        final(b).live_action_items@.len() >= old(b).live_action_items@.len(),
        added <==> final(b).live_action_items@.len() > old(b).live_action_items@.len(),
        forall|i: int|
            0 <= i < old(b).live_action_items@.len() ==> (#[trigger] final(b).live_action_items@[i])@
                == old(b).live_action_items@[i]@,
{
    assert(final(a)@.partials == final(a).partials@);
    assert(final(a)@.rows == old(a)@.rows);
    let had = texts(old(b).live_action_items@);
    let now = texts(final(b).live_action_items@);
    live_items_stay_distinct(had, texts(items@));
    assert(now == with_items(had, texts(items@)));
    assert(now.len() == final(b).live_action_items@.len());
    assert(had.len() == old(b).live_action_items@.len());
    assert forall|i: int| 0 <= i < old(b).live_action_items@.len() implies (
    #[trigger] final(b).live_action_items@[i])@ == old(b).live_action_items@[i]@ by {
        assert(now[i] == had[i]);
        assert(now[i] == final(b).live_action_items@[i]@);
        assert(had[i] == old(b).live_action_items@[i]@);
    }
}

/// A recording without a name is called after the day and the time of its start.
pub proof fn recordings_are_named_after_their_start(now: &Stamp, r: String)
    requires
        now.valid(),
        call_ensures(crate::recording::controls::default_meeting_title, (now,), r),
    ensures
        r@ == "Meeting "@ + both_digits(now.day as int) + seq!['_'] + both_digits(now.month as int)
            + seq!['_'] + both_digits(now.year as int % 100) + seq!['_'] + both_digits(now.hour as int)
            + seq!['_'] + both_digits(now.minute as int) + seq!['_'] + both_digits(now.second as int),
{
    lemma_both_digits(now.day as nat);
    lemma_both_digits(now.month as nat);
    lemma_both_digits((now.year as int % 100) as nat);
    lemma_both_digits(now.hour as nat);
    lemma_both_digits(now.minute as nat);
    lemma_both_digits(now.second as nat);
    let a = both_digits(now.day as int) + seq!['_'] + both_digits(now.month as int) + seq!['_']
        + both_digits(now.year as int % 100) + seq!['_'] + both_digits(now.hour as int) + seq!['_']
        + both_digits(now.minute as int) + seq!['_'] + both_digits(now.second as int);
    assert(crate::clock::title_digits(*now) == a);
    assert(r@ =~= "Meeting "@ + both_digits(now.day as int) + seq!['_'] + both_digits(
        now.month as int,
    ) + seq!['_'] + both_digits(now.year as int % 100) + seq!['_'] + both_digits(now.hour as int)
        + seq!['_'] + both_digits(now.minute as int) + seq!['_'] + both_digits(now.second as int));
}

/// A recording is saved in the data directory, under the day and the time.
pub proof fn recordings_are_saved_under_the_time(dir: &str, now: &Stamp, r: String)
    requires
        now.valid(),
        0 <= now.year <= 9999,
        dir@.len() > 0,
        dir@.last() != '/',
        call_ensures(crate::recording::controls::stop_save_path, (dir, now), r),
    ensures
        r@ == dir@ + seq!['/'] + ("recording-"@ + (both_digits(now.year as int / 100) + both_digits(
            now.year as int % 100,
        ) + seq!['-'] + both_digits(now.month as int) + seq!['-'] + both_digits(now.day as int)
            + seq!['T'] + both_digits(now.hour as int) + seq!['-'] + both_digits(now.minute as int)
            + seq!['-'] + both_digits(now.second as int)) + ".wav"@),
{
    lemma_both_digits((now.year as int / 100) as nat);
    lemma_both_digits((now.year as int % 100) as nat);
    lemma_both_digits(now.month as nat);
    lemma_both_digits(now.day as nat);
    lemma_both_digits(now.hour as nat);
    lemma_both_digits(now.minute as nat);
    lemma_both_digits(now.second as nat);
}

/// A state that the page is told of by itself does what the event does.
pub proof fn states_change_the_page(
    page: &mut RecordingView,
    phase: RecordingPhase,
    active_ms: Option<u64>,
    now_ms: u64,
    r: (Option<ListEdit>, crate::recording::page::Extractor),
)
    requires
        old(page).wf(),
        call_ensures(RecordingView::apply_snapshot, (page, phase, active_ms, now_ms), r),
    ensures
        final(page).phase == phase,
        phase is Starting && !(old(page).phase is Starting) ==> final(page).rows@.len() == 0 && (
        r.0 matches Some(edit) && edit.from == 0 && edit.to == old(page).shown && edit.count == 0),
        !(phase is Starting) ==> final(page).rows@ == old(page).rows@ && r.0 is None,
        (old(page).phase is Recording || old(page).phase is Paused) == (phase is Recording
            || phase is Paused) ==> r.1 is Keep,
        !(old(page).phase is Recording || old(page).phase is Paused) && (phase is Recording
            || phase is Paused) ==> r.1 is Start && final(page).live_action_items@.len() == 0,
        (old(page).phase is Recording || old(page).phase is Paused) && !(phase is Recording
            || phase is Paused) ==> r.1 is Stop,
        final(page).elapsed.running == (phase is Recording),
{
    let after = RecordingView::after_state(old(page)@, phase, active_ms, now_ms);
    assert(final(page)@ == after);
    assert(final(page).rows@ == after.rows);
    assert(texts(final(page).live_action_items@) == after.live_action_items);
    assert(texts(final(page).live_action_items@).len() == final(page).live_action_items@.len());
    assert(final(page)@.elapsed == final(page).elapsed);
    assert(final(page)@.phase == final(page).phase);
}

/// A recording that stops without a meeting leaves the page as it is.
pub proof fn stopping_without_a_meeting_changes_nothing(
    page: &mut RecordingView,
    folder: Option<String>,
    r: Reaction,
)
    requires
        old(page).wf(),
        call_ensures(RecordingView::on_stopped, (page, None, folder), r),
    ensures
        r.open is None && r.refine is None && r.link is None,
        r.edits@.len() == 0 && r.extractor is Keep,
        final(page).rows@ == old(page).rows@,
        opt_text(final(page).pending_calendar_event_id) == opt_text(
            old(page).pending_calendar_event_id,
        ),
{
    assert(final(page)@.rows == old(page)@.rows);
    assert(final(page)@.pending_calendar_event_id == old(page)@.pending_calendar_event_id);
}

/// The meeting that a recording became is opened, refined where it has a folder,
/// and linked where an event waits for it.
pub proof fn stopping_opens_the_meeting(
    page: &mut RecordingView,
    id: String,
    folder: Option<String>,
    r: Reaction,
)
    requires
        old(page).wf(),
        call_ensures(RecordingView::on_stopped, (page, Some(id), folder), r),
    ensures
        r.open matches Some(m) && m@ == id@,
        folder matches Some(f) ==> (r.refine matches Some((m, g)) && m@ == id@ && g@ == f@),
        folder is None ==> r.refine is None,
        old(page).pending_calendar_event_id matches Some(e) ==> (r.link matches Some((m, l)) && m@
            == id@ && l@ == e@),
        old(page).pending_calendar_event_id is None ==> r.link is None,
        final(page).pending_calendar_event_id is None,
        final(page).rows@ == old(page).rows@,
        r.edits@.len() == 0 && r.extractor is Keep,
{
    assert(final(page)@.pending_calendar_event_id is None);
    assert(final(page)@.rows == old(page)@.rows);
}

/// Before anything is known no button works and the clock stands at nought.
pub proof fn controls_start_off(b: ButtonState, c: ElapsedClock)
    requires
        call_ensures(ButtonState::default, (), b),
        call_ensures(ElapsedClock::default, (), c),
    ensures
        !b.can_start && !b.can_pause && !b.can_resume && !b.can_stop,
        c.base_active_ms == 0 && c.base_host_ms == 0 && !c.running,
{
}

} // verus!
