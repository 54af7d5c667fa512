//! The page of one meeting: what belongs to another is dropped, and what is shown
//! is what is stored.
use vstd::prelude::*;
use crate::action_items::items::{first_with_id, ActionItem};
use crate::clock::{moment_named, Moment};
use crate::meeting::calendar::{CalendarEvent, LinkFault, LinkOutcome};
use crate::meeting::format::{build_transcript_text, confidence_tooltip, segment_timestamp, Confidence, ConfidenceLevel, MeetingTranscript};
use crate::meeting::items::{next_source, ExtractSource, ItemsHeader, ItemsPanel};
use crate::meeting::notes::{first_note, note_leq, notes_can_be_sorted, MeetingNote, NotesPanel};
use crate::meeting::page::{confidence_tone, export_label, export_save_message, meeting_event_kind, shown_unless_off, wants_confidence, CopyOutcome, ExportEnd, MeetingDetails, MeetingEventKind, MeetingView, PlayStep, SegmentRow, SummaryRequest, Tone, TranscriptBody};
use crate::meeting::retranscribe::{language_typed, OpenStep, RetranscribePanel, StartStep};
use crate::meeting::speaker_chip::can_edit_speaker;
use crate::meeting::summary::{GenerateStep, SummaryProcess};
use crate::numbers::to_decimal;
use crate::sorting::{sorting_orders, stably_sorted, text_leq};
use crate::text::{is_blank, opt_text, texts, trim};
use crate::whisper::models::ModelInfo;
use crate::words::ascii_lowercase;

verus! {

/// Opening a meeting empties the page, and what was on its way for the one before
/// will not be taken for it.
pub proof fn opened_meetings_start_empty(page: &mut MeetingView, id: String, has_db: bool, r: bool)
    requires
        call_ensures(MeetingView::load, (page, id, has_db), r),
    ensures
        r == has_db,
        final(page).generation > old(page).generation,
        final(page).meeting_id matches Some(m) && m@ == id@,
        final(page).title@.len() == 0,
        final(page).transcripts@.len() == 0,
        final(page).summary.markdown@.len() == 0,
        final(page).notes.notes@.len() == 0,
        final(page).items.items@.len() == 0,
        final(page).calendar.event is None,
        final(page).speaker_edit is None,
        final(page).playing_segment is None,
        final(page).folder_path is None,
        has_db ==> final(page).transcripts_loading && final(page).load_error is None,
        !has_db ==> !final(page).transcripts_loading && final(page).load_error is Some,
{
    reveal_strlit("");
}

/// What comes for a meeting that was left is dropped, whatever it is.
pub proof fn late_meetings_are_dropped(
    page: &mut MeetingView,
    generation: u64,
    found: Result<Option<MeetingDetails>, String>,
    folder: Option<Option<String>>,
)
    requires
        call_ensures(MeetingView::finish_load, (page, generation, found, folder), ()),
    ensures
        generation != old(page).generation ==> *final(page) == *old(page),
        generation == old(page).generation ==> !final(page).transcripts_loading,
        generation == old(page).generation ==> (found matches Err(why) ==> (final(
            page).load_error matches Some(e) && e@ == "Failed to load meeting: "@ + why@) && final(
            page).transcripts == old(page).transcripts),
        generation == old(page).generation ==> (folder matches Some(f) ==> final(page).folder_path
            == f),
        final(page).meeting_id == old(page).meeting_id,
{
}

/// A stored meeting is shown with its title, its date and its transcript.
pub proof fn stored_meetings_are_shown(
    page: &mut MeetingView,
    details: MeetingDetails,
    folder: Option<Option<String>>,
    generation: u64,
)
    requires
        generation == old(page).generation,
        call_ensures(MeetingView::finish_load, (page, generation, Ok(Some(details)), folder), ()),
    ensures
        final(page).title == details.title,
        final(page).transcripts == details.transcripts,
        final(page).created_at == moment_named(details.created_at@),
        final(page).load_error == old(page).load_error,
{
}

/// A meeting that is not stored is said to be missing.
pub proof fn missing_meetings_are_said_to_be(
    page: &mut MeetingView,
    folder: Option<Option<String>>,
    generation: u64,
)
    requires
        generation == old(page).generation,
        call_ensures(MeetingView::finish_load, (page, generation, Ok(None), folder), ()),
    ensures
        final(page).load_error matches Some(e) && e@ == "Meeting not found"@,
{
}

/// A transcript that was loaded again takes the place of the one that is shown.
pub proof fn reloaded_transcripts_are_shown(
    page: &mut MeetingView,
    generation: u64,
    transcripts: Option<Vec<MeetingTranscript>>,
)
    requires
        call_ensures(MeetingView::finish_reload_transcript, (page, generation, transcripts), ()),
    ensures
        generation == old(page).generation ==> (transcripts matches Some(t) ==> final(
            page).transcripts == t),
        generation != old(page).generation || transcripts is None ==> final(page).transcripts == old(
            page).transcripts,
        final(page).title == old(page).title,
{
}

/// A title is saved as it was typed, unless it is blank.
pub proof fn titles_are_saved_as_typed(
    page: &mut MeetingView,
    typed: &str,
    has_db: bool,
    blank: bool,
    r: Option<(String, String)>,
)
    requires
        call_ensures(MeetingView::save_title, (page, typed, has_db), r),
        call_ensures(is_blank, (typed,), blank),
    ensures
        old(page).meeting_id matches Some(id) ==> (has_db && !blank ==> (r matches Some((m, t)) && m@
            == id@ && t@ == typed@) && final(page).title@ == typed@ && !final(page).editing_title),
        blank || !has_db || old(page).meeting_id is None ==> r is None && *final(page) == *old(page),
{
}

/// The header shows the title, or that there is none.
pub proof fn headers_show_the_title(page: &MeetingView, title: &str, blank: bool, r: String)
    requires
        call_ensures(MeetingView::header_title, (page,), r),
        title@ == page.title@,
        call_ensures(is_blank, (title,), blank),
    ensures
        !blank ==> r@ == page.title@,
        blank ==> r@ == "Untitled meeting"@,
{
}

/// A summary is asked for with the whole transcript and the chosen template.
pub proof fn summaries_are_asked_for_with_the_transcript(
    page: &mut MeetingView,
    has_db: bool,
    text: String,
    r: (GenerateStep, Option<SummaryRequest>),
)
    requires
        call_ensures(MeetingView::generate_summary, (page, has_db), r),
        call_ensures(build_transcript_text, (&old(page).transcripts,), text),
    ensures
        old(page).meeting_id is None || !has_db ==> r.0 is Ignored,
        old(page).meeting_id is Some && has_db && old(page).transcripts@.len() == 0
            ==> r.0 is NoTranscript,
        old(page).meeting_id matches Some(id) ==> (has_db && old(page).transcripts@.len() > 0 ==> r.0
            is Start && (r.1 matches Some(ask) && ask.meeting_id@ == id@ && ask.transcript@ == text@
            && ask.template_id@ == old(page).summary.selected_template@)),
        !(r.0 is Start) ==> r.1 is None && *final(page) == *old(page),
{
}

/// A piece of a summary is taken for the meeting that it belongs to and no other.
pub proof fn streams_go_to_their_meeting(
    page: &mut MeetingView,
    id: &str,
    delta: &str,
    reduce_motion: bool,
    r: bool,
)
    requires
        call_ensures(MeetingView::on_summary_stream, (page, id, delta, reduce_motion), r),
    ensures
        old(page).meeting_id matches Some(m) ==> (m@ == id@ ==> final(page).summary.markdown@ == old(
            page).summary.markdown@ + delta@),
        old(page).meeting_id is None ==> *final(page) == *old(page),
        old(page).meeting_id matches Some(m) ==> (m@ != id@ ==> *final(page) == *old(page)),
{
    assert(delta@.len() == 0 ==> old(page).summary.markdown@ + delta@ =~= old(
        page).summary.markdown@);
}

/// The summary of the open meeting is loaded, and that of another is dropped.
pub proof fn late_summaries_are_dropped(
    page: &mut MeetingView,
    generation: u64,
    found: Result<Option<SummaryProcess>, String>,
)
    requires
        call_ensures(MeetingView::finish_summary, (page, generation, found), ()),
    ensures
        generation != old(page).generation ==> *final(page) == *old(page),
        generation == old(page).generation && found is Err ==> final(page).summary.phase is Error,
        final(page).transcripts == old(page).transcripts,
{
}

/// An edited summary is stored as it stands in the editor.
pub proof fn edited_summaries_are_stored(
    page: &mut MeetingView,
    text: &str,
    has_db: bool,
    r: Option<(String, String)>,
)
    requires
        call_ensures(MeetingView::save_summary_and_leave, (page, text, has_db), r),
    ensures
        old(page).meeting_id matches Some(id) ==> (has_db ==> (r matches Some((m, t)) && m@ == id@
            && t@ == text@)),
        old(page).meeting_id is None || !has_db ==> r is None && *final(page) == *old(page),
{
}

/// Copying says that there is nothing where there is nothing.
pub proof fn empty_meetings_copy_nothing(page: &MeetingView, now: &Moment, summary: &str, blank: bool, a: CopyOutcome, b: CopyOutcome)
    requires
        call_ensures(MeetingView::copy_transcript, (page,), a),
        call_ensures(MeetingView::copy_summary, (page, now), b),
        summary@ == page.summary.markdown@,
        call_ensures(is_blank, (summary,), blank),
    ensures
        page.transcripts@.len() == 0 ==> (a matches CopyOutcome::Nothing(why) && why@
            == "No transcripts available to copy"@),
        page.transcripts@.len() > 0 && page.meeting_id is Some ==> (a matches CopyOutcome::Copy(
            t,
            told,
        ) && told@ == "Transcript copied to clipboard"@),
        blank ==> (b matches CopyOutcome::Nothing(why) && why@
            == "No summary content available to copy"@),
        !blank && page.meeting_id is Some ==> (b matches CopyOutcome::Copy(t, told) && told@
            == "Summary copied to clipboard"@),
{
}

/// Audio can be transcribed again where it was kept and that is not being done.
pub proof fn kept_audio_can_be_transcribed_again(page: &MeetingView, r: bool)
    requires
        call_ensures(MeetingView::can_retranscribe, (page,), r),
    ensures
        r <==> page.folder_path is Some && !page.retranscribe.in_progress,
{
}

/// Reports about transcribing again are taken for the meeting that they name.
pub proof fn retranscriptions_report_to_their_meeting(
    page: &mut MeetingView,
    id: &str,
    segments: u64,
    of_segments: String,
    r: Option<String>,
)
    requires
        call_ensures(MeetingView::on_retranscription_complete, (page, id, segments), r),
        call_ensures(to_decimal, (segments,), of_segments),
    ensures
        old(page).meeting_id matches Some(m) ==> (m@ == id@ ==> (r matches Some(t) && t@
            == "Retranscription complete: "@ + of_segments@ + " segments"@) && !final(
            page).retranscribe.in_progress && !final(page).retranscribe.open),
        old(page).meeting_id matches Some(m) ==> (m@ != id@ ==> r is None && *final(page) == *old(page)),
        old(page).meeting_id is None ==> r is None && *final(page) == *old(page),
{
}

/// How far it is and why it failed is shown for the meeting that is named.
pub proof fn retranscriptions_are_followed(
    page: &mut MeetingView,
    id: &str,
    percent: u32,
    message: String,
)
    requires
        call_ensures(MeetingView::on_retranscription_progress, (page, id, percent, message), ()),
    ensures
        old(page).meeting_id matches Some(m) ==> (m@ == id@ ==> final(page).retranscribe.progress_pct
            == percent && final(page).retranscribe.progress_message == message),
        old(page).meeting_id matches Some(m) ==> (m@ != id@ ==> *final(page) == *old(page)),
{
}

/// A retranscription that failed says why, for the meeting that is named.
pub proof fn failed_retranscriptions_say_why(page: &mut MeetingView, id: &str, error: String)
    requires
        call_ensures(MeetingView::on_retranscription_error, (page, id, error), ()),
    ensures
        old(page).meeting_id matches Some(m) ==> (m@ == id@ ==> final(page).retranscribe.error == Some(
            error,
        ) && !final(page).retranscribe.in_progress),
        old(page).meeting_id matches Some(m) ==> (m@ != id@ ==> *final(page) == *old(page)),
{
}

/// Events are offered around the meeting, and around now where its date is not
/// known.
pub proof fn events_are_offered_around_the_meeting(page: &MeetingView, now: &Moment, r: Moment)
    requires
        call_ensures(MeetingView::calendar_anchor, (page, now), r),
    ensures
        page.created_at matches Some(m) ==> r == m,
        page.created_at is None ==> r == *now,
{
}

/// An event that was loaded for another meeting is dropped.
pub proof fn late_events_are_dropped(
    page: &mut MeetingView,
    generation: u64,
    event: Option<Option<CalendarEvent>>,
)
    requires
        call_ensures(MeetingView::finish_calendar_event, (page, generation, event), ()),
    ensures
        generation != old(page).generation ==> *final(page) == *old(page),
        generation == old(page).generation ==> (event matches Some(e) ==> final(page).calendar.event
            == e),
        final(page).title == old(page).title,
{
}

/// One piece plays at a time: a click on the one that plays or loads stops it, and
/// a click on another starts that one.
pub proof fn one_piece_plays(page: &mut MeetingView, id: &str, has_db: bool, r: PlayStep)
    requires
        call_ensures(MeetingView::toggle_segment_playback, (page, id, has_db), r),
    ensures
        old(page).playing_segment matches Some(p) ==> (p@ == id@ ==> r is Stop),
        old(page).loading_segment matches Some(p) ==> (p@ == id@ ==> r is Stop),
        r is Stop ==> final(page).playing_segment is None && final(page).loading_segment is None,
        r is Play ==> final(page).playing_segment is None && (final(page).loading_segment matches Some(
            l,
        ) && l@ == id@),
        old(page).playing_segment is None && old(page).loading_segment is None && has_db && old(
            page).meeting_id is Some ==> r is Play,
        old(page).playing_segment is None && old(page).loading_segment is None && !has_db
            ==> r is Ignored,
        r is Ignored ==> final(page).playing_segment == old(page).playing_segment,
{
}

/// The piece that was asked for last plays once its audio is there; why it does
/// not is told.
pub proof fn the_piece_asked_for_last_plays(
    page: &mut MeetingView,
    generation: u64,
    id: &str,
    result: Result<(), String>,
    r: Option<String>,
)
    requires
        call_ensures(MeetingView::finish_play, (page, generation, id, result), r),
    ensures
        generation != old(page).generation ==> *final(page) == *old(page) && r is None,
        old(page).loading_segment is None ==> *final(page) == *old(page) && r is None,
        old(page).loading_segment matches Some(l) ==> (l@ != id@ ==> *final(page) == *old(page)
            && r is None),
        generation == old(page).generation ==> (old(page).loading_segment matches Some(l) ==> (l@
            == id@ ==> final(page).loading_segment is None && (result is Ok ==> (final(
            page).playing_segment matches Some(p) && p@ == id@) && r is None) && (result matches Err(
            why,
        ) ==> (r matches Some(e) && e@ == why@)))),
{
}

/// Confidence is shown unless the settings say that it is not.
pub proof fn confidence_is_shown_unless_it_is_off(
    settings: &Option<String>,
    flag: Option<bool>,
    r: bool,
    shown: bool,
)
    requires
        call_ensures(wants_confidence, (settings,), r),
        call_ensures(shown_unless_off, (flag,), shown),
    ensures
        *settings is None ==> r,
        flag == Some(false) <==> !shown,
        *settings matches Some(text) ==> (crate::json::json_document(text@) matches Some(value) ==> (
        crate::json::flag_at(value, "showConfidenceIndicator"@) == Some(false) <==> !r)),
{
}

/// A row shows when its piece was said, by whom, and whether it can be played. It
/// can be where it has audio that ends after it starts.
pub proof fn rows_show_their_piece(
    page: &MeetingView,
    t: &MeetingTranscript,
    stored: &str,
    time: String,
    name: &str,
    profile: Option<&str>,
    editable: bool,
    r: SegmentRow,
)
    requires
        call_ensures(MeetingView::segment_row, (page, t), r),
        stored@ == t.timestamp@,
        call_ensures(segment_timestamp, (t.audio_start_time, stored), time),
        name@ == r.speaker@,
        profile is Some == t.voice_profile_id is Some,
        call_ensures(can_edit_speaker, (name, profile), editable),
    ensures
        r.time@ == time@,
        t.speaker matches Some(s) ==> r.speaker@ == s@,
        t.speaker is None ==> r.speaker@ == "Speaker"@,
        r.editable == editable,
        t.audio_end_time is None ==> !r.can_play,
        page.meeting_id is None ==> !r.can_play,
        t.audio_end_time matches Some(end) ==> (t.audio_start_time matches Some(start) ==> r.can_play
            == (page.meeting_id is Some && end > start)),
        t.audio_end_time matches Some(end) ==> (t.audio_start_time is None ==> r.can_play == (
        page.meeting_id is Some && end > 0)),
        page.playing_segment matches Some(p) ==> r.is_playing == (p@ == t.id@),
        page.playing_segment is None ==> !r.is_playing,
        page.loading_segment matches Some(p) ==> r.is_loading == (p@ == t.id@),
        page.speaker_edit is None ==> !r.highlighted,
        page.speaker_edit matches Some(s) ==> r.highlighted == (s.key@ == t.id@ + ":"@ + r.speaker@),
{
}

/// A row shows how sure the speech model was, where that is wanted and known, in
/// the colour of its band.
pub proof fn rows_show_confidence_where_wanted(
    page: &MeetingView,
    t: &MeetingTranscript,
    c: Confidence,
    tooltip: String,
    tone: Tone,
    level: ConfidenceLevel,
    r: SegmentRow,
)
    requires
        call_ensures(MeetingView::segment_row, (page, t), r),
        call_ensures(confidence_tooltip, (&c,), tooltip),
        call_ensures(confidence_tone, (level,), tone),
    ensures
        !page.show_confidence || t.confidence is None ==> r.confidence is None,
        page.show_confidence && t.confidence == Some(c) && level == c.level ==> (r.confidence matches Some(
            (shown, text),
        ) && shown == tone && text@ == tooltip@),
        level is High ==> tone is Success,
        level is Good || level is Medium ==> tone is Warning,
        level is Low ==> tone is Danger,
{
}

/// The transcript is shown where there is one; else that it loads, why it could
/// not be loaded, or that there is none.
pub proof fn transcripts_are_shown_where_there_are_any(page: &MeetingView, r: TranscriptBody)
    requires
        call_ensures(MeetingView::transcript_body, (page,), r),
    ensures
        page.transcripts_loading <==> r is Loading,
        !page.transcripts_loading ==> (page.load_error matches Some(e) ==> (r matches TranscriptBody::Failed(
            text,
        ) && text@ == e@)),
        !page.transcripts_loading && page.load_error is None && page.transcripts@.len() == 0
            ==> r is Empty,
        !page.transcripts_loading && page.load_error is None && page.transcripts@.len() > 0
            ==> r is Rows,
{
}

/// What is told of an export is what became of it.
pub proof fn exports_are_told(
    format: &str,
    label: &'static str,
    end: ExportEnd,
    r: Option<(&'static str, bool)>,
)
    requires
        call_ensures(export_label, (format,), label),
        call_ensures(export_save_message, (end,), r),
    ensures
        format@ == "json"@ ==> label@ == "Meeting copied as JSON"@,
        format@ != "json"@ ==> label@ == "Meeting copied as Markdown"@,
        end is Cancelled <==> r is None,
        end is Written ==> (r matches Some(m) && m.0@ == "Meeting exported"@ && m.1),
        end is NotWritten ==> (r matches Some(m) && m.0@ == "Failed to write export"@ && !m.1),
        end is Failed ==> (r matches Some(m) && m.0@ == "Failed to export meeting"@ && !m.1),
{
}

/// Events are told apart by their names.
pub proof fn meeting_events_have_names(name: &str, ended: &str, r: Option<MeetingEventKind>)
    requires
        call_ensures(meeting_event_kind, (name, ended), r),
    ensures
        r == Some(MeetingEventKind::RetranscriptionProgress) ==> name@ == "retranscription-progress"@,
        r == Some(MeetingEventKind::RetranscriptionComplete) ==> name@ == "retranscription-complete"@,
        r == Some(MeetingEventKind::RetranscriptionError) ==> name@ == "retranscription-error"@,
        r == Some(MeetingEventKind::ActionItemsExtracted) ==> name@ == "action-items-extracted"@,
        r == Some(MeetingEventKind::PlaybackEnded) ==> name@ == ended@,
        name@ == "action-items-extracted"@ || name@ == "retranscription-error"@ || name@
            == "retranscription-complete"@ || name@ == "retranscription-progress"@ || name@ == ended@
            ==> r is Some,
{
}

// ---------------------------------------------------------------------------
// Notes
// ---------------------------------------------------------------------------

/// A note is stored without white space around it, one at a time, and never blank.
pub proof fn notes_are_stored_trimmed(
    panel: &mut NotesPanel,
    draft: &str,
    core: String,
    blank: bool,
    r: Option<String>,
)
    requires
        call_ensures(NotesPanel::begin_save, (panel, draft), r),
        call_ensures(trim, (draft,), core),
        call_ensures(is_blank, (draft,), blank),
    ensures
        blank || old(panel).saving ==> r is None,
        !blank && !old(panel).saving ==> (r matches Some(t) && t@ == core@) && final(panel).saving,
        final(panel).notes == old(panel).notes,
{
}

/// A note that was stored is listed behind the others; one that was not is told.
pub proof fn stored_notes_are_listed_last(
    panel: &mut NotesPanel,
    current: bool,
    result: Result<MeetingNote, String>,
    r: Option<String>,
)
    requires
        call_ensures(NotesPanel::finish_save, (panel, current, result), r),
    ensures
        current ==> (result matches Ok(note) ==> final(panel).notes@ == old(panel).notes@.push(note)
            && !final(panel).composing && r is None),
        !current ==> final(panel).notes == old(panel).notes && r is None,
        current ==> (result matches Err(why) ==> final(panel).notes == old(panel).notes && (
        r matches Some(t) && t@ == "Failed to add note: "@ + why@)),
        !final(panel).saving,
{
}

/// Deleting a note takes that one out and no other.
pub proof fn deleted_notes_go(panel: &mut NotesPanel, id: &str, at: int, r: Option<MeetingNote>)
    requires
        call_ensures(NotesPanel::begin_delete, (panel, id), r),
        0 <= at < old(panel).notes@.len(),
        old(panel).notes@[at].id@ == id@,
        forall|j: int| 0 <= j < at ==> (#[trigger] old(panel).notes@[j]).id@ != id@,
    ensures
        r == Some(old(panel).notes@[at]),
        final(panel).notes@ == old(panel).notes@.remove(at),
{
    match r {
        Some(note) => {
            let i = choose|i: int| #[trigger]
                first_note(old(panel).notes@, id@, i) && note == old(panel).notes@[i] && final(
                    panel).notes@ == old(panel).notes@.remove(i);
            if i < at {
                assert(old(panel).notes@[i].id@ != id@);
            }
            assert(i == at);
        },
        None => {
            assert(old(panel).notes@[at].id@ != id@);
        },
    }
}

/// A note that could not be deleted is back among the others, which stand by the
/// time at which they were written; one that was deleted stays away.
pub proof fn notes_come_back_where_deleting_failed(
    panel: &mut NotesPanel,
    deleted: bool,
    note: MeetingNote,
    i: int,
    j: int,
)
    requires
        call_ensures(NotesPanel::finish_delete, (panel, deleted, Some(note)), ()),
    ensures
        deleted ==> final(panel).notes@ == old(panel).notes@,
        !deleted ==> final(panel).notes@.to_multiset() == old(panel).notes@.push(note).to_multiset(),
        !deleted && 0 <= i < j < final(panel).notes@.len() ==> text_leq(
            final(panel).notes@[i].created_at@,
            final(panel).notes@[j].created_at@,
        ),
{
    notes_can_be_sorted();
    let all = old(panel).notes@.push(note);
    sorting_orders(all, note_leq());
    if !deleted && 0 <= i < j < final(panel).notes@.len() {
        assert(note_leq()(stably_sorted(all, note_leq())[i], stably_sorted(all, note_leq())[j]));
    }
}

/// A note that an agent wrote says so, and no other does.
pub proof fn notes_name_the_agent(note: &MeetingNote, r: String)
    requires
        call_ensures(crate::meeting::notes::note_footer, (note,), r),
        moment_named(note.created_at@) is None,
    ensures
        note.source@ == "agent"@ ==> r@ == " · added by an agent"@,
        note.source@ != "agent"@ ==> r@.len() == 0,
{
    reveal_strlit("");
}

// ---------------------------------------------------------------------------
// Action items of a meeting
// ---------------------------------------------------------------------------

/// Ticking an item's box changes its status alone.
pub proof fn ticking_changes_a_status(
    panel: &mut ItemsPanel,
    id: &str,
    done: bool,
    r: &'static str,
    at: int,
)
    requires
        call_ensures(ItemsPanel::toggle_status, (panel, id, done), r),
        0 <= at < old(panel).items@.len(),
        old(panel).items@[at].id@ == id@,
        forall|j: int| 0 <= j < at ==> (#[trigger] old(panel).items@[j]).id@ != id@,
    ensures
        done ==> r@ == "open"@,
        !done ==> r@ == "done"@,
        final(panel).items@.len() == old(panel).items@.len(),
        final(panel).items@[at].status@ == r@,
        final(panel).items@[at].text == old(panel).items@[at].text,
        forall|j: int|
            0 <= j < old(panel).items@.len() && j != at ==> #[trigger] final(panel).items@[j] == old(
                panel).items@[j],
{
    assert(first_with_id(old(panel).items@, id@, at));
}

/// An item that is edited starts with its own text.
pub proof fn editors_start_with_the_items_text(
    panel: &mut ItemsPanel,
    id: &str,
    at: int,
    r: Option<String>,
)
    requires
        call_ensures(ItemsPanel::start_edit, (panel, id), r),
        0 <= at < old(panel).items@.len(),
        old(panel).items@[at].id@ == id@,
        forall|j: int| 0 <= j < at ==> (#[trigger] old(panel).items@[j]).id@ != id@,
    ensures
        r matches Some(t) && t@ == old(panel).items@[at].text@,
        final(panel).editing_id matches Some(e) && e@ == id@,
        final(panel).items == old(panel).items,
{
    if let Some(t) = r {
        let i = choose|i: int| #[trigger]
            first_with_id(old(panel).items@, id@, i) && t@ == old(panel).items@[i].text@;
        if i < at {
            assert(old(panel).items@[i].id@ != id@);
        }
        assert(i == at);
    } else {
        assert(old(panel).items@[at].id@ != id@);
    }
}

/// Saving an edit stores the typed text without white space around it; a blank one
/// is not stored.
pub proof fn items_are_stored_trimmed(
    panel: &mut ItemsPanel,
    text: &str,
    has_db: bool,
    core: String,
    blank: bool,
    id: String,
    r: Option<(String, String)>,
)
    requires
        call_ensures(ItemsPanel::save_edit, (panel, text, has_db), r),
        call_ensures(trim, (text,), core),
        call_ensures(is_blank, (text,), blank),
        old(panel).editing_id == Some(id),
    ensures
        !blank && has_db ==> (r matches Some((i, t)) && i@ == id@ && t@ == core@),
        blank || !has_db ==> r is None && final(panel).items == old(panel).items,
        final(panel).editing_id is None,
{
}

/// An item that is added is stored without white space around it.
pub proof fn added_items_are_stored_trimmed(
    panel: &mut ItemsPanel,
    text: &str,
    core: String,
    blank: bool,
    r: Option<String>,
)
    requires
        call_ensures(ItemsPanel::save_add, (panel, text), r),
        call_ensures(trim, (text,), core),
        call_ensures(is_blank, (text,), blank),
    ensures
        blank ==> r is None && final(panel).adding == old(panel).adding,
        !blank ==> (r matches Some(t) && t@ == core@) && !final(panel).adding,
{
}

/// The header counts what is open, says when all is done, and offers to look for
/// items where there is a summary.
pub proof fn item_headers_count_what_is_open(
    panel: &ItemsPanel,
    has_summary: bool,
    counts: (usize, usize),
    open: u64,
    of_open: String,
    r: ItemsHeader,
)
    requires
        call_ensures(ItemsPanel::header, (panel, has_summary), r),
        call_ensures(crate::action_items::items::count_items, (&panel.items,), counts),
        open == counts.0,
        call_ensures(to_decimal, (open,), of_open),
    ensures
        open > 0 ==> (r.badge matches Some(b) && b@ == of_open@),
        open == 0 && panel.items@.len() > 0 ==> (r.badge matches Some(b) && b@ == "All done"@),
        panel.items@.len() == 0 ==> r.badge is None && r.empty_text is Some,
        panel.items@.len() > 0 ==> r.empty_text is None,
        !has_summary ==> r.extract_label is None,
        has_summary && panel.items@.len() == 0 ==> (r.extract_label matches Some(l) && l@
            == "Extract from summary"@),
        has_summary && panel.items@.len() > 0 ==> (r.extract_label matches Some(l) && l@
            == "Re-extract"@),
{
}

/// Items are looked for in the transcript, and in the summary where that failed.
pub proof fn items_are_looked_for_in_turn(
    tried: Option<ExtractSource>,
    failed: bool,
    r: Option<ExtractSource>,
)
    requires
        call_ensures(next_source, (tried, failed), r),
    ensures
        tried is None ==> r == Some(ExtractSource::Transcript),
        tried == Some(ExtractSource::Transcript) && failed ==> r == Some(ExtractSource::Summary),
        tried == Some(ExtractSource::Transcript) && !failed ==> r is None,
        tried == Some(ExtractSource::Summary) ==> r is None,
{
}

/// Looking for items ends for the meeting that it was for, and a failure is told
/// while that is open.
pub proof fn extractions_end(
    page: &mut MeetingView,
    generation: u64,
    outcome: Result<u64, String>,
    r: (bool, Option<String>),
)
    requires
        call_ensures(MeetingView::finish_extract, (page, generation, outcome), r),
    ensures
        !final(page).items.extracting,
        generation == old(page).generation && outcome is Ok ==> r.0 && r.1 is None,
        generation != old(page).generation ==> !r.0 && r.1 is None,
        generation == old(page).generation ==> (outcome matches Err(why) ==> !r.0 && (r.1 matches Some(
            t,
        ) && t@ == "Extraction failed: "@ + why@)),
        final(page).items.items == old(page).items.items,
{
}

// ---------------------------------------------------------------------------
// Transcribing again
// ---------------------------------------------------------------------------

/// The language that was typed is asked for, without white space around it;
/// nothing and "auto", in any case, leave it to be detected.
pub proof fn typed_languages_are_asked_for(typed: &str, core: String, r: Option<String>)
    requires
        call_ensures(language_typed, (typed,), r),
        call_ensures(trim, (typed,), core),
    ensures
        core@.len() == 0 ==> r is None,
        core@ == "auto"@ ==> r is None,
        r is None && core@.len() > 0 ==> ascii_lowercase(core@) == ascii_lowercase("auto"@),
        r matches Some(l) ==> l@ == core@,
{
}

/// The panel opens where there is audio, and asks for the models where it has none.
pub proof fn panels_open_where_there_is_audio(panel: &mut RetranscribePanel, has_audio: bool, r: OpenStep)
    requires
        call_ensures(RetranscribePanel::open_panel, (panel, has_audio), r),
    ensures
        !has_audio ==> r is NoAudio && *final(panel) == *old(panel),
        has_audio ==> final(panel).open && final(panel).error is None,
        has_audio && old(panel).models@.len() == 0 ==> r is LoadModels,
        has_audio && old(panel).models@.len() > 0 ==> r is Ready,
{
}

/// The models follow each other, the first behind the last.
pub proof fn models_follow_each_other(panel: &mut RetranscribePanel)
    requires
        call_ensures(RetranscribePanel::cycle_model, (panel,), ()),
    ensures
        old(panel).models@.len() == 0 ==> final(panel).model_index == old(panel).model_index,
        old(panel).models@.len() > 0 && old(panel).model_index is None ==> final(panel).model_index
            == Some(0usize),
        old(panel).model_index matches Some(i) ==> (i + 1 < old(panel).models@.len() ==> final(
            panel).model_index == Some((i + 1) as usize)),
        old(panel).model_index matches Some(i) ==> (i + 1 == old(panel).models@.len() ==> final(
            panel).model_index == Some(0usize)),
        final(panel).models == old(panel).models,
{
    if let Some(i) = old(panel).model_index {
        let n = old(panel).models@.len() as int;
        if i + 1 < n {
            assert((i + 1) % n == i + 1) by (nonlinear_arith)
                requires
                    0 <= i,
                    i + 1 < n,
            ;
        }
        if i + 1 == n {
            assert((i + 1) % n == 0) by (nonlinear_arith)
                requires
                    i + 1 == n,
                    n > 0,
            ;
        }
    }
}

/// What is asked for is the meeting and its audio, in the language that was typed
/// and with the chosen model; nothing is where that is being done already.
pub proof fn retranscriptions_ask_for_what_was_chosen(
    panel: &mut RetranscribePanel,
    id: String,
    folder: String,
    meeting: &Option<String>,
    path: &Option<String>,
    busy: bool,
    typed: &str,
    language: Option<String>,
    r: StartStep,
)
    requires
        *meeting == Some(id),
        *path == Some(folder),
        call_ensures(RetranscribePanel::start, (panel, meeting, path, busy, typed), r),
        call_ensures(language_typed, (typed,), language),
    ensures
        busy ==> r is Busy && *final(panel) == *old(panel),
        !busy ==> (r matches StartStep::Start(ask) && ask.meeting_id@ == id@ && ask.folder@ == folder@
            && opt_text(ask.language) == opt_text(language)),
        !busy && old(panel).model_index is None ==> (r matches StartStep::Start(ask)
            && ask.model is None && ask.provider is None),
        !busy ==> (old(panel).model_index matches Some(i) ==> (i < old(panel).models@.len() ==> (
        r matches StartStep::Start(ask) && (ask.model matches Some(m) && m@ == old(
            panel).models@[i as int]@) && (ask.provider matches Some(p) && p@ == "localWhisper"@)))),
        !busy ==> final(panel).in_progress && final(panel).progress_pct == 0,
{
}

/// Models that can be used are offered, and the first is chosen where none was.
pub proof fn usable_models_are_offered(
    panel: &mut RetranscribePanel,
    all: Vec<ModelInfo>,
)
    requires
        call_ensures(RetranscribePanel::finish_models, (panel, Some(all)), ()),
    ensures
        forall|i: int|
            0 <= i < final(panel).models@.len() ==> usable(
                all@,
                (#[trigger] final(panel).models@[i])@,
            ),
        forall|k: int|
            0 <= k < all@.len() && (#[trigger] all@[k]).status is Available ==> texts(
                final(panel).models@,
            ).contains(all@[k].name@),
        old(panel).model_index is Some ==> final(panel).model_index == old(panel).model_index,
        old(panel).model_index is None && final(panel).models@.len() > 0 ==> final(panel).model_index
            == Some(0usize),
{
    let names = crate::whisper::models::available_names(all@);
    lemma_available(all@);
    assert(texts(final(panel).models@) == names);
    assert(names.len() == final(panel).models@.len());
    assert forall|i: int| 0 <= i < final(panel).models@.len() implies usable(
        all@,
        (#[trigger] final(panel).models@[i])@,
    ) by {
        assert(names[i] == final(panel).models@[i]@);
        assert(usable(all@, names[i]));
    }
}

/// Whether a model of a name can be used.
pub open spec fn usable(all: Seq<ModelInfo>, name: Seq<char>) -> bool {
    exists|k: int|
        0 <= k < all.len() && (#[trigger] all[k]).name@ == name && all[k].status is Available
}

proof fn lemma_available(all: Seq<ModelInfo>)
    ensures
        forall|i: int|
            0 <= i < crate::whisper::models::available_names(all).len() ==> usable(
                all,
                #[trigger] crate::whisper::models::available_names(all)[i],
            ),
        forall|k: int|
            0 <= k < all.len() && (#[trigger] all[k]).status is Available
                ==> crate::whisper::models::available_names(all).contains(all[k].name@),
    decreases all.len(),
{
    let names = crate::whisper::models::available_names(all);
    if all.len() > 0 {
        let front = all.drop_last();
        let before = crate::whisper::models::available_names(front);
        lemma_available(front);
        assert forall|i: int| 0 <= i < names.len() implies usable(all, #[trigger] names[i]) by {
            if i < before.len() {
                assert(names[i] == before[i]);
                assert(usable(front, before[i]));
                let k = choose|k: int|
                    0 <= k < front.len() && (#[trigger] front[k]).name@ == before[i]
                        && front[k].status is Available;
                assert(all[k] == front[k]);
            } else {
                assert(all[all.len() - 1].name@ == names[i]);
            }
        }
        assert forall|k: int|
            0 <= k < all.len() && (#[trigger] all[k]).status is Available implies names.contains(
            all[k].name@,
        ) by {
            if k < front.len() {
                assert(front[k] == all[k]);
                let i = choose|i: int| 0 <= i < before.len() && before[i] == all[k].name@;
                assert(names[i] == all[k].name@);
            } else {
                assert(names[names.len() - 1] == all[k].name@);
            }
        }
    }
}

/// A page starts without a meeting.
pub proof fn pages_start_without_a_meeting(
    templates: Vec<crate::meeting::summary::Template>,
    r: MeetingView,
    notes: NotesPanel,
    items: ItemsPanel,
    again: RetranscribePanel,
)
    requires
        call_ensures(MeetingView::new, (templates,), r),
        call_ensures(NotesPanel::new, (), notes),
        call_ensures(ItemsPanel::new, (), items),
        call_ensures(RetranscribePanel::new, (), again),
    ensures
        r.meeting_id is None && r.generation == 0 && r.transcripts@.len() == 0,
        !r.transcripts_loading && r.load_error is None && r.speaker_edit is None,
        r.playing_segment is None && r.loading_segment is None && !r.show_confidence,
        notes.notes@.len() == 0 && !notes.composing && !notes.saving,
        items.items@.len() == 0 && !items.loading && items.editing_id is None && !items.adding
            && !items.extracting,
        !again.open && again.models@.len() == 0 && again.model_index is None && !again.in_progress
            && again.error is None,
{
}

/// Editing a title starts with it, and cancelling keeps it.
pub proof fn titles_are_kept_where_editing_is_cancelled(
    a: &mut MeetingView,
    b: &mut MeetingView,
    r: String,
)
    requires
        call_ensures(MeetingView::start_edit_title, (a,), r),
        call_ensures(MeetingView::cancel_edit_title, (b,), ()),
    ensures
        r@ == old(a).title@ && final(a).editing_title && final(a).title == old(a).title,
        !final(b).editing_title && final(b).title == old(b).title,
{
}

/// The timer looks for a summary while the meeting is open and the summary is made.
pub proof fn timers_end_with_the_meeting(
    page: &MeetingView,
    generation: u64,
    r: (bool, bool),
)
    requires
        call_ensures(MeetingView::poll_tick, (page, generation), r),
    ensures
        r.0 <==> generation == page.generation,
        generation == page.generation ==> (r.1 <==> page.summary.phase is Generating),
{
}

/// Work that was started for another meeting changes nothing.
pub proof fn late_work_is_dropped(
    a: &mut MeetingView,
    b: &mut MeetingView,
    generation: u64,
    has_model: bool,
    stop: bool,
)
    requires
        call_ensures(MeetingView::continue_generate, (a, generation, has_model), ()),
        call_ensures(MeetingView::reveal_tick, (b, generation), stop),
        generation != old(a).generation,
        generation != old(b).generation,
    ensures
        *final(a) == *old(a),
        *final(b) == *old(b),
        stop,
{
}

/// A streamed summary of the open meeting is shown step by step, and its timer
/// stops at the end.
pub proof fn streams_are_shown_step_by_step(page: &mut MeetingView, generation: u64, stop: bool)
    requires
        call_ensures(MeetingView::reveal_tick, (page, generation), stop),
        generation == old(page).generation,
    ensures
        final(page).summary.shown@ + final(page).summary.pending@ == old(page).summary.shown@ + old(
            page).summary.pending@,
        stop <==> final(page).summary.pending@.len() == 0,
        final(page).transcripts == old(page).transcripts,
{
    let waits = old(page).summary.pending@;
    crate::meeting::summary::steps_make_progress(waits);
    let n = crate::meeting::summary::revealed_chars(waits) as int;
    assert(waits.subrange(0, n) + waits.subrange(n, waits.len() as int) =~= waits);
    assert(old(page).summary.shown@ + waits.subrange(0, n) + waits.subrange(n, waits.len() as int)
        =~= old(page).summary.shown@ + (waits.subrange(0, n) + waits.subrange(
        n,
        waits.len() as int,
    )));
}

/// Whether a model is configured is taken over for the open meeting.
pub proof fn missing_models_are_said(page: &mut MeetingView, generation: u64, has_model: bool)
    requires
        call_ensures(MeetingView::continue_generate, (page, generation, has_model), ()),
        generation == old(page).generation,
    ensures
        has_model ==> final(page).summary.polling,
        !has_model ==> final(page).summary.phase is Error,
{
}

/// Edits are unsaved where the editor holds something else, and discarding them
/// keeps the summary.
pub proof fn discarded_edits_keep_the_summary(
    page: &MeetingView,
    text: &str,
    unsaved: bool,
    other: &mut MeetingView,
)
    requires
        call_ensures(MeetingView::has_unsaved_summary_edits, (page, text), unsaved),
        call_ensures(MeetingView::discard_summary_edits, (other,), ()),
    ensures
        unsaved <==> page.summary.editing && text@ != page.summary.markdown@,
        !final(other).summary.editing && final(other).summary.markdown == old(other).summary.markdown,
{
}

/// An edit that was saved for the open meeting is its summary from then on.
pub proof fn saved_summaries_are_shown(page: &mut MeetingView, generation: u64, saved: bool, markdown: &str)
    requires
        call_ensures(MeetingView::finish_save_summary, (page, generation, saved, markdown), ()),
    ensures
        generation == old(page).generation && saved ==> final(page).summary.markdown@ == markdown@
            && final(page).summary.shown@ == markdown@ && !final(page).summary.editing,
        generation != old(page).generation || !saved ==> final(page).summary.markdown == old(
            page).summary.markdown && final(page).summary.editing == old(page).summary.editing,
        !final(page).summary.saving,
{
}

/// Models, events, profiles, notes and items that come for another meeting are
/// dropped.
pub proof fn late_parts_are_dropped(
    a: &mut MeetingView,
    b: &mut MeetingView,
    c: &mut MeetingView,
    d: &mut MeetingView,
    e: &mut MeetingView,
    f: &mut MeetingView,
    generation: u64,
    models: Option<Vec<ModelInfo>>,
    key: &str,
    profiles: Option<Vec<crate::meeting::speakers::VoiceProfile>>,
    mail: Option<String>,
    outcome: Result<(), String>,
    again: bool,
    notes: Option<Vec<MeetingNote>>,
    items: Option<Vec<ActionItem>>,
    settings: &Option<String>,
)
    requires
        generation != old(a).generation && generation != old(b).generation && generation != old(
            c).generation && generation != old(d).generation && generation != old(e).generation
            && generation != old(f).generation,
        call_ensures(MeetingView::finish_models, (a, generation, models), ()),
        call_ensures(MeetingView::finish_profiles, (b, generation, key, profiles), mail),
        call_ensures(MeetingView::finish_speaker_save, (c, generation, key, outcome), again),
        call_ensures(MeetingView::finish_notes, (d, generation, notes), ()),
        call_ensures(MeetingView::finish_action_items, (e, generation, items), ()),
        call_ensures(MeetingView::finish_confidence, (f, generation, settings), ()),
    ensures
        *final(a) == *old(a),
        *final(b) == *old(b) && mail is None,
        *final(c) == *old(c) && !again,
        *final(d) == *old(d),
        *final(e) == *old(e),
        final(f).show_confidence == old(f).show_confidence,
{
}

/// Those that come for the open meeting are taken over.
pub proof fn parts_of_the_open_meeting_are_taken_over(
    d: &mut MeetingView,
    e: &mut MeetingView,
    f: &mut MeetingView,
    generation: u64,
    notes: Vec<MeetingNote>,
    items: Vec<ActionItem>,
    settings: &Option<String>,
    wanted: bool,
)
    requires
        generation == old(d).generation && generation == old(e).generation && generation == old(
            f).generation,
        call_ensures(MeetingView::finish_notes, (d, generation, Some(notes)), ()),
        call_ensures(MeetingView::finish_action_items, (e, generation, Some(items)), ()),
        call_ensures(MeetingView::finish_confidence, (f, generation, settings), ()),
        call_ensures(wants_confidence, (settings,), wanted),
    ensures
        final(d).notes.notes == notes,
        final(e).items.items == items && !final(e).items.loading,
        final(f).show_confidence == wanted,
{
}

/// Profiles and saved names are taken over by the panel of the open meeting.
pub proof fn speakers_of_the_open_meeting_are_taken_over(
    b: &mut MeetingView,
    c: &mut MeetingView,
    generation: u64,
    key: &str,
    list: Vec<crate::meeting::speakers::VoiceProfile>,
    had: crate::meeting::speakers::SpeakerEditState,
    mail: Option<String>,
    outcome: Result<(), String>,
    again: bool,
)
    requires
        generation == old(b).generation && generation == old(c).generation,
        old(b).speaker_edit == Some(had),
        had.key@ == key@,
        call_ensures(MeetingView::finish_profiles, (b, generation, key, Some(list)), mail),
        call_ensures(MeetingView::finish_speaker_save, (c, generation, key, outcome), again),
    ensures
        final(b).speaker_edit matches Some(s) && s.profiles == list && !s.profiles_loading,
        outcome is Ok ==> again && final(c).speaker_edit is None,
        outcome is Err ==> !again,
{
}

/// A link is asked for the open meeting, and what it came to is told.
pub proof fn links_are_made_for_the_open_meeting(
    a: &mut MeetingView,
    b: &mut MeetingView,
    has_db: bool,
    asked: Option<String>,
    generation: u64,
    result: Result<bool, LinkFault>,
    r: LinkOutcome,
)
    requires
        call_ensures(MeetingView::pick_calendar_event, (a, has_db), asked),
        call_ensures(MeetingView::finish_link, (b, generation, result), r),
    ensures
        old(a).meeting_id matches Some(id) ==> (has_db ==> (asked matches Some(m) && m@ == id@) && final(
            a).calendar.mutating),
        old(a).meeting_id is None || !has_db ==> asked is None && *final(a) == *old(a),
        generation != old(b).generation ==> *final(b) == *old(b) && r is Nothing,
        generation == old(b).generation ==> (result matches Ok(done) ==> (done ==> r is Reload && !final(
            b).calendar.picker_open)),
        generation == old(b).generation && result is Err ==> r is Fail,
{
}

/// The events on offer are taken over by the picker of the open meeting.
pub proof fn events_go_to_the_picker_of_the_open_meeting(
    page: &mut MeetingView,
    generation: u64,
    list: Vec<CalendarEvent>,
    anchor: &Moment,
)
    requires
        call_ensures(MeetingView::finish_calendar_picker, (page, generation, Ok(list), anchor), ()),
    ensures
        generation != old(page).generation ==> *final(page) == *old(page),
        generation == old(page).generation && old(page).calendar.picker_open ==> (final(
            page).calendar.picker_events matches Some(shown) && shown@.to_multiset()
            == list@.to_multiset()),
{
    sorting_orders(list@, crate::meeting::calendar::closer_event(*anchor));
}

/// Nothing plays once a piece has been played to its end.
pub proof fn pieces_end(page: &mut MeetingView)
    requires
        call_ensures(MeetingView::on_segment_playback_ended, (page,), ()),
    ensures
        final(page).playing_segment is None,
        final(page).loading_segment is None,
        final(page).transcripts == old(page).transcripts,
{
}

/// A note that could not be deleted is back on the page of the open meeting.
pub proof fn notes_come_back_to_their_meeting(
    page: &mut MeetingView,
    generation: u64,
    deleted: bool,
    note: MeetingNote,
    r: bool,
)
    requires
        call_ensures(MeetingView::finish_delete_note, (page, generation, deleted, Some(note)), r),
    ensures
        r <==> generation == old(page).generation && !deleted,
        !r ==> final(page).notes.notes@ == old(page).notes.notes@,
        r ==> final(page).notes.notes@.to_multiset() == old(page).notes.notes@.push(note).to_multiset(),
{
    notes_can_be_sorted();
    sorting_orders(old(page).notes.notes@.push(note), note_leq());
}

/// Items that were found are loaded for the meeting that they belong to.
pub proof fn found_items_are_loaded(page: &mut MeetingView, id: &str, r: bool)
    requires
        call_ensures(MeetingView::on_action_items_extracted, (page, id), r),
    ensures
        old(page).meeting_id is None ==> !r,
        old(page).meeting_id matches Some(m) ==> (r <==> m@ == id@),
        r ==> !final(page).items.extracting,
        !r ==> *final(page) == *old(page),
{
}

/// Notes and items that could not be loaded leave those that are shown.
pub proof fn parts_that_cannot_be_loaded_stay(
    a: &mut NotesPanel,
    b: &mut ItemsPanel,
    c: &mut NotesPanel,
    composing: bool,
    d: &mut ItemsPanel,
    adding: bool,
)
    requires
        call_ensures(NotesPanel::finish_load, (a, None), ()),
        call_ensures(ItemsPanel::finish_load, (b, None), ()),
        call_ensures(NotesPanel::set_composing, (c, composing), ()),
        call_ensures(ItemsPanel::set_adding, (d, adding), ()),
    ensures
        final(a).notes == old(a).notes,
        final(b).items == old(b).items && !final(b).loading,
        final(c).composing == composing && final(c).notes == old(c).notes && final(c).saving == old(
            c).saving,
        final(d).adding == adding && final(d).items == old(d).items,
{
}

/// Notes and items that were loaded are shown.
pub proof fn loaded_parts_are_shown(
    a: &mut NotesPanel,
    b: &mut ItemsPanel,
    notes: Vec<MeetingNote>,
    items: Vec<ActionItem>,
)
    requires
        call_ensures(NotesPanel::finish_load, (a, Some(notes)), ()),
        call_ensures(ItemsPanel::finish_load, (b, Some(items)), ()),
    ensures
        final(a).notes == notes,
        final(b).items == items && !final(b).loading,
{
}

/// Another meeting starts without notes, items and reports.
pub proof fn parts_start_over(a: &mut NotesPanel, b: &mut ItemsPanel, c: &mut RetranscribePanel)
    requires
        call_ensures(NotesPanel::reset, (a,), ()),
        call_ensures(ItemsPanel::reset, (b,), ()),
        call_ensures(RetranscribePanel::reset, (c,), ()),
    ensures
        final(a).notes@.len() == 0 && !final(a).composing && !final(a).saving,
        final(b).items@.len() == 0 && final(b).loading && final(b).editing_id is None && !final(
            b).adding && !final(b).extracting,
        !final(c).open && !final(c).in_progress && final(c).error is None && final(c).progress_pct == 0
            && final(c).models == old(c).models,
{
}

/// Items are looked for once at a time; editing is cancelled without a change, and
/// deleting takes out what has the id.
pub proof fn items_are_looked_for_once(
    a: &mut ItemsPanel,
    started: bool,
    b: &mut ItemsPanel,
    c: &mut ItemsPanel,
    d: &mut ItemsPanel,
    id: &str,
    panel: &ItemsPanel,
    item: &ActionItem,
    editing: bool,
)
    requires
        call_ensures(ItemsPanel::begin_extract, (a,), started),
        call_ensures(ItemsPanel::end_extract, (b,), ()),
        call_ensures(ItemsPanel::cancel_edit, (c,), ()),
        call_ensures(ItemsPanel::delete, (d, id), ()),
        call_ensures(ItemsPanel::is_editing, (panel, item), editing),
    ensures
        started <==> !old(a).extracting,
        final(a).extracting && final(a).items == old(a).items,
        !final(b).extracting && final(b).items == old(b).items,
        final(c).editing_id is None && final(c).items == old(c).items,
        final(d).items@ == old(d).items@.filter(|i: ActionItem| i.id@ != id@),
        panel.editing_id is None ==> !editing,
        panel.editing_id matches Some(e) ==> (editing <==> e@ == item.id@),
{
}

/// The panel shows how far it is, what it came to, and which model is chosen.
pub proof fn retranscriptions_are_shown(
    panel: &RetranscribePanel,
    n: u64,
    of_n: String,
    line: String,
    label: String,
    form: bool,
)
    requires
        call_ensures(RetranscribePanel::progress_line, (panel,), line),
        call_ensures(RetranscribePanel::model_label, (panel,), label),
        call_ensures(RetranscribePanel::shows_form, (panel,), form),
        n == panel.progress_pct,
        call_ensures(to_decimal, (n,), of_n),
    ensures
        line@ == of_n@ + "% — "@ + panel.progress_message@,
        panel.model_index is None ==> label@ == "Default"@,
        panel.model_index matches Some(i) ==> (i < panel.models@.len() ==> label@
            == panel.models@[i as int]@),
        form <==> !panel.in_progress && panel.error is None,
{
}

/// What is reported to the panel is kept: how far it is, that it is done, or why it
/// failed.
pub proof fn panels_keep_what_is_reported(
    a: &mut RetranscribePanel,
    percent: u32,
    message: String,
    b: &mut RetranscribePanel,
    segments: u64,
    of_segments: String,
    told: String,
    c: &mut RetranscribePanel,
    error: String,
    d: &mut RetranscribePanel,
)
    requires
        call_ensures(RetranscribePanel::on_progress, (a, percent, message), ()),
        call_ensures(RetranscribePanel::on_complete, (b, segments), told),
        call_ensures(to_decimal, (segments,), of_segments),
        call_ensures(RetranscribePanel::on_error, (c, error), ()),
        call_ensures(RetranscribePanel::close, (d,), ()),
    ensures
        final(a).progress_pct == percent && final(a).progress_message == message && final(a).in_progress
            == old(a).in_progress,
        !final(b).in_progress && !final(b).open && told@ == "Retranscription complete: "@
            + of_segments@ + " segments"@,
        !final(c).in_progress && final(c).error == Some(error) && final(c).open == old(c).open,
        !final(d).open && final(d).in_progress == old(d).in_progress,
{
}

} // verus!
