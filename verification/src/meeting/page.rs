//! The meeting page as a whole.
//!
//! Work that was started for a meeting may end after another meeting was
//! opened. Every meeting that is opened gets a number, and what comes back
//! under an older number is dropped.
use vstd::prelude::*;
use crate::action_items::items::ActionItem;
use crate::action_items::page::NO_DATABASE;
use crate::clock::{local_to, moment_named, parse_moment, Moment, Stamp};
use crate::json::{flag_at, json_document, Blob};
use crate::meeting::calendar::{link_leads_to, CalendarEvent, CalendarPanel, LinkFault, LinkOutcome};
use crate::meeting::format::{build_transcript_text, confidence_tooltip, copy_summary_text, copy_transcript_text, plain_lines, segment_time, segment_timestamp, stamp_of, summary_copy, transcript_copy, ConfidenceLevel, MeetingTranscript};
use crate::meeting::items::ItemsPanel;
use crate::meeting::notes::{MeetingNote, NotesPanel};
use crate::meeting::retranscribe::RetranscribePanel;
use crate::meeting::speaker_chip::{can_edit_speaker, editable_speaker};
use crate::meeting::speakers::{chip_key, finish_profiles, finish_save, is_open_for, key_of, profile_email, SpeakerEditState, VoiceProfile};
use crate::meeting::summary::{default_panel, GenerateStep, SummaryPanel, SummaryProcess, Template};
use crate::numbers::signed_decimal;
use crate::text::{is_blank, opt_text, opt_text_is, same_text, trimmed};
use crate::whisper::models::ModelInfo;
use crate::words::joined;

verus! {

/// A meeting as it is stored.
#[derive(Debug, Clone, PartialEq, Eq)]
pub struct MeetingDetails {
    pub title: String,
    pub created_at: String,
    pub transcripts: Vec<MeetingTranscript>,
}

/// The meeting page.
pub struct MeetingView {
    pub meeting_id: Option<String>,
    /// The number of the meeting that is open.
    pub generation: u64,
    pub title: String,
    pub editing_title: bool,
    pub created_at: Option<Moment>,
    /// Where the recording is kept, if it is.
    pub folder_path: Option<String>,
    pub transcripts: Vec<MeetingTranscript>,
    pub transcripts_loading: bool,
    pub load_error: Option<String>,
    pub summary: SummaryPanel,
    pub retranscribe: RetranscribePanel,
    pub calendar: CalendarPanel,
    pub speaker_edit: Option<SpeakerEditState>,
    /// The piece whose audio plays.
    pub playing_segment: Option<String>,
    /// The piece whose audio is being cut out.
    pub loading_segment: Option<String>,
    pub show_confidence: bool,
    pub notes: NotesPanel,
    pub items: ItemsPanel,
}

/// What is to be copied and told, or why nothing is copied.
#[derive(Debug, Clone, PartialEq, Eq)]
pub enum CopyOutcome {
    Ignored,
    /// There is nothing: show this.
    Nothing(&'static str),
    /// Copy the first and show the second.
    Copy(String, &'static str),
}

/// What a summary is made of.
#[derive(Debug, Clone, PartialEq, Eq)]
pub struct SummaryRequest {
    pub meeting_id: String,
    pub transcript: String,
    pub template_id: String,
}

/// What a click on the audio of a piece leads to.
#[derive(Debug, Clone, Copy, PartialEq, Eq, Structural)]
pub enum PlayStep {
    Stop,
    Play,
    Ignored,
}

/// The transcript's part of the page.
#[derive(Debug, Clone, PartialEq, Eq)]
pub enum TranscriptBody {
    Loading,
    Failed(String),
    Empty,
    Rows,
}

/// The colour of a confidence mark.
#[derive(Debug, Clone, Copy, PartialEq, Eq, Structural)]
pub enum Tone {
    Success,
    Warning,
    Danger,
}

/// A row of the transcript.
#[derive(Debug, Clone, PartialEq, Eq)]
pub struct SegmentRow {
    pub time: String,
    pub speaker: String,
    /// Whether the speaker's label can be clicked.
    pub editable: bool,
    /// Whether the panel of this row's speaker is open.
    pub highlighted: bool,
    pub can_play: bool,
    pub is_playing: bool,
    pub is_loading: bool,
    pub confidence: Option<(Tone, String)>,
}

/// What an event means to the page.
#[derive(Debug, Clone, Copy, PartialEq, Eq, Structural)]
pub enum MeetingEventKind {
    SummaryStream,
    RetranscriptionProgress,
    RetranscriptionComplete,
    RetranscriptionError,
    ActionItemsExtracted,
    PlaybackEnded,
}

/// What an event means to the page, by its name.
pub open spec fn meeting_event_named(name: Seq<char>, playback_ended: Seq<char>) -> Option<
    MeetingEventKind,
> {
    if name == "summary-stream"@ {
        Some(MeetingEventKind::SummaryStream)
    } else if name == "retranscription-progress"@ {
        Some(MeetingEventKind::RetranscriptionProgress)
    } else if name == "retranscription-complete"@ {
        Some(MeetingEventKind::RetranscriptionComplete)
    } else if name == "retranscription-error"@ {
        Some(MeetingEventKind::RetranscriptionError)
    } else if name == "action-items-extracted"@ {
        Some(MeetingEventKind::ActionItemsExtracted)
    } else if name == playback_ended {
        Some(MeetingEventKind::PlaybackEnded)
    } else {
        None
    }
}

/// What an event means to the page, by its name and by the name of the event
/// that the player sends at the end.
pub fn meeting_event_kind(name: &str, playback_ended: &str) -> (r: Option<MeetingEventKind>)
    ensures
        r == meeting_event_named(name@, playback_ended@),
{
    if same_text(name, "summary-stream") {
        Some(MeetingEventKind::SummaryStream)
    } else if same_text(name, "retranscription-progress") {
        Some(MeetingEventKind::RetranscriptionProgress)
    } else if same_text(name, "retranscription-complete") {
        Some(MeetingEventKind::RetranscriptionComplete)
    } else if same_text(name, "retranscription-error") {
        Some(MeetingEventKind::RetranscriptionError)
    } else if same_text(name, "action-items-extracted") {
        Some(MeetingEventKind::ActionItemsExtracted)
    } else if same_text(name, playback_ended) {
        Some(MeetingEventKind::PlaybackEnded)
    } else {
        None
    }
}

/// Whether the stored settings ask for confidence marks; they do where they do
/// not say.
pub open spec fn asks_for_confidence(settings: Option<Seq<char>>) -> bool {
    match settings {
        Some(json) => match json_document(json) {
            Some(value) => match flag_at(value, "showConfidenceIndicator"@) {
                Some(b) => b,
                None => true,
            },
            None => true,
        },
        None => true,
    }
}

/// Whether the stored settings, as JSON, ask for confidence marks.
pub fn wants_confidence(settings: &Option<String>) -> (r: bool)
    ensures
        r == asks_for_confidence(opt_text(*settings)),
{
    match settings {
        Some(json) => match Blob::parse(json) {
            Some(blob) => shown_unless_off(blob.flag("showConfidenceIndicator")),
            None => true,
        },
        None => true,
    }
}

/// A setting that is on unless it is off.
pub fn shown_unless_off(flag: Option<bool>) -> (r: bool)
    ensures
        r == match flag {
            Some(b) => b,
            None => true,
        },
{
    match flag {
        Some(b) => b,
        None => true,
    }
}

/// What is told once a meeting was exported.
pub fn export_label(format: &str) -> (r: &'static str)
    ensures
        r@ == if format@ == "json"@ {
            "Meeting copied as JSON"@
        } else {
            "Meeting copied as Markdown"@
        },
{
    if same_text(format, "json") {
        "Meeting copied as JSON"
    } else {
        "Meeting copied as Markdown"
    }
}

/// How saving an export to a file ended.
#[derive(Debug, Clone, Copy, PartialEq, Eq, Structural)]
pub enum ExportEnd {
    /// The meeting could not be exported, or the file could not be asked for.
    Failed,
    /// No file was chosen.
    Cancelled,
    Written,
    NotWritten,
}

/// What is told once an export was saved, and whether it is good news; nothing
/// where no file was chosen.
pub fn export_save_message(end: ExportEnd) -> (r: Option<(&'static str, bool)>)
    ensures
        match end {
            ExportEnd::Cancelled => r is None,
            ExportEnd::Written => r matches Some((text, good)) && text@ == "Meeting exported"@
                && good,
            ExportEnd::NotWritten => r matches Some((text, good)) && text@
                == "Failed to write export"@ && !good,
            ExportEnd::Failed => r matches Some((text, good)) && text@
                == "Failed to export meeting"@ && !good,
        },
{
    match end {
        ExportEnd::Cancelled => None,
        ExportEnd::Written => Some(("Meeting exported", true)),
        ExportEnd::NotWritten => Some(("Failed to write export", false)),
        ExportEnd::Failed => Some(("Failed to export meeting", false)),
    }
}

/// The colour of a band of confidence.
pub fn confidence_tone(level: ConfidenceLevel) -> (r: Tone)
    ensures
        r == match level {
            ConfidenceLevel::High => Tone::Success,
            ConfidenceLevel::Good | ConfidenceLevel::Medium => Tone::Warning,
            ConfidenceLevel::Low => Tone::Danger,
        },
{
    match level {
        ConfidenceLevel::High => Tone::Success,
        ConfidenceLevel::Good | ConfidenceLevel::Medium => Tone::Warning,
        ConfidenceLevel::Low => Tone::Danger,
    }
}

/// The speaker of a piece, or "Speaker" where none is known.
pub open spec fn speaker_name(t: MeetingTranscript) -> Seq<char> {
    match t.speaker {
        Some(s) => s@,
        None => "Speaker"@,
    }
}

/// Whether a piece has audio of its own: it ends after it starts.
pub open spec fn has_clip(t: MeetingTranscript) -> bool {
    match t.audio_end_time {
        Some(end) => end > match t.audio_start_time {
            Some(start) => start as int,
            None => 0,
        },
        None => false,
    }
}

impl MeetingView {
    /// The page before any meeting was opened.
    pub fn new(templates: Vec<Template>) -> (r: Self)
        ensures
            r.meeting_id is None,
            r.generation == 0,
            r.title@ == ""@,
            !r.editing_title,
            r.created_at is None,
            r.folder_path is None,
            r.transcripts@.len() == 0,
            !r.transcripts_loading,
            r.load_error is None,
            default_panel(r.summary, templates),
            !r.retranscribe.open,
            r.retranscribe.idle(),
            r.retranscribe.models@.len() == 0,
            r.retranscribe.model_index is None,
            r.calendar == (CalendarPanel {
                event: None,
                loading: false,
                mutating: false,
                picker_open: false,
                picker_events: None,
                picker_error: None,
            }),
            r.speaker_edit is None,
            r.playing_segment is None,
            r.loading_segment is None,
            !r.show_confidence,
            r.notes.notes@.len() == 0,
            !r.notes.composing,
            !r.notes.saving,
            r.items.items@.len() == 0,
            !r.items.loading,
            r.items.editing_id is None,
            !r.items.adding,
            !r.items.extracting,
    {
        MeetingView {
            meeting_id: None,
            generation: 0,
            title: "".to_owned(),
            editing_title: false,
            created_at: None,
            folder_path: None,
            transcripts: Vec::new(),
            transcripts_loading: false,
            load_error: None,
            summary: SummaryPanel::new(templates),
            retranscribe: RetranscribePanel::new(),
            calendar: CalendarPanel::new(),
            speaker_edit: None,
            playing_segment: None,
            loading_segment: None,
            show_confidence: false,
            notes: NotesPanel::new(),
            items: ItemsPanel::new(),
        }
    }

    /// Whether a meeting has just been opened, with nothing of it loaded yet.
    pub open spec fn opened(&self, id: Seq<char>) -> bool {
        &&& opt_text(self.meeting_id) == Some(id)
        &&& self.title@ == ""@
        &&& !self.editing_title
        &&& self.created_at is None
        &&& self.folder_path is None
        &&& self.transcripts@.len() == 0
        &&& self.summary.cleared()
        &&& !self.retranscribe.open
        &&& self.retranscribe.idle()
        &&& self.speaker_edit is None
        &&& self.playing_segment is None
        &&& self.loading_segment is None
        &&& self.notes.notes@.len() == 0
        &&& !self.notes.composing
        &&& !self.notes.saving
        &&& self.items.items@.len() == 0
        &&& self.items.loading
        &&& self.items.editing_id is None
        &&& !self.items.adding
        &&& !self.items.extracting
    }

    /// Opens a meeting: everything of the one before goes, and what is still on
    /// its way for that one will be dropped. Whether there is anything to load.
    pub fn load(&mut self, id: String, has_db: bool) -> (r: bool)
        requires
            old(self).generation < u64::MAX,
        ensures
            r == has_db,
            final(self).generation == old(self).generation + 1,
            forall|g: u64| g <= old(self).generation ==> #[trigger] final(self).stale(g),
            final(self).opened(id@),
            final(self).transcripts_loading == has_db,
            opt_text(final(self).load_error) == if has_db {
                None
            } else {
                Some(NO_DATABASE@)
            },
            final(self).calendar == old(self).calendar.cleared(),
            final(self).summary.same_choices(&old(self).summary),
            final(self).retranscribe.models == old(self).retranscribe.models,
            final(self).retranscribe.model_index == old(self).retranscribe.model_index,
            final(self).show_confidence == old(self).show_confidence,
    {
        self.generation = self.generation + 1;
        self.meeting_id = Some(id);
        self.title = "".to_owned();
        self.editing_title = false;
        self.created_at = None;
        self.folder_path = None;
        self.transcripts = Vec::new();
        self.transcripts_loading = true;
        self.load_error = None;
        self.summary.reset();
        self.retranscribe.reset();
        self.calendar.reset();
        self.speaker_edit = None;
        self.playing_segment = None;
        self.loading_segment = None;
        self.notes.reset();
        self.items.reset();
        if !has_db {
            self.load_error = Some(NO_DATABASE.to_owned());
            self.transcripts_loading = false;
            return false;
        }
        true
    }

    /// Whether work that was started under a number is for another meeting.
    pub open spec fn stale(&self, generation: u64) -> bool {
        self.generation != generation
    }

    /// Takes over a stored meeting, or why there is none, and where its
    /// recording is kept, if that is known.
    pub fn finish_load(
        &mut self,
        generation: u64,
        found: Result<Option<MeetingDetails>, String>,
        folder: Option<Option<String>>,
    )
        ensures
            old(self).stale(generation) ==> *final(self) == *old(self),
            !old(self).stale(generation) ==> {
                &&& match found {
                    Ok(Some(details)) => {
                        &&& final(self).title == details.title
                        &&& final(self).created_at == moment_named(details.created_at@)
                        &&& final(self).transcripts == details.transcripts
                        &&& final(self).load_error == old(self).load_error
                    },
                    Ok(None) => opt_text(final(self).load_error) == Some("Meeting not found"@)
                        && final(self).title == old(self).title && final(self).created_at
                        == old(self).created_at && final(self).transcripts
                        == old(self).transcripts,
                    Err(e) => opt_text(final(self).load_error) == Some(
                        "Failed to load meeting: "@ + e@,
                    ) && final(self).title == old(self).title && final(self).created_at
                        == old(self).created_at && final(self).transcripts
                        == old(self).transcripts,
                }
                &&& *final(self) == (MeetingView {
                    transcripts_loading: false,
                    folder_path: match folder {
                        Some(f) => f,
                        None => old(self).folder_path,
                    },
                    title: final(self).title,
                    created_at: final(self).created_at,
                    transcripts: final(self).transcripts,
                    load_error: final(self).load_error,
                    ..*old(self)
                })
            },
            final(self).created_at matches Some(m) ==> (old(self).created_at matches Some(n)
                ==> n.valid()) ==> m.valid(),
    {
        if self.generation != generation {
            return;
        }
        self.transcripts_loading = false;
        match found {
            Ok(Some(details)) => {
                self.created_at = parse_moment(&details.created_at);
                self.title = details.title;
                self.transcripts = details.transcripts;
            },
            Ok(None) => {
                self.load_error = Some("Meeting not found".to_owned());
            },
            Err(e) => {
                let mut out = "Failed to load meeting: ".to_owned();
                out.append(&e);
                self.load_error = Some(out);
            },
        }
        if let Some(f) = folder {
            self.folder_path = f;
        }
    }

    /// Takes over the transcript after it changed.
    pub fn finish_reload_transcript(
        &mut self,
        generation: u64,
        transcripts: Option<Vec<MeetingTranscript>>,
    )
        ensures
            *final(self) == (MeetingView {
                transcripts: match transcripts {
                    Some(t) => if old(self).stale(generation) {
                        old(self).transcripts
                    } else {
                        t
                    },
                    None => old(self).transcripts,
                },
                ..*old(self)
            }),
    {
        if self.generation != generation {
            return;
        }
        if let Some(t) = transcripts {
            self.transcripts = t;
        }
    }

    // -- Title ----------------------------------------------------------------

    /// Starts renaming; what the field starts with.
    pub fn start_edit_title(&mut self) -> (r: String)
        ensures
            r@ == old(self).title@,
            *final(self) == (MeetingView { editing_title: true, ..*old(self) }),
    {
        self.editing_title = true;
        self.title.clone()
    }

    /// Ends renaming without saving.
    pub fn cancel_edit_title(&mut self)
        ensures
            *final(self) == (MeetingView { editing_title: false, ..*old(self) }),
    {
        self.editing_title = false;
    }

    /// Renames the meeting at once, unless the title is blank or there is
    /// nothing to rename; the meeting and the title to store.
    pub fn save_title(&mut self, typed: &str, has_db: bool) -> (r: Option<(String, String)>)
        ensures
            match r {
                Some((id, title)) => opt_text(old(self).meeting_id) == Some(id@) && has_db
                    && trimmed(typed@).len() > 0 && title@ == typed@ && final(self).title@ == typed@
                    && *final(self) == (MeetingView {
                    title: final(self).title,
                    editing_title: false,
                    ..*old(self)
                }),
                None => (old(self).meeting_id is None || !has_db || trimmed(typed@).len() == 0)
                    && *final(self) == *old(self),
            },
    {
        if !has_db || is_blank(typed) {
            return None;
        }
        match &self.meeting_id {
            Some(id) => {
                let id = id.clone();
                self.title = typed.to_owned();
                self.editing_title = false;
                Some((id, typed.to_owned()))
            },
            None => None,
        }
    }

    /// The title in the header.
    pub fn header_title(&self) -> (r: String)
        ensures
            r@ == if trimmed(self.title@).len() == 0 {
                "Untitled meeting"@
            } else {
                self.title@
            },
    {
        if is_blank(&self.title) {
            "Untitled meeting".to_owned()
        } else {
            self.title.clone()
        }
    }

    /// Whether the audio can be transcribed again.
    pub fn can_retranscribe(&self) -> (r: bool)
        ensures
            r == (self.folder_path is Some && !self.retranscribe.in_progress),
    {
        self.folder_path.is_some() && !self.retranscribe.in_progress
    }

    // -- Summary --------------------------------------------------------------

    /// Takes over what was found of the summary.
    pub fn finish_summary(
        &mut self,
        generation: u64,
        found: Result<Option<SummaryProcess>, String>,
    )
        ensures
            old(self).stale(generation) ==> *final(self) == *old(self),
            !old(self).stale(generation) ==> final(self).summary.refreshed(
                &old(self).summary,
                found,
            ) && *final(self) == (MeetingView { summary: final(self).summary, ..*old(self) }),
    {
        if self.generation == generation {
            self.summary.finish_refresh(found);
        }
    }

    /// Starts making a summary of the transcript.
    pub fn generate_summary(&mut self, has_db: bool) -> (r: (GenerateStep, Option<SummaryRequest>))
        ensures
            r.0 == (if old(self).meeting_id is None || !has_db {
                GenerateStep::Ignored
            } else if old(self).transcripts@.len() == 0 {
                GenerateStep::NoTranscript
            } else {
                GenerateStep::Start
            }),
            !(r.0 is Start) ==> *final(self) == *old(self) && r.1 is None,
            r.0 is Start ==> {
                &&& r.1 matches Some(ask) && {
                    &&& opt_text(old(self).meeting_id) == Some(ask.meeting_id@)
                    &&& ask.transcript@ == joined(plain_lines(old(self).transcripts@), "\n"@)
                    &&& ask.template_id@ == old(self).summary.selected_template@
                }
                &&& final(self).summary.generating_after(&old(self).summary)
                &&& *final(self) == (MeetingView { summary: final(self).summary, ..*old(self) })
            },
    {
        let ready = self.meeting_id.is_some() && has_db;
        let step = self.summary.begin_generate(ready, self.transcripts.len() > 0);
        match (step, &self.meeting_id) {
            (GenerateStep::Start, Some(id)) => {
                let ask = SummaryRequest {
                    meeting_id: id.clone(),
                    transcript: build_transcript_text(&self.transcripts),
                    template_id: self.summary.selected_template.clone(),
                };
                (step, Some(ask))
            },
            _ => (step, None),
        }
    }

    /// Goes on making a summary once it is known whether a model is configured.
    pub fn continue_generate(&mut self, generation: u64, has_model: bool)
        ensures
            old(self).stale(generation) ==> *final(self) == *old(self),
            !old(self).stale(generation) ==> *final(self) == (MeetingView {
                summary: final(self).summary,
                ..*old(self)
            }) && final(self).summary.continued(&old(self).summary, has_model),
    {
        if self.generation == generation {
            self.summary.continue_generate(has_model);
        }
    }

    /// One look of the timer for a summary that is being made: whether to look it
    /// up, and whether the timer goes on. It ends once nothing is being made; one
    /// that belongs to another meeting looks nothing up.
    pub fn poll_tick(&self, generation: u64) -> (r: (bool, bool))
        ensures
            r.0 == !self.stale(generation),
            r.1 == (self.stale(generation) || self.summary.phase is Generating),
    {
        if self.generation != generation {
            return (false, true);
        }
        (true, self.summary.keeps_polling())
    }

    /// Takes in a piece of a streamed summary, where it is that of the meeting
    /// that is open; whether the timer that shows it starts.
    pub fn on_summary_stream(&mut self, meeting_id: &str, delta: &str, reduce_motion: bool) -> (r:
        bool)
        ensures
            opt_text(old(self).meeting_id) != Some(meeting_id@) || delta@.len() == 0 ==> *final(
                self) == *old(self) && !r,
            opt_text(old(self).meeting_id) == Some(meeting_id@) && delta@.len() > 0
                ==> final(self).summary.streamed(&old(self).summary, delta@, reduce_motion)
                && *final(self) == (MeetingView { summary: final(self).summary, ..*old(self) })
                && r == (!reduce_motion && !old(self).summary.revealing),
            old(self).summary.in_step() && (!reduce_motion || old(self).summary.pending@.len() == 0)
                ==> final(self).summary.in_step(),
    {
        if opt_text_is(&self.meeting_id, meeting_id) {
            self.summary.on_stream(delta, reduce_motion)
        } else {
            false
        }
    }

    /// One step of showing a streamed summary; whether the timer stops.
    pub fn reveal_tick(&mut self, generation: u64) -> (r: bool)
        ensures
            old(self).stale(generation) ==> *final(self) == *old(self) && r,
            !old(self).stale(generation) ==> final(self).summary.stepped(&old(self).summary)
                && *final(self) == (MeetingView { summary: final(self).summary, ..*old(self) }) && r
                == (final(self).summary.pending@.len() == 0),
            old(self).summary.in_step() ==> final(self).summary.in_step(),
    {
        if self.generation != generation {
            return true;
        }
        self.summary.show_some()
    }

    /// Whether leaving now would lose an edit of the summary.
    pub fn has_unsaved_summary_edits(&self, editor_text: &str) -> (r: bool)
        ensures
            r == (self.summary.editing && editor_text@ != self.summary.markdown@),
    {
        self.summary.has_unsaved_edits(editor_text)
    }

    /// Drops an edit of the summary.
    pub fn discard_summary_edits(&mut self)
        ensures
            *final(self) == (MeetingView {
                summary: SummaryPanel { editing: false, ..old(self).summary },
                ..*old(self)
            }),
    {
        self.summary.cancel_edit();
    }

    /// Starts saving an edit of the summary; the meeting and the text to store.
    pub fn save_summary_and_leave(&mut self, editor_text: &str, has_db: bool) -> (r: Option<
        (String, String),
    >)
        ensures
            match r {
                Some((id, markdown)) => opt_text(old(self).meeting_id) == Some(id@) && has_db
                    && markdown@ == editor_text@ && *final(self) == (MeetingView {
                    summary: SummaryPanel { saving: true, ..old(self).summary },
                    ..*old(self)
                }),
                None => (old(self).meeting_id is None || !has_db) && *final(self) == *old(self),
            },
    {
        if !has_db {
            return None;
        }
        match &self.meeting_id {
            Some(id) => {
                let id = id.clone();
                self.summary.begin_save();
                Some((id, editor_text.to_owned()))
            },
            None => None,
        }
    }

    /// Takes over how saving the summary ended. Where another meeting is open by
    /// now, its summary stays as it is.
    pub fn finish_save_summary(&mut self, generation: u64, saved: bool, markdown: &str)
        ensures
            final(self).summary.after_save(
                &old(self).summary,
                !old(self).stale(generation) && saved,
                markdown@,
            ),
            *final(self) == (MeetingView { summary: final(self).summary, ..*old(self) }),
    {
        let current = self.generation == generation;
        self.summary.finish_save(current, saved, markdown);
    }

    // -- Copying --------------------------------------------------------------

    /// Copies the transcript, where there is one.
    pub fn copy_transcript(&self) -> (r: CopyOutcome)
        requires
            self.created_at matches Some(m) ==> m.valid(),
        ensures
            if self.transcripts@.len() == 0 {
                r matches CopyOutcome::Nothing(why) && why@ == "No transcripts available to copy"@
            } else {
                match self.meeting_id {
                    None => r is Ignored,
                    Some(id) => r matches CopyOutcome::Copy(text, told) && told@
                        == "Transcript copied to clipboard"@ && exists|local: Option<
                        Stamp,
                    >| #[trigger]
                        stamp_of(local, self.created_at) && text@ == transcript_copy(
                            id@,
                            self.title@,
                            local,
                            self.transcripts@,
                        ),
                }
            },
    {
        if self.transcripts.len() == 0 {
            return CopyOutcome::Nothing("No transcripts available to copy");
        }
        match &self.meeting_id {
            None => CopyOutcome::Ignored,
            Some(id) => CopyOutcome::Copy(
                copy_transcript_text(id, &self.title, self.created_at, &self.transcripts),
                "Transcript copied to clipboard",
            ),
        }
    }

    /// Copies the summary, where there is one.
    pub fn copy_summary(&self, now: &Moment) -> (r: CopyOutcome)
        requires
            self.created_at matches Some(m) ==> m.valid(),
            now.valid(),
        ensures
            if trimmed(self.summary.markdown@).len() == 0 {
                r matches CopyOutcome::Nothing(why) && why@
                    == "No summary content available to copy"@
            } else {
                match self.meeting_id {
                    None => r is Ignored,
                    Some(id) => r matches CopyOutcome::Copy(text, told) && told@
                        == "Summary copied to clipboard"@ && exists|
                        created: Option<Stamp>,
                        copied: Stamp,
                    | #[trigger]
                        stamp_of(created, self.created_at) && #[trigger] local_to(copied, *now) && text@
                            == summary_copy(
                            id@,
                            self.title@,
                            created,
                            copied,
                            self.summary.markdown@,
                        ),
                }
            },
    {
        if is_blank(&self.summary.markdown) {
            return CopyOutcome::Nothing("No summary content available to copy");
        }
        match &self.meeting_id {
            None => CopyOutcome::Ignored,
            Some(id) => CopyOutcome::Copy(
                copy_summary_text(id, &self.title, self.created_at, now, &self.summary.markdown),
                "Summary copied to clipboard",
            ),
        }
    }

    // -- Transcribing again -----------------------------------------------------

    /// Takes over the models for transcribing again.
    pub fn finish_models(&mut self, generation: u64, models: Option<Vec<ModelInfo>>)
        ensures
            old(self).stale(generation) ==> *final(self) == *old(self),
            !old(self).stale(generation) ==> final(self).retranscribe.offering(
                &old(self).retranscribe,
                models,
            ) && *final(self) == (MeetingView { retranscribe: final(self).retranscribe, ..*old(self) }),
    {
        if self.generation == generation {
            self.retranscribe.finish_models(models);
        }
    }

    /// Whether the meeting that is open is the one with an id.
    pub open spec fn is_open(&self, id: Seq<char>) -> bool {
        opt_text(self.meeting_id) == Some(id)
    }

    /// Takes in how far transcribing again is, where it is for the meeting that
    /// is open.
    pub fn on_retranscription_progress(&mut self, meeting_id: &str, percentage: u32, message: String)
        ensures
            *final(self) == (if old(self).is_open(meeting_id@) {
                MeetingView {
                    retranscribe: RetranscribePanel {
                        progress_pct: percentage,
                        progress_message: message,
                        ..old(self).retranscribe
                    },
                    ..*old(self)
                }
            } else {
                *old(self)
            }),
    {
        if opt_text_is(&self.meeting_id, meeting_id) {
            self.retranscribe.on_progress(percentage, message);
        }
    }

    /// Takes in that transcribing again is done; what to tell before the
    /// transcript and the meetings are loaded again.
    pub fn on_retranscription_complete(&mut self, meeting_id: &str, segments: u64) -> (r: Option<
        String,
    >)
        ensures
            opt_text(r) == if old(self).is_open(meeting_id@) {
                Some(
                    "Retranscription complete: "@ + crate::numbers::decimal(segments as nat)
                        + " segments"@,
                )
            } else {
                None
            },
            *final(self) == (if old(self).is_open(meeting_id@) {
                MeetingView {
                    retranscribe: RetranscribePanel {
                        in_progress: false,
                        open: false,
                        ..old(self).retranscribe
                    },
                    ..*old(self)
                }
            } else {
                *old(self)
            }),
    {
        if opt_text_is(&self.meeting_id, meeting_id) {
            Some(self.retranscribe.on_complete(segments))
        } else {
            None
        }
    }

    /// Takes in that transcribing again failed.
    pub fn on_retranscription_error(&mut self, meeting_id: &str, error: String)
        ensures
            *final(self) == (if old(self).is_open(meeting_id@) {
                MeetingView {
                    retranscribe: RetranscribePanel {
                        in_progress: false,
                        error: Some(error),
                        ..old(self).retranscribe
                    },
                    ..*old(self)
                }
            } else {
                *old(self)
            }),
    {
        if opt_text_is(&self.meeting_id, meeting_id) {
            self.retranscribe.on_error(error);
        }
    }

    // -- Calendar ---------------------------------------------------------------

    /// Takes over the linked event.
    pub fn finish_calendar_event(&mut self, generation: u64, event: Option<Option<CalendarEvent>>)
        ensures
            *final(self) == (if old(self).stale(generation) {
                *old(self)
            } else {
                MeetingView { calendar: old(self).calendar.with_event(event), ..*old(self) }
            }),
    {
        if self.generation == generation {
            self.calendar.finish_load(event);
        }
    }

    /// The moment that events are offered around: when the meeting took place,
    /// or now where that is not known.
    pub fn calendar_anchor(&self, now: &Moment) -> (r: Moment)
        ensures
            r == match self.created_at {
                Some(m) => m,
                None => *now,
            },
    {
        match self.created_at {
            Some(m) => m,
            None => *now,
        }
    }

    /// Takes over the events on offer.
    pub fn finish_calendar_picker(
        &mut self,
        generation: u64,
        events: Result<Vec<CalendarEvent>, String>,
        anchor: &Moment,
    )
        requires
            anchor.valid(),
            events matches Ok(list) ==> forall|i: int|
                0 <= i < list@.len() ==> (#[trigger] list@[i]).start_at.valid(),
        ensures
            old(self).stale(generation) ==> *final(self) == *old(self),
            !old(self).stale(generation) ==> final(self).calendar.offering(
                &old(self).calendar,
                events,
                *anchor,
            ) && *final(self) == (MeetingView { calendar: final(self).calendar, ..*old(self) }),
    {
        if self.generation == generation {
            self.calendar.finish_open_picker(events, anchor);
        }
    }

    /// Starts linking the meeting, where there is one; the meeting to link.
    pub fn pick_calendar_event(&mut self, has_db: bool) -> (r: Option<String>)
        ensures
            match r {
                Some(id) => opt_text(old(self).meeting_id) == Some(id@) && has_db && *final(self)
                    == (MeetingView {
                    calendar: CalendarPanel { mutating: true, ..old(self).calendar },
                    ..*old(self)
                }),
                None => (old(self).meeting_id is None || !has_db) && *final(self) == *old(self),
            },
    {
        if !has_db {
            return None;
        }
        match &self.meeting_id {
            Some(id) => {
                let id = id.clone();
                self.calendar.begin_link();
                Some(id)
            },
            None => None,
        }
    }

    /// Takes over how linking ended.
    pub fn finish_link(&mut self, generation: u64, result: Result<bool, LinkFault>) -> (r: LinkOutcome)
        ensures
            old(self).stale(generation) ==> *final(self) == *old(self) && r is Nothing,
            !old(self).stale(generation) ==> *final(self) == (MeetingView {
                calendar: old(self).calendar.linked(result),
                ..*old(self)
            }) && link_leads_to(result, r),
    {
        if self.generation != generation {
            return LinkOutcome::Nothing;
        }
        self.calendar.finish_link(result)
    }

    // -- Speakers ---------------------------------------------------------------

    /// Takes over the profiles for the panel that asked for them; what to fill
    /// the mail address with, if anything.
    pub fn finish_profiles(
        &mut self,
        generation: u64,
        key: &str,
        profiles: Option<Vec<VoiceProfile>>,
    ) -> (r: Option<String>)
        ensures
            old(self).stale(generation) || !is_open_for(old(self).speaker_edit, key@) ==> *final(
                self) == *old(self) && r is None,
            *final(self) == (MeetingView { speaker_edit: final(self).speaker_edit, ..*old(self) }),
            old(self).speaker_edit matches Some(had) ==> (had.key@ == key@ && !old(self).stale(
                generation,
            ) ==> match profiles {
                Some(list) => final(self).speaker_edit == Some(
                    SpeakerEditState { profiles_loading: false, profiles: list, ..had },
                ) && opt_text(r) == profile_email(list@, opt_text(had.voice_profile_id)),
                None => final(self).speaker_edit == Some(
                    SpeakerEditState { profiles_loading: false, ..had },
                ) && r is None,
            }),
    {
        if self.generation != generation {
            return None;
        }
        finish_profiles(&mut self.speaker_edit, key, profiles)
    }

    /// Takes over how saving a speaker ended; whether the transcript is to be
    /// loaded again.
    pub fn finish_speaker_save(&mut self, generation: u64, key: &str, outcome: Result<(), String>) -> (r:
        bool)
        ensures
            r == (outcome is Ok && !old(self).stale(generation)),
            old(self).stale(generation) ==> *final(self) == *old(self),
            *final(self) == (MeetingView { speaker_edit: final(self).speaker_edit, ..*old(self) }),
            !old(self).stale(generation) ==> match outcome {
                Ok(_) => final(self).speaker_edit is None,
                Err(e) => {
                    &&& !is_open_for(old(self).speaker_edit, key@) ==> final(self).speaker_edit
                        == old(self).speaker_edit
                    &&& old(self).speaker_edit matches Some(had) ==> (had.key@ == key@
                        ==> final(self).speaker_edit == Some(
                        SpeakerEditState { saving: false, error: Some(e), ..had },
                    ))
                },
            },
    {
        if self.generation != generation {
            return false;
        }
        finish_save(&mut self.speaker_edit, key, outcome)
    }

    // -- Audio of single pieces -------------------------------------------------

    /// A click on the audio of a piece: what plays or is about to play stops,
    /// and anything else is played in its place.
    pub fn toggle_segment_playback(&mut self, segment_id: &str, has_db: bool) -> (r: PlayStep)
        ensures
            r == (if opt_text(old(self).playing_segment) == Some(segment_id@) || opt_text(
                old(self).loading_segment,
            ) == Some(segment_id@) {
                PlayStep::Stop
            } else if old(self).meeting_id is None || !has_db {
                PlayStep::Ignored
            } else {
                PlayStep::Play
            }),
            opt_text(final(self).loading_segment) == match r {
                PlayStep::Stop => None,
                PlayStep::Play => Some(segment_id@),
                PlayStep::Ignored => opt_text(old(self).loading_segment),
            },
            *final(self) == (MeetingView {
                playing_segment: if r is Ignored {
                    old(self).playing_segment
                } else {
                    None
                },
                loading_segment: final(self).loading_segment,
                ..*old(self)
            }),
            old(self).one_at_a_time() ==> final(self).one_at_a_time(),
    {
        if opt_text_is(&self.playing_segment, segment_id) || opt_text_is(
            &self.loading_segment,
            segment_id,
        ) {
            self.playing_segment = None;
            self.loading_segment = None;
            return PlayStep::Stop;
        }
        if self.meeting_id.is_none() || !has_db {
            return PlayStep::Ignored;
        }
        self.playing_segment = None;
        self.loading_segment = Some(segment_id.to_owned());
        PlayStep::Play
    }

    /// Takes over whether a piece's audio plays, unless something else was
    /// clicked meanwhile; what to tell, if anything.
    pub fn finish_play(&mut self, generation: u64, segment_id: &str, result: Result<(), String>) -> (r:
        Option<String>)
        ensures
            ({
                let dropped = old(self).stale(generation) || opt_text(old(self).loading_segment)
                    != Some(segment_id@);
                &&& dropped ==> *final(self) == *old(self) && r is None
                &&& !dropped ==> {
                    &&& opt_text(r) == match result {
                        Ok(_) => None,
                        Err(e) => Some(e@),
                    }
                    &&& opt_text(final(self).playing_segment) == match result {
                        Ok(_) => Some(segment_id@),
                        Err(_) => opt_text(old(self).playing_segment),
                    }
                    &&& *final(self) == (MeetingView {
                        loading_segment: None,
                        playing_segment: final(self).playing_segment,
                        ..*old(self)
                    })
                }
            }),
            old(self).one_at_a_time() ==> final(self).one_at_a_time(),
    {
        if self.generation != generation || !opt_text_is(&self.loading_segment, segment_id) {
            return None;
        }
        self.loading_segment = None;
        match result {
            Ok(_) => {
                self.playing_segment = Some(segment_id.to_owned());
                None
            },
            Err(e) => Some(e),
        }
    }

    /// Takes note that the player is at the end.
    pub fn on_segment_playback_ended(&mut self)
        ensures
            *final(self) == (MeetingView {
                playing_segment: None,
                loading_segment: None,
                ..*old(self)
            }),
            final(self).one_at_a_time(),
    {
        self.playing_segment = None;
        self.loading_segment = None;
    }

    /// Whether at most one of the pieces plays or is about to.
    pub open spec fn one_at_a_time(&self) -> bool {
        self.playing_segment is None || self.loading_segment is None
    }

    // -- Confidence, notes and action items -------------------------------------

    /// Takes over whether confidence marks are shown.
    pub fn finish_confidence(&mut self, generation: u64, settings: &Option<String>)
        ensures
            *final(self) == (MeetingView {
                show_confidence: if old(self).stale(generation) {
                    old(self).show_confidence
                } else {
                    asks_for_confidence(opt_text(*settings))
                },
                ..*old(self)
            }),
    {
        if self.generation == generation {
            self.show_confidence = wants_confidence(settings);
        }
    }

    /// Takes over the notes.
    pub fn finish_notes(&mut self, generation: u64, notes: Option<Vec<MeetingNote>>)
        ensures
            *final(self) == (if old(self).stale(generation) {
                *old(self)
            } else {
                MeetingView { notes: old(self).notes.with_notes(notes), ..*old(self) }
            }),
    {
        if self.generation == generation {
            self.notes.finish_load(notes);
        }
    }

    /// Takes over how deleting a note ended; whether a failure is to be told.
    pub fn finish_delete_note(
        &mut self,
        generation: u64,
        deleted: bool,
        removed: Option<MeetingNote>,
    ) -> (r: bool)
        ensures
            r == (!old(self).stale(generation) && !deleted),
            old(self).stale(generation) ==> *final(self) == *old(self),
            *final(self) == (MeetingView { notes: final(self).notes, ..*old(self) }),
            !old(self).stale(generation) ==> final(self).notes.notes@ == match removed {
                Some(note) => if deleted {
                    old(self).notes.notes@
                } else {
                    crate::sorting::stably_sorted(
                        old(self).notes.notes@.push(note),
                        crate::meeting::notes::note_leq(),
                    )
                },
                None => old(self).notes.notes@,
            } && final(self).notes.composing == old(self).notes.composing && final(
                self).notes.saving == old(self).notes.saving,
    {
        if self.generation != generation {
            return false;
        }
        self.notes.finish_delete(deleted, removed);
        !deleted
    }

    /// Takes over the action items.
    pub fn finish_action_items(&mut self, generation: u64, items: Option<Vec<ActionItem>>)
        ensures
            *final(self) == (if old(self).stale(generation) {
                *old(self)
            } else {
                MeetingView { items: old(self).items.with_items(items), ..*old(self) }
            }),
    {
        if self.generation == generation {
            self.items.finish_load(items);
        }
    }

    /// Takes in that action items were found in a meeting; whether they are to
    /// be loaded.
    pub fn on_action_items_extracted(&mut self, meeting_id: &str) -> (r: bool)
        ensures
            r == old(self).is_open(meeting_id@),
            *final(self) == (if r {
                MeetingView {
                    items: ItemsPanel { extracting: false, ..old(self).items },
                    ..*old(self)
                }
            } else {
                *old(self)
            }),
    {
        if opt_text_is(&self.meeting_id, meeting_id) {
            self.items.end_extract();
            true
        } else {
            false
        }
    }

    /// Takes over how looking for action items ended: whether they are to be
    /// loaded, or what to tell. Where another meeting is open by now, neither.
    pub fn finish_extract(&mut self, generation: u64, outcome: Result<u64, String>) -> (r: (
        bool,
        Option<String>,
    ))
        ensures
            *final(self) == (MeetingView {
                items: ItemsPanel { extracting: false, ..old(self).items },
                ..*old(self)
            }),
            r.0 == (!old(self).stale(generation) && outcome is Ok),
            opt_text(r.1) == match outcome {
                Ok(_) => None,
                Err(e) => if old(self).stale(generation) {
                    None
                } else {
                    Some("Extraction failed: "@ + e@)
                },
            },
    {
        self.items.end_extract();
        if self.generation != generation {
            return (false, None);
        }
        match outcome {
            Ok(_) => (true, None),
            Err(e) => {
                let mut out = "Extraction failed: ".to_owned();
                out.append(&e);
                (false, Some(out))
            },
        }
    }

    // -- The transcript as it is shown --------------------------------------------

    /// The transcript's part of the page.
    pub fn transcript_body(&self) -> (r: TranscriptBody)
        ensures
            if self.transcripts_loading {
                r is Loading
            } else {
                match self.load_error {
                    Some(e) => r matches TranscriptBody::Failed(text) && text@ == e@,
                    None => if self.transcripts@.len() == 0 {
                        r is Empty
                    } else {
                        r is Rows
                    },
                }
            },
    {
        if self.transcripts_loading {
            return TranscriptBody::Loading;
        }
        match &self.load_error {
            Some(e) => TranscriptBody::Failed(e.clone()),
            None => if self.transcripts.len() == 0 {
                TranscriptBody::Empty
            } else {
                TranscriptBody::Rows
            },
        }
    }

    /// Whether a row shows a piece of the transcript.
    pub open spec fn shows_segment(&self, row: SegmentRow, t: MeetingTranscript) -> bool {
        &&& row.time@ == segment_time(t.audio_start_time, t.timestamp@)
        &&& row.speaker@ == speaker_name(t)
        &&& row.editable == editable_speaker(speaker_name(t), t.voice_profile_id is Some)
        &&& row.highlighted == is_open_for(self.speaker_edit, chip_key(t.id@, speaker_name(t)))
        &&& row.can_play == (self.meeting_id is Some && has_clip(t))
        &&& row.is_playing == (opt_text(self.playing_segment) == Some(t.id@))
        &&& row.is_loading == (opt_text(self.loading_segment) == Some(t.id@))
        &&& match (row.confidence, t.confidence) {
            (Some((tone, text)), Some(c)) => self.show_confidence && tone == (match c.level {
                ConfidenceLevel::High => Tone::Success,
                ConfidenceLevel::Low => Tone::Danger,
                _ => Tone::Warning,
            }) && text@ == signed_decimal(c.percent as int) + "% confidence - "@ + c.level.name(),
            (Some(_), None) => false,
            (None, c) => !self.show_confidence || c is None,
        }
    }

    /// The row of a piece of the transcript.
    pub fn segment_row(&self, t: &MeetingTranscript) -> (r: SegmentRow)
        ensures
            self.shows_segment(r, *t),
    {
        let speaker = match &t.speaker {
            Some(s) => s.clone(),
            None => "Speaker".to_owned(),
        };
        let profile = match &t.voice_profile_id {
            Some(p) => Some(p.as_str()),
            None => None,
        };
        let editable = can_edit_speaker(&speaker, profile);
        let key = key_of(&t.id, &speaker);
        let highlighted = match &self.speaker_edit {
            Some(state) => same_text(&state.key, &key),
            None => false,
        };
        let start: i64 = match t.audio_start_time {
            Some(start) => start,
            None => 0,
        };
        let can_play = self.meeting_id.is_some() && match t.audio_end_time {
            Some(end) => end > start,
            None => false,
        };
        let confidence = match t.confidence {
            Some(c) => if self.show_confidence {
                Some((confidence_tone(c.level), confidence_tooltip(&c)))
            } else {
                None
            },
            None => None,
        };
        SegmentRow {
            time: segment_timestamp(t.audio_start_time, &t.timestamp),
            speaker,
            editable,
            highlighted,
            can_play,
            is_playing: opt_text_is(&self.playing_segment, &t.id),
            is_loading: opt_text_is(&self.loading_segment, &t.id),
            confidence,
        }
    }
}

} // verus!
