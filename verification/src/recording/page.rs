//! What the recording page holds, and what each event changes.
use vstd::prelude::*;
use crate::json::{string_at, Blob};
use crate::recording::controls::{active_phase, button_state, buttons_in, elapsed_text, format_elapsed, is_active_phase, ButtonState, ElapsedClock, RecordingPhase};
use crate::recording::rows::{change_names_real_places, distinct_ids, sorted_rows, upsert_row, upserted, RowChange, TranscriptRow};
use crate::settings::config::FeatureToggles;
use crate::text::{opt_text, same_text, texts, trim_end_of, trim_end_set, CharSet};
use crate::text_map::TextMap;
use crate::words::{lowercase, squeeze, squeezed, to_lowercase};

verus! {

/// How urgent a message to the user is.
#[derive(Debug, Clone, Copy, PartialEq, Eq, Structural)]
pub enum ToastKind {
    Info,
    Warning,
    Error,
}

/// A message waiting to be shown.
#[derive(Debug, Clone, PartialEq, Eq)]
pub struct Toast {
    pub kind: ToastKind,
    pub message: String,
}

/// A change to the shown list: the items `from..to` give way to `count` new
/// ones.
#[derive(Debug, Clone, Copy, PartialEq, Eq, Structural)]
pub struct ListEdit {
    pub from: usize,
    pub to: usize,
    pub count: usize,
}

/// What to do with the extractor of live action items.
#[derive(Debug, Clone, Copy, PartialEq, Eq, Structural)]
pub enum Extractor {
    Keep,
    /// Start afresh, with what [`extractor_to_start`] gives.
    Start,
    Stop,
}

/// The provider and model that the extractor of live action items starts with.
/// It starts where there is a database, live action items are switched on, and a
/// model is configured; settings that cannot be read count as switched off.
pub fn extractor_to_start(
    has_db: bool,
    features: &Option<FeatureToggles>,
    config: Option<(String, String)>,
) -> (r: Option<(String, String)>)
    ensures
        r == if has_db && (*features matches Some(f) && f.live_action_items) {
            config
        } else {
            None
        },
{
    let on = match features {
        Some(f) => f.live_action_items,
        None => false,
    };
    if has_db && on {
        config
    } else {
        None
    }
}

/// What is left to do once the page has taken an event in.
#[derive(Debug, Clone, PartialEq, Eq)]
pub struct Reaction {
    /// Changes to the shown list, in order.
    pub edits: Vec<ListEdit>,
    pub extractor: Extractor,
    /// A meeting and its folder to refine in the background.
    pub refine: Option<(String, String)>,
    /// A meeting and the calendar event to link it to.
    pub link: Option<(String, String)>,
    /// A meeting to open.
    pub open: Option<String>,
}

/// A finished piece of transcript.
#[derive(Debug, Clone, PartialEq, Eq)]
pub struct TranscriptUpdate {
    pub sequence_id: u64,
    /// Nanoseconds from the start of the recording.
    pub audio_start_time: i64,
    pub speaker: Option<String>,
    pub text: String,
    /// "mic" or "system".
    pub source: String,
}

/// What can happen to a recording.
#[derive(Debug, Clone, PartialEq, Eq)]
pub enum RecordingEvent {
    /// The recording's state, with its active duration in milliseconds.
    State { phase: RecordingPhase, active_ms: Option<u64> },
    Update(TranscriptUpdate),
    /// The text so far of what one source is saying.
    Partial { source: String, text: String },
    LiveActionItems(Vec<String>),
    RecordingError(String),
    /// What to tell the user, where there is something.
    TranscriptionError(Option<String>),
    Warning(String),
    Stopped { meeting_id: Option<String>, folder_path: Option<String> },
    Refining,
    Refined,
}

/// The kinds of named event that the page listens to.
#[derive(Debug, Clone, Copy, PartialEq, Eq, Structural)]
pub enum EventKind {
    State,
    Update,
    Partial,
    LiveActionItems,
    Levels,
    RecordingError,
    TranscriptionError,
    Warning,
    Stopped,
    Refining,
    Refined,
    Other,
}

/// The kind of event that a name stands for.
pub open spec fn kind_of_event(name: Seq<char>) -> EventKind {
    if name == "recording-state"@ {
        EventKind::State
    } else if name == "transcript-update"@ {
        EventKind::Update
    } else if name == "transcript-partial"@ {
        EventKind::Partial
    } else if name == "live-action-items"@ {
        EventKind::LiveActionItems
    } else if name == "audio-levels"@ {
        EventKind::Levels
    } else if name == "recording-error"@ {
        EventKind::RecordingError
    } else if name == "transcription-error"@ {
        EventKind::TranscriptionError
    } else if name == "transcription-warning"@ || name == "chunk-drop-warning"@ {
        EventKind::Warning
    } else if name == "recording-stopped"@ {
        EventKind::Stopped
    } else if name == "meeting-refining"@ {
        EventKind::Refining
    } else if name == "meeting-refined"@ || name == "meeting-refine-failed"@ {
        EventKind::Refined
    } else {
        EventKind::Other
    }
}

/// The kind of event that a name stands for.
pub fn event_kind(name: &str) -> (r: EventKind)
    ensures
        r == kind_of_event(name@),
{
    if same_text(name, "recording-state") {
        EventKind::State
    } else if same_text(name, "transcript-update") {
        EventKind::Update
    } else if same_text(name, "transcript-partial") {
        EventKind::Partial
    } else if same_text(name, "live-action-items") {
        EventKind::LiveActionItems
    } else if same_text(name, "audio-levels") {
        EventKind::Levels
    } else if same_text(name, "recording-error") {
        EventKind::RecordingError
    } else if same_text(name, "transcription-error") {
        EventKind::TranscriptionError
    } else if same_text(name, "transcription-warning") || same_text(name, "chunk-drop-warning") {
        EventKind::Warning
    } else if same_text(name, "recording-stopped") {
        EventKind::Stopped
    } else if same_text(name, "meeting-refining") {
        EventKind::Refining
    } else if same_text(name, "meeting-refined") || same_text(name, "meeting-refine-failed") {
        EventKind::Refined
    } else {
        EventKind::Other
    }
}

/// What a transcription error tells the user, where it does.
pub fn user_message(payload: &Blob) -> (r: Option<String>)
    ensures
        opt_text(r) == string_at(payload@, "userMessage"@),
{
    payload.text("userMessage")
}

// ---------------------------------------------------------------------------
// Live action items
// ---------------------------------------------------------------------------

/// What two action items are compared by: their words in lower case, without
/// a full stop at the end.
pub open spec fn item_key(text: Seq<char>) -> Seq<char> {
    trim_end_of(squeezed(lowercase(text)), CharSet::Either('.', ' '))
}

/// What two action items are compared by.
pub fn action_item_key(text: &str) -> (r: String)
    ensures
        r@ == item_key(text@),
{
    let lower = to_lowercase(text);
    let words = squeeze(&lower);
    trim_end_set(&words, CharSet::Either('.', ' '))
}

/// The keys of a list of action items.
pub open spec fn item_keys(items: Seq<Seq<char>>) -> Seq<Seq<char>> {
    items.map_values(|t: Seq<char>| item_key(t))
}

/// `items`, and those of `new` whose key has not come before.
pub open spec fn with_items(items: Seq<Seq<char>>, new: Seq<Seq<char>>) -> Seq<Seq<char>>
    decreases new.len(),
{
    if new.len() == 0 {
        items
    } else {
        let before = with_items(items, new.drop_last());
        if item_keys(before).contains(item_key(new.last())) {
            before
        } else {
            before.push(new.last())
        }
    }
}

/// Taking items in keeps what is there, never lists one key twice, and leaves
/// every new item listed under its key.
pub proof fn live_items_stay_distinct(items: Seq<Seq<char>>, new: Seq<Seq<char>>)
    ensures
        item_keys(items).no_duplicates() ==> item_keys(with_items(items, new)).no_duplicates(),
        items.is_prefix_of(with_items(items, new)),
        forall|i: int|
            0 <= i < new.len() ==> item_keys(with_items(items, new)).contains(
                item_key(#[trigger] new[i]),
            ),
    decreases new.len(),
{
    if new.len() > 0 {
        let front = new.drop_last();
        live_items_stay_distinct(items, front);
        let before = with_items(items, front);
        let after = with_items(items, new);
        let key = item_key(new.last());
        if !item_keys(before).contains(key) {
            assert(item_keys(after) =~= item_keys(before).push(key));
            assert(item_keys(after)[before.len() as int] == key);
        }
        assert forall|i: int| 0 <= i < new.len() implies item_keys(after).contains(
            item_key(#[trigger] new[i]),
        ) by {
            if i < front.len() {
                assert(new[i] == front[i]);
                let k = choose|k: int|
                    0 <= k < item_keys(before).len() && item_keys(before)[k] == item_key(front[i]);
                assert(item_keys(after)[k] == item_key(front[i]));
            }
        }
    } else {
        assert(items.is_prefix_of(items));
    }
}

fn key_listed(items: &Vec<String>, key: &str) -> (r: bool)
    ensures
        r == item_keys(texts(items@)).contains(key@),
{
    let ghost keys = item_keys(texts(items@));
    for i in 0..items.len()
        invariant
            keys == item_keys(texts(items@)),
            forall|j: int| 0 <= j < i ==> keys[j] != key@,
    {
        let k = action_item_key(&items[i]);
        assert(keys[i as int] == k@);
        if same_text(&k, key) {
            return true;
        }
    }
    false
}

// ---------------------------------------------------------------------------
// The page
// ---------------------------------------------------------------------------

/// The recording page.
pub struct RecordingView {
    pub phase: RecordingPhase,
    pub elapsed: ElapsedClock,
    /// The live transcript, in chronological order.
    pub rows: Vec<TranscriptRow>,
    /// How many items the shown list holds.
    pub shown: usize,
    /// What each source is saying, until its finished piece comes.
    pub partials: TextMap<String>,
    pub refining: bool,
    pub toasts: Vec<Toast>,
    pub live_action_items: Vec<String>,
    /// The calendar event taking place when the recording started.
    pub pending_calendar_event_id: Option<String>,
}

/// What a [`RecordingView`] holds.
#[verifier::ext_equal]
pub struct PageView {
    pub phase: RecordingPhase,
    pub elapsed: ElapsedClock,
    pub rows: Seq<TranscriptRow>,
    pub shown: int,
    pub partials: Map<Seq<char>, String>,
    pub refining: bool,
    pub toasts: Seq<Toast>,
    pub live_action_items: Seq<Seq<char>>,
    pub pending_calendar_event_id: Option<Seq<char>>,
}

/// Who is taken to speak where nobody was recognised.
pub open spec fn default_speaker(source: Seq<char>) -> Seq<char> {
    if source == "mic"@ {
        "Me"@
    } else {
        "Speaker"@
    }
}

/// Whether `row` is the row for a finished piece of transcript.
pub open spec fn row_for(update: TranscriptUpdate, row: TranscriptRow) -> bool {
    &&& row.sequence_id == update.sequence_id
    &&& row.audio_start_time == update.audio_start_time
    &&& row.text == update.text
    &&& row.source == update.source
    &&& row.speaker@ == match update.speaker {
        Some(s) => s@,
        None => default_speaker(update.source@),
    }
}

/// The changes to the shown list for a change to the rows, of which there were
/// `before`.
pub open spec fn edits_for(change: RowChange, before: int) -> Seq<ListEdit> {
    match change {
        RowChange::Appended => seq![
            ListEdit { from: before as usize, to: before as usize, count: 1 },
        ],
        RowChange::InsertedAt(i) => seq![ListEdit { from: i, to: i, count: 1 }],
        RowChange::ReplacedAt(i) => seq![ListEdit { from: i, to: (i + 1) as usize, count: 1 }],
        RowChange::Repositioned { removed_at, inserted_at } => seq![
            ListEdit { from: removed_at, to: (removed_at + 1) as usize, count: 0 },
            ListEdit { from: inserted_at, to: inserted_at, count: 1 },
        ],
    }
}

/// How long a list is after one change.
pub open spec fn edited_len(len: int, edit: ListEdit) -> int {
    len - (edit.to - edit.from) + edit.count
}

/// How long a list is after changes.
pub open spec fn len_after(len: int, edits: Seq<ListEdit>) -> int
    decreases edits.len(),
{
    if edits.len() == 0 {
        len
    } else {
        edited_len(len_after(len, edits.drop_last()), edits.last())
    }
}

impl RecordingView {
    /// Whether the rows are in order, each under an id of its own, all shown,
    /// and the live action items are listed once each.
    pub open spec fn wf(&self) -> bool {
        &&& sorted_rows(self.rows@)
        &&& distinct_ids(self.rows@)
        &&& self.shown == self.rows@.len()
        &&& item_keys(texts(self.live_action_items@)).no_duplicates()
    }

    /// What the page holds.
    pub open spec fn view(&self) -> PageView {
        PageView {
            phase: self.phase,
            elapsed: self.elapsed,
            rows: self.rows@,
            shown: self.shown as int,
            partials: self.partials@,
            refining: self.refining,
            toasts: self.toasts@,
            live_action_items: texts(self.live_action_items@),
            pending_calendar_event_id: opt_text(self.pending_calendar_event_id),
        }
    }

    /// A page with nothing recorded.
    pub fn new() -> (r: Self)
        ensures
            r.wf(),
            r@ == (PageView {
                phase: RecordingPhase::Idle,
                elapsed: ElapsedClock { base_active_ms: 0, base_host_ms: 0, running: false },
                rows: Seq::empty(),
                shown: 0,
                partials: Map::empty(),
                refining: false,
                toasts: Seq::empty(),
                live_action_items: Seq::empty(),
                pending_calendar_event_id: None,
            }),
    {
        let r = RecordingView {
            phase: RecordingPhase::Idle,
            elapsed: ElapsedClock::default(),
            rows: Vec::new(),
            shown: 0,
            partials: TextMap::new(),
            refining: false,
            toasts: Vec::new(),
            live_action_items: Vec::new(),
            pending_calendar_event_id: None,
        };
        assert(r@.live_action_items =~= Seq::<Seq<char>>::empty());
        r
    }

    /// Queues a message.
    pub fn toast(&mut self, kind: ToastKind, message: String)
        requires
            old(self).wf(),
        ensures
            final(self).wf(),
            final(self)@ == (PageView {
                toasts: old(self)@.toasts.push(Toast { kind, message }),
                ..old(self)@
            }),
    {
        self.toasts.push(Toast { kind, message });
    }

    /// Hands out the queued messages, oldest first.
    pub fn take_toasts(&mut self) -> (r: Vec<Toast>)
        requires
            old(self).wf(),
        ensures
            final(self).wf(),
            r@ == old(self)@.toasts,
            final(self)@ == (PageView { toasts: Seq::empty(), ..old(self)@ }),
    {
        let mut out: Vec<Toast> = Vec::new();
        std::mem::swap(&mut out, &mut self.toasts);
        out
    }

    /// Takes over the state of a recording that may be running when the page
    /// opens: its phase and its clock. Nothing is emptied and nothing starts.
    pub fn sync_initial_state(
        &mut self,
        phase: RecordingPhase,
        active_ms: Option<u64>,
        now_ms: u64,
    )
        requires
            old(self).wf(),
        ensures
            final(self).wf(),
            final(self)@ == (PageView {
                phase,
                elapsed: ElapsedClock::rebased(active_ms, phase, now_ms),
                ..old(self)@
            }),
    {
        self.elapsed.rebase(active_ms, phase, now_ms);
        self.phase = phase;
    }

    /// What the page holds once the recording is in `phase`.
    pub open spec fn after_state(
        page: PageView,
        phase: RecordingPhase,
        active_ms: Option<u64>,
        now_ms: u64,
    ) -> PageView {
        let starting = phase is Starting && !(page.phase is Starting);
        PageView {
            phase,
            elapsed: ElapsedClock::rebased(active_ms, phase, now_ms),
            rows: if starting {
                Seq::empty()
            } else {
                page.rows
            },
            shown: if starting {
                0
            } else {
                page.shown
            },
            partials: if starting {
                Map::empty()
            } else {
                page.partials
            },
            live_action_items: if !active_phase(page.phase) && active_phase(phase) {
                Seq::empty()
            } else {
                page.live_action_items
            },
            ..page
        }
    }

    /// Takes a new state in: a recording that is starting empties the
    /// transcript; one that becomes active starts the extractor of live action
    /// items afresh, and one that ceases to be active stops it.
    pub fn apply_snapshot(
        &mut self,
        phase: RecordingPhase,
        active_ms: Option<u64>,
        now_ms: u64,
    ) -> (r: (Option<ListEdit>, Extractor))
        requires
            old(self).wf(),
        ensures
            final(self).wf(),
            final(self)@ == Self::after_state(old(self)@, phase, active_ms, now_ms),
            r.0 == if phase is Starting && !(old(self).phase is Starting) {
                Some(ListEdit { from: 0, to: old(self).shown, count: 0 })
            } else {
                None
            },
            r.1 == if !active_phase(old(self).phase) && active_phase(phase) {
                Extractor::Start
            } else if active_phase(old(self).phase) && !active_phase(phase) {
                Extractor::Stop
            } else {
                Extractor::Keep
            },
    {
        let mut edit: Option<ListEdit> = None;
        if phase == RecordingPhase::Starting && self.phase != RecordingPhase::Starting {
            edit = Some(ListEdit { from: 0, to: self.shown, count: 0 });
            self.rows = Vec::new();
            self.partials.clear();
            self.shown = 0;
        }
        let was_active = is_active_phase(self.phase);
        let now_active = is_active_phase(phase);
        let mut extractor = Extractor::Keep;
        if !was_active && now_active {
            self.live_action_items = Vec::new();
            extractor = Extractor::Start;
        } else if was_active && !now_active {
            extractor = Extractor::Stop;
        }
        self.elapsed.rebase(active_ms, phase, now_ms);
        self.phase = phase;
        assert(self@ =~= Self::after_state(old(self)@, phase, active_ms, now_ms));
        (edit, extractor)
    }

    /// Takes a finished piece of transcript in: it supersedes what its source
    /// was saying, and becomes a row.
    pub fn apply_transcript_update(&mut self, update: TranscriptUpdate) -> (r: Vec<ListEdit>)
        requires
            old(self).wf(),
        ensures
            final(self).wf(),
            exists|row: TranscriptRow|
                #![trigger row_for(update, row)]
                row_for(update, row) && final(self)@ == (PageView {
                    partials: old(self)@.partials.remove(update.source@),
                    rows: upserted(old(self)@.rows, row).0,
                    shown: upserted(old(self)@.rows, row).0.len() as int,
                    ..old(self)@
                }) && r@ == edits_for(
                    upserted(old(self)@.rows, row).1,
                    old(self)@.rows.len() as int,
                ),
            len_after(old(self).shown as int, r@) == final(self).shown,
    {
        let source = update.source;
        self.partials.remove(&source);
        let speaker = match update.speaker {
            Some(s) => s,
            None => if same_text(&source, "mic") {
                "Me".to_owned()
            } else {
                "Speaker".to_owned()
            },
        };
        let row = TranscriptRow {
            sequence_id: update.sequence_id,
            audio_start_time: update.audio_start_time,
            speaker,
            text: update.text,
            source,
        };
        let ghost kept = row;
        let before = self.rows.len();
        let change = upsert_row(&mut self.rows, row);
        self.shown = self.rows.len();
        let mut edits: Vec<ListEdit> = Vec::new();
        proof {
            lemma_edits(old(self)@.rows, kept);
        }
        match change {
            RowChange::Appended => {
                edits.push(ListEdit { from: before, to: before, count: 1 });
            },
            RowChange::InsertedAt(i) => {
                edits.push(ListEdit { from: i, to: i, count: 1 });
            },
            RowChange::ReplacedAt(i) => {
                edits.push(ListEdit { from: i, to: i + 1, count: 1 });
            },
            RowChange::Repositioned { removed_at, inserted_at } => {
                edits.push(ListEdit { from: removed_at, to: removed_at + 1, count: 0 });
                edits.push(ListEdit { from: inserted_at, to: inserted_at, count: 1 });
            },
        }
        proof {
            assert(edits@ =~= edits_for(change, before as int));
            assert(row_for(update, kept));
        }
        edits
    }

    /// Takes in what a source is saying; nothing said takes it away.
    pub fn apply_partial(&mut self, source: String, text: String)
        requires
            old(self).wf(),
        ensures
            final(self).wf(),
            final(self)@ == (PageView {
                partials: if text@.len() == 0 {
                    old(self)@.partials.remove(source@)
                } else {
                    old(self)@.partials.insert(source@, text)
                },
                ..old(self)@
            }),
    {
        if text.as_str().is_empty() {
            self.partials.remove(&source);
        } else {
            self.partials.insert(&source, text);
        }
    }

    /// Takes live action items in, each key once; whether any was new.
    pub fn add_live_items(&mut self, items: Vec<String>) -> (added: bool)
        requires
            old(self).wf(),
        ensures
            final(self).wf(),
            final(self)@ == (PageView {
                live_action_items: with_items(old(self)@.live_action_items, texts(items@)),
                ..old(self)@
            }),
            added == (final(self)@.live_action_items.len() > old(self)@.live_action_items.len()),
    {
        let ghost start = texts(self.live_action_items@);
        let mut added = false;
        assert(texts(items@).take(0) =~= Seq::<Seq<char>>::empty());
        for i in 0..items.len()
            invariant
                start == old(self)@.live_action_items,
                texts(self.live_action_items@) == with_items(start, texts(items@).take(i as int)),
                added == (self.live_action_items@.len() > start.len()),
                self.live_action_items@.len() >= start.len(),
                self@ == (PageView {
                    live_action_items: texts(self.live_action_items@),
                    ..old(self)@
                }),
        {
            let ghost next = texts(items@).take(i + 1);
            let ghost had = self.live_action_items@;
            assert(next.drop_last() =~= texts(items@).take(i as int));
            assert(next.last() == items@[i as int]@);
            let key = action_item_key(&items[i]);
            if !key_listed(&self.live_action_items, &key) {
                let item = items[i].clone();
                self.live_action_items.push(item);
                added = true;
                assert(texts(self.live_action_items@) =~= texts(had).push(items@[i as int]@));
            }
        }
        proof {
            assert(texts(items@).take(items@.len() as int) =~= texts(items@));
            live_items_stay_distinct(start, texts(items@));
        }
        added
    }

    /// Takes the end of a recording in. A saved meeting is refined where it has
    /// a folder, linked to the calendar event that was taking place at the
    /// start, which is then forgotten, and opened.
    pub fn on_stopped(
        &mut self,
        meeting_id: Option<String>,
        folder_path: Option<String>,
    ) -> (r: Reaction)
        requires
            old(self).wf(),
        ensures
            final(self).wf(),
            match meeting_id {
                Some(id) => {
                    &&& final(self)@ == (PageView {
                        pending_calendar_event_id: None,
                        ..old(self)@
                    })
                    &&& opt_text(r.open) == Some(id@)
                    &&& match folder_path {
                        Some(folder) => r.refine matches Some((m, f)) && m@ == id@ && f@
                            == folder@,
                        None => r.refine is None,
                    }
                    &&& match old(self)@.pending_calendar_event_id {
                        Some(event) => r.link matches Some((m, e)) && m@ == id@ && e@ == event,
                        None => r.link is None,
                    }
                },
                None => final(self)@ == old(self)@ && r.open is None && r.refine is None
                    && r.link is None,
            },
            r.edits@.len() == 0 && r.extractor is Keep,
    {
        match meeting_id {
            Some(id) => {
                let refine = match folder_path {
                    Some(folder) => Some((id.clone(), folder)),
                    None => None,
                };
                let event = self.pending_calendar_event_id.take();
                let link = match event {
                    Some(event) => Some((id.clone(), event)),
                    None => None,
                };
                Reaction {
                    edits: Vec::new(),
                    extractor: Extractor::Keep,
                    refine,
                    link,
                    open: Some(id),
                }
            },
            None => quiet(),
        }
    }

    /// Takes an event in, and says what is left to do.
    pub fn handle_core_event(&mut self, event: RecordingEvent, now_ms: u64) -> (r: Reaction)
        requires
            old(self).wf(),
        ensures
            final(self).wf(),
            len_after(old(self).shown as int, r.edits@) == final(self).shown,
            match event {
                RecordingEvent::State { phase, active_ms } => {
                    &&& final(self)@ == Self::after_state(old(self)@, phase, active_ms, now_ms)
                    &&& r.extractor == (if !active_phase(old(self).phase) && active_phase(phase) {
                        Extractor::Start
                    } else if active_phase(old(self).phase) && !active_phase(phase) {
                        Extractor::Stop
                    } else {
                        Extractor::Keep
                    })
                    &&& r.edits@ == (if phase is Starting && !(old(self).phase is Starting) {
                        seq![ListEdit { from: 0, to: old(self).shown, count: 0 }]
                    } else {
                        seq![]
                    })
                },
                RecordingEvent::Update(update) => exists|row: TranscriptRow|
                    #![trigger row_for(update, row)]
                    row_for(update, row) && final(self)@ == (PageView {
                        partials: old(self)@.partials.remove(update.source@),
                        rows: upserted(old(self)@.rows, row).0,
                        shown: upserted(old(self)@.rows, row).0.len() as int,
                        ..old(self)@
                    }) && r.edits@ == edits_for(
                        upserted(old(self)@.rows, row).1,
                        old(self)@.rows.len() as int,
                    ),
                RecordingEvent::Partial { source, text } => final(self)@ == (PageView {
                    partials: if text@.len() == 0 {
                        old(self)@.partials.remove(source@)
                    } else {
                        old(self)@.partials.insert(source@, text)
                    },
                    ..old(self)@
                }),
                RecordingEvent::LiveActionItems(items) => final(self)@ == (PageView {
                    live_action_items: with_items(old(self)@.live_action_items, texts(items@)),
                    ..old(self)@
                }),
                RecordingEvent::RecordingError(message) => final(self)@ == (PageView {
                    toasts: old(self)@.toasts.push(Toast { kind: ToastKind::Error, message }),
                    ..old(self)@
                }),
                RecordingEvent::TranscriptionError(message) => exists|text: String|
                    #![trigger text@]
                    text@ == (match message {
                        Some(m) => m@,
                        None => "Transcription error"@,
                    }) && final(self)@ == (PageView {
                        toasts: old(self)@.toasts.push(
                            Toast { kind: ToastKind::Error, message: text },
                        ),
                        ..old(self)@
                    }),
                RecordingEvent::Warning(message) => final(self)@ == (PageView {
                    toasts: old(self)@.toasts.push(Toast { kind: ToastKind::Warning, message }),
                    ..old(self)@
                }),
                RecordingEvent::Stopped { meeting_id, folder_path } => match meeting_id {
                    Some(id) => {
                        &&& final(self)@ == (PageView {
                            pending_calendar_event_id: None,
                            ..old(self)@
                        })
                        &&& opt_text(r.open) == Some(id@)
                        &&& match folder_path {
                            Some(folder) => r.refine matches Some((m, f)) && m@ == id@ && f@
                                == folder@,
                            None => r.refine is None,
                        }
                        &&& match old(self)@.pending_calendar_event_id {
                            Some(event) => r.link matches Some((m, e)) && m@ == id@ && e@ == event,
                            None => r.link is None,
                        }
                    },
                    None => final(self)@ == old(self)@ && r.open is None && r.refine is None
                        && r.link is None,
                },
                RecordingEvent::Refining => final(self)@ == (PageView {
                    refining: true,
                    ..old(self)@
                }),
                RecordingEvent::Refined => final(self)@ == (PageView {
                    refining: false,
                    ..old(self)@
                }),
            },
            !(event is State) ==> r.extractor is Keep,
            !(event is Stopped) ==> r.open is None && r.refine is None && r.link is None,
            !(event is State) && !(event is Update) ==> r.edits@.len() == 0,
    {
        let mut reaction = quiet();
        match event {
            RecordingEvent::State { phase, active_ms } => {
                let (edit, extractor) = self.apply_snapshot(phase, active_ms, now_ms);
                if let Some(e) = edit {
                    reaction.edits.push(e);
                    assert(reaction.edits@.drop_last() =~= Seq::<ListEdit>::empty());
                    reveal_with_fuel(len_after, 2);
                }
                reaction.extractor = extractor;
            },
            RecordingEvent::Update(update) => {
                reaction.edits = self.apply_transcript_update(update);
            },
            RecordingEvent::Partial { source, text } => {
                self.apply_partial(source, text);
            },
            RecordingEvent::LiveActionItems(items) => {
                let _ = self.add_live_items(items);
            },
            RecordingEvent::RecordingError(message) => {
                self.toast(ToastKind::Error, message);
            },
            RecordingEvent::TranscriptionError(message) => {
                let text = match message {
                    Some(m) => m,
                    None => "Transcription error".to_owned(),
                };
                self.toast(ToastKind::Error, text);
            },
            RecordingEvent::Warning(message) => {
                self.toast(ToastKind::Warning, message);
            },
            RecordingEvent::Stopped { meeting_id, folder_path } => {
                reaction = self.on_stopped(meeting_id, folder_path);
            },
            RecordingEvent::Refining => {
                self.refining = true;
            },
            RecordingEvent::Refined => {
                self.refining = false;
            },
        }
        reaction
    }
}

/// Nothing left to do.
fn quiet() -> (r: Reaction)
    ensures
        r.edits@.len() == 0,
        r.extractor is Keep,
        r.refine is None,
        r.link is None,
        r.open is None,
{
    Reaction {
        edits: Vec::new(),
        extractor: Extractor::Keep,
        refine: None,
        link: None,
        open: None,
    }
}

proof fn lemma_edits(rows: Seq<TranscriptRow>, row: TranscriptRow)
    requires
        rows.len() <= usize::MAX,
    ensures
        len_after(rows.len() as int, edits_for(upserted(rows, row).1, rows.len() as int))
            == upserted(rows, row).0.len(),
        upserted(rows, row).1 matches RowChange::ReplacedAt(i) ==> i < rows.len(),
        upserted(rows, row).1 matches RowChange::Repositioned { removed_at, .. } ==> removed_at
            < rows.len(),
{
    change_names_real_places(rows, row);
    let edits = edits_for(upserted(rows, row).1, rows.len() as int);
    reveal_with_fuel(len_after, 3);
    if edits.len() == 2 {
        assert(edits.drop_last() =~= seq![edits[0]]);
        assert(seq![edits[0]].drop_last() =~= Seq::<ListEdit>::empty());
    } else {
        assert(edits.drop_last() =~= Seq::<ListEdit>::empty());
    }
}

// ---------------------------------------------------------------------------
// What the page shows
// ---------------------------------------------------------------------------

/// The page as it is drawn.
#[derive(Debug, Clone, PartialEq, Eq)]
pub struct RecordingDraw {
    pub buttons: ButtonState,
    /// Whether the devices can be changed.
    pub devices_enabled: bool,
    pub elapsed: String,
    pub note: Option<&'static str>,
    /// What each source is saying, under its label.
    pub partials: Vec<(&'static str, String)>,
    pub items: Vec<String>,
}

/// The label of what a source is saying.
pub open spec fn partial_label(source: Seq<char>) -> Seq<char> {
    if source == "mic"@ {
        "You (live)"@
    } else {
        "System (live)"@
    }
}

/// The lines of the live action items.
pub open spec fn item_lines(items: Seq<Seq<char>>) -> Seq<Seq<char>> {
    items.map_values(|t: Seq<char>| "• "@ + t)
}

/// Whether lines are what the sources are saying: one for each, in any order.
pub open spec fn shows_partials(
    lines: Seq<(&'static str, String)>,
    partials: Map<Seq<char>, String>,
) -> bool {
    exists|sources: Seq<Seq<char>>| #[trigger]
        sources.no_duplicates() && sources.len() == lines.len() && (forall|key: Seq<char>| #[trigger]
            sources.contains(key) == partials.dom().contains(key)) && forall|i: int|
            0 <= i < lines.len() ==> (#[trigger] lines[i]).0@ == partial_label(sources[i])
                && lines[i].1@ == partials[sources[i]]@
}

impl RecordingView {
    /// The page as it is drawn at `now_ms`.
    pub fn draw(&self, now_ms: u64) -> (r: RecordingDraw)
        ensures
            r.buttons == buttons_in(self.phase),
            r.devices_enabled == buttons_in(self.phase).can_start,
            r.elapsed@ == elapsed_text(self.elapsed.shown_ms(now_ms) / 1000),
            match r.note {
                Some(text) => self.refining && text@ == "Refining meeting…"@,
                None => !self.refining,
            },
            shows_partials(r.partials@, self.partials@),
            texts(r.items@) == item_lines(texts(self.live_action_items@)),
    {
        let buttons = button_state(self.phase);
        let sources = self.partials.keys();
        let mut partials: Vec<(&'static str, String)> = Vec::new();
        for i in 0..sources.len()
            invariant
                partials@.len() == i,
                forall|key: Seq<char>| #[trigger]
                    texts(sources@).contains(key) == self.partials@.dom().contains(key),
                forall|j: int|
                    0 <= j < i ==> (#[trigger] partials@[j]).0@ == partial_label(texts(sources@)[j])
                        && partials@[j].1@ == self.partials@[texts(sources@)[j]]@,
        {
            assert(texts(sources@)[i as int] == sources@[i as int]@);
            assert(texts(sources@).contains(sources@[i as int]@));
            let text = match self.partials.get(&sources[i]) {
                Some(t) => t.clone(),
                None => "".to_owned(),
            };
            let label = if same_text(&sources[i], "mic") {
                "You (live)"
            } else {
                "System (live)"
            };
            partials.push((label, text));
        }
        assert(shows_partials(partials@, self.partials@)) by {
            assert(texts(sources@).no_duplicates());
        }
        let mut items: Vec<String> = Vec::new();
        for i in 0..self.live_action_items.len()
            invariant
                texts(items@) == item_lines(texts(self.live_action_items@.take(i as int))),
        {
            let ghost had = items@;
            let mut line = "• ".to_owned();
            line.append(&self.live_action_items[i]);
            items.push(line);
            proof {
                assert(texts(items@) =~= texts(had).push(line@));
                assert(item_lines(texts(self.live_action_items@.take(i + 1))) =~= item_lines(
                    texts(self.live_action_items@.take(i as int)),
                ).push(line@));
            }
        }
        assert(self.live_action_items@.take(self.live_action_items@.len() as int)
            =~= self.live_action_items@);
        RecordingDraw {
            buttons,
            devices_enabled: buttons.can_start,
            elapsed: format_elapsed(self.elapsed.displayed_secs(now_ms)),
            note: if self.refining {
                Some("Refining meeting…")
            } else {
                None
            },
            partials,
            items,
        }
    }
}

/// Whether a row of the transcript is drawn in the colour of one's own voice.
pub fn is_own_voice(row: &TranscriptRow) -> (r: bool)
    ensures
        r == (row.source@ == "mic"@),
{
    same_text(&row.source, "mic")
}

} // verus!
