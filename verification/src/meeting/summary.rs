//! A meeting's summary: loading, generating, streaming, editing and saving it.
use vstd::prelude::*;
use crate::json::{json_document, string_at, Blob};
use crate::meeting::format::{default_template, has_unsaved_summary_edits, resolve_default_template, reveal_step, reveal_units};
use crate::text::{chars_of, opt_str, opt_text, same_text, string_from, texts};
use crate::words::{lowercase, to_lowercase};

verus! {

// ---------------------------------------------------------------------------
// Bytes of a text
// ---------------------------------------------------------------------------

/// How many bytes a character takes in UTF-8.
pub open spec fn utf8_width(c: char) -> nat {
    let n = c as u32;
    if n < 0x80 {
        1
    } else if n < 0x800 {
        2
    } else if n < 0x1_0000 {
        3
    } else {
        4
    }
}

fn width_of(c: char) -> (r: u128)
    ensures
        r == utf8_width(c),
{
    let n: u32 = c as u32;
    if n < 0x80 {
        1
    } else if n < 0x800 {
        2
    } else if n < 0x1_0000 {
        3
    } else {
        4
    }
}

/// How many bytes a text takes in UTF-8.
pub open spec fn utf8_len(s: Seq<char>) -> nat
    decreases s.len(),
{
    if s.len() == 0 {
        0
    } else {
        utf8_len(s.drop_last()) + utf8_width(s.last())
    }
}

/// How many leading characters it takes to cover `n` bytes; all of them where
/// they do not.
pub open spec fn chars_covering(s: Seq<char>, n: int) -> nat
    decreases s.len(),
{
    if n <= 0 || s.len() == 0 {
        0
    } else {
        1 + chars_covering(s.subrange(1, s.len() as int), n - utf8_width(s[0]))
    }
}

proof fn lemma_covering(s: Seq<char>, n: int)
    ensures
        chars_covering(s, n) <= s.len(),
        n > 0 && s.len() > 0 ==> chars_covering(s, n) > 0,
    decreases s.len(),
{
    if n > 0 && s.len() > 0 {
        lemma_covering(s.subrange(1, s.len() as int), n - utf8_width(s[0]));
    }
}

proof fn lemma_utf8_len(s: Seq<char>)
    ensures
        s.len() <= utf8_len(s) <= 4 * s.len(),
    decreases s.len(),
{
    if s.len() > 0 {
        lemma_utf8_len(s.drop_last());
    }
}

/// How many characters of a waiting text one step shows: those that cover its
/// share of bytes, the last one whole.
pub open spec fn revealed_chars(pending: Seq<char>) -> nat {
    chars_covering(pending, reveal_step(utf8_len(pending)) as int)
}

/// A step shows something wherever something waits, and no more than that.
pub proof fn steps_make_progress(pending: Seq<char>)
    ensures
        revealed_chars(pending) <= pending.len(),
        pending.len() > 0 ==> revealed_chars(pending) > 0,
{
    lemma_utf8_len(pending);
    lemma_covering(pending, reveal_step(utf8_len(pending)) as int);
}

/// What waits after so many steps.
pub open spec fn waiting_after(pending: Seq<char>, steps: nat) -> Seq<char>
    decreases steps,
{
    if steps == 0 {
        pending
    } else {
        let n = revealed_chars(pending) as int;
        waiting_after(pending.subrange(n, pending.len() as int), (steps - 1) as nat)
    }
}

/// In the end everything is shown: no more steps are needed than characters
/// wait.
pub proof fn everything_is_shown(pending: Seq<char>, steps: nat)
    requires
        pending.len() <= steps,
    ensures
        waiting_after(pending, steps).len() == 0,
    decreases steps,
{
    if steps > 0 {
        steps_make_progress(pending);
        let n = revealed_chars(pending) as int;
        everything_is_shown(pending.subrange(n, pending.len() as int), (steps - 1) as nat);
    }
}

fn count_revealed(cs: &Vec<char>) -> (r: usize)
    ensures
        r == revealed_chars(cs@),
        r <= cs@.len(),
{
    let mut total: u128 = 0;
    assert(cs@.take(0) =~= seq![]);
    for i in 0..cs.len()
        invariant
            total == utf8_len(cs@.take(i as int)),
            total <= 4 * i,
    {
        let ghost next = cs@.take(i + 1);
        assert(next.drop_last() =~= cs@.take(i as int));
        total = total + width_of(cs[i]);
    }
    assert(cs@.take(cs@.len() as int) =~= cs@);
    let goal: u128 = reveal_units(total);
    let mut covered: u128 = 0;
    let mut n: usize = 0;
    assert(cs@.subrange(0, cs@.len() as int) =~= cs@);
    while n < cs.len() && covered < goal
        invariant
            n <= cs@.len(),
            covered <= 4 * n,
            chars_covering(cs@, goal as int) == n + chars_covering(
                cs@.subrange(n as int, cs@.len() as int),
                goal - covered,
            ),
        decreases cs@.len() - n,
    {
        let ghost here = cs@.subrange(n as int, cs@.len() as int);
        assert(here.subrange(1, here.len() as int) =~= cs@.subrange(n + 1, cs@.len() as int));
        covered = covered + width_of(cs[n]);
        n += 1;
    }
    n
}

// ---------------------------------------------------------------------------
// The panel
// ---------------------------------------------------------------------------

/// How far a meeting's summary is.
#[derive(Debug, Clone, PartialEq, Eq)]
pub enum SummaryPhase {
    Idle,
    Loading,
    Generating,
    Error(String),
}

/// A template for summaries: id, name and description.
pub type Template = (String, String, String);

/// The ids of templates.
pub open spec fn template_ids(templates: Seq<Template>) -> Seq<Seq<char>> {
    templates.map_values(|t: Template| t.0@)
}

/// The stored state of a summary.
#[derive(Debug, Clone, PartialEq, Eq)]
pub struct SummaryProcess {
    pub status: String,
    /// JSON with the summary in its member "markdown".
    pub result: Option<String>,
    pub error: Option<String>,
}

/// The summary's part of the meeting page.
pub struct SummaryPanel {
    /// The summary as it is saved, copied and exported.
    pub markdown: String,
    /// The part of it that is shown.
    pub shown: String,
    /// What was streamed and is not shown yet.
    pub pending: String,
    /// Whether a timer shows what is pending.
    pub revealing: bool,
    pub has_content: bool,
    pub phase: SummaryPhase,
    /// Whether a timer looks for the result.
    pub polling: bool,
    pub editing: bool,
    pub saving: bool,
    pub templates: Vec<Template>,
    pub selected_template: String,
    pub template_user_selected: bool,
    pub show_custom_prompt: bool,
}

/// What a status means for the page.
#[derive(Debug, Clone, Copy, PartialEq, Eq, Structural)]
pub enum StatusKind {
    Running,
    Failed,
    Settled,
}

/// What a status means, in whatever case it is written.
pub open spec fn status_named(status: Seq<char>) -> StatusKind {
    let s = lowercase(status);
    if s == "processing"@ || s == "pending"@ || s == "summarizing"@ {
        StatusKind::Running
    } else if s == "failed"@ || s == "error"@ {
        StatusKind::Failed
    } else {
        StatusKind::Settled
    }
}

/// What a status means, where it is already in lower case.
pub fn lower_status_kind(s: &str) -> (r: StatusKind)
    ensures
        r == (if s@ == "processing"@ || s@ == "pending"@ || s@ == "summarizing"@ {
            StatusKind::Running
        } else if s@ == "failed"@ || s@ == "error"@ {
            StatusKind::Failed
        } else {
            StatusKind::Settled
        }),
{
    if same_text(s, "processing") || same_text(s, "pending") || same_text(s, "summarizing") {
        StatusKind::Running
    } else if same_text(s, "failed") || same_text(s, "error") {
        StatusKind::Failed
    } else {
        StatusKind::Settled
    }
}

/// What a status means, in whatever case it is written.
pub fn status_kind(status: &str) -> (r: StatusKind)
    ensures
        r == status_named(status@),
{
    lower_status_kind(&to_lowercase(status))
}

/// The summary in a stored result, where there is one.
pub open spec fn stored_markdown(result: Option<Seq<char>>) -> Option<Seq<char>> {
    match result {
        Some(text) => match json_document(text) {
            Some(value) => string_at(value, "markdown"@),
            None => None,
        },
        None => None,
    }
}

/// The summary in a stored result, where there is one.
pub fn markdown_in(result: &Option<String>) -> (r: Option<String>)
    ensures
        opt_text(r) == stored_markdown(opt_text(*result)),
{
    match result {
        Some(text) => match Blob::parse(text) {
            Some(blob) => blob.text("markdown"),
            None => None,
        },
        None => None,
    }
}

/// The phase that a stored state leads to.
pub open spec fn phase_of(kind: StatusKind, error: Option<Seq<char>>, phase: SummaryPhase) -> bool {
    match kind {
        StatusKind::Running => phase is Generating,
        StatusKind::Failed => phase matches SummaryPhase::Error(e) && e@ == (match error {
            Some(text) => text,
            None => "Summary generation failed"@,
        }),
        StatusKind::Settled => phase is Idle,
    }
}

/// What can keep a summary from being made.
#[derive(Debug, Clone, Copy, PartialEq, Eq, Structural)]
pub enum GenerateStep {
    /// There is no meeting or no database.
    Ignored,
    /// There is no transcript: show [`NO_TRANSCRIPT`].
    NoTranscript,
    Start,
}

/// What is shown where there is nothing to summarize.
pub const NO_TRANSCRIPT: &'static str = "No transcript available for this meeting.";

/// What is shown where no model is configured.
pub const NO_MODEL: &'static str = "No model configured — set one up in Settings first.";

/// How the summary's buttons and state are shown.
#[derive(Debug, Clone, PartialEq, Eq)]
pub struct SummaryHeader {
    pub status: Option<String>,
    pub button: &'static str,
    pub button_enabled: bool,
    pub can_copy: bool,
    pub can_edit: bool,
    pub can_pick_template: bool,
    pub template: String,
    pub template_hint: String,
    pub save_label: &'static str,
}

/// Whether this is the panel before any meeting was shown.
pub open spec fn default_panel(r: SummaryPanel, templates: Vec<Template>) -> bool {
    &&& r.markdown@ == ""@
    &&& r.shown@ == ""@
    &&& r.pending@ == ""@
    &&& !r.revealing
    &&& !r.has_content
    &&& r.phase is Idle
    &&& !r.polling
    &&& !r.editing
    &&& !r.saving
    &&& r.templates == templates
    &&& r.selected_template@ == default_template(None, template_ids(templates@))
    &&& !r.template_user_selected
    &&& !r.show_custom_prompt
}

impl SummaryPanel {
    /// The panel before any meeting was shown.
    pub fn new(templates: Vec<Template>) -> (r: Self)
        ensures
            default_panel(r, templates),
    {
        let ids = ids_of(&templates);
        let selected_template = resolve_default_template(None, &ids);
        SummaryPanel {
            markdown: "".to_owned(),
            shown: "".to_owned(),
            pending: "".to_owned(),
            revealing: false,
            has_content: false,
            phase: SummaryPhase::Idle,
            polling: false,
            editing: false,
            saving: false,
            templates,
            selected_template,
            template_user_selected: false,
            show_custom_prompt: false,
        }
    }

    /// Whether the templates and what was chosen of them are the same.
    pub open spec fn same_choices(&self, other: &Self) -> bool {
        &&& self.templates == other.templates
        &&& self.selected_template == other.selected_template
        &&& self.template_user_selected == other.template_user_selected
        &&& self.show_custom_prompt == other.show_custom_prompt
    }

    /// Whether the texts and what is still to be shown are the same.
    pub open spec fn same_text_state(&self, other: &Self) -> bool {
        &&& self.markdown == other.markdown
        &&& self.shown == other.shown
        &&& self.pending == other.pending
        &&& self.revealing == other.revealing
        &&& self.has_content == other.has_content
    }

    /// Whether what is shown and what waits make up the summary.
    pub open spec fn in_step(&self) -> bool {
        self.shown@ + self.pending@ == self.markdown@
    }

    /// Whether this is the panel of a meeting that is being loaded.
    pub open spec fn cleared(&self) -> bool {
        &&& self.markdown@ == ""@
        &&& self.shown@ == ""@
        &&& self.pending@ == ""@
        &&& !self.revealing
        &&& !self.has_content
        &&& self.phase is Loading
        &&& !self.polling
        &&& !self.editing
        &&& !self.saving
    }

    /// Starts over for another meeting.
    pub fn reset(&mut self)
        ensures
            final(self).cleared(),
            final(self).in_step(),
            final(self).same_choices(old(self)),
    {
        self.markdown = "".to_owned();
        self.shown = "".to_owned();
        self.pending = "".to_owned();
        self.revealing = false;
        self.has_content = false;
        self.phase = SummaryPhase::Loading;
        self.polling = false;
        self.editing = false;
        self.saving = false;
        proof {
            reveal_strlit("");
            assert(self.shown@ + self.pending@ =~= self.markdown@);
        }
    }

    /// Takes over the configured template, unless one was chosen by hand.
    pub fn apply_default_template(&mut self, configured: Option<&str>)
        ensures
            final(self).selected_template@ == if old(self).template_user_selected {
                old(self).selected_template@
            } else {
                default_template(opt_str(configured), template_ids(old(self).templates@))
            },
            *final(self) == (SummaryPanel {
                selected_template: final(self).selected_template,
                ..*old(self)
            }),
    {
        if !self.template_user_selected {
            let ids = ids_of(&self.templates);
            self.selected_template = resolve_default_template(configured, &ids);
        }
    }

    /// The template behind the chosen one, round to the first; the second where
    /// the chosen one is unknown.
    pub open spec fn next_template(&self) -> Seq<char> {
        let ids = template_ids(self.templates@);
        let at = place_of(ids, self.selected_template@);
        ids[(at + 1) % (ids.len() as int)]
    }

    /// Chooses the next template, where there is any.
    pub fn cycle_template(&mut self)
        ensures
            old(self).templates@.len() == 0 ==> *final(self) == *old(self),
            old(self).templates@.len() > 0 ==> final(self).selected_template@
                == old(self).next_template() && *final(self) == (SummaryPanel {
                selected_template: final(self).selected_template,
                template_user_selected: true,
                ..*old(self)
            }),
    {
        let n: usize = self.templates.len();
        if n == 0 {
            return;
        }
        let at: usize = find_template(&self.templates, &self.selected_template);
        proof {
            lemma_place_of(template_ids(self.templates@), self.selected_template@);
        }
        let next: usize = if at + 1 == n {
            0
        } else {
            at + 1
        };
        assert(next == (at + 1) % (n as int)) by (nonlinear_arith)
            requires
                0 <= at < n,
                next == (if at + 1 == n {
                    0int
                } else {
                    at + 1
                }),
        ;
        self.selected_template = self.templates[next].0.clone();
        self.template_user_selected = true;
    }

    /// Shows or hides the field for instructions.
    pub fn toggle_custom_prompt(&mut self)
        ensures
            *final(self) == (SummaryPanel {
                show_custom_prompt: !old(self).show_custom_prompt,
                ..*old(self)
            }),
    {
        self.show_custom_prompt = !self.show_custom_prompt;
    }

    /// Whether the field for instructions can be shown and hidden: not while a
    /// summary is made.
    pub fn can_toggle_custom_prompt(&self) -> (r: bool)
        ensures
            r == !(self.phase is Generating),
    {
        !matches!(self.phase, SummaryPhase::Generating)
    }

    /// Whether the field for instructions shows: not while the summary is edited.
    pub fn custom_prompt_shows(&self) -> (r: bool)
        ensures
            r == (self.show_custom_prompt && !self.editing),
    {
        self.show_custom_prompt && !self.editing
    }

    /// Takes over the stored state of the summary: its text, where there is
    /// one, and its phase.
    pub fn apply_process(&mut self, process: &SummaryProcess)
        ensures
            match stored_markdown(opt_text(process.result)) {
                Some(text) => final(self).markdown@ == text && final(self).shown@ == text
                    && final(self).has_content == (text.len() > 0),
                None => final(self).markdown == old(self).markdown && final(self).shown
                    == old(self).shown && final(self).has_content == old(self).has_content,
            },
            phase_of(status_named(process.status@), opt_text(process.error), final(self).phase),
            final(self).polling == (old(self).polling || final(self).phase is Generating),
            final(self).pending == old(self).pending,
            final(self).revealing == old(self).revealing,
            final(self).editing == old(self).editing,
            final(self).saving == old(self).saving,
            final(self).same_choices(old(self)),
    {
        if let Some(markdown) = markdown_in(&process.result) {
            self.has_content = !markdown.as_str().is_empty();
            self.shown = markdown.clone();
            self.markdown = markdown;
        }
        match status_kind(&process.status) {
            StatusKind::Running => {
                self.phase = SummaryPhase::Generating;
                self.polling = true;
            },
            StatusKind::Failed => {
                let why = match &process.error {
                    Some(e) => e.clone(),
                    None => "Summary generation failed".to_owned(),
                };
                self.phase = SummaryPhase::Error(why);
            },
            StatusKind::Settled => {
                self.phase = SummaryPhase::Idle;
            },
        }
    }

    /// Whether this is `had` after what was found of the summary was taken over.
    pub open spec fn refreshed(
        &self,
        had: &Self,
        found: Result<Option<SummaryProcess>, String>,
    ) -> bool {
        &&& match found {
            Ok(Some(process)) => {
                &&& phase_of(status_named(process.status@), opt_text(process.error), self.phase)
                &&& match stored_markdown(opt_text(process.result)) {
                    Some(text) => self.markdown@ == text && self.shown@ == text
                        && self.has_content == (text.len() > 0),
                    None => self.markdown == had.markdown && self.shown == had.shown
                        && self.has_content == had.has_content,
                }
                &&& self.pending == had.pending
                &&& self.revealing == had.revealing
                &&& self.polling == (had.polling || self.phase is Generating)
            },
            Ok(None) => self.phase is Idle && self.same_text_state(had) && self.polling
                == had.polling,
            Err(e) => (self.phase matches SummaryPhase::Error(text) && text@
                == "Failed to load summary: "@ + e@) && self.same_text_state(had) && self.polling
                == had.polling,
        }
        &&& self.editing == had.editing
        &&& self.saving == had.saving
        &&& self.same_choices(had)
    }

    /// Takes over what was found of the summary: its state, nothing, or why it
    /// could not be loaded.
    pub fn finish_refresh(&mut self, found: Result<Option<SummaryProcess>, String>)
        ensures
            final(self).refreshed(old(self), found),
    {
        match found {
            Ok(Some(process)) => self.apply_process(&process),
            Ok(None) => {
                self.phase = SummaryPhase::Idle;
            },
            Err(e) => {
                let mut out = "Failed to load summary: ".to_owned();
                out.append(&e);
                self.phase = SummaryPhase::Error(out);
            },
        }
    }

    /// Whether this is `had` with the old summary gone and a new one on its way.
    pub open spec fn generating_after(&self, had: &Self) -> bool {
        &&& self.markdown@ == ""@
        &&& self.shown@ == ""@
        &&& *self == (SummaryPanel {
            phase: SummaryPhase::Generating,
            has_content: false,
            markdown: self.markdown,
            shown: self.shown,
            ..*had
        })
    }

    /// Starts making a summary, where there is a transcript: the old one goes.
    pub fn begin_generate(&mut self, ready: bool, has_transcript: bool) -> (r: GenerateStep)
        ensures
            r == (if !ready {
                GenerateStep::Ignored
            } else if !has_transcript {
                GenerateStep::NoTranscript
            } else {
                GenerateStep::Start
            }),
            !(r is Start) ==> *final(self) == *old(self),
            r is Start ==> final(self).generating_after(old(self)),
    {
        if !ready {
            return GenerateStep::Ignored;
        }
        if !has_transcript {
            return GenerateStep::NoTranscript;
        }
        self.phase = SummaryPhase::Generating;
        self.has_content = false;
        self.markdown = "".to_owned();
        self.shown = "".to_owned();
        GenerateStep::Start
    }

    /// Whether this is `had` once it is known whether a model is configured.
    pub open spec fn continued(&self, had: &Self, has_model: bool) -> bool {
        if has_model {
            *self == (SummaryPanel { polling: true, ..*had })
        } else {
            (self.phase matches SummaryPhase::Error(e) && e@ == NO_MODEL@) && *self == (
            SummaryPanel { phase: self.phase, ..*had })
        }
    }

    /// Goes on once it is known whether a model is configured: a timer looks
    /// for the result, or the phase says what is missing.
    pub fn continue_generate(&mut self, has_model: bool)
        ensures
            final(self).continued(old(self), has_model),
    {
        if has_model {
            self.polling = true;
        } else {
            self.phase = SummaryPhase::Error(NO_MODEL.to_owned());
        }
    }

    /// Whether the timer that looks for the result goes on after a look.
    pub fn keeps_polling(&self) -> (r: bool)
        ensures
            r == self.phase is Generating,
    {
        match self.phase {
            SummaryPhase::Generating => true,
            _ => false,
        }
    }

    /// Whether this is `had` after a piece of a streamed summary was taken in.
    pub open spec fn streamed(&self, had: &Self, delta: Seq<char>, reduce_motion: bool) -> bool {
        &&& self.has_content
        &&& self.markdown@ == had.markdown@ + delta
        &&& self.shown@ == if reduce_motion {
            had.shown@ + delta
        } else {
            had.shown@
        }
        &&& self.pending@ == if reduce_motion {
            had.pending@
        } else {
            had.pending@ + delta
        }
        &&& self.revealing == (had.revealing || !reduce_motion)
        &&& self.phase == had.phase
        &&& self.polling == had.polling
        &&& self.editing == had.editing
        &&& self.saving == had.saving
        &&& self.same_choices(had)
    }

    /// Takes in a piece of a streamed summary. It counts as written at once; it
    /// is shown at once where motion is reduced, and bit by bit otherwise.
    /// Whether the timer that shows it starts.
    pub fn on_stream(&mut self, delta: &str, reduce_motion: bool) -> (r: bool)
        ensures
            delta@.len() == 0 ==> *final(self) == *old(self) && !r,
            delta@.len() > 0 ==> final(self).streamed(old(self), delta@, reduce_motion) && r == (
            !reduce_motion && !old(self).revealing),
            old(self).in_step() && (!reduce_motion || old(self).pending@.len() == 0)
                ==> final(self).in_step(),
    {
        if delta.is_empty() {
            return false;
        }
        self.has_content = true;
        self.markdown.append(delta);
        if reduce_motion {
            self.shown.append(delta);
            assert(old(self).pending@.len() == 0 ==> self.shown@ + self.pending@
                =~= old(self).shown@ + old(self).pending@ + delta@);
            return false;
        }
        self.pending.append(delta);
        assert(self.shown@ + self.pending@ =~= old(self).shown@ + old(self).pending@ + delta@);
        let starts = !self.revealing;
        self.revealing = true;
        starts
    }

    /// Whether this is `had` after one step of showing what waits.
    pub open spec fn stepped(&self, had: &Self) -> bool {
        let waits = had.pending@;
        let n = revealed_chars(waits) as int;
        &&& self.shown@ == had.shown@ + waits.subrange(0, n)
        &&& self.pending@ == waits.subrange(n, waits.len() as int)
        &&& self.revealing == (self.pending@.len() > 0)
        &&& *self == (SummaryPanel {
            shown: self.shown,
            pending: self.pending,
            revealing: self.revealing,
            ..*had
        })
    }

    /// One step of showing what waits; whether the timer stops.
    pub fn show_some(&mut self) -> (r: bool)
        ensures
            final(self).stepped(old(self)),
            r == (final(self).pending@.len() == 0),
            old(self).pending@.len() > 0 ==> final(self).pending@.len() < old(self).pending@.len(),
            old(self).in_step() ==> final(self).in_step(),
    {
        let cs = chars_of(&self.pending);
        let n: usize = count_revealed(&cs);
        let len: usize = cs.len();
        proof {
            steps_make_progress(cs@);
        }
        let chunk = string_from(&cs, 0, n);
        self.shown.append(&chunk);
        self.pending = string_from(&cs, n, len);
        assert(chunk@ + self.pending@ =~= cs@);
        assert(self.shown@ + self.pending@ =~= old(self).shown@ + (chunk@ + self.pending@));
        let done = n == len;
        self.revealing = !done;
        done
    }

    /// Starts editing; what the editor starts with.
    pub fn start_edit(&mut self) -> (r: String)
        ensures
            r@ == old(self).markdown@,
            *final(self) == (SummaryPanel { editing: true, ..*old(self) }),
    {
        self.editing = true;
        self.markdown.clone()
    }

    /// Ends editing without saving.
    pub fn cancel_edit(&mut self)
        ensures
            *final(self) == (SummaryPanel { editing: false, ..*old(self) }),
    {
        self.editing = false;
    }

    /// Whether leaving now would lose an edit.
    pub fn has_unsaved_edits(&self, editor_text: &str) -> (r: bool)
        ensures
            r == (self.editing && editor_text@ != self.markdown@),
    {
        has_unsaved_summary_edits(self.editing, editor_text, &self.markdown)
    }

    /// Starts saving.
    pub fn begin_save(&mut self)
        ensures
            *final(self) == (SummaryPanel { saving: true, ..*old(self) }),
    {
        self.saving = true;
    }

    /// Whether this is `had` after saving ended: with the edit as the summary, or
    /// with the edit still open.
    pub open spec fn after_save(&self, had: &Self, kept: bool, markdown: Seq<char>) -> bool {
        if kept {
            self.markdown@ == markdown && self.shown@ == markdown && *self == (SummaryPanel {
                saving: false,
                editing: false,
                has_content: markdown.len() > 0,
                markdown: self.markdown,
                shown: self.shown,
                ..*had
            })
        } else {
            *self == (SummaryPanel { saving: false, ..*had })
        }
    }

    /// Takes over how saving ended, for the meeting that is shown or one that
    /// was left meanwhile. The edit ends where it was saved, and stays open
    /// otherwise.
    pub fn finish_save(&mut self, current: bool, saved: bool, markdown: &str)
        ensures
            final(self).after_save(old(self), current && saved, markdown@),
    {
        self.saving = false;
        if current && saved {
            self.markdown = markdown.to_owned();
            self.shown = markdown.to_owned();
            self.has_content = !markdown.is_empty();
            self.editing = false;
        }
    }

    /// Whether the header shows the panel.
    pub open spec fn shows_header(&self, h: SummaryHeader) -> bool {
        let ids = template_ids(self.templates@);
        &&& opt_text(h.status) == match self.phase {
            SummaryPhase::Idle => None,
            SummaryPhase::Loading => Some("Loading summary…"@),
            SummaryPhase::Generating => Some("Generating…"@),
            SummaryPhase::Error(e) => Some(e@),
        }
        &&& h.button@ == match self.phase {
            SummaryPhase::Generating => "Generating…"@,
            SummaryPhase::Error(_) => "Regenerate summary"@,
            _ => if self.has_content {
                "Regenerate summary"@
            } else {
                "Generate summary"@
            },
        }
        &&& h.button_enabled == (self.phase is Idle || self.phase is Error)
        &&& h.can_copy == self.has_content
        &&& h.can_edit == (self.has_content && !(self.phase is Generating))
        &&& h.can_pick_template == (self.templates@.len() > 0 && !(self.phase is Generating))
        &&& if ids.contains(self.selected_template@) {
            let chosen = self.templates@[place_of(ids, self.selected_template@)];
            h.template@ == chosen.1@ && h.template_hint@ == if chosen.2@.len() == 0 {
                "Summary template"@
            } else {
                chosen.2@
            }
        } else {
            h.template@ == "Template"@ && h.template_hint@ == "Summary template"@
        }
        &&& h.save_label@ == if self.saving {
            "Saving…"@
        } else {
            "Save"@
        }
    }

    /// The header of the panel.
    pub fn header(&self) -> (r: SummaryHeader)
        ensures
            self.shows_header(r),
    {
        let (status, button, button_enabled): (Option<String>, &'static str, bool) =
            match &self.phase {
            SummaryPhase::Idle => (
                None,
                if self.has_content {
                    "Regenerate summary"
                } else {
                    "Generate summary"
                },
                true,
            ),
            SummaryPhase::Loading => (
                Some("Loading summary…".to_owned()),
                if self.has_content {
                    "Regenerate summary"
                } else {
                    "Generate summary"
                },
                false,
            ),
            SummaryPhase::Generating => (Some("Generating…".to_owned()), "Generating…", false),
            SummaryPhase::Error(e) => (Some(e.clone()), "Regenerate summary", true),
        };
        let generating = self.keeps_polling();
        let ghost ids = template_ids(self.templates@);
        proof {
            lemma_place_of(ids, self.selected_template@);
        }
        let mut template = "Template".to_owned();
        let mut template_hint = "Summary template".to_owned();
        if self.templates.len() > 0 {
            let at: usize = find_template(&self.templates, &self.selected_template);
            assert(ids[at as int] == self.templates@[at as int].0@);
            if same_text(&self.templates[at].0, &self.selected_template) {
                template = self.templates[at].1.clone();
                if !self.templates[at].2.as_str().is_empty() {
                    template_hint = self.templates[at].2.clone();
                }
            }
        }
        SummaryHeader {
            status,
            button,
            button_enabled,
            can_copy: self.has_content,
            can_edit: self.has_content && !generating,
            can_pick_template: self.templates.len() > 0 && !generating,
            template,
            template_hint,
            save_label: if self.saving {
                "Saving…"
            } else {
                "Save"
            },
        }
    }
}

/// Where an id first stands; the first place where it does not.
pub open spec fn place_of(ids: Seq<Seq<char>>, id: Seq<char>) -> int {
    if ids.contains(id) {
        choose|i: int|
            0 <= i < ids.len() && ids[i] == id && forall|j: int|
                0 <= j < i ==> #[trigger] ids[j] != id
    } else {
        0
    }
}

proof fn lemma_first(ids: Seq<Seq<char>>, id: Seq<char>) -> (i: int)
    requires
        ids.contains(id),
    ensures
        0 <= i < ids.len(),
        ids[i] == id,
        forall|j: int| 0 <= j < i ==> #[trigger] ids[j] != id,
    decreases ids.len(),
{
    if ids[0] == id {
        0
    } else {
        let rest = ids.subrange(1, ids.len() as int);
        let at = choose|i: int| 0 <= i < ids.len() && ids[i] == id;
        assert(rest[at - 1] == id);
        let i = lemma_first(rest, id);
        assert forall|j: int| 0 <= j < i + 1 implies #[trigger] ids[j] != id by {
            if j > 0 {
                assert(ids[j] == rest[j - 1]);
            }
        }
        i + 1
    }
}

pub(crate) proof fn lemma_place_of(ids: Seq<Seq<char>>, id: Seq<char>)
    ensures
        ids.contains(id) ==> 0 <= place_of(ids, id) < ids.len() && ids[place_of(ids, id)] == id
            && forall|j: int| 0 <= j < place_of(ids, id) ==> #[trigger] ids[j] != id,
        !ids.contains(id) ==> place_of(ids, id) == 0,
{
    if ids.contains(id) {
        let i = lemma_first(ids, id);
        assert(0 <= i < ids.len() && ids[i] == id && forall|j: int|
            0 <= j < i ==> #[trigger] ids[j] != id);
    }
}

fn ids_of(templates: &Vec<Template>) -> (r: Vec<String>)
    ensures
        texts(r@) == template_ids(templates@),
{
    let mut out: Vec<String> = Vec::new();
    for i in 0..templates.len()
        invariant
            texts(out@) == template_ids(templates@.take(i as int)),
    {
        let ghost had = out@;
        out.push(templates[i].0.clone());
        proof {
            assert(texts(out@) =~= texts(had).push(templates@[i as int].0@));
            assert(template_ids(templates@.take(i + 1)) =~= template_ids(
                templates@.take(i as int),
            ).push(templates@[i as int].0@));
        }
    }
    assert(templates@.take(templates@.len() as int) =~= templates@);
    out
}

fn find_template(templates: &Vec<Template>, id: &str) -> (r: usize)
    requires
        templates@.len() > 0,
    ensures
        r == place_of(template_ids(templates@), id@),
        r < templates@.len(),
{
    let ghost ids = template_ids(templates@);
    proof {
        lemma_place_of(ids, id@);
    }
    for i in 0..templates.len()
        invariant
            ids == template_ids(templates@),
            forall|j: int| 0 <= j < i ==> #[trigger] ids[j] != id@,
            ids.contains(id@) ==> 0 <= place_of(ids, id@) < ids.len() && ids[place_of(ids, id@)]
                == id@ && forall|j: int| 0 <= j < place_of(ids, id@) ==> #[trigger] ids[j] != id@,
    {
        assert(ids[i as int] == templates@[i as int].0@);
        if same_text(&templates[i].0, id) {
            assert(ids.contains(id@));
            assert(place_of(ids, id@) == i) by {
                let p = place_of(ids, id@);
                if p < i {
                    assert(ids[p] != id@);
                } else if p > i {
                    assert(ids[i as int] != id@);
                }
            }
            return i;
        }
    }
    0
}

/// Going through the templates reaches every one of them and comes round: each
/// step goes one place on.
pub proof fn cycling_goes_round(ids: Seq<Seq<char>>, k: int)
    requires
        ids.no_duplicates(),
        0 <= k < ids.len(),
    ensures
        place_of(ids, ids[k]) == k,
{
    lemma_place_of(ids, ids[k]);
    assert(ids.contains(ids[k]));
}

} // verus!
