//! The first launch: creating the database, downloading the models, and what
//! the main window opens with.
use vstd::prelude::*;
use crate::numbers::{decimal, push_decimal};
use crate::text::{opt_text, same_text};

verus! {

/// A step of the setup.
#[derive(Debug, Clone, Copy, PartialEq, Eq, Structural)]
pub enum Step {
    Welcome,
    SetupOverview,
    DownloadProgress,
}

/// The number of a step, from one on.
pub open spec fn step_number(step: Step) -> int {
    match step {
        Step::Welcome => 1,
        Step::SetupOverview => 2,
        Step::DownloadProgress => 3,
    }
}

/// The step that a stored number stands for: the first below it, the last above.
pub open spec fn step_at(n: int) -> Step {
    if n <= 1 {
        Step::Welcome
    } else if n == 2 {
        Step::SetupOverview
    } else {
        Step::DownloadProgress
    }
}

impl Step {
    /// The number of the step, from one on.
    pub fn number(self) -> (r: u8)
        ensures
            r == step_number(self),
    {
        match self {
            Step::Welcome => 1,
            Step::SetupOverview => 2,
            Step::DownloadProgress => 3,
        }
    }

    /// The step that a stored number stands for.
    pub fn clamp(n: u8) -> (r: Step)
        ensures
            r == step_at(n as int),
    {
        if n <= 1 {
            Step::Welcome
        } else if n == 2 {
            Step::SetupOverview
        } else {
            Step::DownloadProgress
        }
    }
}

/// The next step; the last one stays.
pub fn next_step(step: Step) -> (r: Step)
    ensures
        r == step_at(step_number(step) + 1),
{
    match step {
        Step::Welcome => Step::SetupOverview,
        Step::SetupOverview => Step::DownloadProgress,
        Step::DownloadProgress => Step::DownloadProgress,
    }
}

/// The step before; the first one stays.
pub fn previous_step(step: Step) -> (r: Step)
    ensures
        r == step_at(step_number(step) - 1),
{
    match step {
        Step::Welcome => Step::Welcome,
        Step::SetupOverview => Step::Welcome,
        Step::DownloadProgress => Step::SetupOverview,
    }
}

/// A step comes back from its number.
pub proof fn steps_come_back(step: Step)
    ensures
        step_at(step_number(step)) == step,
{
}

/// Every number gives a step, and a larger number no earlier one.
pub proof fn clamping_keeps_order(m: int, n: int)
    requires
        m <= n,
    ensures
        1 <= step_number(step_at(m)) <= step_number(step_at(n)) <= 3,
{
}

/// Going on and back again leads to where one was, short of the last step.
pub proof fn going_back_undoes_going_on(step: Step)
    requires
        step != Step::DownloadProgress,
    ensures
        step_at(step_number(step_at(step_number(step) + 1)) - 1) == step,
{
}

/// The speech model that the setup downloads.
pub const ONBOARDING_WHISPER_MODEL: &'static str = "large-v3-turbo-q5_0";

/// The summary model of machines for which none is recommended.
pub const SMALL_SUMMARY_MODEL: &'static str = "gemma3:1b";

/// The summary model of machines with more memory.
pub const LARGE_SUMMARY_MODEL: &'static str = "gemma3:4b";

/// The size that is shown for a summary model.
pub fn summary_model_size_label(model: &str) -> (r: &'static str)
    ensures
        r@ == if model@ == LARGE_SUMMARY_MODEL@ {
            "~2.5 GB"@
        } else {
            "~806 MB"@
        },
{
    if same_text(model, LARGE_SUMMARY_MODEL) {
        "~2.5 GB"
    } else {
        "~806 MB"
    }
}

/// Whether the setup can be finished: the speech model is there, and it is not
/// being finished already.
pub fn can_continue(whisper_downloaded: bool, completing: bool) -> (r: bool)
    ensures
        r == (whisper_downloaded && !completing),
{
    whisper_downloaded && !completing
}

/// How far a download is.
#[derive(Debug, Clone, PartialEq, Eq)]
pub struct DownloadState {
    pub downloaded: bool,
    pub in_progress: bool,
    pub progress: u32,
    pub error: Option<String>,
}

impl DownloadState {
    /// A download that has not started.
    pub open spec fn fresh(&self) -> bool {
        !self.downloaded && !self.in_progress && self.progress == 0 && self.error is None
    }

    /// A download that has not started.
    pub fn new() -> (r: Self)
        ensures
            r.fresh(),
    {
        DownloadState { downloaded: false, in_progress: false, progress: 0, error: None }
    }

    /// How the download's state is shown.
    pub open spec fn shown(&self) -> Seq<char> {
        if self.downloaded {
            "Done"@
        } else if self.error is Some {
            "Failed"@
        } else if self.in_progress {
            decimal(self.progress as nat) + "%"@
        } else {
            "Waiting…"@
        }
    }

    /// How the download's state is shown.
    pub fn status_text(&self) -> (r: String)
        ensures
            r@ == self.shown(),
    {
        if self.downloaded {
            "Done".to_owned()
        } else if self.error.is_some() {
            "Failed".to_owned()
        } else if self.in_progress {
            let mut out = String::new();
            push_decimal(&mut out, self.progress as u64);
            out.append("%");
            assert(out@ =~= self.shown());
            out
        } else {
            "Waiting…".to_owned()
        }
    }
}

/// What is reported about a download.
#[derive(Debug, Clone, PartialEq, Eq)]
pub enum SetupEvent {
    WhisperProgress { model: String, progress: u8 },
    WhisperComplete { model: String },
    WhisperFailed { model: String, error: String },
    Summary { model: String, progress: u8, status: String, error: Option<String> },
}

/// Which of the reports an event carries.
#[derive(Debug, Clone, Copy, PartialEq, Eq, Structural)]
pub enum SetupEventKind {
    WhisperProgress,
    WhisperComplete,
    WhisperFailed,
    Summary,
}

/// Which report an event's name stands for.
pub open spec fn setup_event_named(name: Seq<char>) -> Option<SetupEventKind> {
    if name == "model-download-progress"@ {
        Some(SetupEventKind::WhisperProgress)
    } else if name == "model-download-complete"@ {
        Some(SetupEventKind::WhisperComplete)
    } else if name == "model-download-error"@ {
        Some(SetupEventKind::WhisperFailed)
    } else if name == "builtin-ai-download-progress"@ {
        Some(SetupEventKind::Summary)
    } else {
        None
    }
}

/// Which report an event's name stands for.
pub fn setup_event_kind(name: &str) -> (r: Option<SetupEventKind>)
    ensures
        r == setup_event_named(name@),
{
    if same_text(name, "model-download-progress") {
        Some(SetupEventKind::WhisperProgress)
    } else if same_text(name, "model-download-complete") {
        Some(SetupEventKind::WhisperComplete)
    } else if same_text(name, "model-download-error") {
        Some(SetupEventKind::WhisperFailed)
    } else if same_text(name, "builtin-ai-download-progress") {
        Some(SetupEventKind::Summary)
    } else {
        None
    }
}

/// A speech download after a report about the setup's speech model.
pub open spec fn whisper_after(had: DownloadState, event: SetupEvent) -> DownloadState {
    match event {
        SetupEvent::WhisperProgress { model, progress } => if model@ == ONBOARDING_WHISPER_MODEL@ {
            DownloadState { in_progress: true, progress: progress as u32, ..had }
        } else {
            had
        },
        SetupEvent::WhisperComplete { model } => if model@ == ONBOARDING_WHISPER_MODEL@ {
            DownloadState { downloaded: true, in_progress: false, progress: 100, ..had }
        } else {
            had
        },
        SetupEvent::WhisperFailed { model, error } => if model@ == ONBOARDING_WHISPER_MODEL@ {
            DownloadState { in_progress: false, error: Some(error), ..had }
        } else {
            had
        },
        SetupEvent::Summary { .. } => had,
    }
}

/// Whether reports about a summary model concern the setup.
pub open spec fn is_setup_summary(model: Seq<char>, recommended: Seq<char>) -> bool {
    model == recommended || model == SMALL_SUMMARY_MODEL@ || model == LARGE_SUMMARY_MODEL@
}

/// A summary download after a report.
pub open spec fn summary_after(
    had: DownloadState,
    event: SetupEvent,
    recommended: Seq<char>,
) -> DownloadState {
    match event {
        SetupEvent::Summary { model, progress, status, error } => if is_setup_summary(
            model@,
            recommended,
        ) {
            if status@ == "completed"@ {
                DownloadState {
                    progress: progress as u32,
                    downloaded: true,
                    in_progress: false,
                    ..had
                }
            } else if status@ == "error"@ {
                DownloadState { progress: progress as u32, in_progress: false, error, ..had }
            } else {
                DownloadState { progress: progress as u32, in_progress: true, ..had }
            }
        } else {
            had
        },
        _ => had,
    }
}

/// A finished speech download stays finished, whatever is reported.
pub proof fn downloads_stay_done(had: DownloadState, event: SetupEvent, recommended: Seq<char>)
    ensures
        had.downloaded ==> whisper_after(had, event).downloaded,
        had.downloaded ==> summary_after(had, event, recommended).downloaded,
{
}

/// What is stored when the setup is finished.
#[derive(Debug, Clone, PartialEq, Eq)]
pub struct OnboardingStatus {
    pub completed: bool,
    pub current_step: u8,
    pub transcription_model: String,
    pub summary_model: String,
}

/// Marks a stored status as finished: both models are there, at the last step.
pub fn mark_completed(status: &mut OnboardingStatus)
    ensures
        final(status).completed,
        final(status).current_step == step_number(Step::DownloadProgress),
        final(status).transcription_model@ == "downloaded"@,
        final(status).summary_model@ == "downloaded"@,
{
    status.completed = true;
    status.current_step = Step::DownloadProgress.number();
    status.transcription_model = "downloaded".to_owned();
    status.summary_model = "downloaded".to_owned();
}

/// What is to be set off outside when the setup is shown or goes on.
#[derive(Debug, Clone, Copy, PartialEq, Eq, Structural)]
pub struct SetupWork {
    pub create_db: bool,
    pub start_downloads: bool,
}

/// What finishing the setup leads to.
#[derive(Debug, Clone, Copy, PartialEq, Eq, Structural)]
pub enum CompleteStep {
    /// It is not time yet.
    Ignored,
    /// There is no database to store in.
    NoDatabase,
    /// Store the settings and the status.
    Store,
}

/// The setup.
pub struct OnboardingView {
    pub step: Step,
    /// Whether there is no database yet.
    pub needs_db_creation: bool,
    pub db_ready: bool,
    pub db_error: Option<String>,
    pub creating_db: bool,
    pub downloads_started: bool,
    pub whisper: DownloadState,
    pub summary: DownloadState,
    pub recommended_model: String,
    pub completing: bool,
    pub complete_error: Option<String>,
}

impl OnboardingView {
    /// The setup at a step; what it sets off. The database is created where
    /// there is none, and the downloads start where the setup goes on at the
    /// last step.
    pub fn new(needs_db_creation: bool, start_step: Step, recommended: Option<String>) -> (r: (
        Self,
        SetupWork,
    ))
        ensures
            r.0.step == start_step,
            r.0.needs_db_creation == needs_db_creation,
            r.0.db_ready == !needs_db_creation,
            r.0.db_error is None,
            r.0.creating_db == needs_db_creation,
            r.0.downloads_started == (start_step == Step::DownloadProgress),
            r.0.whisper == (DownloadState {
                downloaded: false,
                in_progress: start_step == Step::DownloadProgress,
                progress: 0,
                error: None,
            }),
            r.0.summary == r.0.whisper,
            r.0.recommended_model@ == match recommended {
                Some(m) => m@,
                None => SMALL_SUMMARY_MODEL@,
            },
            !r.0.completing,
            r.0.complete_error is None,
            r.1.create_db == needs_db_creation,
            r.1.start_downloads == (start_step == Step::DownloadProgress),
    {
        let mut view = OnboardingView {
            step: start_step,
            needs_db_creation,
            db_ready: !needs_db_creation,
            db_error: None,
            creating_db: false,
            downloads_started: false,
            whisper: DownloadState::new(),
            summary: DownloadState::new(),
            recommended_model: match recommended {
                Some(m) => m,
                None => SMALL_SUMMARY_MODEL.to_owned(),
            },
            completing: false,
            complete_error: None,
        };
        let create_db = if needs_db_creation {
            view.start_db_creation()
        } else {
            false
        };
        let start_downloads = if view.step == Step::DownloadProgress {
            view.start_downloads()
        } else {
            false
        };
        (view, SetupWork { create_db, start_downloads })
    }

    /// Starts creating the database, unless it is there or being created;
    /// whether it starts.
    pub fn start_db_creation(&mut self) -> (r: bool)
        ensures
            r == (!old(self).creating_db && !old(self).db_ready),
            *final(self) == (OnboardingView {
                creating_db: old(self).creating_db || r,
                ..*old(self)
            }),
    {
        if self.creating_db || self.db_ready {
            return false;
        }
        self.creating_db = true;
        true
    }

    /// Takes over how creating the database ended.
    pub fn finish_db_creation(&mut self, result: Result<(), String>)
        ensures
            *final(self) == match result {
                Ok(_) => OnboardingView { creating_db: false, db_ready: true, ..*old(self) },
                Err(e) => OnboardingView { creating_db: false, db_error: Some(e), ..*old(self) },
            },
    {
        self.creating_db = false;
        match result {
            Ok(_) => {
                self.db_ready = true;
            },
            Err(e) => {
                self.db_error = Some(e);
            },
        }
    }

    /// The setup with its downloads started.
    pub open spec fn with_downloads(self) -> Self {
        if self.downloads_started {
            self
        } else {
            OnboardingView {
                downloads_started: true,
                whisper: DownloadState { in_progress: true, ..self.whisper },
                summary: DownloadState { in_progress: true, ..self.summary },
                ..self
            }
        }
    }

    /// Starts both downloads, once; whether they start now.
    pub fn start_downloads(&mut self) -> (r: bool)
        ensures
            r == !old(self).downloads_started,
            *final(self) == old(self).with_downloads(),
    {
        if self.downloads_started {
            return false;
        }
        self.downloads_started = true;
        self.whisper.in_progress = true;
        self.summary.in_progress = true;
        true
    }

    /// The setup one step on.
    pub open spec fn next(self) -> Self {
        let on = OnboardingView { step: step_at(step_number(self.step) + 1), ..self };
        if on.step == Step::DownloadProgress {
            on.with_downloads()
        } else {
            on
        }
    }

    /// Goes one step on; whether the downloads start.
    pub fn go_next(&mut self) -> (r: bool)
        ensures
            *final(self) == old(self).next(),
            r == (old(self).step != Step::Welcome && !old(self).downloads_started),
    {
        self.step = next_step(self.step);
        if self.step == Step::DownloadProgress {
            self.start_downloads()
        } else {
            false
        }
    }

    /// Goes one step back.
    pub fn go_previous(&mut self)
        ensures
            *final(self) == (OnboardingView {
                step: step_at(step_number(old(self).step) - 1),
                ..*old(self)
            }),
    {
        self.step = previous_step(self.step);
    }

    /// Takes in a report about a download.
    pub fn on_core_event(&mut self, event: SetupEvent)
        ensures
            *final(self) == (OnboardingView {
                whisper: whisper_after(old(self).whisper, event),
                summary: summary_after(old(self).summary, event, old(self).recommended_model@),
                ..*old(self)
            }),
    {
        match event {
            SetupEvent::WhisperProgress { model, progress } => {
                if same_text(&model, ONBOARDING_WHISPER_MODEL) {
                    self.whisper.in_progress = true;
                    self.whisper.progress = progress as u32;
                }
            },
            SetupEvent::WhisperComplete { model } => {
                if same_text(&model, ONBOARDING_WHISPER_MODEL) {
                    self.whisper.downloaded = true;
                    self.whisper.in_progress = false;
                    self.whisper.progress = 100;
                }
            },
            SetupEvent::WhisperFailed { model, error } => {
                if same_text(&model, ONBOARDING_WHISPER_MODEL) {
                    self.whisper.in_progress = false;
                    self.whisper.error = Some(error);
                }
            },
            SetupEvent::Summary { model, progress, status, error } => {
                if same_text(&model, &self.recommended_model) || same_text(
                    &model,
                    SMALL_SUMMARY_MODEL,
                ) || same_text(&model, LARGE_SUMMARY_MODEL) {
                    self.summary.progress = progress as u32;
                    if same_text(&status, "completed") {
                        self.summary.downloaded = true;
                        self.summary.in_progress = false;
                    } else if same_text(&status, "error") {
                        self.summary.in_progress = false;
                        self.summary.error = error;
                    } else {
                        self.summary.in_progress = true;
                    }
                }
            },
        }
    }

    /// Starts finishing the setup.
    pub fn complete(&mut self, has_db: bool) -> (r: CompleteStep)
        ensures
            r == (if old(self).completing || !old(self).whisper.downloaded {
                CompleteStep::Ignored
            } else if !has_db {
                CompleteStep::NoDatabase
            } else {
                CompleteStep::Store
            }),
            match r {
                CompleteStep::Ignored => *final(self) == *old(self),
                CompleteStep::NoDatabase => opt_text(final(self).complete_error) == Some(
                    "Database not ready yet"@,
                ) && *final(self) == (OnboardingView {
                    completing: false,
                    complete_error: final(self).complete_error,
                    ..*old(self)
                }),
                CompleteStep::Store => *final(self) == (OnboardingView {
                    completing: true,
                    complete_error: None,
                    ..*old(self)
                }),
            },
    {
        if !can_continue(self.whisper.downloaded, self.completing) {
            return CompleteStep::Ignored;
        }
        self.completing = true;
        self.complete_error = None;
        if !has_db {
            self.completing = false;
            self.complete_error = Some("Database not ready yet".to_owned());
            return CompleteStep::NoDatabase;
        }
        CompleteStep::Store
    }

    /// Takes over how storing ended; whether the setup is done.
    pub fn finish_complete(&mut self, result: Result<(), String>) -> (r: bool)
        ensures
            r == result is Ok,
            *final(self) == match result {
                Ok(_) => OnboardingView { completing: false, ..*old(self) },
                Err(e) => OnboardingView {
                    completing: false,
                    complete_error: Some(e),
                    ..*old(self)
                },
            },
    {
        self.completing = false;
        match result {
            Ok(_) => true,
            Err(e) => {
                self.complete_error = Some(e);
                false
            },
        }
    }

    /// Whether the setup waits for the database.
    pub open spec fn waits_for_db(&self) -> bool {
        self.needs_db_creation && (!self.db_ready || self.creating_db)
    }

    /// Whether the setup waits for the database.
    pub fn continue_disabled(&self) -> (r: bool)
        ensures
            r == self.waits_for_db(),
    {
        self.needs_db_creation && (!self.db_ready || self.creating_db)
    }

    /// How far the database is.
    pub fn status_line(&self) -> (r: String)
        ensures
            r@ == match self.db_error {
                Some(e) => "Setup failed: "@ + e@,
                None => if self.waits_for_db() {
                    "Setting up your local database…"@
                } else {
                    "Ready."@
                },
            },
    {
        match &self.db_error {
            Some(e) => {
                let mut out = "Setup failed: ".to_owned();
                out.append(e);
                out
            },
            None => if self.continue_disabled() {
                "Setting up your local database…".to_owned()
            } else {
                "Ready.".to_owned()
            },
        }
    }

    /// Why finishing failed, where it did.
    pub fn complete_error_line(&self) -> (r: Option<String>)
        ensures
            opt_text(r) == match self.complete_error {
                Some(e) => Some("Failed to finish setup: "@ + e@),
                None => None,
            },
    {
        match &self.complete_error {
            Some(e) => {
                let mut out = "Failed to finish setup: ".to_owned();
                out.append(e);
                Some(out)
            },
            None => None,
        }
    }

    /// The label of the last button, and whether it can be pressed.
    pub fn finish_button(&self) -> (r: (&'static str, bool))
        ensures
            r.0@ == if self.completing {
                "Finishing…"@
            } else {
                "Continue"@
            },
            r.1 == (self.whisper.downloaded && !self.completing),
    {
        let label = if self.completing {
            "Finishing…"
        } else {
            "Continue"
        };
        (label, can_continue(self.whisper.downloaded, self.completing))
    }

    /// Which of the three marks of the step indicator are lit.
    pub fn lit_marks(&self) -> (r: [bool; 3])
        ensures
            forall|i: int| 0 <= i < 3 ==> #[trigger] r@[i] == (i + 1 <= step_number(self.step)),
    {
        let n: u8 = self.step.number();
        [1 <= n, 2 <= n, 3 <= n]
    }
}

/// What is stored of the models to use.
#[derive(Debug, Clone, PartialEq, Eq)]
pub struct ModelRecords {
    pub provider: String,
    pub model: String,
    pub whisper_model: String,
    pub ollama_endpoint: Option<String>,
    pub transcript_provider: String,
    pub transcript_model: String,
}

/// Whether the records are those of a setup with a summary model.
pub open spec fn records_for(r: ModelRecords, model: Seq<char>, whisper: Seq<char>) -> bool {
    &&& r.provider@ == "builtin-ai"@
    &&& r.model@ == model
    &&& r.whisper_model@ == "large-v3"@
    &&& r.ollama_endpoint is None
    &&& r.transcript_provider@ == "localWhisper"@
    &&& r.transcript_model@ == whisper
}

fn model_records(model: &str, whisper: &str) -> (r: ModelRecords)
    ensures
        records_for(r, model@, whisper@),
{
    ModelRecords {
        provider: "builtin-ai".to_owned(),
        model: model.to_owned(),
        whisper_model: "large-v3".to_owned(),
        ollama_endpoint: None,
        transcript_provider: "localWhisper".to_owned(),
        transcript_model: whisper.to_owned(),
    }
}

/// What is stored where the database was just made. `whisper` is the speech
/// model that is used where none was chosen.
pub fn records_at_creation(whisper: &str) -> (r: ModelRecords)
    ensures
        records_for(r, SMALL_SUMMARY_MODEL@, whisper@),
{
    model_records(SMALL_SUMMARY_MODEL, whisper)
}

/// What is stored where the setup is finished.
pub fn records_at_completion(recommended: &str, whisper: &str) -> (r: ModelRecords)
    ensures
        records_for(r, recommended@, whisper@),
{
    model_records(recommended, whisper)
}

/// What the main window shows.
#[derive(Debug, Clone, Copy, PartialEq, Eq, Structural)]
pub enum Opening {
    /// The stored status is being read.
    Loading,
    Onboarding { needs_db_creation: bool, step: Step },
    Shell,
}

/// What the main window opens with: the setup from its start where there is no
/// database, else nothing until the status has been read.
pub fn first_view(has_db: bool) -> (r: Opening)
    ensures
        r == if has_db {
            Opening::Loading
        } else {
            Opening::Onboarding { needs_db_creation: true, step: Step::Welcome }
        },
{
    if has_db {
        Opening::Loading
    } else {
        Opening::Onboarding { needs_db_creation: true, step: Step::Welcome }
    }
}

/// What the main window shows for a stored status: the setup where it was left,
/// if it was not finished, else the shell. A status that cannot be read counts
/// as finished.
pub open spec fn opening_for(status: Option<OnboardingStatus>) -> Opening {
    match status {
        Some(s) => if s.completed {
            Opening::Shell
        } else {
            Opening::Onboarding { needs_db_creation: false, step: step_at(s.current_step as int) }
        },
        None => Opening::Shell,
    }
}

/// What the main window shows once the status has been read.
pub fn view_for_status(status: &Option<OnboardingStatus>) -> (r: Opening)
    ensures
        r == opening_for(*status),
{
    match status {
        Some(s) => if s.completed {
            Opening::Shell
        } else {
            Opening::Onboarding { needs_db_creation: false, step: Step::clamp(s.current_step) }
        },
        None => Opening::Shell,
    }
}

/// A setup that was left at a step goes on at that step, and one that was
/// finished is not shown again.
pub proof fn setup_resumes_where_it_was_left(status: OnboardingStatus, step: Step)
    requires
        status.current_step == step_number(step),
    ensures
        opening_for(Some(status)) == if status.completed {
            Opening::Shell
        } else {
            Opening::Onboarding { needs_db_creation: false, step }
        },
{
}

/// However often the setup goes on, its downloads start once.
pub proof fn downloads_start_once(view: OnboardingView)
    ensures
        view.with_downloads().with_downloads() == view.with_downloads(),
        view.downloads_started ==> view.next().whisper == view.whisper && view.next().summary
            == view.summary,
{
}

} // verus!
