//! The dialog that imports an audio file.
use vstd::prelude::*;
use crate::import::files::{duration_text, file_size_text, format_duration, format_file_size, language_label, name_in, progress_percent, speaker_count_label, speakers_text, LANGUAGES};
use crate::numbers::{decimal, push_decimal};
use crate::text::{is_blank, opt_text, same_text, texts, trimmed};
use crate::whisper::models::{available_models, available_names, ModelInfo};

verus! {

/// How far the dialog is.
#[derive(Debug, Clone, Copy, PartialEq, Eq, Structural)]
pub enum Status {
    Idle,
    Validating,
    Processing,
    Error,
}

/// What is known of the chosen file.
#[derive(Debug, Clone, PartialEq, Eq)]
pub struct AudioFileInfo {
    pub path: String,
    pub filename: String,
    /// Whole seconds.
    pub duration_seconds: i64,
    pub size_bytes: u64,
    pub format: String,
}

/// How far the import is.
#[derive(Debug, Clone, PartialEq, Eq)]
pub struct ImportProgress {
    pub stage: String,
    pub progress_percentage: u32,
    pub message: String,
}

/// What is reported about a running import.
#[derive(Debug, Clone, PartialEq, Eq)]
pub enum ImportEvent {
    Progress(ImportProgress),
    /// The meeting that came of it.
    Complete { meeting_id: String },
    Failed { error: String },
    Warning { warning: String, details: Option<String> },
}

/// Which of the reports an event carries.
#[derive(Debug, Clone, Copy, PartialEq, Eq, Structural)]
pub enum ImportEventKind {
    Progress,
    Complete,
    Failed,
    Warning,
}

/// What is to be done outside the dialog.
#[derive(Debug, Clone, PartialEq, Eq)]
pub enum ImportEffect {
    Nothing,
    /// Draw the dialog again.
    Redraw,
    /// Close the dialog, reload the meetings and open this one.
    OpenMeeting(String),
    /// Show a warning.
    Warn(String),
}

/// What to import and how.
#[derive(Debug, Clone, PartialEq, Eq)]
pub struct ImportRequest {
    pub path: String,
    pub title: String,
    /// None is to be detected.
    pub language: Option<String>,
    pub model: Option<String>,
    /// Zero is to be estimated.
    pub num_speakers: i32,
}

/// What is chosen in the dialog's pickers.
#[derive(Debug, Clone, PartialEq, Eq)]
pub struct ImportChoices {
    pub title: String,
    pub language: Option<String>,
    pub speakers: Option<i32>,
    pub model: Option<String>,
}

/// The body of the dialog.
#[derive(Debug, Clone, PartialEq, Eq)]
pub enum DialogBody {
    Failed(String),
    Running { percent: u32, percent_label: String, stage: String, message: String },
    /// No file yet: the button's label, and whether it can be pressed.
    Pick { label: &'static str, enabled: bool },
    File(FileCard),
}

/// How the chosen file is shown.
#[derive(Debug, Clone, PartialEq, Eq)]
pub struct FileCard {
    pub filename: String,
    pub duration: String,
    pub size: String,
    pub format: String,
    pub advanced_label: &'static str,
    pub advanced_shown: bool,
}

/// The buttons below the dialog.
#[derive(Debug, Clone, Copy, PartialEq, Eq, Structural)]
pub enum DialogButtons {
    /// Close, and try again.
    CloseAndRetry,
    /// Cancel the import.
    CancelImport,
    /// Cancel, and import; whether the second can be pressed.
    CancelAndImport { can_import: bool },
}

/// Which report an event's name stands for.
pub open spec fn import_event_named(name: Seq<char>) -> Option<ImportEventKind> {
    if name == "import-progress"@ {
        Some(ImportEventKind::Progress)
    } else if name == "import-complete"@ {
        Some(ImportEventKind::Complete)
    } else if name == "import-error"@ {
        Some(ImportEventKind::Failed)
    } else if name == "import-warning"@ {
        Some(ImportEventKind::Warning)
    } else {
        None
    }
}

/// Which report an event's name stands for.
pub fn import_event_kind(name: &str) -> (r: Option<ImportEventKind>)
    ensures
        r == import_event_named(name@),
{
    if same_text(name, "import-progress") {
        Some(ImportEventKind::Progress)
    } else if same_text(name, "import-complete") {
        Some(ImportEventKind::Complete)
    } else if same_text(name, "import-error") {
        Some(ImportEventKind::Failed)
    } else if same_text(name, "import-warning") {
        Some(ImportEventKind::Warning)
    } else {
        None
    }
}

/// A warning with its details, where it has any.
pub open spec fn warning_text(warning: Seq<char>, details: Option<Seq<char>>) -> Seq<char> {
    match details {
        Some(d) => warning + ": "@ + d,
        None => warning,
    }
}

/// A warning with its details, where it has any.
pub fn warning_message(warning: String, details: Option<String>) -> (r: String)
    ensures
        r@ == warning_text(warning@, opt_text(details)),
{
    match details {
        Some(d) => {
            let mut out = warning;
            out.append(": ");
            out.append(&d);
            out
        },
        None => warning,
    }
}

/// The language to ask for: none where it is to be detected.
pub open spec fn asked_language(selected: Option<Seq<char>>) -> Option<Seq<char>> {
    match selected {
        Some(code) => if code == "auto"@ {
            None
        } else {
            Some(code)
        },
        None => None,
    }
}

/// The language to ask for: none where it is to be detected.
pub fn selected_language(selected: Option<String>) -> (r: Option<String>)
    ensures
        opt_text(r) == asked_language(opt_text(selected)),
{
    match selected {
        Some(code) => if same_text(&code, "auto") {
            None
        } else {
            Some(code)
        },
        None => None,
    }
}

/// The languages that are offered, as codes and names.
pub fn language_options() -> (r: Vec<(String, String)>)
    ensures
        r@.len() == LANGUAGES@.len(),
        forall|i: int|
            0 <= i < r@.len() ==> (#[trigger] r@[i]).0@ == LANGUAGES@[i].0@ && r@[i].1@ == name_in(
                LANGUAGES@,
                LANGUAGES@[i].0@,
            ),
{
    let mut out: Vec<(String, String)> = Vec::new();
    let n: usize = LANGUAGES.len();
    for i in 0..n
        invariant
            n == LANGUAGES@.len(),
            out@.len() == i,
            forall|j: int|
                0 <= j < i ==> (#[trigger] out@[j]).0@ == LANGUAGES@[j].0@ && out@[j].1@ == name_in(
                    LANGUAGES@,
                    LANGUAGES@[j].0@,
                ),
    {
        let (code, _) = LANGUAGES[i];
        out.push((code.to_owned(), language_label(code)));
    }
    out
}

/// The numbers of speakers that are offered: to be estimated, and one to eight.
pub fn speaker_options() -> (r: Vec<(i32, String)>)
    ensures
        r@.len() == 9,
        forall|i: int|
            0 <= i < 9 ==> (#[trigger] r@[i]).0 == i && r@[i].1@ == speakers_text(i),
{
    let mut out: Vec<(i32, String)> = Vec::new();
    let mut n: i32 = 0;
    while n < 9
        invariant
            0 <= n <= 9,
            out@.len() == n,
            forall|i: int|
                0 <= i < n ==> (#[trigger] out@[i]).0 == i && out@[i].1@ == speakers_text(i),
        decreases 9 - n,
    {
        out.push((n, speaker_count_label(n)));
        n += 1;
    }
    out
}

/// The models that are offered, in order. None can be picked where the models
/// could not be listed or none of them can be used.
pub fn model_options(models: Option<Vec<ModelInfo>>) -> (r: Option<Vec<String>>)
    ensures
        match models {
            Some(all) => match r {
                Some(names) => texts(names@) == available_names(all@) && names@.len() > 0,
                None => available_names(all@).len() == 0,
            },
            None => r is None,
        },
{
    let all = match models {
        Some(all) => all,
        None => {
            return None;
        },
    };
    let out = available_models(&all);
    assert(texts(out@).len() == out@.len());
    if out.len() == 0 {
        None
    } else {
        Some(out)
    }
}

/// The dialog while it is open.
pub struct ImportState {
    pub status: Status,
    pub file_info: Option<AudioFileInfo>,
    pub error: Option<String>,
    pub progress: Option<ImportProgress>,
    /// Whether the title was typed over.
    pub title_edited: bool,
    pub show_advanced: bool,
}

impl ImportState {
    /// An empty dialog.
    pub fn new() -> (r: Self)
        ensures
            r.status == Status::Idle,
            r.file_info is None,
            r.error is None,
            r.progress is None,
            !r.title_edited,
            !r.show_advanced,
    {
        ImportState {
            status: Status::Idle,
            file_info: None,
            error: None,
            progress: None,
            title_edited: false,
            show_advanced: false,
        }
    }

    /// Takes note of a change of the title.
    pub fn title_changed(&mut self)
        ensures
            *final(self) == (ImportState { title_edited: true, ..*old(self) }),
    {
        self.title_edited = true;
    }

    /// Shows or hides the advanced options.
    pub fn toggle_advanced(&mut self)
        ensures
            *final(self) == (ImportState { show_advanced: !old(self).show_advanced, ..*old(self) }),
    {
        self.show_advanced = !self.show_advanced;
    }

    /// Starts looking into a file.
    pub fn begin_validate(&mut self)
        ensures
            *final(self) == (ImportState {
                status: Status::Validating,
                error: None,
                ..*old(self)
            }),
    {
        self.status = Status::Validating;
        self.error = None;
    }

    /// Takes over what was found out of a file. The title to set, unless one was
    /// typed: the file's name.
    pub fn finish_validate(&mut self, outcome: Result<AudioFileInfo, String>) -> (r: Option<String>)
        ensures
            match outcome {
                Ok(info) => *final(self) == (ImportState {
                    status: Status::Idle,
                    file_info: Some(info),
                    error: None,
                    ..*old(self)
                }) && opt_text(r) == if old(self).title_edited {
                    None
                } else {
                    Some(info.filename@)
                },
                Err(e) => *final(self) == (ImportState {
                    status: Status::Error,
                    error: Some(e),
                    ..*old(self)
                }) && r is None,
            },
    {
        match outcome {
            Ok(info) => {
                let title = if self.title_edited {
                    None
                } else {
                    Some(info.filename.clone())
                };
                self.file_info = Some(info);
                self.status = Status::Idle;
                self.error = None;
                title
            },
            Err(e) => {
                self.status = Status::Error;
                self.error = Some(e);
                None
            },
        }
    }

    /// Takes in a report about the import.
    pub fn on_core_event(&mut self, event: ImportEvent) -> (r: ImportEffect)
        ensures
            match event {
                ImportEvent::Progress(p) => *final(self) == (ImportState {
                    status: Status::Processing,
                    progress: Some(p),
                    ..*old(self)
                }) && r is Redraw,
                ImportEvent::Complete { meeting_id } => *final(self) == (ImportState {
                    status: Status::Idle,
                    progress: None,
                    ..*old(self)
                }) && (r matches ImportEffect::OpenMeeting(id) && id@ == meeting_id@),
                ImportEvent::Failed { error } => *final(self) == (ImportState {
                    status: Status::Error,
                    progress: None,
                    error: Some(error),
                    ..*old(self)
                }) && r is Redraw,
                ImportEvent::Warning { warning, details } => *final(self) == *old(self)
                    && (r matches ImportEffect::Warn(text) && text@ == warning_text(
                    warning@,
                    opt_text(details),
                )),
            },
    {
        match event {
            ImportEvent::Progress(p) => {
                self.status = Status::Processing;
                self.progress = Some(p);
                ImportEffect::Redraw
            },
            ImportEvent::Complete { meeting_id } => {
                self.status = Status::Idle;
                self.progress = None;
                ImportEffect::OpenMeeting(meeting_id)
            },
            ImportEvent::Failed { error } => {
                self.status = Status::Error;
                self.progress = None;
                self.error = Some(error);
                ImportEffect::Redraw
            },
            ImportEvent::Warning { warning, details } => ImportEffect::Warn(
                warning_message(warning, details),
            ),
        }
    }

    /// Starts the import of the chosen file: under the typed title, or under
    /// the file's name where none was typed. Nothing starts without a file.
    pub fn start_import(&mut self, choices: ImportChoices) -> (r: Option<ImportRequest>)
        ensures
            match old(self).file_info {
                Some(info) => {
                    &&& *final(self) == (ImportState {
                        status: Status::Processing,
                        error: None,
                        progress: None,
                        ..*old(self)
                    })
                    &&& r matches Some(ask) && {
                        &&& ask.path@ == info.path@
                        &&& ask.title@ == if trimmed(choices.title@).len() == 0 {
                            info.filename@
                        } else {
                            choices.title@
                        }
                        &&& opt_text(ask.language) == asked_language(opt_text(choices.language))
                        &&& ask.model == choices.model
                        &&& ask.num_speakers == match choices.speakers {
                            Some(n) => n,
                            None => 0,
                        }
                    }
                },
                None => r is None && *final(self) == *old(self),
            },
    {
        let (path, filename) = match &self.file_info {
            Some(info) => (info.path.clone(), info.filename.clone()),
            None => {
                return None;
            },
        };
        let title = if is_blank(&choices.title) {
            filename
        } else {
            choices.title
        };
        self.status = Status::Processing;
        self.error = None;
        self.progress = None;
        Some(
            ImportRequest {
                path,
                title,
                language: selected_language(choices.language),
                model: choices.model,
                num_speakers: match choices.speakers {
                    Some(n) => n,
                    None => 0,
                },
            },
        )
    }

    /// Whether closing the dialog is to cancel a running import.
    pub fn cancels_import(&self) -> (r: bool)
        ensures
            r == (self.status == Status::Processing),
    {
        self.status == Status::Processing
    }

    /// Goes back to the form after a failure.
    pub fn retry(&mut self)
        ensures
            *final(self) == (ImportState { status: Status::Idle, error: None, ..*old(self) }),
    {
        self.status = Status::Idle;
        self.error = None;
    }

    /// The dialog's title.
    pub fn dialog_title(&self) -> (r: &'static str)
        ensures
            r@ == match self.status {
                Status::Processing => "Importing Audio…"@,
                Status::Error => "Import Failed"@,
                _ => "Import Audio File"@,
            },
    {
        match self.status {
            Status::Processing => "Importing Audio…",
            Status::Error => "Import Failed",
            _ => "Import Audio File",
        }
    }

    /// Whether a click beside the dialog, or a key, can close it.
    pub fn closable(&self) -> (r: bool)
        ensures
            r == (self.status != Status::Processing),
    {
        self.status != Status::Processing
    }

    /// The dialog's buttons.
    pub fn buttons(&self) -> (r: DialogButtons)
        ensures
            r == match self.status {
                Status::Error => DialogButtons::CloseAndRetry,
                Status::Processing => DialogButtons::CancelImport,
                _ => DialogButtons::CancelAndImport { can_import: self.file_info is Some },
            },
    {
        match self.status {
            Status::Error => DialogButtons::CloseAndRetry,
            Status::Processing => DialogButtons::CancelImport,
            _ => DialogButtons::CancelAndImport { can_import: self.file_info.is_some() },
        }
    }

    /// Whether `body` is what the dialog shows.
    pub open spec fn shows(&self, body: DialogBody) -> bool {
        match self.status {
            Status::Error => body matches DialogBody::Failed(text) && text@ == (match self.error {
                Some(e) => e@,
                None => ""@,
            }),
            Status::Processing => body matches DialogBody::Running {
                percent,
                percent_label,
                stage,
                message,
            } && percent_label@ == decimal(percent as nat) + "%"@ && match self.progress {
                Some(p) => percent == (if p.progress_percentage > 100 {
                    100
                } else {
                    p.progress_percentage
                }) && stage@ == p.stage@ && message@ == p.message@,
                None => percent == 0 && stage@ == ""@ && message@ == "Processing audio…"@,
            },
            _ => match self.file_info {
                Some(info) => body matches DialogBody::File(card) && {
                    &&& card.filename@ == info.filename@
                    &&& card.duration@ == duration_text(
                        if info.duration_seconds < 0 {
                            0
                        } else {
                            info.duration_seconds as nat
                        },
                    )
                    &&& card.size@ == file_size_text(info.size_bytes as nat)
                    &&& card.format@ == info.format@
                    &&& card.advanced_shown == self.show_advanced
                    &&& card.advanced_label@ == if self.show_advanced {
                        "Hide advanced options"@
                    } else {
                        "Advanced options"@
                    }
                },
                None => body matches DialogBody::Pick { label, enabled } && enabled == (
                self.status == Status::Idle) && label@ == if enabled {
                    "Select Audio File"@
                } else {
                    "Validating…"@
                },
            },
        }
    }

    /// The body of the dialog.
    pub fn body(&self) -> (r: DialogBody)
        ensures
            self.shows(r),
    {
        match self.status {
            Status::Error => DialogBody::Failed(
                match &self.error {
                    Some(e) => e.clone(),
                    None => "".to_owned(),
                },
            ),
            Status::Processing => {
                let (percent, stage, message): (u32, String, String) = match &self.progress {
                    Some(p) => (
                        progress_percent(p.progress_percentage),
                        p.stage.clone(),
                        p.message.clone(),
                    ),
                    None => (0, "".to_owned(), "Processing audio…".to_owned()),
                };
                let mut percent_label = String::new();
                push_decimal(&mut percent_label, percent as u64);
                percent_label.append("%");
                assert(percent_label@ =~= decimal(percent as nat) + "%"@);
                DialogBody::Running { percent, percent_label, stage, message }
            },
            _ => match &self.file_info {
                Some(info) => DialogBody::File(
                    FileCard {
                        filename: info.filename.clone(),
                        duration: format_duration(info.duration_seconds),
                        size: format_file_size(info.size_bytes),
                        format: info.format.clone(),
                        advanced_label: if self.show_advanced {
                            "Hide advanced options"
                        } else {
                            "Advanced options"
                        },
                        advanced_shown: self.show_advanced,
                    },
                ),
                None => {
                    let enabled = self.status == Status::Idle;
                    DialogBody::Pick {
                        label: if enabled {
                            "Select Audio File"
                        } else {
                            "Validating…"
                        },
                        enabled,
                    }
                },
            },
        }
    }
}

} // verus!
