//! Transcribing a meeting's audio again.
use vstd::prelude::*;
use crate::numbers::{decimal, push_decimal};
use crate::text::{opt_text, texts, trim, trimmed};
use crate::whisper::models::{available_models, available_names, ModelInfo};
use crate::words::{ascii_lowercase, same_ignoring_ascii_case};

verus! {

/// What is shown where there is no audio.
pub const NO_AUDIO: &'static str = "This meeting has no saved audio to retranscribe.";

/// What is shown where it is being done already.
pub const IN_PROGRESS: &'static str = "Retranscription already in progress";

/// The part of the meeting page that transcribes again.
pub struct RetranscribePanel {
    pub open: bool,
    /// The models that can be used.
    pub models: Vec<String>,
    pub model_index: Option<usize>,
    pub in_progress: bool,
    pub progress_pct: u32,
    pub progress_message: String,
    pub error: Option<String>,
}

/// What opening the panel leads to.
#[derive(Debug, Clone, Copy, PartialEq, Eq, Structural)]
pub enum OpenStep {
    /// Show [`NO_AUDIO`].
    NoAudio,
    LoadModels,
    Ready,
}

/// What to transcribe again and how.
#[derive(Debug, Clone, PartialEq, Eq)]
pub struct RetranscribeRequest {
    pub meeting_id: String,
    pub folder: String,
    /// None is to be detected.
    pub language: Option<String>,
    pub model: Option<String>,
    pub provider: Option<String>,
}

/// What starting leads to.
#[derive(Debug, Clone, PartialEq, Eq)]
pub enum StartStep {
    Ignored,
    /// Show [`IN_PROGRESS`].
    Busy,
    Start(RetranscribeRequest),
}

/// The language to ask for: what was typed, unless that is nothing or "auto".
pub open spec fn typed_language(typed: Seq<char>) -> Option<Seq<char>> {
    let t = trimmed(typed);
    if t.len() == 0 || ascii_lowercase(t) == ascii_lowercase("auto"@) {
        None
    } else {
        Some(t)
    }
}

/// The language to ask for.
pub fn language_typed(typed: &str) -> (r: Option<String>)
    ensures
        opt_text(r) == typed_language(typed@),
{
    let t = trim(typed);
    if t.as_str().is_empty() || same_ignoring_ascii_case(&t, "auto") {
        None
    } else {
        Some(t)
    }
}

impl RetranscribePanel {
    /// The panel before any meeting was shown.
    pub fn new() -> (r: Self)
        ensures
            !r.open,
            r.models@.len() == 0,
            r.model_index is None,
            r.idle(),
    {
        RetranscribePanel {
            open: false,
            models: Vec::new(),
            model_index: None,
            in_progress: false,
            progress_pct: 0,
            progress_message: "".to_owned(),
            error: None,
        }
    }

    /// Whether nothing runs and nothing failed.
    pub open spec fn idle(&self) -> bool {
        !self.in_progress && self.progress_pct == 0 && self.progress_message@ == ""@
            && self.error is None
    }

    /// Starts over for another meeting; the models stay.
    pub fn reset(&mut self)
        ensures
            !final(self).open,
            final(self).idle(),
            final(self).models == old(self).models,
            final(self).model_index == old(self).model_index,
    {
        self.open = false;
        self.in_progress = false;
        self.error = None;
        self.progress_pct = 0;
        self.progress_message = "".to_owned();
    }

    /// The model that is chosen.
    pub open spec fn chosen(&self) -> Option<Seq<char>> {
        match self.model_index {
            Some(i) => if i < self.models@.len() {
                Some(self.models@[i as int]@)
            } else {
                None
            },
            None => None,
        }
    }

    /// Opens the panel, where there is audio.
    pub fn open_panel(&mut self, has_audio: bool) -> (r: OpenStep)
        ensures
            r == (if !has_audio {
                OpenStep::NoAudio
            } else if old(self).models@.len() == 0 {
                OpenStep::LoadModels
            } else {
                OpenStep::Ready
            }),
            *final(self) == (if has_audio {
                RetranscribePanel { open: true, error: None, ..*old(self) }
            } else {
                *old(self)
            }),
    {
        if !has_audio {
            return OpenStep::NoAudio;
        }
        self.open = true;
        self.error = None;
        if self.models.len() == 0 {
            OpenStep::LoadModels
        } else {
            OpenStep::Ready
        }
    }

    /// Whether this is `had` after the models were taken over.
    pub open spec fn offering(&self, had: &Self, models: Option<Vec<ModelInfo>>) -> bool {
        match models {
            Some(all) => {
                &&& texts(self.models@) == available_names(all@)
                &&& self.model_index == if had.model_index is None && available_names(all@).len() > 0 {
                    Some(0usize)
                } else {
                    had.model_index
                }
                &&& *self == (RetranscribePanel {
                    models: self.models,
                    model_index: self.model_index,
                    ..*had
                })
            },
            None => *self == *had,
        }
    }

    /// Takes over the models, of which those that can be used are offered. The
    /// first is chosen where none was. Models that could not be listed leave
    /// things as they were.
    pub fn finish_models(&mut self, models: Option<Vec<ModelInfo>>)
        ensures
            final(self).offering(old(self), models),
    {
        if let Some(all) = models {
            self.models = available_models(&all);
            assert(texts(self.models@).len() == self.models@.len());
            if self.model_index.is_none() && self.models.len() > 0 {
                self.model_index = Some(0);
            }
        }
    }

    /// Closes the panel.
    pub fn close(&mut self)
        ensures
            *final(self) == (RetranscribePanel { open: false, ..*old(self) }),
    {
        self.open = false;
    }

    /// Chooses the next model, round to the first, where there is any.
    pub fn cycle_model(&mut self)
        ensures
            *final(self) == (RetranscribePanel {
                model_index: if old(self).models@.len() == 0 {
                    old(self).model_index
                } else {
                    match old(self).model_index {
                        Some(i) => Some(((i + 1) % (old(self).models@.len() as int)) as usize),
                        None => Some(0),
                    }
                },
                ..*old(self)
            }),
    {
        let n: usize = self.models.len();
        if n == 0 {
            return;
        }
        let next: usize = match self.model_index {
            Some(i) => {
                let next: u128 = ((i as u128) + 1) % (n as u128);
                assert(0 <= next < n);
                next as usize
            },
            None => 0,
        };
        self.model_index = Some(next);
    }

    /// Starts, where there are a meeting with audio and nothing that runs.
    pub fn start(
        &mut self,
        meeting_id: &Option<String>,
        folder: &Option<String>,
        busy: bool,
        typed: &str,
    ) -> (r: StartStep)
        ensures
            match (*meeting_id, *folder) {
                (Some(id), Some(path)) => if busy {
                    r is Busy && *final(self) == *old(self)
                } else {
                    &&& r matches StartStep::Start(ask) && {
                        &&& ask.meeting_id@ == id@
                        &&& ask.folder@ == path@
                        &&& opt_text(ask.language) == typed_language(typed@)
                        &&& opt_text(ask.model) == old(self).chosen()
                        &&& opt_text(ask.provider) == match old(self).chosen() {
                            Some(_) => Some("localWhisper"@),
                            None => None,
                        }
                    }
                    &&& final(self).progress_message@ == "Starting…"@
                    &&& *final(self) == (RetranscribePanel {
                        in_progress: true,
                        error: None,
                        progress_pct: 0,
                        progress_message: final(self).progress_message,
                        ..*old(self)
                    })
                },
                _ => r is Ignored && *final(self) == *old(self),
            },
    {
        match (meeting_id, folder) {
            (Some(id), Some(path)) => {
                if busy {
                    return StartStep::Busy;
                }
                let model = match self.model_index {
                    Some(i) => if i < self.models.len() {
                        Some(self.models[i].clone())
                    } else {
                        None
                    },
                    None => None,
                };
                let provider = match &model {
                    Some(_) => Some("localWhisper".to_owned()),
                    None => None,
                };
                self.in_progress = true;
                self.error = None;
                self.progress_pct = 0;
                self.progress_message = "Starting…".to_owned();
                StartStep::Start(
                    RetranscribeRequest {
                        meeting_id: id.clone(),
                        folder: path.clone(),
                        language: language_typed(typed),
                        model,
                        provider,
                    },
                )
            },
            _ => StartStep::Ignored,
        }
    }

    /// Takes in how far it is.
    pub fn on_progress(&mut self, percentage: u32, message: String)
        ensures
            *final(self) == (RetranscribePanel {
                progress_pct: percentage,
                progress_message: message,
                ..*old(self)
            }),
    {
        self.progress_pct = percentage;
        self.progress_message = message;
    }

    /// Takes in that it is done; what to tell.
    pub fn on_complete(&mut self, segments: u64) -> (r: String)
        ensures
            *final(self) == (RetranscribePanel { in_progress: false, open: false, ..*old(self) }),
            r@ == "Retranscription complete: "@ + decimal(segments as nat) + " segments"@,
    {
        self.in_progress = false;
        self.open = false;
        let mut out = "Retranscription complete: ".to_owned();
        push_decimal(&mut out, segments);
        out.append(" segments");
        out
    }

    /// Takes in that it failed.
    pub fn on_error(&mut self, error: String)
        ensures
            *final(self) == (RetranscribePanel {
                in_progress: false,
                error: Some(error),
                ..*old(self)
            }),
    {
        self.in_progress = false;
        self.error = Some(error);
    }

    /// The label of the model picker.
    pub fn model_label(&self) -> (r: String)
        ensures
            r@ == match self.chosen() {
                Some(name) => name,
                None => "Default"@,
            },
    {
        match self.model_index {
            Some(i) => if i < self.models.len() {
                self.models[i].clone()
            } else {
                "Default".to_owned()
            },
            None => "Default".to_owned(),
        }
    }

    /// Whether the form is shown: nothing runs and nothing failed.
    pub fn shows_form(&self) -> (r: bool)
        ensures
            r == (!self.in_progress && self.error is None),
    {
        !self.in_progress && self.error.is_none()
    }

    /// How far it is: "40% — Decoding".
    pub fn progress_line(&self) -> (r: String)
        ensures
            r@ == decimal(self.progress_pct as nat) + "% — "@ + self.progress_message@,
    {
        let mut out = String::new();
        push_decimal(&mut out, self.progress_pct as u64);
        out.append("% — ");
        out.append(&self.progress_message);
        assert(out@ =~= decimal(self.progress_pct as nat) + "% — "@ + self.progress_message@);
        out
    }
}

} // verus!
