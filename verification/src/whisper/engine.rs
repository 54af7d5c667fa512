//! The engine: which model is loaded, what is known of the others, and how
//! they are loaded, deleted and downloaded.
use vstd::prelude::*;
use crate::text::{opt_text, opt_text_is};
use crate::text_map::TextMap;
use crate::whisper::decode::{other_purpose, pool_get_or_insert, DecodePurpose, StatePool};
use crate::whisper::models::{describe_status, info_for, model_info, scan_catalog_entry, scanned, status_words, CatalogEntry, FoundFile, ModelInfo, ModelStatus};

verus! {

/// The engine. `C` is a loaded model, `S` a decoder state on it.
pub struct WhisperEngine<C, S> {
    pub models_dir: String,
    pub current_context: Option<C>,
    pub current_model: Option<String>,
    pub state_pool: StatePool<S>,
    pub available_models: TextMap<ModelInfo>,
    /// The models that are being downloaded.
    pub downloads: Vec<String>,
    /// The models whose download is to stop.
    pub cancelled: Vec<String>,
}

/// What is known of the models.
pub type Known = Map<Seq<char>, ModelInfo>;

/// `known` with another status for one of its models.
pub open spec fn restatus(known: Known, name: Seq<char>, status: ModelStatus) -> Known {
    if known.dom().contains(name) {
        known.insert(name, ModelInfo { status, ..known[name] })
    } else {
        known
    }
}

/// The progress of a download that is known of, if any.
pub open spec fn known_progress(known: Known, name: Seq<char>) -> Option<u8> {
    if known.dom().contains(name) {
        match known[name].status {
            ModelStatus::Downloading { progress } => Some(progress),
            _ => None,
        }
    } else {
        None
    }
}

/// What is known once `models` were found.
pub open spec fn known_from(models: Seq<ModelInfo>) -> Known
    decreases models.len(),
{
    if models.len() == 0 {
        Map::empty()
    } else {
        known_from(models.drop_last()).insert(models.last().name@, models.last())
    }
}

/// Why a model that is not available cannot be loaded.
pub open spec fn load_refusal(name: Seq<char>, status: ModelStatus) -> Seq<char> {
    match status {
        ModelStatus::Available => Seq::empty(),
        ModelStatus::Missing => "Model "@ + name + " is not downloaded"@,
        ModelStatus::Downloading { .. } => "Model "@ + name + " is currently downloading"@,
        ModelStatus::Error(e) => "Model "@ + name + " has error: "@ + e@,
        ModelStatus::Corrupted { .. } => "Model "@ + name
            + " is corrupted and cannot be loaded"@,
    }
}

/// What loading a model takes.
#[derive(Debug, Clone, PartialEq, Eq)]
pub enum LoadStep {
    /// It is loaded already.
    AlreadyLoaded,
    /// This file is to be loaded. Another model may have been unloaded.
    LoadFile(String),
}

/// Why a model's file could not be loaded.
#[derive(Debug, Clone, PartialEq, Eq)]
pub enum LoadFault {
    /// The file could not be loaded.
    Failed(String),
    /// The work did not come to an end.
    Crashed(String),
}

/// The error where a model's file could not be loaded.
pub open spec fn load_error(name: Seq<char>, fault: LoadFault) -> Seq<char> {
    match fault {
        LoadFault::Failed(e) => "Failed to load model "@ + name + ": "@ + e@,
        LoadFault::Crashed(e) => "Model loading task panicked: "@ + e@,
    }
}

/// The graphics hardware.
#[derive(Debug, Clone, Copy, PartialEq, Eq, Structural)]
pub enum GpuType {
    Cuda,
    Vulkan,
    CpuOnly,
}

/// How fast the hardware is.
#[derive(Debug, Clone, Copy, PartialEq, Eq, Structural)]
pub enum PerformanceTier {
    Low,
    Medium,
    High,
    Ultra,
}

/// Whether to use flash attention: on fast CUDA hardware only.
pub fn flash_attention(gpu: GpuType, tier: PerformanceTier) -> (r: bool)
    ensures
        r == (gpu is Cuda && (tier is High || tier is Ultra)),
{
    matches!(gpu, GpuType::Cuda) && matches!(tier, PerformanceTier::High | PerformanceTier::Ultra)
}

impl<C, S> WhisperEngine<C, S> {
    /// Whether a model is loaded exactly where its name is known, and decoder
    /// states are there only on a loaded model.
    pub open spec fn wf(&self) -> bool {
        &&& self.current_context is Some <==> self.current_model is Some
        &&& self.current_context is None ==> self.state_pool == (StatePool::<S> {
            final_state: None,
            partial_state: None,
        })
    }

    /// Whether `other` differs at most in what it knows of models and
    /// downloads.
    pub open spec fn same_model(&self, other: &Self) -> bool {
        &&& self.models_dir == other.models_dir
        &&& self.current_context == other.current_context
        &&& self.current_model == other.current_model
        &&& self.state_pool == other.state_pool
    }

    /// An engine with nothing loaded.
    pub fn new_with_models_dir(models_dir: String) -> (r: Self)
        ensures
            r.wf(),
            r.models_dir == models_dir,
            r.current_context is None,
            r.available_models@ == Known::empty(),
            r.downloads@.len() == 0,
            r.cancelled@.len() == 0,
    {
        WhisperEngine {
            models_dir,
            current_context: None,
            current_model: None,
            state_pool: StatePool::new(),
            available_models: TextMap::new(),
            downloads: Vec::new(),
            cancelled: Vec::new(),
        }
    }

    /// The loaded model's name.
    pub fn get_current_model(&self) -> (r: Option<String>)
        ensures
            opt_text(r) == opt_text(self.current_model),
    {
        match &self.current_model {
            Some(m) => Some(m.clone()),
            None => None,
        }
    }

    /// Whether a model is loaded.
    pub fn is_model_loaded(&self) -> (r: bool)
        ensures
            r == (self.current_context is Some),
    {
        self.current_context.is_some()
    }

    /// Where models are kept.
    pub fn get_models_directory(&self) -> (r: String)
        ensures
            r@ == self.models_dir@,
    {
        self.models_dir.clone()
    }

    fn progress_of(&self, name: &str) -> (r: Option<u8>)
        ensures
            r == known_progress(self.available_models@, name@),
    {
        match self.available_models.get(name) {
            Some(info) => match &info.status {
                ModelStatus::Downloading { progress } => Some(*progress),
                _ => None,
            },
            None => None,
        }
    }

    /// Takes over what a scan of the models directory found. `found` is what is
    /// on disk for each entry; a download that is known of is not mistaken for
    /// a corrupted file.
    pub fn discover_models(
        &mut self,
        catalog: &Vec<CatalogEntry>,
        found: &Vec<Option<FoundFile>>,
    ) -> (r: Vec<ModelInfo>)
        requires
            old(self).wf(),
            catalog@.len() == found@.len(),
        ensures
            final(self).wf(),
            final(self).same_model(old(self)),
            final(self).downloads == old(self).downloads,
            final(self).cancelled == old(self).cancelled,
            r@.len() == catalog@.len(),
            forall|i: int|
                0 <= i < catalog@.len() ==> info_for(
                    #[trigger] catalog@[i],
                    old(self).models_dir@,
                    scanned(
                        found@[i],
                        catalog@[i].size_mb,
                        known_progress(old(self).available_models@, catalog@[i].name@),
                    ),
                    r@[i],
                ),
            final(self).available_models@ == known_from(r@),
    {
        let mut models: Vec<ModelInfo> = Vec::new();
        for i in 0..catalog.len()
            invariant
                *self == *old(self),
                catalog@.len() == found@.len(),
                models@.len() == i,
                forall|k: int|
                    0 <= k < i ==> info_for(
                        #[trigger] catalog@[k],
                        self.models_dir@,
                        scanned(
                            found@[k],
                            catalog@[k].size_mb,
                            known_progress(self.available_models@, catalog@[k].name@),
                        ),
                        models@[k],
                    ),
        {
            let progress = self.progress_of(&catalog[i].name);
            let status = scan_catalog_entry(&found[i], catalog[i].size_mb, progress);
            let info = model_info(&catalog[i], &self.models_dir, status);
            models.push(info);
        }
        let mut known: TextMap<ModelInfo> = TextMap::new();
        assert(models@.take(0) =~= Seq::<ModelInfo>::empty());
        for i in 0..models.len()
            invariant
                known@ == known_from(models@.take(i as int)),
        {
            let ghost next = models@.take(i + 1);
            assert(next.drop_last() =~= models@.take(i as int));
            assert(next.last() == models@[i as int]);
            let copy = models[i].copy();
            known.insert(&models[i].name, copy);
        }
        assert(models@.take(models@.len() as int) =~= models@);
        self.available_models = known;
        models
    }

    pub(crate) fn set_status(&mut self, name: &str, status: ModelStatus)
        ensures
            final(self).same_model(old(self)),
            final(self).downloads == old(self).downloads,
            final(self).cancelled == old(self).cancelled,
            final(self).available_models@ == restatus(old(self).available_models@, name@, status),
    {
        let changed = match self.available_models.get(name) {
            Some(info) => Some(info.with_status(status)),
            None => None,
        };
        if let Some(info) = changed {
            self.available_models.insert(name, info);
        }
    }

    /// Unloads the model, if one is loaded, together with the decoder states
    /// on it. Whether one was.
    pub fn unload_model(&mut self) -> (r: bool)
        requires
            old(self).wf(),
        ensures
            final(self).wf(),
            r == (old(self).current_context is Some),
            final(self).current_context is None,
            final(self).current_model is None,
            final(self).models_dir == old(self).models_dir,
            final(self).available_models == old(self).available_models,
            final(self).downloads == old(self).downloads,
            final(self).cancelled == old(self).cancelled,
    {
        let was = self.current_context.is_some();
        self.current_context = None;
        self.current_model = None;
        self.state_pool = StatePool::new();
        was
    }

    /// Starts loading a model. It has to be known and available. One that is
    /// loaded is not loaded again; another one is unloaded first.
    pub fn begin_load(&mut self, name: &str) -> (r: Result<LoadStep, String>)
        requires
            old(self).wf(),
        ensures
            final(self).wf(),
            final(self).models_dir == old(self).models_dir,
            final(self).available_models == old(self).available_models,
            final(self).downloads == old(self).downloads,
            final(self).cancelled == old(self).cancelled,
            if !old(self).available_models@.dom().contains(name@) {
                &&& r matches Err(e) && e@ == "Model "@ + name@ + " not found"@
                &&& *final(self) == *old(self)
            } else if !(old(self).available_models@[name@].status is Available) {
                &&& r matches Err(e) && e@ == load_refusal(
                    name@,
                    old(self).available_models@[name@].status,
                )
                &&& *final(self) == *old(self)
            } else if opt_text(old(self).current_model) == Some(name@) {
                &&& r matches Ok(LoadStep::AlreadyLoaded)
                &&& *final(self) == *old(self)
            } else {
                &&& r matches Ok(LoadStep::LoadFile(path)) && path@
                    == old(self).available_models@[name@].path@
                &&& final(self).current_context is None
                &&& final(self).current_model is None
            },
    {
        let path = match self.available_models.get(name) {
            None => {
                let mut out = "Model ".to_owned();
                out.append(name);
                out.append(" not found");
                return Err(out);
            },
            Some(info) => {
                if !info.status.is_available() {
                    return Err(refuse_load(name, &info.status));
                }
                info.path.clone()
            },
        };
        if opt_text_is(&self.current_model, name) {
            return Ok(LoadStep::AlreadyLoaded);
        }
        if self.current_model.is_some() {
            let _ = self.unload_model();
        }
        Ok(LoadStep::LoadFile(path))
    }

    /// Takes over a model that was loaded.
    pub fn finish_load(&mut self, name: &str, context: C)
        requires
            old(self).wf(),
        ensures
            final(self).wf(),
            final(self).current_context == Some(context),
            opt_text(final(self).current_model) == Some(name@),
            final(self).state_pool == old(self).state_pool,
            final(self).models_dir == old(self).models_dir,
            final(self).available_models == old(self).available_models,
            final(self).downloads == old(self).downloads,
            final(self).cancelled == old(self).cancelled,
    {
        self.current_context = Some(context);
        self.current_model = Some(name.to_owned());
    }

    /// Takes over how loading ended: the model, or why it could not be loaded.
    pub fn end_load(&mut self, name: &str, loaded: Result<C, LoadFault>) -> (r: Result<(), String>)
        requires
            old(self).wf(),
        ensures
            final(self).wf(),
            match loaded {
                Ok(context) => r is Ok && final(self).current_context == Some(context) && opt_text(
                    final(self).current_model,
                ) == Some(name@) && *final(self) == (WhisperEngine {
                    current_context: final(self).current_context,
                    current_model: final(self).current_model,
                    ..*old(self)
                }),
                Err(fault) => *final(self) == *old(self) && (r matches Err(e) && e@ == load_error(
                    name@,
                    fault,
                )),
            },
    {
        match loaded {
            Ok(context) => {
                self.finish_load(name, context);
                Ok(())
            },
            Err(LoadFault::Failed(e)) => {
                let mut out = "Failed to load model ".to_owned();
                out.append(name);
                out.append(": ");
                out.append(&e);
                Err(out)
            },
            Err(LoadFault::Crashed(e)) => {
                let mut out = "Model loading task panicked: ".to_owned();
                out.append(&e);
                Err(out)
            },
        }
    }

    // -----------------------------------------------------------------------
    // Deleting
    // -----------------------------------------------------------------------

    /// The file to delete for a model. Only a corrupted or an available one can
    /// be deleted.
    pub fn begin_delete(&self, name: &str) -> (r: Result<String, String>)
        ensures
            if !self.available_models@.dom().contains(name@) {
                r matches Err(e) && e@ == "Model '"@ + name@ + "' not found"@
            } else {
                let status = self.available_models@[name@].status;
                if status is Corrupted || status is Available {
                    r matches Ok(path) && path@ == self.available_models@[name@].path@
                } else {
                    r matches Err(e) && e@
                        == "Can only delete corrupted or available models. Model '"@ + name@
                        + "' has status: "@ + status_words(status)
                }
            },
    {
        match self.available_models.get(name) {
            None => {
                let mut out = "Model '".to_owned();
                out.append(name);
                out.append("' not found");
                Err(out)
            },
            Some(info) => match &info.status {
                ModelStatus::Corrupted { .. } | ModelStatus::Available => Ok(info.path.clone()),
                _ => {
                    let mut out =
                        "Can only delete corrupted or available models. Model '".to_owned();
                    out.append(name);
                    out.append("' has status: ");
                    let words = describe_status(&info.status);
                    out.append(&words);
                    Err(out)
                },
            },
        }
    }

    /// Takes over that a model's file is gone: the model is missing. What to
    /// say about it.
    pub fn finish_delete(&mut self, name: &str) -> (r: String)
        requires
            old(self).wf(),
            old(self).available_models@.dom().contains(name@),
            old(self).available_models@[name@].status is Corrupted
                || old(self).available_models@[name@].status is Available,
        ensures
            final(self).wf(),
            final(self).same_model(old(self)),
            final(self).downloads == old(self).downloads,
            final(self).cancelled == old(self).cancelled,
            final(self).available_models@ == restatus(
                old(self).available_models@,
                name@,
                ModelStatus::Missing,
            ),
            r@ == if old(self).available_models@[name@].status is Corrupted {
                "Successfully deleted corrupted model '"@ + name@ + "'"@
            } else {
                "Successfully deleted model '"@ + name@ + "'"@
            },
    {
        let corrupted = match self.available_models.get(name) {
            Some(info) => matches!(info.status, ModelStatus::Corrupted { .. }),
            None => false,
        };
        let mut out = if corrupted {
            "Successfully deleted corrupted model '".to_owned()
        } else {
            "Successfully deleted model '".to_owned()
        };
        out.append(name);
        out.append("'");
        self.set_status(name, ModelStatus::Missing);
        out
    }

    /// Takes over whether a model's file could be removed: what to say about it,
    /// or why it could not be.
    pub fn end_delete(&mut self, name: &str, removed: Result<(), String>) -> (r: Result<
        String,
        String,
    >)
        requires
            old(self).wf(),
            old(self).available_models@.dom().contains(name@),
            old(self).available_models@[name@].status is Corrupted
                || old(self).available_models@[name@].status is Available,
        ensures
            final(self).wf(),
            match removed {
                Ok(_) => {
                    &&& final(self).same_model(old(self))
                    &&& final(self).downloads == old(self).downloads
                    &&& final(self).cancelled == old(self).cancelled
                    &&& final(self).available_models@ == restatus(
                        old(self).available_models@,
                        name@,
                        ModelStatus::Missing,
                    )
                    &&& r matches Ok(told) && told@ == if old(
                        self).available_models@[name@].status is Corrupted {
                        "Successfully deleted corrupted model '"@ + name@ + "'"@
                    } else {
                        "Successfully deleted model '"@ + name@ + "'"@
                    }
                },
                Err(why) => *final(self) == *old(self) && (r matches Err(e) && e@
                    == "Failed to delete file '"@ + old(self).available_models@[name@].path@
                    + "': "@ + why@),
            },
    {
        match removed {
            Ok(_) => Ok(self.finish_delete(name)),
            Err(why) => {
                let path = match self.available_models.get(name) {
                    Some(info) => info.path.clone(),
                    None => "".to_owned(),
                };
                let mut out = "Failed to delete file '".to_owned();
                out.append(&path);
                out.append("': ");
                out.append(&why);
                Err(out)
            },
        }
    }
}

impl<C, S: Clone> WhisperEngine<C, S> {
    /// The decoder state for `purpose`: the one that is there, else one that
    /// `make` makes on the loaded model.
    pub fn get_or_create_state<F: FnOnce(&C) -> Result<S, String>>(
        &mut self,
        purpose: DecodePurpose,
        make: F,
    ) -> (r: Result<S, String>)
        requires
            old(self).wf(),
            forall|c: &C| #[trigger] make.requires((c,)),
        ensures
            final(self).wf(),
            final(self).models_dir == old(self).models_dir,
            final(self).current_context == old(self).current_context,
            final(self).current_model == old(self).current_model,
            final(self).available_models == old(self).available_models,
            final(self).downloads == old(self).downloads,
            final(self).cancelled == old(self).cancelled,
            final(self).state_pool.slot(other_purpose(purpose)) == old(self).state_pool.slot(
                other_purpose(purpose),
            ),
            match old(self).state_pool.slot(purpose) {
                Some(there) => final(self).state_pool.slot(purpose) == Some(there) && (
                r matches Ok(s) && cloned(there, s)),
                None => match old(self).current_context {
                    None => r matches Err(e) && e@
                        == "No model loaded. Please load a model first."@
                        && final(self).state_pool.slot(purpose) is None,
                    Some(context) => exists|made: Result<S, String>| #[trigger]
                        make.ensures((&context,), made) && match made {
                            Ok(state) => final(self).state_pool.slot(purpose) == Some(state) && (
                            r matches Ok(s) && cloned(state, s)),
                            Err(e) => final(self).state_pool.slot(purpose) is None && (
                            r matches Err(f) && f == e),
                        },
                },
            },
    {
        if let Some(there) = self.state_pool.get(purpose) {
            return Ok(there.clone());
        }
        match &self.current_context {
            None => Err("No model loaded. Please load a model first.".to_owned()),
            Some(context) => {
                let made = make(context);
                let hand = || -> (r: Result<S, String>)
                    ensures
                        r == made,
                    { made };
                pool_get_or_insert(&mut self.state_pool, purpose, hand)
            },
        }
    }
}

fn refuse_load(name: &str, status: &ModelStatus) -> (r: String)
    requires
        !(*status is Available),
    ensures
        r@ == load_refusal(name@, *status),
{
    let mut out = "Model ".to_owned();
    out.append(name);
    match status {
        ModelStatus::Available => {},
        ModelStatus::Missing => {
            out.append(" is not downloaded");
        },
        ModelStatus::Downloading { .. } => {
            out.append(" is currently downloading");
        },
        ModelStatus::Error(e) => {
            out.append(" has error: ");
            out.append(e);
        },
        ModelStatus::Corrupted { .. } => {
            out.append(" is corrupted and cannot be loaded");
        },
    }
    out
}

/// Changing what is known of one model leaves the others as they were.
pub proof fn other_models_are_untouched(
    known: Known,
    name: Seq<char>,
    status: ModelStatus,
    other: Seq<char>,
)
    requires
        other != name,
    ensures
        restatus(known, name, status).dom() == known.dom(),
        known.dom().contains(other) ==> restatus(known, name, status)[other] == known[other],
{
    assert(restatus(known, name, status).dom() =~= known.dom());
}

} // verus!
