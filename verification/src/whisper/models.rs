//! The models on disk: what the catalog lists, what a scan finds, and which
//! one to use.
use vstd::prelude::*;
use crate::numbers::{decimal, push_decimal};
use crate::paths::{join_path, path_in};
use crate::settings::config::TranscriptConfig;
use crate::text::{opt_text, same_text, texts};

verus! {

/// What is known of a model's file.
#[derive(Debug, Clone, PartialEq, Eq)]
pub enum ModelStatus {
    Available,
    Missing,
    Downloading { progress: u8 },
    Error(String),
    Corrupted { file_size: u64, expected_min_size: u64 },
}

impl ModelStatus {
    /// The same status.
    pub fn copy(&self) -> (r: Self)
        ensures
            r == *self,
    {
        match self {
            ModelStatus::Available => ModelStatus::Available,
            ModelStatus::Missing => ModelStatus::Missing,
            ModelStatus::Downloading { progress } => ModelStatus::Downloading {
                progress: *progress,
            },
            ModelStatus::Error(e) => ModelStatus::Error(e.clone()),
            ModelStatus::Corrupted { file_size, expected_min_size } => ModelStatus::Corrupted {
                file_size: *file_size,
                expected_min_size: *expected_min_size,
            },
        }
    }

    /// Whether the model can be used.
    pub fn is_available(&self) -> (r: bool)
        ensures
            r == (*self is Available),
    {
        matches!(self, ModelStatus::Available)
    }
}

/// A quoted text, with what cannot be printed escaped.
pub uninterp spec fn quoted(s: Seq<char>) -> Seq<char>;

/// The `Debug` form of a `str`: the text in double quotes, escaped, a function
/// of the text alone.
#[verifier::external_body]
pub(crate) fn quote(s: &str) -> (r: String)
    ensures
        r@ == quoted(s@),
{
    format!("{:?}", s)
}

/// A status in words, for messages about it.
pub open spec fn status_words(status: ModelStatus) -> Seq<char> {
    match status {
        ModelStatus::Available => "Available"@,
        ModelStatus::Missing => "Missing"@,
        ModelStatus::Downloading { progress } => "Downloading { progress: "@ + decimal(
            progress as nat,
        ) + " }"@,
        ModelStatus::Error(e) => "Error("@ + quoted(e@) + ")"@,
        ModelStatus::Corrupted { file_size, expected_min_size } => "Corrupted { file_size: "@
            + decimal(file_size as nat) + ", expected_min_size: "@ + decimal(
            expected_min_size as nat,
        ) + " }"@,
    }
}

/// A status in words, for messages about it.
pub fn describe_status(status: &ModelStatus) -> (r: String)
    ensures
        r@ == status_words(*status),
{
    match status {
        ModelStatus::Available => "Available".to_owned(),
        ModelStatus::Missing => "Missing".to_owned(),
        ModelStatus::Downloading { progress } => {
            let mut out = "Downloading { progress: ".to_owned();
            push_decimal(&mut out, *progress as u64);
            out.append(" }");
            out
        },
        ModelStatus::Error(e) => {
            let mut out = "Error(".to_owned();
            let q = quote(e);
            out.append(&q);
            out.append(")");
            out
        },
        ModelStatus::Corrupted { file_size, expected_min_size } => {
            let mut out = "Corrupted { file_size: ".to_owned();
            push_decimal(&mut out, *file_size);
            out.append(", expected_min_size: ");
            push_decimal(&mut out, *expected_min_size);
            out.append(" }");
            out
        },
    }
}

/// A model of the catalog.
#[derive(Debug, Clone, PartialEq, Eq)]
pub struct CatalogEntry {
    pub name: String,
    pub filename: String,
    pub size_mb: u32,
    pub accuracy: String,
    pub speed: String,
    pub description: String,
}

/// A model, and what is known of its file.
#[derive(Debug, Clone, PartialEq, Eq)]
pub struct ModelInfo {
    pub name: String,
    pub path: String,
    pub size_mb: u32,
    pub accuracy: String,
    pub speed: String,
    pub status: ModelStatus,
    pub description: String,
}

impl ModelInfo {
    /// The same model.
    pub fn copy(&self) -> (r: Self)
        ensures
            r == *self,
    {
        ModelInfo {
            name: self.name.clone(),
            path: self.path.clone(),
            size_mb: self.size_mb,
            accuracy: self.accuracy.clone(),
            speed: self.speed.clone(),
            status: self.status.copy(),
            description: self.description.clone(),
        }
    }

    /// The same model with another status.
    pub fn with_status(&self, status: ModelStatus) -> (r: Self)
        ensures
            r == (ModelInfo { status, ..*self }),
    {
        ModelInfo {
            name: self.name.clone(),
            path: self.path.clone(),
            size_mb: self.size_mb,
            accuracy: self.accuracy.clone(),
            speed: self.speed.clone(),
            status,
            description: self.description.clone(),
        }
    }
}

// ---------------------------------------------------------------------------
// Scanning
// ---------------------------------------------------------------------------

/// The four bytes that a model's file can start with, in each version and
/// byte order.
pub open spec fn known_magic(b: Seq<u8>) -> bool {
    ||| b == seq![0x67u8, 0x67u8, 0x6du8, 0x6cu8]
    ||| b == seq![0x47u8, 0x47u8, 0x55u8, 0x46u8]
    ||| b == seq![0x67u8, 0x67u8, 0x6du8, 0x66u8]
    ||| b == seq![0x6cu8, 0x6du8, 0x67u8, 0x67u8]
    ||| b == seq![0x46u8, 0x55u8, 0x47u8, 0x55u8]
    ||| b == seq![0x66u8, 0x6du8, 0x67u8, 0x67u8]
}

/// Whether the first eight bytes of a file are those of a model.
pub open spec fn model_header(header: Seq<u8>) -> bool {
    header.len() == 8 && known_magic(header.subrange(0, 4))
}

/// What reading the first eight bytes of a model's file came to.
#[derive(Debug, Clone, PartialEq, Eq)]
pub enum HeaderRead {
    /// The file could not be opened, for this reason.
    NotOpened(String),
    /// Eight bytes could not be read, for this reason.
    NotRead(String),
    Bytes([u8; 8]),
}

/// The text of a byte string, with a replacement character for what is no
/// UTF-8.
pub uninterp spec fn lossy(bytes: Seq<u8>) -> Seq<char>;

/// `String::from_utf8_lossy`: the text of the bytes, a function of them alone.
#[verifier::external_body]
fn text_of_bytes(bytes: &Vec<u8>) -> (r: String)
    ensures
        r@ == lossy(bytes@),
{
    String::from_utf8_lossy(bytes).into_owned()
}

/// Why a file is not taken for a model, or nothing where it is one.
pub open spec fn header_fault(read: HeaderRead) -> Option<Seq<char>> {
    match read {
        HeaderRead::NotOpened(e) => Some("Failed to open model file: "@ + e@),
        HeaderRead::NotRead(e) => Some("Failed to read model file header: "@ + e@),
        HeaderRead::Bytes(b) => if model_header(b@) {
            None
        } else {
            Some(
                "Invalid model file: missing GGML/GGUF magic number. Found: "@ + quoted(
                    lossy(b@.subrange(0, 4)),
                ),
            )
        },
    }
}

fn is_magic(b: &[u8; 8]) -> (r: bool)
    ensures
        r == model_header(b@),
{
    let (p, q, s, t) = (b[0], b[1], b[2], b[3]);
    assert(b@.subrange(0, 4) =~= seq![p, q, s, t]);
    let r = (p == 0x67 && q == 0x67 && s == 0x6d && t == 0x6c) || (p == 0x47 && q == 0x47 && s
        == 0x55 && t == 0x46) || (p == 0x67 && q == 0x67 && s == 0x6d && t == 0x66) || (p == 0x6c
        && q == 0x6d && s == 0x67 && t == 0x67) || (p == 0x46 && q == 0x55 && s == 0x47 && t
        == 0x55) || (p == 0x66 && q == 0x6d && s == 0x67 && t == 0x67);
    proof {
        let four = seq![p, q, s, t];
        if known_magic(four) {
            assert(four[0] == p && four[1] == q && four[2] == s && four[3] == t);
        }
        if r {
            assert(four =~= seq![0x67u8, 0x67u8, 0x6du8, 0x6cu8] || four =~= seq![
                0x47u8,
                0x47u8,
                0x55u8,
                0x46u8,
            ] || four =~= seq![0x67u8, 0x67u8, 0x6du8, 0x66u8] || four =~= seq![
                0x6cu8,
                0x6du8,
                0x67u8,
                0x67u8,
            ] || four =~= seq![0x46u8, 0x55u8, 0x47u8, 0x55u8] || four =~= seq![
                0x66u8,
                0x6du8,
                0x67u8,
                0x67u8,
            ]);
        }
    }
    r
}

/// Whether a file is a model's, by its first bytes; if not, why.
pub fn validate_model_file_magic(read: &HeaderRead) -> (r: Result<(), String>)
    ensures
        match r {
            Ok(_) => header_fault(*read) is None,
            Err(e) => header_fault(*read) == Some(e@),
        },
{
    match read {
        HeaderRead::NotOpened(e) => {
            let mut out = "Failed to open model file: ".to_owned();
            out.append(e);
            Err(out)
        },
        HeaderRead::NotRead(e) => {
            let mut out = "Failed to read model file header: ".to_owned();
            out.append(e);
            Err(out)
        },
        HeaderRead::Bytes(b) => {
            if is_magic(b) {
                return Ok(());
            }
            let mut four: Vec<u8> = Vec::new();
            four.push(b[0]);
            four.push(b[1]);
            four.push(b[2]);
            four.push(b[3]);
            assert(four@ =~= b@.subrange(0, 4));
            let found = text_of_bytes(&four);
            let found = quote(&found);
            let mut out =
                "Invalid model file: missing GGML/GGUF magic number. Found: ".to_owned();
            out.append(&found);
            Err(out)
        },
    }
}

/// A model's file: its size in bytes, and its first bytes.
#[derive(Debug, Clone, PartialEq, Eq)]
pub struct FoundFile {
    pub size: u64,
    pub header: HeaderRead,
}

/// The fewest megabytes that a model's file is to have: nine tenths of its
/// size.
pub open spec fn min_size_mb(size_mb: u32) -> int {
    size_mb * 9 / 10
}

/// What a scan makes of a model's file. One that is large enough is available,
/// or corrupted where its first bytes are not a model's. One that is too small
/// is being downloaded where that is known, else corrupted; an empty one counts
/// for nothing.
pub open spec fn scanned(
    file: Option<FoundFile>,
    size_mb: u32,
    downloading_progress: Option<u8>,
) -> ModelStatus {
    match file {
        None => ModelStatus::Missing,
        Some(f) => {
            let mb = f.size / 1_048_576;
            let corrupted = ModelStatus::Corrupted {
                file_size: f.size,
                expected_min_size: (min_size_mb(size_mb) * 1_048_576) as u64,
            };
            if mb >= min_size_mb(size_mb) && mb > 1 {
                if header_fault(f.header) is None {
                    ModelStatus::Available
                } else {
                    corrupted
                }
            } else if f.size > 0 {
                match downloading_progress {
                    Some(progress) => ModelStatus::Downloading { progress },
                    None => corrupted,
                }
            } else {
                ModelStatus::Missing
            }
        },
    }
}

/// What a scan makes of a model's file.
pub fn scan_catalog_entry(
    file: &Option<FoundFile>,
    size_mb: u32,
    downloading_progress: Option<u8>,
) -> (r: ModelStatus)
    ensures
        r == scanned(*file, size_mb, downloading_progress),
{
    match file {
        None => ModelStatus::Missing,
        Some(f) => {
            let mb: u64 = f.size / 1_048_576;
            let min: u64 = size_mb as u64 * 9 / 10;
            if mb >= min && mb > 1 {
                match validate_model_file_magic(&f.header) {
                    Ok(_) => ModelStatus::Available,
                    Err(_) => ModelStatus::Corrupted {
                        file_size: f.size,
                        expected_min_size: min * 1_048_576,
                    },
                }
            } else if f.size > 0 {
                match downloading_progress {
                    Some(progress) => ModelStatus::Downloading { progress },
                    None => ModelStatus::Corrupted {
                        file_size: f.size,
                        expected_min_size: min * 1_048_576,
                    },
                }
            } else {
                ModelStatus::Missing
            }
        },
    }
}

/// A scan never calls a file available that is too small or whose first bytes
/// are not a model's, only a file that is too small is taken for a download,
/// and one that is too small but not empty is corrupted where nothing is known of
/// a download.
pub proof fn scans_are_careful(file: Option<FoundFile>, size_mb: u32, progress: Option<u8>)
    ensures
        scanned(file, size_mb, progress) is Available ==> (file matches Some(f) && f.size
            >= 2 * 1_048_576 && f.size >= min_size_mb(size_mb) * 1_048_576 && header_fault(
            f.header,
        ) is None),
        scanned(file, size_mb, progress) is Downloading ==> progress is Some,
        !(scanned(file, size_mb, progress) is Error),
        file matches Some(f) ==> (0 < f.size < min_size_mb(size_mb) * 1_048_576 && progress is None
            ==> scanned(file, size_mb, progress) is Corrupted),
{
    if let Some(f) = file {
        assert(f.size >= (f.size / 1_048_576) * 1_048_576);
    }
}

/// The model of a catalog entry, with the status that was found.
pub open spec fn info_for(
    entry: CatalogEntry,
    dir: Seq<char>,
    status: ModelStatus,
    info: ModelInfo,
) -> bool {
    &&& info.name == entry.name
    &&& info.path@ == path_in(dir, entry.filename@)
    &&& info.size_mb == entry.size_mb
    &&& info.accuracy == entry.accuracy
    &&& info.speed == entry.speed
    &&& info.description == entry.description
    &&& info.status == status
}

/// The model of a catalog entry, with the status that was found.
pub fn model_info(entry: &CatalogEntry, dir: &str, status: ModelStatus) -> (r: ModelInfo)
    ensures
        info_for(*entry, dir@, status, r),
{
    ModelInfo {
        name: entry.name.clone(),
        path: join_path(dir, &entry.filename),
        size_mb: entry.size_mb,
        accuracy: entry.accuracy.clone(),
        speed: entry.speed.clone(),
        status,
        description: entry.description.clone(),
    }
}

// ---------------------------------------------------------------------------
// The models directory
// ---------------------------------------------------------------------------

/// The configured models directory, once it is known.
pub struct ModelsDirectory {
    pub dir: Option<String>,
}

/// Takes "models" in the application's data directory as the models directory,
/// unless it could not be created.
pub fn set_models_directory(dirs: &mut ModelsDirectory, app_data_dir: &str, usable: bool)
    ensures
        opt_text(final(dirs).dir) == if usable {
            Some(path_in(app_data_dir@, "models"@))
        } else {
            opt_text(old(dirs).dir)
        },
{
    if usable {
        dirs.dir = Some(join_path(app_data_dir, "models"));
    }
}

/// The configured models directory.
pub fn get_models_directory(dirs: &ModelsDirectory) -> (r: Option<String>)
    ensures
        opt_text(r) == opt_text(dirs.dir),
{
    match &dirs.dir {
        Some(d) => Some(d.clone()),
        None => None,
    }
}

/// Where models are kept while developing: the first of four directories
/// around the current one that exists, else the first.
pub open spec fn dev_dir(current: Seq<char>, exists_at: Seq<bool>) -> Seq<char> {
    if exists_at[0] {
        path_in(current, "models"@)
    } else if exists_at[1] {
        path_in(current, "../models"@)
    } else if exists_at[2] {
        path_in(current, "backend/whisper-server-package/models"@)
    } else if exists_at[3] {
        path_in(current, "../backend/whisper-server-package/models"@)
    } else {
        path_in(current, "models"@)
    }
}

/// Where models are kept while developing. `exists_at` says which of the four
/// directories exist.
pub fn development_models_dir(current: &str, exists_at: [bool; 4]) -> (r: String)
    ensures
        r@ == dev_dir(current@, exists_at@),
{
    if exists_at[0] {
        join_path(current, "models")
    } else if exists_at[1] {
        join_path(current, "../models")
    } else if exists_at[2] {
        join_path(current, "backend/whisper-server-package/models")
    } else if exists_at[3] {
        join_path(current, "../backend/whisper-server-package/models")
    } else {
        join_path(current, "models")
    }
}

/// The models of a catalog as a scan without an engine finds them; `found` is
/// what is on disk for each entry.
pub open spec fn standalone_models(
    catalog: Seq<CatalogEntry>,
    dir: Seq<char>,
    found: Seq<Option<FoundFile>>,
    models: Seq<ModelInfo>,
) -> bool {
    models.len() == catalog.len() && forall|i: int|
        0 <= i < catalog.len() ==> info_for(
            #[trigger] catalog[i],
            dir,
            scanned(found[i], catalog[i].size_mb, None),
            models[i],
        )
}

/// The models of the catalog, scanned without an engine: nothing is known of
/// downloads then.
pub fn discover_models_standalone(
    dirs: &ModelsDirectory,
    catalog: &Vec<CatalogEntry>,
    found: &Vec<Option<FoundFile>>,
) -> (r: Result<Vec<ModelInfo>, String>)
    requires
        catalog@.len() == found@.len(),
    ensures
        match dirs.dir {
            Some(dir) => r matches Ok(models) && standalone_models(
                catalog@,
                dir@,
                found@,
                models@,
            ),
            None => r matches Err(e) && e@ == "Models directory not initialized"@,
        },
{
    let dir = match get_models_directory(dirs) {
        Some(dir) => dir,
        None => {
            return Err("Models directory not initialized".to_owned());
        },
    };
    let mut models: Vec<ModelInfo> = Vec::new();
    for i in 0..catalog.len()
        invariant
            catalog@.len() == found@.len(),
            models@.len() == i,
            forall|k: int|
                0 <= k < i ==> info_for(
                    #[trigger] catalog@[k],
                    dir@,
                    scanned(found@[k], catalog@[k].size_mb, None),
                    models@[k],
                ),
    {
        let status = scan_catalog_entry(&found[i], catalog[i].size_mb, None);
        let info = model_info(&catalog[i], &dir, status);
        models.push(info);
    }
    Ok(models)
}

// ---------------------------------------------------------------------------
// Choosing a model
// ---------------------------------------------------------------------------

/// The names of the models that can be used, in order.
pub open spec fn available_names(models: Seq<ModelInfo>) -> Seq<Seq<char>>
    decreases models.len(),
{
    if models.len() == 0 {
        Seq::empty()
    } else if models.last().status is Available {
        available_names(models.drop_last()).push(models.last().name@)
    } else {
        available_names(models.drop_last())
    }
}

/// The names of the models that can be used, in order.
pub fn available_models(models: &Vec<ModelInfo>) -> (r: Vec<String>)
    ensures
        texts(r@) == available_names(models@),
{
    let mut out: Vec<String> = Vec::new();
    assert(texts(out@) =~= available_names(models@.take(0)));
    for i in 0..models.len()
        invariant
            texts(out@) == available_names(models@.take(i as int)),
    {
        let ghost next = models@.take(i + 1);
        assert(next.drop_last() =~= models@.take(i as int));
        assert(next.last() == models@[i as int]);
        if models[i].status.is_available() {
            let ghost had = out@;
            out.push(models[i].name.clone());
            assert(texts(out@) =~= texts(had).push(models@[i as int].name@));
        }
    }
    assert(models@.take(models@.len() as int) =~= models@);
    out
}

/// Whether any model can be used; none can without an engine to look.
pub fn whisper_has_available_models(models: &Option<Vec<ModelInfo>>) -> (r: bool)
    ensures
        r == match *models {
            Some(m) => available_names(m@).len() > 0,
            None => false,
        },
{
    match models {
        Some(m) => {
            let names = available_models(m);
            assert(texts(names@).len() == names@.len());
            names.len() > 0
        },
        None => false,
    }
}

/// The model that the saved configuration names, where it names a local one.
pub open spec fn configured_model(config: Option<TranscriptConfig>) -> Option<Seq<char>> {
    match config {
        Some(c) => if c.provider@ == "localWhisper"@ && c.model@.len() > 0 {
            Some(c.model@)
        } else {
            None
        },
        None => None,
    }
}

/// The model that the saved configuration names, where it names a local one.
pub fn model_from_config(config: &Option<TranscriptConfig>) -> (r: Option<String>)
    ensures
        opt_text(r) == configured_model(*config),
{
    match config {
        Some(c) => if same_text(&c.provider, "localWhisper") && !c.model.as_str().is_empty() {
            Some(c.model.clone())
        } else {
            None
        },
        None => None,
    }
}

/// The model to load: the configured one where it can be used, else the first
/// that can; none where none can.
pub open spec fn model_choice(
    config: Option<TranscriptConfig>,
    models: Seq<ModelInfo>,
) -> Option<Seq<char>> {
    let names = available_names(models);
    if names.len() == 0 {
        None
    } else {
        match configured_model(config) {
            Some(m) => if names.contains(m) {
                Some(m)
            } else {
                Some(names[0])
            },
            None => Some(names[0]),
        }
    }
}

/// What getting a model ready takes.
#[derive(Debug, Clone, PartialEq, Eq)]
pub enum ReadyStep {
    /// This one is loaded already.
    Loaded(String),
    /// This one is to be loaded.
    Load(String),
}

/// What getting a model ready takes: nothing where one is loaded, else the
/// configured model where it can be used, else the first that can.
/// `loaded` is the model of the engine, or nothing without an engine.
pub fn whisper_validate_model_ready_with_config(
    loaded: &Option<Option<String>>,
    config: &Option<TranscriptConfig>,
    models: &Vec<ModelInfo>,
) -> (r: Result<ReadyStep, String>)
    ensures
        match *loaded {
            None => r matches Err(e) && e@ == "Whisper engine not initialized"@,
            Some(Some(name)) => r matches Ok(ReadyStep::Loaded(n)) && n@ == name@,
            Some(None) => match model_choice(*config, models@) {
                Some(name) => r matches Ok(ReadyStep::Load(n)) && n@ == name,
                None => r matches Err(e) && e@
                    == "No Whisper models are available. Please download a model to enable transcription."@,
            },
        },
{
    match loaded {
        None => Err("Whisper engine not initialized".to_owned()),
        Some(Some(name)) => Ok(ReadyStep::Loaded(name.clone())),
        Some(None) => {
            let names = available_models(models);
            assert(texts(names@).len() == names@.len());
            if names.len() == 0 {
                return Err(
                    "No Whisper models are available. Please download a model to enable transcription.".to_owned(),
                );
            }
            let first = names[0].clone();
            assert(texts(names@)[0] == first@);
            match model_from_config(config) {
                Some(m) => if crate::text::contains_text(&names, &m) {
                    Ok(ReadyStep::Load(m))
                } else {
                    Ok(ReadyStep::Load(first))
                },
                None => Ok(ReadyStep::Load(first)),
            }
        },
    }
}

pub(crate) proof fn lemma_available_names(models: Seq<ModelInfo>, name: Seq<char>)
    ensures
        available_names(models).contains(name) <==> exists|i: int|
            0 <= i < models.len() && (#[trigger] models[i]).status is Available && models[i].name@
                == name,
    decreases models.len(),
{
    if models.len() > 0 {
        let front = models.drop_last();
        lemma_available_names(front, name);
        let a = available_names(front);
        let b = available_names(models);
        if b.contains(name) {
            let k = choose|k: int| 0 <= k < b.len() && b[k] == name;
            if models.last().status is Available && k == a.len() {
                assert(models[models.len() - 1].name@ == name);
            } else {
                assert(a[k] == name);
                let i = choose|i: int|
                    0 <= i < front.len() && (#[trigger] front[i]).status is Available
                        && front[i].name@ == name;
                assert(models[i] == front[i]);
            }
        }
        if exists|i: int|
            0 <= i < models.len() && (#[trigger] models[i]).status is Available && models[i].name@
                == name {
            let i = choose|i: int|
                0 <= i < models.len() && (#[trigger] models[i]).status is Available
                    && models[i].name@ == name;
            if i < front.len() {
                assert(front[i] == models[i]);
                assert(a.contains(name));
                let k = choose|k: int| 0 <= k < a.len() && a[k] == name;
                assert(b[k] == name);
            } else {
                assert(b[a.len() as int] == name);
            }
        }
    }
}

/// The chosen model is one that can be used, and there is a choice whenever
/// there is such a model.
pub proof fn chosen_model_is_usable(config: Option<TranscriptConfig>, models: Seq<ModelInfo>)
    ensures
        match model_choice(config, models) {
            Some(name) => exists|i: int|
                0 <= i < models.len() && (#[trigger] models[i]).status is Available
                    && models[i].name@ == name,
            None => forall|i: int|
                0 <= i < models.len() ==> !((#[trigger] models[i]).status is Available),
        },
{
    let names = available_names(models);
    match model_choice(config, models) {
        Some(name) => {
            if name == names[0] {
                assert(names.contains(names[0]));
            }
            lemma_available_names(models, name);
        },
        None => {
            assert forall|i: int| 0 <= i < models.len() implies !((
            #[trigger] models[i]).status is Available) by {
                lemma_available_names(models, models[i].name@);
                if models[i].status is Available {
                    assert(names.contains(models[i].name@));
                }
            }
        },
    }
}

} // verus!
