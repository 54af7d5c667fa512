//! Audio is decoded with the model that was asked for, and models are found,
//! loaded, downloaded and deleted.
use vstd::prelude::*;
use crate::settings::config::TranscriptConfig;
use crate::text::{opt_text, texts, trim};
use crate::whisper::cleanup::clean_repetitive_text;
use crate::whisper::commands::{cancel_result, deletion_result, download_model_with_progress, ready_result, report_event, whisper_cancel_download, whisper_delete_corrupted_model, whisper_get_models_directory, whisper_init, DownloadReport};
use crate::whisper::decode::{choose_language, effective_threads, is_partial, is_special_token, join_segments, pad_to_min_whisper_input, plan_decode, sanitized_prompt, spoken, transcript_of, without_nuls, DecodePlan, DecodePurpose, Sampling, StatePool, TranscribeOptions};
use crate::whisper::download::{download_end, is_downloadable, model_filename, Course, DownloadEnd, DownloadPlan, TransferEnd};
use crate::whisper::ellipses::{dot_run, has_ellipsis, lemma_dot_run, lemma_nothing_to_strip, strip_continuation_ellipses, three_dots, without_ellipses};
use crate::whisper::engine::{flash_attention, GpuType, LoadFault, LoadStep, PerformanceTier, WhisperEngine};
use crate::whisper::lease::{wait_until_free, EngineLease, WaitEvent, WaitStep};
use crate::whisper::models::{available_models, development_models_dir, lemma_available_names, model_from_config, model_info, scan_catalog_entry, set_models_directory, validate_model_file_magic, whisper_has_available_models, whisper_validate_model_ready_with_config, CatalogEntry, FoundFile, HeaderRead, ModelInfo, ModelStatus, ModelsDirectory, ReadyStep};
use crate::words::{squeeze, words_of};

verus! {

// ---------------------------------------------------------------------------
// Dots
// ---------------------------------------------------------------------------

proof fn lemma_run_is(s: Seq<char>, n: int)
    requires
        0 <= n <= s.len(),
        forall|i: int| 0 <= i < n ==> #[trigger] s[i] == '.',
        n < s.len() ==> s[n] != '.',
    ensures
        dot_run(s) == n,
{
    lemma_dot_run(s);
    let k = dot_run(s) as int;
    if k < n {
        assert(s[k] == '.');
    }
    if n < k {
        assert(s[n] == '.');
    }
}

proof fn lemma_dots_between(a: Seq<char>, n: nat, b: Seq<char>)
    requires
        a.len() == 0 || a.last() != '.',
        b.len() == 0 || b[0] != '.',
        n >= 3,
    ensures
        without_ellipses(a + Seq::new(n, |i: int| '.') + b) == without_ellipses(a) + seq![' ']
            + without_ellipses(b),
    decreases a.len(),
{
    let dots = Seq::new(n, |i: int| '.');
    let s = a + dots + b;
    if a.len() == 0 {
        assert(s =~= dots + b);
        lemma_run_is(s, n as int);
        assert(s.subrange(n as int, s.len() as int) =~= b);
        assert(without_ellipses(s) =~= without_ellipses(a) + seq![' '] + without_ellipses(b));
    } else if a[0] != '.' {
        let rest = a.subrange(1, a.len() as int);
        assert(rest.len() > 0 ==> rest.last() == a.last());
        lemma_dots_between(rest, n, b);
        assert(s.subrange(1, s.len() as int) =~= rest + dots + b);
        assert(without_ellipses(s) =~= without_ellipses(a) + seq![' '] + without_ellipses(b));
    } else {
        lemma_dot_run(a);
        let k = dot_run(a) as int;
        if k == a.len() {
            assert(a[a.len() - 1] == '.');
        }
        assert forall|i: int| 0 <= i < k implies #[trigger] s[i] == '.' by {
            assert(a[i] == '.');
        }
        assert(s[k] == a[k]);
        lemma_run_is(s, k);
        let rest = a.subrange(k, a.len() as int);
        assert(rest.last() == a.last());
        lemma_dots_between(rest, n, b);
        assert(s.subrange(k, s.len() as int) =~= rest + dots + b);
        assert(without_ellipses(s) =~= without_ellipses(a) + seq![' '] + without_ellipses(b));
    }
}

/// A run of three dots or more is a gap between words and nothing else: what
/// stands before it and behind it is kept, word by word.
pub proof fn dots_are_gaps_between_words(
    a: &str,
    n: nat,
    b: &str,
    text: &str,
    of_a: String,
    of_b: String,
    of_text: String,
)
    requires
        n >= 3,
        a@.len() == 0 || a@.last() != '.',
        b@.len() == 0 || b@[0] != '.',
        text@ == a@ + Seq::new(n, |i: int| '.') + b@,
        call_ensures(strip_continuation_ellipses, (a,), of_a),
        call_ensures(strip_continuation_ellipses, (b,), of_b),
        call_ensures(strip_continuation_ellipses, (text,), of_text),
    ensures
        words_of(of_text@) == words_of(of_a@) + words_of(of_b@),
{
    lemma_dots_between(a@, n, b@);
    let (x, y) = (without_ellipses(a@), without_ellipses(b@));
    lemma_squeezed_words(x);
    lemma_squeezed_words(y);
    let gap = seq![' '] + y;
    lemma_squeezed_words(x + seq![' '] + y);
    crate::words::lemma_words_split(x, gap);
    assert(x + gap =~= x + seq![' '] + y);
    assert(gap.subrange(1, gap.len() as int) =~= y);
    assert(crate::text::is_space(' '));
}

proof fn lemma_squeezed_words(s: Seq<char>)
    ensures
        words_of(crate::words::squeezed(s)) == words_of(s),
{
    crate::words::words_are_words(s);
    crate::words::splitting_undoes_joining(words_of(s));
}

/// A text without three dots in a row keeps everything but its extra white space.
pub proof fn texts_without_dots_stay(text: &str, r: String, squeezed: String)
    requires
        forall|i: int| !(0 <= i && i + 3 <= text@.len() && #[trigger] text@[i] == '.' && text@[i + 1] == '.'
            && text@[i + 2] == '.'),
        call_ensures(strip_continuation_ellipses, (text,), r),
        call_ensures(squeeze, (text,), squeezed),
    ensures
        r@ == squeezed@,
{
    if has_ellipsis(text@) {
        let i = choose|i: int| three_dots(text@, i);
        assert(text@[i] == '.');
    }
    lemma_nothing_to_strip(text@);
}

// ---------------------------------------------------------------------------
// Decoding
// ---------------------------------------------------------------------------

/// As many threads are used as the hardware suggests, fewer where fewer were asked
/// for, and one at least.
pub proof fn threads_are_capped(default: i32, asked: Option<i32>, r: i32)
    requires
        call_ensures(effective_threads, (default, asked), r),
    ensures
        r >= 1,
        asked is None && default >= 1 ==> r == default,
        asked matches Some(n) ==> (1 <= n <= default ==> r == n),
        asked matches Some(n) ==> (n > default && default >= 1 ==> r == default),
        asked matches Some(n) ==> (n < 1 ==> r == 1),
{
}

/// The language that was asked for is decoded in. Nothing and "auto" detect it, and
/// only "auto-translate" translates.
pub proof fn languages_are_decoded_as_asked(language: Option<&str>, r: (Option<String>, bool))
    requires
        call_ensures(choose_language, (language,), r),
    ensures
        language is None ==> r.0 is None && !r.1,
        language matches Some(l) ==> (l@ == "auto"@ ==> r.0 is None && !r.1),
        language matches Some(l) ==> (l@ == "auto-translate"@ && l@ != "auto"@ ==> r.0 is None && r.1),
        language matches Some(l) ==> (l@ != "auto"@ && l@ != "auto-translate"@ ==> (r.0 matches Some(c)
            && c@ == l@) && !r.1),
{
}

/// A prompt is what was said before, character by character, but for NULs, which
/// become spaces; a blank one is left out.
pub proof fn prompts_are_what_was_said_before(context: Option<&str>, r: Option<String>, i: int)
    requires
        call_ensures(sanitized_prompt, (context,), r),
    ensures
        context is None ==> r is None,
        context matches Some(c) ==> (r matches Some(p) ==> p@.len() == c@.len() && (0 <= i
            < p@.len() ==> p@[i] == (if c@[i] == '\0' {
            ' '
        } else {
            c@[i]
        }))),
        context matches Some(c) ==> (0 <= i < c@.len() && c@[i] != '\0' && !crate::text::is_space(c@[i])
            ==> r is Some),
        r matches Some(p) ==> !p@.contains('\0'),
{
    if let Some(c) = context {
        crate::whisper::decode::prompts_hold_no_nul(c@);
        let clean = without_nuls(c@);
        crate::text::lemma_blank_trims_to_nothing(clean);
        if 0 <= i < c@.len() && c@[i] != '\0' && !crate::text::is_space(c@[i]) {
            assert(clean[i] == c@[i]);
        }
    }
}

/// Audio below fifteen seconds is decoded as a part of something longer.
pub proof fn short_audio_is_partial(samples: usize, r: bool)
    requires
        call_ensures(is_partial, (samples,), r),
    ensures
        r <==> samples < 15 * 16_000,
{
}

/// A decode is set up with what was asked for: its language, its prompt, its
/// threads and its search, and never with timestamps.
pub proof fn decodes_are_set_up_as_asked(
    samples: usize,
    language: Option<&str>,
    prompt: Option<&str>,
    options: &TranscribeOptions,
    beam: i32,
    hardware: Option<i32>,
    temperature: u32,
    default: i32,
    threads: i32,
    choice: (Option<String>, bool),
    clean: Option<String>,
    r: DecodePlan,
)
    requires
        call_ensures(
            plan_decode,
            (samples, language, prompt, options, beam, hardware, temperature),
            r,
        ),
        default == (match hardware {
            Some(n) => n,
            None => 4i32,
        }),
        call_ensures(effective_threads, (default, options.max_threads), threads),
        call_ensures(choose_language, (language,), choice),
        call_ensures(sanitized_prompt, (prompt,), clean),
    ensures
        r.threads == threads,
        opt_text(r.language) == opt_text(choice.0),
        r.translate == choice.1,
        opt_text(r.prompt) == opt_text(clean),
        options.greedy ==> r.sampling == (Sampling::Greedy { best_of: 1 }),
        !options.greedy ==> r.sampling == (Sampling::Beam { size: beam, patience: 100 }),
        r.partial == (samples < 240_000),
        r.temperature == temperature,
        r.fixed.no_timestamps && r.fixed.token_timestamps,
        r.fixed.suppress_blank && r.fixed.suppress_nst,
        !r.fixed.single_segment,
        r.fixed.max_len == 200,
        r.fixed.no_speech_thold == 55,
        r.fixed.entropy_thold == 240,
        r.fixed.logprob_thold == -100,
        r.fixed.max_initial_ts == 100,
        !r.fixed.print_special && !r.fixed.print_progress && !r.fixed.print_realtime
            && !r.fixed.print_timestamps,
{
}

/// Short audio is followed by silence up to a little over a second, and longer
/// audio stays as it is.
pub proof fn short_audio_is_padded<S: Copy>(audio: Vec<S>, silence: S, r: Vec<S>, i: int)
    requires
        call_ensures(pad_to_min_whisper_input, (audio, silence), r),
    ensures
        audio@.len() >= 17_600 ==> r@ == audio@,
        audio@.len() < 17_600 ==> r@.len() == 17_600,
        0 <= i < audio@.len() ==> r@[i] == audio@[i],
        audio@.len() <= i < r@.len() ==> r@[i] == silence,
{
}

/// Tokens that start with "<|" or "[_" are the decoder's own, and so is what is no
/// text; every other token is speech.
pub proof fn control_tokens_are_marked(token: Option<&str>, rest: Seq<char>, r: bool)
    requires
        call_ensures(is_special_token, (token,), r),
    ensures
        token is None ==> r,
        token matches Some(t) ==> (t@ == "<|"@ + rest ==> r),
        token matches Some(t) ==> (t@ == "[_"@ + rest ==> r),
        token matches Some(t) ==> (t@.len() > 0 && t@[0] != '<' && t@[0] != '[' ==> !r),
{
    reveal_strlit("<|");
    reveal_strlit("[_");
    if let Some(t) = token {
        if t@ == "<|"@ + rest {
            assert(t@.subrange(0, 2) =~= "<|"@);
        }
        if t@ == "[_"@ + rest {
            assert(t@.subrange(0, 2) =~= "[_"@);
        }
        if t@.len() > 1 && t@[0] != '<' && t@[0] != '[' {
            assert(t@.subrange(0, 2)[0] == t@[0]);
        }
    }
}

/// The segments of a decode are joined by single spaces, without white space
/// around them, and blank ones are left out.
pub proof fn segments_are_joined(
    front: &Vec<String>,
    last: &str,
    last_string: String,
    all: &Vec<String>,
    core: String,
    of_front: String,
    of_all: String,
)
    requires
        last@ == last_string@,
        all@ == front@.push(last_string),
        call_ensures(trim, (last,), core),
        call_ensures(join_segments, (front,), of_front),
        call_ensures(join_segments, (all,), of_all),
    ensures
        core@.len() == 0 ==> of_all@ == of_front@,
        core@.len() > 0 && of_front@.len() == 0 ==> of_all@ == core@,
        core@.len() > 0 && of_front@.len() > 0 ==> of_all@ == of_front@ + seq![' '] + core@,
{
    let parts = texts(front@);
    assert(texts(all@) =~= parts.push(last@));
    assert(texts(all@).drop_last() =~= parts);
    crate::whisper::decode::lemma_spoken_not_empty(parts);
    let before = spoken(parts);
    if core@.len() > 0 {
        assert(before.push(core@).drop_last() =~= before);
    }
}

/// The transcript of a decode is its joined segments, cleaned.
pub proof fn transcripts_are_cleaned(
    segments: &Vec<String>,
    joined_text: String,
    text: &str,
    core: String,
    core_text: &str,
    clean: String,
    r: String,
)
    requires
        call_ensures(transcript_of, (segments,), r),
        call_ensures(join_segments, (segments,), joined_text),
        text@ == joined_text@,
        call_ensures(trim, (text,), core),
        core_text@ == core@,
        call_ensures(clean_repetitive_text, (core_text,), clean),
    ensures
        r@ == clean@,
{
}

// ---------------------------------------------------------------------------
// Models
// ---------------------------------------------------------------------------

/// A file is a model's where its first four bytes are "ggml", "GGUF" or "ggmf",
/// or one of these as machines of the other byte order write them.
pub proof fn models_start_with_their_magic(b: [u8; 8], read: &HeaderRead, r: Result<(), String>)
    requires
        *read == HeaderRead::Bytes(b),
        call_ensures(validate_model_file_magic, (read,), r),
    ensures
        b@.subrange(0, 4) == seq![0x67u8, 0x67u8, 0x6du8, 0x6cu8] ==> r is Ok,
        b@.subrange(0, 4) == seq![0x47u8, 0x47u8, 0x55u8, 0x46u8] ==> r is Ok,
        b@.subrange(0, 4) == seq![0x67u8, 0x67u8, 0x6du8, 0x66u8] ==> r is Ok,
        b@.subrange(0, 4) == seq![0x6cu8, 0x6du8, 0x67u8, 0x67u8] ==> r is Ok,
        b@[0] != 0x67 && b@[0] != 0x47 && b@[0] != 0x6c && b@[0] != 0x46 && b@[0] != 0x66 ==> r is Err,
        r is Ok ==> b@[0] == 0x67 || b@[0] == 0x47 || b@[0] == 0x6c || b@[0] == 0x46 || b@[0] == 0x66,
        r is Ok ==> b@[1] == 0x67 || b@[1] == 0x47 || b@[1] == 0x6d || b@[1] == 0x55,
{
    assert(b@.len() == 8);
    let head = b@.subrange(0, 4);
    assert(head[0] == b@[0] && head[1] == b@[1]);
}

/// A file that cannot be opened or read is no model, for that reason.
pub proof fn unreadable_files_are_no_models(read: &HeaderRead, r: Result<(), String>)
    requires
        call_ensures(validate_model_file_magic, (read,), r),
    ensures
        *read matches HeaderRead::NotOpened(e) ==> (r matches Err(m) && m@
            == "Failed to open model file: "@ + e@),
        *read matches HeaderRead::NotRead(e) ==> (r matches Err(m) && m@
            == "Failed to read model file header: "@ + e@),
{
}

/// A model's file is available where it has nine tenths of its size, more than a
/// megabyte, and starts as a model does. A smaller one is a download that is under
/// way, or corrupted where none is; an empty one is as good as missing.
pub proof fn files_are_judged_by_size_and_start(
    file: &Option<FoundFile>,
    size_mb: u32,
    progress: Option<u8>,
    f: FoundFile,
    header: Result<(), String>,
    r: ModelStatus,
)
    requires
        call_ensures(scan_catalog_entry, (file, size_mb, progress), r),
        call_ensures(validate_model_file_magic, (&f.header,), header),
    ensures
        *file is None ==> r is Missing,
        *file == Some(f) ==> {
            let mb = f.size as int / 1_048_576;
            let enough = mb >= size_mb * 9 / 10 && mb >= 2;
            &&& enough && header is Ok ==> r is Available
            &&& enough && header is Err ==> r is Corrupted
            &&& !enough && f.size > 0 && progress is Some ==> r == (ModelStatus::Downloading {
                progress: progress->Some_0,
            })
            &&& !enough && f.size > 0 && progress is None ==> r is Corrupted
            &&& f.size == 0 ==> r is Missing
        },
        *file == Some(f) ==> (r matches ModelStatus::Corrupted { file_size, expected_min_size }
            ==> file_size == f.size && expected_min_size == (size_mb * 9 / 10) * 1_048_576),
{
}

/// What is known of a model is what the catalog says, its file in the models
/// directory, and the status that was found.
pub proof fn catalog_entries_are_kept(
    entry: &CatalogEntry,
    dir: &str,
    status: ModelStatus,
    name: &str,
    path: String,
    r: ModelInfo,
)
    requires
        call_ensures(model_info, (entry, dir, status), r),
        name@ == entry.filename@,
        call_ensures(crate::paths::join_path, (dir, name), path),
    ensures
        r.name == entry.name,
        r.path@ == path@,
        r.size_mb == entry.size_mb,
        r.accuracy == entry.accuracy && r.speed == entry.speed && r.description == entry.description,
        r.status == status,
{
}

/// The models that can be used are those whose file is available.
pub proof fn available_models_can_be_used(
    models: &Vec<ModelInfo>,
    some: &Option<Vec<ModelInfo>>,
    r: Vec<String>,
    any: bool,
    name: Seq<char>,
)
    requires
        call_ensures(available_models, (models,), r),
        *some == Some(*models),
        call_ensures(whisper_has_available_models, (some,), any),
    ensures
        texts(r@).contains(name) <==> exists|i: int|
            0 <= i < models@.len() && (#[trigger] models@[i]).status is Available && models@[i].name@
                == name,
        any <==> r@.len() > 0,
{
    lemma_available_names(models@, name);
    assert(texts(r@).len() == r@.len());
}

/// The configured model is the one that is named for the local engine.
pub proof fn local_models_are_configured(config: &Option<TranscriptConfig>, r: Option<String>)
    requires
        call_ensures(model_from_config, (config,), r),
    ensures
        *config is None ==> r is None,
        *config matches Some(c) ==> (c.provider@ == "localWhisper"@ && c.model@.len() > 0 ==> (
        r matches Some(m) && m@ == c.model@)),
        *config matches Some(c) ==> (c.provider@ != "localWhisper"@ || c.model@.len() == 0 ==> r is None),
{
}

/// A model that is loaded is used. Else the configured one is loaded where it can
/// be used, and else the first that can.
pub proof fn configured_models_are_loaded_first(
    loaded: &Option<Option<String>>,
    config: &Option<TranscriptConfig>,
    models: &Vec<ModelInfo>,
    usable: Vec<String>,
    configured: Option<String>,
    r: Result<ReadyStep, String>,
)
    requires
        call_ensures(whisper_validate_model_ready_with_config, (loaded, config, models), r),
        call_ensures(available_models, (models,), usable),
        call_ensures(model_from_config, (config,), configured),
    ensures
        *loaded is None ==> (r matches Err(e) && e@ == "Whisper engine not initialized"@),
        *loaded matches Some(l) ==> (l matches Some(name) ==> (r matches Ok(ReadyStep::Loaded(n)) && n@
            == name@)),
        *loaded == Some(None::<String>) && usable@.len() == 0 ==> r is Err,
        *loaded == Some(None::<String>) && usable@.len() > 0 ==> (configured matches Some(c) ==> (texts(
            usable@,
        ).contains(c@) ==> (r matches Ok(ReadyStep::Load(n)) && n@ == c@))),
        *loaded == Some(None::<String>) && usable@.len() > 0 && configured is None ==> (r matches Ok(
            ReadyStep::Load(n),
        ) && n@ == usable@[0]@),
        *loaded == Some(None::<String>) && usable@.len() > 0 ==> (configured matches Some(c) ==> (!texts(
            usable@,
        ).contains(c@) ==> (r matches Ok(ReadyStep::Load(n)) && n@ == usable@[0]@))),
{
    assert(texts(usable@).len() == usable@.len());
    if usable@.len() > 0 {
        assert(texts(usable@)[0] == usable@[0]@);
    }
}

/// The models directory stands in the data directory, where it can be used.
pub proof fn models_stand_in_the_data_directory(
    dirs: &mut ModelsDirectory,
    app_data: &str,
    name: &str,
    path: String,
    usable: bool,
)
    requires
        call_ensures(set_models_directory, (dirs, app_data, usable), ()),
        name@ == "models"@,
        call_ensures(crate::paths::join_path, (app_data, name), path),
    ensures
        usable ==> (final(dirs).dir matches Some(d) && d@ == path@),
        !usable ==> opt_text(final(dirs).dir) == opt_text(old(dirs).dir),
{
}

// ---------------------------------------------------------------------------
// The engine
// ---------------------------------------------------------------------------

/// A model is loaded where it is available and not loaded yet, after the one
/// before was unloaded; else why it cannot be loaded is said.
pub proof fn available_models_are_loaded<C, S>(
    engine: &mut WhisperEngine<C, S>,
    name: &str,
    r: Result<LoadStep, String>,
)
    requires
        call_ensures(WhisperEngine::<C, S>::begin_load, (engine, name), r),
    ensures
        !old(engine).available_models@.contains_key(name@) ==> (r matches Err(e) && e@ == "Model "@
            + name@ + " not found"@) && *final(engine) == *old(engine),
        old(engine).available_models@.contains_key(name@) ==> match old(
            engine).available_models@[name@].status {
            ModelStatus::Available => r is Ok,
            ModelStatus::Missing => r matches Err(e) && e@ == "Model "@ + name@
                + " is not downloaded"@,
            ModelStatus::Downloading { .. } => r matches Err(e) && e@ == "Model "@ + name@
                + " is currently downloading"@,
            ModelStatus::Error(why) => r matches Err(e) && e@ == "Model "@ + name@ + " has error: "@
                + why@,
            ModelStatus::Corrupted { .. } => r matches Err(e) && e@ == "Model "@ + name@
                + " is corrupted and cannot be loaded"@,
        },
        r is Err ==> *final(engine) == *old(engine),
        r matches Ok(LoadStep::LoadFile(path)) ==> path@ == old(
            engine).available_models@[name@].path@ && final(engine).current_context is None && final(
            engine).current_model is None,
        r matches Ok(LoadStep::AlreadyLoaded) ==> *final(engine) == *old(engine) && (old(
            engine).current_model matches Some(m) && m@ == name@),
        old(engine).current_model matches Some(m) ==> (m@ == name@ && old(
            engine).available_models@.contains_key(name@) && old(
            engine).available_models@[name@].status is Available ==> r matches Ok(
            LoadStep::AlreadyLoaded,
        )),
{
}

/// A model that was loaded is the engine's from then on; why it could not be is
/// said, and nothing is loaded then that was not before.
pub proof fn loaded_models_are_used<C, S>(
    engine: &mut WhisperEngine<C, S>,
    name: &str,
    loaded: Result<C, LoadFault>,
    r: Result<(), String>,
)
    requires
        call_ensures(WhisperEngine::<C, S>::end_load, (engine, name, loaded), r),
    ensures
        loaded matches Ok(context) ==> r is Ok && final(engine).current_context == Some(context) && (
        final(engine).current_model matches Some(m) && m@ == name@),
        loaded matches Err(LoadFault::Failed(why)) ==> (r matches Err(e) && e@
            == "Failed to load model "@ + name@ + ": "@ + why@),
        loaded matches Err(LoadFault::Crashed(why)) ==> (r matches Err(e) && e@
            == "Model loading task panicked: "@ + why@),
        loaded is Err ==> *final(engine) == *old(engine),
        final(engine).available_models == old(engine).available_models,
{
}

/// Unloading leaves nothing loaded, and no decoder state.
pub proof fn unloading_leaves_nothing<C, S>(engine: &mut WhisperEngine<C, S>, r: bool)
    requires
        old(engine).wf(),
        call_ensures(WhisperEngine::<C, S>::unload_model, (engine,), r),
    ensures
        r <==> old(engine).current_context is Some,
        final(engine).current_context is None,
        final(engine).current_model is None,
        final(engine).state_pool.final_state is None,
        final(engine).state_pool.partial_state is None,
        final(engine).available_models == old(engine).available_models,
{
}

/// A file can be deleted where its model is available or corrupted.
pub proof fn stored_models_can_be_deleted<C, S>(
    engine: &WhisperEngine<C, S>,
    name: &str,
    r: Result<String, String>,
)
    requires
        call_ensures(WhisperEngine::<C, S>::begin_delete, (engine, name), r),
    ensures
        !engine.available_models@.contains_key(name@) ==> (r matches Err(e) && e@ == "Model '"@ + name@
            + "' not found"@),
        engine.available_models@.contains_key(name@) ==> (r is Ok <==> (
        engine.available_models@[name@].status is Available
            || engine.available_models@[name@].status is Corrupted)),
        r matches Ok(path) ==> path@ == engine.available_models@[name@].path@,
{
}

/// A deleted model is missing, and no other model changes.
pub proof fn deleted_models_are_missing<C, S>(
    engine: &mut WhisperEngine<C, S>,
    name: &str,
    removed: Result<(), String>,
    other: Seq<char>,
    r: Result<String, String>,
)
    requires
        old(engine).available_models@.contains_key(name@),
        call_ensures(WhisperEngine::<C, S>::end_delete, (engine, name, removed), r),
    ensures
        removed is Ok ==> final(engine).available_models@.contains_key(name@) && final(
            engine).available_models@[name@].status is Missing && r is Ok,
        other != name@ && old(engine).available_models@.contains_key(other) ==> final(
            engine).available_models@.contains_key(other) && final(engine).available_models@[other]
            == old(engine).available_models@[other],
        removed matches Err(why) ==> *final(engine) == *old(engine) && (r matches Err(e) && e@
            == "Failed to delete file '"@ + old(engine).available_models@[name@].path@ + "': "@ + why@),
        final(engine).current_context == old(engine).current_context,
{
}

/// Fast attention is used on fast CUDA hardware.
pub proof fn fast_attention_needs_fast_hardware(gpu: GpuType, tier: PerformanceTier, r: bool)
    requires
        call_ensures(flash_attention, (gpu, tier), r),
    ensures
        !(gpu is Cuda) ==> !r,
        tier is Low || tier is Medium ==> !r,
        gpu is Cuda && (tier is High || tier is Ultra) ==> r,
{
}

// ---------------------------------------------------------------------------
// Downloads
// ---------------------------------------------------------------------------

/// A model's file is "ggml-", its name and ".bin".
pub proof fn model_files_carry_their_name(name: &str, r: String)
    requires
        call_ensures(model_filename, (name,), r),
    ensures
        r@ == "ggml-"@ + name@ + ".bin"@,
{
}

/// What a transfer came to is judged by the file: one that starts as a model does
/// is complete, any other is not.
pub proof fn transfers_are_judged_by_the_file(
    header: HeaderRead,
    asked: bool,
    judged: Result<(), String>,
    r: DownloadEnd,
)
    requires
        call_ensures(download_end, (TransferEnd::Complete(header), asked), r),
        call_ensures(validate_model_file_magic, (&header,), judged),
    ensures
        judged is Ok ==> r is Completed,
        judged matches Err(why) ==> (r matches DownloadEnd::Invalid(e) && e@ == why@),
{
}

/// A transfer that failed or was stopped is told apart by whether it was asked to
/// stop.
pub proof fn stopped_transfers_are_told_apart(transfer: TransferEnd, asked: bool, r: DownloadEnd)
    requires
        call_ensures(download_end, (transfer, asked), r),
    ensures
        transfer is Stopped && asked ==> r is Cancelled,
        transfer is Stopped && !asked ==> r is Failed,
        transfer matches TransferEnd::Failed(why) ==> (r matches DownloadEnd::Failed(e) && e@ == why@),
{
}

/// A transfer that is done makes its model available under its path, or missing,
/// and it can be downloaded again. No other model changes.
pub proof fn ended_downloads_settle<C, S>(
    engine: &mut WhisperEngine<C, S>,
    name: &str,
    header: HeaderRead,
    judged: Result<(), String>,
    file: String,
    file_text: &str,
    dir: &str,
    path: String,
    other: Seq<char>,
    r: (Result<(), String>, bool),
)
    requires
        old(engine).wf(),
        old(engine).available_models@.contains_key(name@),
        call_ensures(
            WhisperEngine::<C, S>::finish_download,
            (engine, name, TransferEnd::Complete(header)),
            r,
        ),
        call_ensures(validate_model_file_magic, (&header,), judged),
        call_ensures(model_filename, (name,), file),
        file_text@ == file@,
        dir@ == old(engine).models_dir@,
        call_ensures(crate::paths::join_path, (dir, file_text), path),
    ensures
        judged is Ok ==> r.0 is Ok && !r.1 && final(engine).available_models@[name@].status is Available
            && final(engine).available_models@[name@].path@ == path@,
        judged matches Err(why) ==> (r.0 matches Err(e) && e@ == "Downloaded model "@ + name@
            + " failed validation: "@ + why@) && r.1 && final(
            engine).available_models@[name@].status is Missing,
        !texts(final(engine).downloads@).contains(name@),
        other != name@ && old(engine).available_models@.contains_key(other) ==> final(
            engine).available_models@[other] == old(engine).available_models@[other],
{
    crate::whisper::download::ended_download_can_be_retried(
        texts(old(engine).downloads@),
        name@,
        name@,
    );
}

/// A model is downloaded from where models are published, into the models
/// directory, once at a time; while it is, it counts as being downloaded.
pub proof fn downloads_start_once<C, S, F: FnOnce() -> Result<(), String>>(
    engine: &mut WhisperEngine<C, S>,
    name: &str,
    make_dir: F,
    known: bool,
    file: String,
    file_text: &str,
    dir: &str,
    path: String,
    r: Result<DownloadPlan, String>,
)
    requires
        old(engine).wf(),
        call_ensures(WhisperEngine::<C, S>::begin_download::<F>, (engine, name, make_dir), r),
        call_ensures(is_downloadable, (name,), known),
        call_ensures(model_filename, (name,), file),
        file_text@ == file@,
        dir@ == old(engine).models_dir@,
        call_ensures(crate::paths::join_path, (dir, file_text), path),
    ensures
        texts(old(engine).downloads@).contains(name@) ==> (r matches Err(e) && e@
            == "Download already in progress for model: "@ + name@) && *final(engine) == *old(engine),
        !texts(old(engine).downloads@).contains(name@) && !known ==> (r matches Err(e) && e@
            == "Unsupported model: "@ + name@) && *final(engine) == *old(engine),
        r matches Ok(plan) ==> plan.path@ == path@ && plan.url@
            == "https://huggingface.co/ggerganov/whisper.cpp/resolve/main/"@ + file@,
        r is Ok ==> known && !texts(old(engine).downloads@).contains(name@) && texts(
            final(engine).downloads@,
        ).contains(name@),
        r is Ok && old(engine).available_models@.contains_key(name@) ==> final(
            engine).available_models@[name@].status == (ModelStatus::Downloading { progress: 0 }),
{
    if r is Ok {
        let had = texts(old(engine).downloads@);
        let now = had.push(name@);
        assert(now[had.len() as int] == name@);
    }
}

/// Twelve models can be downloaded.
pub proof fn twelve_models_can_be_downloaded(name: &str, r: bool)
    requires
        call_ensures(is_downloadable, (name,), r),
    ensures
        r <==> name@ == "tiny"@ || name@ == "base"@ || name@ == "small"@ || name@ == "medium"@ || name@
            == "large-v3-turbo"@ || name@ == "large-v3"@ || name@ == "tiny-q5_1"@ || name@
            == "base-q5_1"@ || name@ == "small-q5_1"@ || name@ == "medium-q5_0"@ || name@
            == "large-v3-turbo-q5_0"@ || name@ == "large-v3-q5_0"@,
{
}

/// How far a download is is known of its model, and a cancelled one is missing and
/// to stop.
pub proof fn cancelled_downloads_stop<C, S>(
    engine: &mut WhisperEngine<C, S>,
    name: &str,
    after: &WhisperEngine<C, S>,
    stops: bool,
    r: String,
)
    requires
        old(engine).wf(),
        call_ensures(WhisperEngine::<C, S>::cancel_download, (engine, name), r),
        *after == *final(engine),
        call_ensures(WhisperEngine::<C, S>::is_cancelled, (after, name), stops),
    ensures
        stops,
        old(engine).available_models@.contains_key(name@) ==> final(
            engine).available_models@[name@].status is Missing,
{
    let had = texts(old(engine).cancelled@);
    if !had.contains(name@) {
        assert(had.push(name@)[had.len() as int] == name@);
    }
}

/// How far a download is is known of its model.
pub proof fn downloads_are_followed<C, S>(engine: &mut WhisperEngine<C, S>, name: &str, progress: u8)
    requires
        call_ensures(WhisperEngine::<C, S>::on_progress, (engine, name, progress), ()),
    ensures
        old(engine).available_models@.contains_key(name@) ==> final(
            engine).available_models@[name@].status == (ModelStatus::Downloading { progress }),
        final(engine).downloads == old(engine).downloads,
{
}

/// Reports go by the name of what they report.
pub proof fn reports_go_by_their_names(report: &DownloadReport, r: &'static str)
    requires
        call_ensures(report_event, (report,), r),
    ensures
        *report is Progress ==> r@ == "model-download-progress"@,
        *report is Complete ==> r@ == "model-download-complete"@,
        *report is Error ==> r@ == "model-download-error"@,
{
}

/// Each tick of a download is reported for its model, and then how it ended; where
/// there is no engine nothing is.
pub proof fn downloads_are_reported<C, S, F: FnOnce() -> Result<(), String>>(
    engine: &mut Option<WhisperEngine<C, S>>,
    name: &str,
    make_dir: F,
    ticks: &Vec<u8>,
    transfer: TransferEnd,
    i: int,
    r: (Vec<DownloadReport>, Result<(), String>, bool),
)
    requires
        *old(engine) matches Some(e) ==> e.wf(),
        call_ensures(
            download_model_with_progress::<C, S, F>,
            (engine, name, make_dir, ticks, transfer),
            r,
        ),
    ensures
        *old(engine) is None ==> r.0@.len() == 0 && (r.1 matches Err(e) && e@
            == "Whisper engine not initialized"@),
        *old(engine) is Some ==> r.0@.len() > 0,
        r.1 is Ok ==> r.0@.len() == ticks@.len() + 1 && (r.0@.last() matches DownloadReport::Complete {
            model_name,
        } && model_name@ == name@),
        *old(engine) is Some && r.1 is Err ==> (r.0@.last() matches DownloadReport::Error {
            model_name,
            error,
        } && model_name@ == name@ && (r.1 matches Err(m) && m@ == "Failed to download model: "@
            + error@)),
        r.1 is Ok && 0 <= i < ticks@.len() ==> (r.0@[i] matches DownloadReport::Progress {
            model_name,
            progress,
        } && model_name@ == name@ && progress == ticks@[i]),
{
    let views = crate::whisper::commands::report_views(r.0@);
    assert(views.len() == r.0@.len());
    if r.0@.len() > 0 {
        assert(views.last() == crate::whisper::commands::report_view(r.0@.last()));
    }
    if 0 <= i < r.0@.len() {
        assert(views[i] == crate::whisper::commands::report_view(r.0@[i]));
    }
}

/// What the commands answer names what failed.
pub proof fn commands_name_what_failed(
    name: &str,
    loaded: Result<(), String>,
    ready: Result<String, String>,
    cancelled: Result<(), String>,
    cancel: Result<(), String>,
    deleted: Result<String, String>,
    delete: Result<String, String>,
)
    requires
        call_ensures(ready_result, (name, loaded), ready),
        call_ensures(cancel_result, (cancelled,), cancel),
        call_ensures(deletion_result, (deleted,), delete),
    ensures
        loaded is Ok ==> (ready matches Ok(n) && n@ == name@),
        loaded matches Err(e) ==> (ready matches Err(m) && m@ == "Failed to load model "@ + name@
            + ": "@ + e@),
        cancelled is Ok ==> cancel is Ok,
        cancelled matches Err(e) ==> (cancel matches Err(m) && m@ == "Failed to cancel download: "@ + e@),
        deleted matches Ok(t) ==> (delete matches Ok(m) && m@ == t@),
        deleted matches Err(e) ==> (delete matches Err(m) && m@ == "Failed to delete model: "@ + e@),
{
}

/// The engine is made once, on its models directory, and commands before that say
/// that there is none.
pub proof fn engines_are_made_once<C, S>(engine: &mut Option<WhisperEngine<C, S>>, dir: String)
    requires
        call_ensures(whisper_init::<C, S>, (engine, dir), ()),
    ensures
        *old(engine) is Some ==> *final(engine) == *old(engine),
        *old(engine) is None ==> (*final(engine) matches Some(e) && e.models_dir == dir
            && e.current_context is None && e.downloads@.len() == 0),
{
}

/// Commands say that there is no engine where there is none.
pub proof fn commands_need_an_engine<C, S>(
    engine: &Option<WhisperEngine<C, S>>,
    name: &str,
    dir: Result<String, String>,
    deleted: Result<String, String>,
)
    requires
        call_ensures(whisper_get_models_directory::<C, S>, (engine,), dir),
        call_ensures(whisper_delete_corrupted_model::<C, S>, (engine, name), deleted),
    ensures
        *engine is None ==> (dir matches Err(e) && e@ == "Whisper engine not initialized"@) && (
        deleted matches Err(f) && f@ == "Whisper engine not initialized"@),
        *engine matches Some(e) ==> (dir matches Ok(d) && d@ == e.models_dir@),
{
}

// ---------------------------------------------------------------------------
// The lease
// ---------------------------------------------------------------------------

/// The engine is held while anybody holds it, and those who wait are woken when
/// the last lets go.
pub proof fn leases_are_counted(lease: &mut EngineLease, wake: bool)
    requires
        old(lease).holders > 0,
        call_ensures(EngineLease::release, (lease,), wake),
    ensures
        final(lease).holders + 1 == old(lease).holders,
        wake <==> final(lease).holders == 0,
{
}

/// One more holder is one more.
pub proof fn leases_are_taken(lease: &mut EngineLease, after: &EngineLease, held: bool)
    requires
        call_ensures(EngineLease::acquire_live, (lease,), ()),
        *after == *final(lease),
        call_ensures(EngineLease::is_live_leased, (after,), held),
    ensures
        final(lease).holders == old(lease).holders + 1,
        held,
{
}

/// A wait ends as soon as the engine is free, and in vain when its time is up.
pub proof fn waits_end_when_the_engine_is_free(event: WaitEvent, lease: &EngineLease, r: WaitStep)
    requires
        call_ensures(wait_until_free, (event, lease), r),
    ensures
        event is TimedOut ==> r is GaveUp,
        !(event is TimedOut) && lease.holders == 0 ==> r is Free,
        lease.holders > 0 ==> !(r is Free),
        (event is Asked || event is Registered) && lease.holders > 0 ==> r is Wait,
        event == (WaitEvent::Woken { past_deadline: false }) && lease.holders > 0 ==> r is Wait,
        event == (WaitEvent::Woken { past_deadline: true }) && lease.holders > 0 ==> r is GaveUp,
{
}

/// A status reads as what it is.
pub proof fn statuses_read_as_what_they_are(
    status: &ModelStatus,
    n: u64,
    of_n: String,
    r: String,
    usable: bool,
    copy: ModelStatus,
)
    requires
        call_ensures(crate::whisper::models::describe_status, (status,), r),
        call_ensures(ModelStatus::is_available, (status,), usable),
        call_ensures(ModelStatus::copy, (status,), copy),
        call_ensures(crate::numbers::to_decimal, (n,), of_n),
    ensures
        *status is Available ==> r@ == "Available"@,
        *status is Missing ==> r@ == "Missing"@,
        *status matches ModelStatus::Downloading { progress } ==> (progress == n ==> r@
            == "Downloading { progress: "@ + of_n@ + " }"@),
        usable <==> *status is Available,
        copy == *status,
{
}

/// Without a models directory nothing can be scanned; with one every entry of the
/// catalog is looked for in it.
pub proof fn catalogs_are_scanned_entry_by_entry(
    dirs: &ModelsDirectory,
    catalog: &Vec<CatalogEntry>,
    found: &Vec<Option<FoundFile>>,
    i: int,
    judged: ModelStatus,
    r: Result<Vec<ModelInfo>, String>,
)
    requires
        catalog@.len() == found@.len(),
        call_ensures(
            crate::whisper::models::discover_models_standalone,
            (dirs, catalog, found),
            r,
        ),
        0 <= i < catalog@.len(),
        call_ensures(scan_catalog_entry, (&found@[i], catalog@[i].size_mb, None), judged),
    ensures
        dirs.dir is None ==> (r matches Err(e) && e@ == "Models directory not initialized"@),
        dirs.dir is Some ==> (r matches Ok(models) && models@.len() == catalog@.len()
            && models@[i].name == catalog@[i].name && models@[i].status == judged
            && models@[i].size_mb == catalog@[i].size_mb && models@[i].accuracy
            == catalog@[i].accuracy && models@[i].speed == catalog@[i].speed
            && models@[i].description == catalog@[i].description),
{
    if let Ok(models) = r {
        if let Some(dir) = dirs.dir {
            assert(crate::whisper::models::info_for(
                catalog@[i],
                dir@,
                crate::whisper::models::scanned(found@[i], catalog@[i].size_mb, None),
                models@[i],
            ));
        }
    }
}

/// The engine knows every model of the catalog once it has looked, and a download
/// that it knows of is not taken for a broken file.
pub proof fn engines_know_what_they_found<C, S>(
    engine: &mut WhisperEngine<C, S>,
    catalog: &Vec<CatalogEntry>,
    found: &Vec<Option<FoundFile>>,
    i: int,
    progress: Option<u8>,
    judged: ModelStatus,
    r: Vec<ModelInfo>,
)
    requires
        old(engine).wf(),
        catalog@.len() == found@.len(),
        call_ensures(WhisperEngine::<C, S>::discover_models, (engine, catalog, found), r),
        0 <= i < catalog@.len(),
        progress == crate::whisper::engine::known_progress(
            old(engine).available_models@,
            catalog@[i].name@,
        ),
        call_ensures(scan_catalog_entry, (&found@[i], catalog@[i].size_mb, progress), judged),
    ensures
        r@.len() == catalog@.len(),
        r@[i].name == catalog@[i].name,
        r@[i].status == judged,
        r@[i].size_mb == catalog@[i].size_mb,
        r@[i].accuracy == catalog@[i].accuracy,
        r@[i].speed == catalog@[i].speed,
        r@[i].description == catalog@[i].description,
        final(engine).available_models@.contains_key(catalog@[i].name@),
        final(engine).current_context == old(engine).current_context,
{
    let given = (engine, catalog, found);
    assert(given.1@[i] == catalog@[i]);
    assert(crate::whisper::models::info_for(
        given.1@[i],
        old(engine).models_dir@,
        crate::whisper::models::scanned(found@[i], catalog@[i].size_mb, progress),
        r@[i],
    ));
    lemma_known(r@, i);
}

proof fn lemma_known(models: Seq<ModelInfo>, i: int)
    requires
        0 <= i < models.len(),
    ensures
        crate::whisper::engine::known_from(models).contains_key(models[i].name@),
    decreases models.len(),
{
    if i < models.len() - 1 {
        lemma_known(models.drop_last(), i);
    }
}

/// The last of the models under a name is the one that is known.
pub proof fn known_models_are_those_found(models: Seq<ModelInfo>, i: int)
    requires
        0 <= i < models.len(),
        forall|j: int| i < j < models.len() ==> (#[trigger] models[j]).name@ != models[i].name@,
    ensures
        crate::whisper::engine::known_from(models).contains_key(models[i].name@),
        crate::whisper::engine::known_from(models)[models[i].name@] == models[i],
    decreases models.len(),
{
    if i < models.len() - 1 {
        let front = models.drop_last();
        assert forall|j: int| i < j < front.len() implies (#[trigger] front[j]).name@
            != front[i].name@ by {
            assert(models[j].name@ != models[i].name@);
        }
        known_models_are_those_found(front, i);
        assert(models[models.len() - 1].name@ != models[i].name@);
    }
}

/// A download that is known of has the progress that was reported last.
pub proof fn known_downloads_have_their_progress(
    known: crate::whisper::engine::Known,
    name: Seq<char>,
)
    ensures
        !known.contains_key(name) ==> crate::whisper::engine::known_progress(known, name) is None,
        known.contains_key(name) ==> (known[name].status matches ModelStatus::Downloading { progress }
            ==> crate::whisper::engine::known_progress(known, name) == Some(progress)),
        known.contains_key(name) && !(known[name].status is Downloading)
            ==> crate::whisper::engine::known_progress(known, name) is None,
{
}

/// The engine says what it has loaded and where its models are.
pub proof fn engines_say_what_they_have<C, S>(
    engine: &WhisperEngine<C, S>,
    model: Option<String>,
    loaded: bool,
    dir: String,
    new: WhisperEngine<C, S>,
    at: String,
)
    requires
        call_ensures(WhisperEngine::<C, S>::get_current_model, (engine,), model),
        call_ensures(WhisperEngine::<C, S>::is_model_loaded, (engine,), loaded),
        call_ensures(WhisperEngine::<C, S>::get_models_directory, (engine,), dir),
        call_ensures(WhisperEngine::<C, S>::new_with_models_dir, (at,), new),
    ensures
        opt_text(model) == opt_text(engine.current_model),
        loaded <==> engine.current_context is Some,
        dir@ == engine.models_dir@,
        new.current_context is None && new.models_dir == at && new.downloads@.len() == 0,
{
}

/// A decoder state is made once for each purpose on the loaded model, and used again.
pub proof fn states_are_made_once<C, S: Clone, F: FnOnce(&C) -> Result<S, String>>(
    engine: &mut WhisperEngine<C, S>,
    purpose: DecodePurpose,
    make: F,
    there: S,
    r: Result<S, String>,
)
    requires
        old(engine).wf(),
        call_ensures(
            WhisperEngine::<C, S>::get_or_create_state::<F>,
            (engine, purpose, make),
            r,
        ),
    ensures
        purpose is Final ==> final(engine).state_pool.partial_state == old(
            engine).state_pool.partial_state,
        purpose is Partial ==> final(engine).state_pool.final_state == old(
            engine).state_pool.final_state,
        purpose is Final && old(engine).state_pool.final_state == Some(there) ==> r is Ok && final(
            engine).state_pool.final_state == Some(there),
        purpose is Partial && old(engine).state_pool.partial_state == Some(there) ==> r is Ok && final(
            engine).state_pool.partial_state == Some(there),
        old(engine).current_context is None ==> (r matches Err(e) && e@
            == "No model loaded. Please load a model first."@),
        final(engine).current_context == old(engine).current_context,
{
}

/// The pool keeps one state for each purpose.
pub proof fn pools_keep_one_state_for_each_purpose<T>(
    pool: &StatePool<T>,
    r: Option<&T>,
    s: Option<&T>,
    new: StatePool<T>,
)
    requires
        call_ensures(StatePool::<T>::get, (pool, DecodePurpose::Final), r),
        call_ensures(StatePool::<T>::get, (pool, DecodePurpose::Partial), s),
        call_ensures(StatePool::<T>::new, (), new),
    ensures
        r is Some <==> pool.final_state is Some,
        s is Some <==> pool.partial_state is Some,
        new.final_state is None && new.partial_state is None,
{
}

/// While developing, the first directory that exists of four around the current one
/// holds the models, and the first of them where none exists.
pub proof fn development_models_stand_nearby(current: &str, at: [bool; 4], r: String)
    requires
        current@.len() > 0,
        current@.last() != '/',
        call_ensures(development_models_dir, (current, at), r),
    ensures
        at@[0] ==> r@ == current@ + seq!['/'] + "models"@,
        !at@[0] && at@[1] ==> r@ == current@ + seq!['/'] + "../models"@,
        !at@[0] && !at@[1] && at@[2] ==> r@ == current@ + seq!['/']
            + "backend/whisper-server-package/models"@,
        !at@[0] && !at@[1] && !at@[2] && at@[3] ==> r@ == current@ + seq!['/']
            + "../backend/whisper-server-package/models"@,
        !at@[0] && !at@[1] && !at@[2] && !at@[3] ==> r@ == current@ + seq!['/'] + "models"@,
{
}

/// A cancellation goes to the engine, where there is one.
pub proof fn cancellations_go_to_the_engine<C, S>(
    engine: &mut Option<WhisperEngine<C, S>>,
    name: &str,
    r: Result<String, String>,
)
    requires
        *old(engine) matches Some(e) ==> e.wf(),
        call_ensures(whisper_cancel_download::<C, S>, (engine, name), r),
    ensures
        *old(engine) is None ==> (r matches Err(e) && e@ == "Whisper engine not initialized"@),
        *old(engine) is Some ==> r is Ok && (*final(engine) matches Some(e) && texts(
            e.cancelled@,
        ).contains(name@)),
        *old(engine) matches Some(b) ==> (b.available_models@.contains_key(name@) ==> (
        *final(engine) matches Some(e) && e.available_models@[name@].status is Missing)),
{
    if let Some(b) = *old(engine) {
        let had = texts(b.cancelled@);
        if !had.contains(name@) {
            assert(had.push(name@)[had.len() as int] == name@);
        }
    }
}

/// How a download ended is reported for its model.
pub proof fn ends_are_reported(
    name: &str,
    p: u8,
    tick: DownloadReport,
    result: Result<(), String>,
    r: (DownloadReport, Result<(), String>),
)
    requires
        call_ensures(crate::whisper::commands::progress_report, (name, p), tick),
        call_ensures(crate::whisper::commands::end_report, (name, result), r),
    ensures
        tick matches DownloadReport::Progress { model_name, progress } && model_name@ == name@ && progress
            == p,
        result is Ok ==> r.1 is Ok && (r.0 matches DownloadReport::Complete { model_name } && model_name@
            == name@),
        result matches Err(e) ==> (r.0 matches DownloadReport::Error { model_name, error } && model_name@
            == name@ && error@ == e@) && (r.1 matches Err(m) && m@ == "Failed to download model: "@
            + e@),
{
}

/// A model that was deleted is said to be, as what it was.
pub proof fn deletions_are_said<C, S>(engine: &mut WhisperEngine<C, S>, name: &str, r: String)
    requires
        old(engine).available_models@.contains_key(name@),
        call_ensures(WhisperEngine::<C, S>::finish_delete, (engine, name), r),
    ensures
        old(engine).available_models@[name@].status is Corrupted ==> r@
            == "Successfully deleted corrupted model '"@ + name@ + "'"@,
        old(engine).available_models@[name@].status is Available ==> r@
            == "Successfully deleted model '"@ + name@ + "'"@,
        final(engine).available_models@[name@].status is Missing,
{
}

/// A model that was loaded is the engine's, and its decoder states stay.
pub proof fn finished_loads_are_kept<C, S>(engine: &mut WhisperEngine<C, S>, name: &str, context: C)
    requires
        call_ensures(WhisperEngine::<C, S>::finish_load, (engine, name, context), ()),
    ensures
        final(engine).current_context == Some(context),
        final(engine).current_model matches Some(m) && m@ == name@,
        final(engine).available_models == old(engine).available_models,
{
}

/// A model's file stands in the models directory.
pub proof fn models_stand_in_their_directory(
    dirs: &ModelsDirectory,
    catalog: &Vec<CatalogEntry>,
    found: &Vec<Option<FoundFile>>,
    i: int,
    dir: &str,
    file: &str,
    path: String,
    r: Result<Vec<ModelInfo>, String>,
)
    requires
        catalog@.len() == found@.len(),
        call_ensures(
            crate::whisper::models::discover_models_standalone,
            (dirs, catalog, found),
            r,
        ),
        0 <= i < catalog@.len(),
        dirs.dir matches Some(d) && d@ == dir@,
        file@ == catalog@[i].filename@,
        call_ensures(crate::paths::join_path, (dir, file), path),
    ensures
        r matches Ok(models) && models@[i].path@ == path@,
{
    if let Ok(models) = r {
        if let Some(d) = dirs.dir {
            assert(crate::whisper::models::info_for(
                catalog@[i],
                d@,
                crate::whisper::models::scanned(found@[i], catalog@[i].size_mb, None),
                models@[i],
            ));
        }
    }
}

/// The models are listed as the engine finds them, and as they are in the directory
/// where there is no engine.
pub proof fn models_are_listed<C, S>(
    engine: &mut Option<WhisperEngine<C, S>>,
    dirs: &ModelsDirectory,
    catalog: &Vec<CatalogEntry>,
    found: &Vec<Option<FoundFile>>,
    i: int,
    judged: ModelStatus,
    r: Result<Vec<ModelInfo>, String>,
)
    requires
        *old(engine) matches Some(e) ==> e.wf(),
        catalog@.len() == found@.len(),
        call_ensures(
            crate::whisper::commands::whisper_get_available_models::<C, S>,
            (engine, dirs, catalog, found),
            r,
        ),
        0 <= i < catalog@.len(),
        *old(engine) is None,
        call_ensures(scan_catalog_entry, (&found@[i], catalog@[i].size_mb, None), judged),
    ensures
        *final(engine) is None,
        dirs.dir is None ==> (r matches Err(e) && e@ == "Models directory not initialized"@),
        dirs.dir is Some ==> (r matches Ok(models) && models@.len() == catalog@.len()
            && models@[i].name == catalog@[i].name && models@[i].status == judged),
{
    if let Ok(models) = r {
        if let Some(d) = dirs.dir {
            assert(crate::whisper::models::info_for(
                catalog@[i],
                d@,
                crate::whisper::models::scanned(found@[i], catalog@[i].size_mb, None),
                models@[i],
            ));
        }
    }
}

/// Where there is an engine, its downloads and cancellations stay, and it knows the
/// models that are listed.
pub proof fn listed_models_are_known<C, S>(
    engine: &mut Option<WhisperEngine<C, S>>,
    dirs: &ModelsDirectory,
    catalog: &Vec<CatalogEntry>,
    found: &Vec<Option<FoundFile>>,
    before: WhisperEngine<C, S>,
    i: int,
    judged: ModelStatus,
    r: Result<Vec<ModelInfo>, String>,
)
    requires
        *old(engine) == Some(before),
        before.wf(),
        catalog@.len() == found@.len(),
        call_ensures(
            crate::whisper::commands::whisper_get_available_models::<C, S>,
            (engine, dirs, catalog, found),
            r,
        ),
        0 <= i < catalog@.len(),
        !before.available_models@.contains_key(catalog@[i].name@),
        call_ensures(scan_catalog_entry, (&found@[i], catalog@[i].size_mb, None), judged),
    ensures
        r matches Ok(models) && models@.len() == catalog@.len() && models@[i].name == catalog@[i].name
            && models@[i].status == judged,
        *final(engine) matches Some(after) && after.downloads == before.downloads && after.cancelled
            == before.cancelled && after.current_context == before.current_context
            && after.available_models@.contains_key(catalog@[i].name@),
{
    if let Ok(models) = r {
        assert(crate::whisper::models::info_for(
            catalog@[i],
            before.models_dir@,
            crate::whisper::models::scanned(
                found@[i],
                catalog@[i].size_mb,
                crate::whisper::engine::known_progress(before.available_models@, catalog@[i].name@),
            ),
            models@[i],
        ));
        lemma_known(models@, i);
    }
}

/// A state that is in the pool is used again, and one that is not is made and kept.
pub proof fn pools_make_what_they_lack<T: Clone, E, F: FnOnce() -> Result<T, E>>(
    pool: &mut StatePool<T>,
    make: F,
    r: Result<T, E>,
)
    requires
        call_ensures(
            crate::whisper::decode::pool_get_or_insert::<T, E, F>,
            (pool, DecodePurpose::Final, make),
            r,
        ),
    ensures
        final(pool).partial_state == old(pool).partial_state,
        old(pool).final_state is Some ==> final(pool).final_state == old(pool).final_state && r is Ok,
        old(pool).final_state is None ==> (r is Ok <==> final(pool).final_state is Some),
        old(pool).final_state is None ==> (final(pool).final_state matches Some(s) ==> make.ensures(
            (),
            Ok(s),
        )),
        old(pool).final_state is None ==> (r matches Err(e) ==> make.ensures((), Err(e))),
{
}

/// Previews are decoded greedily, and what stays with a beam.
pub proof fn greedy_options_decode_greedily(
    options: &TranscribeOptions,
    beam_size: i32,
    r: Sampling,
)
    requires
        call_ensures(crate::whisper::decode::sampling, (options, beam_size), r),
    ensures
        options.greedy ==> (r matches Sampling::Greedy { best_of } && best_of == 1),
        !options.greedy ==> (r matches Sampling::Beam { size, patience } && size == beam_size && patience
            == 100),
{
}

/// A download that runs to its end leaves the model usable, or says why it is not.
pub proof fn whole_downloads_settle<C, S, F: FnOnce() -> Result<(), String>>(
    engine: &mut WhisperEngine<C, S>,
    name: &str,
    make_dir: F,
    ticks: &Vec<u8>,
    header: HeaderRead,
    judged: Result<(), String>,
    known: bool,
    r: Course,
)
    requires
        old(engine).wf(),
        call_ensures(
            WhisperEngine::<C, S>::download_model::<F>,
            (engine, name, make_dir, ticks, TransferEnd::Complete(header)),
            r,
        ),
        call_ensures(validate_model_file_magic, (&header,), judged),
        call_ensures(is_downloadable, (name,), known),
    ensures
        texts(old(engine).downloads@).contains(name@) ==> (r.result matches Err(e) && e@
            == "Download already in progress for model: "@ + name@) && *final(engine) == *old(engine)
            && !r.started && !r.remove,
        !texts(old(engine).downloads@).contains(name@) && !known ==> (r.result matches Err(e) && e@
            == "Unsupported model: "@ + name@) && *final(engine) == *old(engine) && !r.started
            && !r.remove,
        r.started && judged is Ok ==> r.result is Ok && !r.remove,
        r.started ==> (judged matches Err(why) ==> (r.result matches Err(e) && e@
            == "Downloaded model "@ + name@ + " failed validation: "@ + why@) && r.remove),
        !r.started ==> r.result is Err,
        r.result is Ok && old(engine).available_models@.contains_key(name@) ==> final(
            engine).available_models@[name@].status is Available,
        r.started && r.result is Err && old(engine).available_models@.contains_key(name@) ==> final(
            engine).available_models@[name@].status is Missing,
        final(engine).current_context == old(engine).current_context,
{
}

/// A fault is told with what was tried; a copy is the same, and another status
/// changes nothing else.
pub proof fn copies_of_models_are_the_same(
    prefix: &str,
    cause: &str,
    told: String,
    info: &ModelInfo,
    copy: ModelInfo,
    status: ModelStatus,
    other: ModelInfo,
    lease: EngineLease,
)
    requires
        call_ensures(crate::whisper::commands::failure, (prefix, cause), told),
        call_ensures(ModelInfo::copy, (info,), copy),
        call_ensures(ModelInfo::with_status, (info, status), other),
        call_ensures(EngineLease::new, (), lease),
    ensures
        told@ == prefix@ + cause@,
        copy == *info,
        other.status == status,
        other.name == info.name && other.path == info.path && other.size_mb == info.size_mb
            && other.accuracy == info.accuracy && other.speed == info.speed && other.description
            == info.description,
        lease.holders == 0,
{
}

/// A decode is for the transcript, with all threads and a beam, where nothing else
/// is asked for.
pub proof fn decodes_are_for_the_transcript(p: DecodePurpose, o: TranscribeOptions)
    requires
        call_ensures(DecodePurpose::default, (), p),
        call_ensures(TranscribeOptions::default, (), o),
    ensures
        p is Final,
        o.max_threads is None && !o.greedy && o.purpose is Final,
{
}

} // verus!
