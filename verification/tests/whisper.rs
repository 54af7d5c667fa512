use parley::settings::config::TranscriptConfig;
use parley::whisper::cleanup::{
    calculate_repetition_ratio, clean_repetitive_text, is_meaningless_output, remove_phrase_repetitions,
    remove_word_repetitions,
};
use parley::whisper::commands::{
    cancel_result, deletion_result, download_model_with_progress, end_report, progress_report, ready_result,
    report_event, whisper_cancel_download, whisper_delete_corrupted_model, whisper_get_available_models,
    whisper_get_models_directory, whisper_init, DownloadReport,
};
use parley::whisper::decode::{
    choose_language, effective_threads, is_special_token, pad_to_min_whisper_input, plan_decode, pool_get_or_insert,
    sanitized_prompt, transcript_of, DecodePurpose, Sampling, StatePool, TranscribeOptions,
    WHISPER_MIN_INPUT_SAMPLES,
};
use parley::whisper::ellipses::strip_continuation_ellipses;
use parley::whisper::download::{download_end, is_downloadable, model_filename, DownloadEnd, TransferEnd};
use parley::whisper::engine::{flash_attention, GpuType, LoadFault, LoadStep, PerformanceTier, WhisperEngine};
use parley::whisper::lease::{wait_until_free, EngineLease, WaitEvent, WaitStep};
use parley::whisper::models::{
    describe_status, development_models_dir, discover_models_standalone, get_models_directory, scan_catalog_entry,
    set_models_directory, validate_model_file_magic, whisper_has_available_models,
    whisper_validate_model_ready_with_config, CatalogEntry, FoundFile, HeaderRead, ModelInfo, ModelStatus,
    ModelsDirectory, ReadyStep,
};

const MB: u64 = 1_048_576;

fn words(text: &str) -> Vec<String> {
    text.split_whitespace().map(str::to_string).collect()
}

fn entry(name: &str, size_mb: u32) -> CatalogEntry {
    CatalogEntry {
        name: name.to_string(),
        filename: format!("ggml-{name}.bin"),
        size_mb,
        accuracy: "Good".to_string(),
        speed: "Fast".to_string(),
        description: "".to_string(),
    }
}

fn file(size: u64, header: HeaderRead) -> Option<FoundFile> {
    Some(FoundFile { size, header })
}

fn good_header() -> HeaderRead {
    HeaderRead::Bytes(*b"ggml....")
}

fn info(name: &str, status: ModelStatus) -> ModelInfo {
    ModelInfo {
        name: name.to_string(),
        path: format!("/m/ggml-{name}.bin"),
        size_mb: 100,
        accuracy: "Good".to_string(),
        speed: "Fast".to_string(),
        status,
        description: "".to_string(),
    }
}

fn engine() -> WhisperEngine<u8, u8> {
    let mut e: WhisperEngine<u8, u8> = WhisperEngine::new_with_models_dir("/m".to_string());
    let catalog = vec![entry("tiny", 75), entry("base", 142)];
    let found = vec![file(75 * MB, good_header()), None];
    let models = e.discover_models(&catalog, &found);
    assert_eq!(models.len(), 2);
    e
}

#[test]
fn pads_short_input_to_floor() {
    let out = pad_to_min_whisper_input(vec![0.5; 4_000], 0.0);
    assert_eq!(out.len(), WHISPER_MIN_INPUT_SAMPLES);
    assert_eq!(out[3_999], 0.5);
    assert_eq!(out[4_000], 0.0);
}

#[test]
fn leaves_long_input_untouched() {
    let input = vec![0.25; 40_000];
    let out = pad_to_min_whisper_input(input.clone(), 0.0);
    assert_eq!(out, input);
}

#[test]
fn distinct_states_per_purpose() {
    let mut pool: StatePool<u32> = StatePool::new();
    let final_state = pool_get_or_insert(&mut pool, DecodePurpose::Final, || Ok::<u32, ()>(1)).unwrap();
    let partial_state = pool_get_or_insert(&mut pool, DecodePurpose::Partial, || Ok::<u32, ()>(2)).unwrap();
    assert_eq!(final_state, 1);
    assert_eq!(partial_state, 2);
}

#[test]
fn same_state_on_repeated_calls() {
    let mut pool: StatePool<u32> = StatePool::new();
    let first = pool_get_or_insert(&mut pool, DecodePurpose::Final, || Ok::<u32, ()>(42)).unwrap();
    let mut called = false;
    let second = pool_get_or_insert(&mut pool, DecodePurpose::Final, || {
        called = true;
        Ok::<u32, ()>(99)
    })
    .unwrap();
    assert_eq!(first, second);
    assert!(!called);
    assert_eq!(second, 42);
}

#[test]
fn a_state_that_cannot_be_made_is_an_error() {
    let mut pool: StatePool<u32> = StatePool::new();
    assert_eq!(pool_get_or_insert(&mut pool, DecodePurpose::Final, || Err::<u32, u8>(7)), Err(7));
    assert_eq!(pool_get_or_insert(&mut pool, DecodePurpose::Final, || Ok::<u32, u8>(8)), Ok(8));
}

#[test]
fn default_purpose_is_final() {
    assert_eq!(DecodePurpose::default(), DecodePurpose::Final);
}

#[test]
fn no_request_keeps_default() {
    assert_eq!(effective_threads(8, None), 8);
}

#[test]
fn request_below_default_is_honored() {
    assert_eq!(effective_threads(8, Some(3)), 3);
}

#[test]
fn request_above_default_is_capped_at_default() {
    assert_eq!(effective_threads(4, Some(100)), 4);
}

#[test]
fn zero_or_negative_request_floors_at_one() {
    assert_eq!(effective_threads(8, Some(0)), 1);
    assert_eq!(effective_threads(8, Some(-5)), 1);
}

#[test]
fn partial_worker_half_budget_example() {
    let adaptive_threads = 6;
    let half = (adaptive_threads / 2).max(1);
    assert_eq!(effective_threads(adaptive_threads, Some(half)), 3);
}

#[test]
fn low_tier_single_core_floor() {
    assert_eq!(effective_threads(2, Some(1)), 1);
}

#[test]
fn acquire_sets_leased_drop_clears_it() {
    let mut lease = EngineLease::new();
    assert!(!lease.is_live_leased());
    lease.acquire_live();
    assert!(lease.is_live_leased());
    assert!(lease.release());
    assert!(!lease.is_live_leased());
}

#[test]
fn only_the_last_holder_wakes_waiters() {
    let mut lease = EngineLease::new();
    lease.acquire_live();
    lease.acquire_live();
    assert!(!lease.release());
    assert!(lease.release());
}

#[test]
fn wait_until_free_resolves_after_drop() {
    let mut lease = EngineLease::new();
    lease.acquire_live();
    assert_eq!(wait_until_free(WaitEvent::Asked, &lease), WaitStep::Wait);
    assert_eq!(wait_until_free(WaitEvent::Registered, &lease), WaitStep::Wait);
    lease.release();
    assert_eq!(wait_until_free(WaitEvent::Woken { past_deadline: false }, &lease), WaitStep::Free);
}

#[test]
fn wait_until_free_times_out_while_held() {
    let mut lease = EngineLease::new();
    lease.acquire_live();
    assert_eq!(wait_until_free(WaitEvent::TimedOut, &lease), WaitStep::GaveUp);
    assert_eq!(wait_until_free(WaitEvent::Woken { past_deadline: true }, &lease), WaitStep::GaveUp);
}

#[test]
fn decodes_are_planned_from_what_is_asked() {
    let options = TranscribeOptions { max_threads: Some(2), greedy: true, purpose: DecodePurpose::Partial };
    let plan = plan_decode(16_000, Some("auto-translate"), Some("a\0b"), &options, 5, None, 0.2f32.to_bits());
    assert_eq!(plan.sampling, Sampling::Greedy { best_of: 1 });
    assert_eq!(f32::from_bits(plan.temperature), 0.2);
    assert_eq!(plan.threads, 2);
    assert_eq!(plan.language, None);
    assert!(plan.translate);
    assert_eq!(plan.prompt.as_deref(), Some("a b"));
    assert!(plan.partial);
    let plan = plan_decode(240_000, Some("fr"), Some(" \0"), &TranscribeOptions::default(), 5, Some(6), 0);
    assert_eq!(plan.sampling, Sampling::Beam { size: 5, patience: 100 });
    assert_eq!(plan.threads, 6);
    assert_eq!(plan.language.as_deref(), Some("fr"));
    assert_eq!(plan.prompt, None);
    assert!(!plan.partial);
    assert_eq!(choose_language(Some("auto")), (None, false));
    assert_eq!(sanitized_prompt(None), None);
}

#[test]
fn markers_are_no_words() {
    assert!(is_special_token(Some("<|en|>")));
    assert!(is_special_token(Some("[_BEG_]")));
    assert!(is_special_token(None));
    assert!(!is_special_token(Some(" hello")));
}

#[test]
fn ellipses_of_continued_lines_go() {
    assert_eq!(strip_continuation_ellipses("...and so on..."), "and so on");
    assert_eq!(strip_continuation_ellipses("one...two.. three"), "one two.. three");
    assert_eq!(strip_continuation_ellipses("version 1.2"), "version 1.2");
    let once = strip_continuation_ellipses("a.... b");
    assert_eq!(strip_continuation_ellipses(&once), once);
}

#[test]
fn stutters_are_removed() {
    assert_eq!(remove_word_repetitions(&words("no no no no yes")), words("no yes"));
    assert_eq!(clean_repetitive_text("hello hello hello hello there friend"), "hello there friend");
    assert_eq!(clean_repetitive_text(""), "");
    let kept = words("a b");
    assert_eq!(remove_phrase_repetitions(&kept), kept);
}

#[test]
fn filler_output_is_dropped() {
    assert!(is_meaningless_output("Thanks for watching!"));
    assert!(!is_meaningless_output("Let us start the meeting"));
    assert_eq!(clean_repetitive_text("Thank you for watching"), "");
    assert_eq!(calculate_repetition_ratio("one two"), (0, 2));
}

#[test]
fn segments_become_one_transcript() {
    let segments = vec![" Hello ".to_string(), "  ".to_string(), "world".to_string()];
    assert_eq!(transcript_of(&segments), "Hello world");
    assert_eq!(transcript_of(&Vec::new()), "");
}

#[test]
fn model_files_are_known_by_their_first_bytes() {
    assert_eq!(validate_model_file_magic(&good_header()), Ok(()));
    assert_eq!(validate_model_file_magic(&HeaderRead::Bytes(*b"GGUF....")), Ok(()));
    assert_eq!(
        validate_model_file_magic(&HeaderRead::Bytes([b'<', b'h', 0xff, b'"', 0, 0, 0, 0])),
        Err("Invalid model file: missing GGML/GGUF magic number. Found: \"<h\u{fffd}\\\"\"".to_string())
    );
    assert_eq!(
        validate_model_file_magic(&HeaderRead::NotOpened("gone".to_string())),
        Err("Failed to open model file: gone".to_string())
    );
    assert_eq!(
        validate_model_file_magic(&HeaderRead::NotRead("short".to_string())),
        Err("Failed to read model file header: short".to_string())
    );
}

#[test]
fn scans_tell_models_from_leftovers() {
    assert_eq!(scan_catalog_entry(&None, 75, None), ModelStatus::Missing);
    assert_eq!(scan_catalog_entry(&file(75 * MB, good_header()), 75, None), ModelStatus::Available);
    assert_eq!(scan_catalog_entry(&file(10 * MB, good_header()), 75, Some(13)), ModelStatus::Downloading { progress: 13 });
    assert!(matches!(
        scan_catalog_entry(&file(10 * MB, good_header()), 75, None),
        ModelStatus::Corrupted { file_size, .. } if file_size == 10 * MB
    ));
    assert!(matches!(
        scan_catalog_entry(&file(75 * MB, HeaderRead::Bytes(*b"<html>..")), 75, None),
        ModelStatus::Corrupted { .. }
    ));
    assert!(matches!(
        scan_catalog_entry(&file(100, good_header()), 75, None),
        ModelStatus::Corrupted { file_size: 100, .. }
    ));
    assert_eq!(scan_catalog_entry(&file(0, good_header()), 75, None), ModelStatus::Missing);
}

#[test]
fn statuses_are_described() {
    assert_eq!(describe_status(&ModelStatus::Available), "Available");
    assert_eq!(describe_status(&ModelStatus::Downloading { progress: 4 }), "Downloading { progress: 4 }");
    assert_eq!(describe_status(&ModelStatus::Error("a\"b".to_string())), "Error(\"a\\\"b\")");
    assert_eq!(
        describe_status(&ModelStatus::Corrupted { file_size: 1, expected_min_size: 2 }),
        "Corrupted { file_size: 1, expected_min_size: 2 }"
    );
}

#[test]
fn the_models_directory_is_set_where_it_can_be_used() {
    let mut dirs = ModelsDirectory { dir: None };
    set_models_directory(&mut dirs, "/data", false);
    assert_eq!(get_models_directory(&dirs), None);
    assert_eq!(
        discover_models_standalone(&dirs, &Vec::new(), &Vec::new()),
        Err("Models directory not initialized".to_string())
    );
    set_models_directory(&mut dirs, "/data", true);
    assert_eq!(get_models_directory(&dirs).as_deref(), Some("/data/models"));
    let models = discover_models_standalone(&dirs, &vec![entry("tiny", 75)], &vec![None]).unwrap();
    assert_eq!(models[0].path, "/data/models/ggml-tiny.bin");
    assert_eq!(models[0].status, ModelStatus::Missing);
    assert_eq!(development_models_dir("/src", [false, true, false, false]), "/src/../models");
}

#[test]
fn the_configured_model_is_made_ready() {
    let models = vec![info("tiny", ModelStatus::Available), info("base", ModelStatus::Available)];
    let config = Some(TranscriptConfig { provider: "localWhisper".to_string(), model: "base".to_string() });
    assert_eq!(
        whisper_validate_model_ready_with_config(&Some(None), &config, &models),
        Ok(ReadyStep::Load("base".to_string()))
    );
    let other = Some(TranscriptConfig { provider: "cloud".to_string(), model: "base".to_string() });
    assert_eq!(
        whisper_validate_model_ready_with_config(&Some(None), &other, &models),
        Ok(ReadyStep::Load("tiny".to_string()))
    );
    assert_eq!(
        whisper_validate_model_ready_with_config(&Some(Some("tiny".to_string())), &config, &models),
        Ok(ReadyStep::Loaded("tiny".to_string()))
    );
    assert_eq!(
        whisper_validate_model_ready_with_config(&None, &config, &models),
        Err("Whisper engine not initialized".to_string())
    );
    assert!(whisper_validate_model_ready_with_config(&Some(None), &config, &Vec::new()).is_err());
    assert!(whisper_has_available_models(&Some(models)));
    assert!(!whisper_has_available_models(&None));
}

#[test]
fn models_are_loaded_once_and_swapped() {
    let mut e = engine();
    assert_eq!(e.begin_load("nope"), Err("Model nope not found".to_string()));
    assert_eq!(e.begin_load("base"), Err("Model base is not downloaded".to_string()));
    assert_eq!(e.begin_load("tiny"), Ok(LoadStep::LoadFile("/m/ggml-tiny.bin".to_string())));
    assert!(e.get_or_create_state(DecodePurpose::Final, |_| Ok(1)).is_err());
    e.finish_load("tiny", 9);
    assert!(e.is_model_loaded());
    assert_eq!(e.get_current_model().as_deref(), Some("tiny"));
    assert_eq!(e.begin_load("tiny"), Ok(LoadStep::AlreadyLoaded));
    assert_eq!(e.get_or_create_state(DecodePurpose::Final, |c| Ok(*c)), Ok(9));
    assert!(e.unload_model());
    assert!(!e.unload_model());
    assert!(!e.is_model_loaded());
}

fn dir_there() -> Result<(), String> {
    Ok(())
}

fn good_file() -> TransferEnd {
    TransferEnd::Complete(HeaderRead::Bytes(*b"lmgg\0\0\0\0"))
}

fn status_of(e: &WhisperEngine<u8, u8>, name: &str) -> ModelStatus {
    e.available_models.get(name).unwrap().status.clone()
}

#[test]
fn downloads_run_once_and_can_be_tried_again() {
    let mut e = engine();
    assert_eq!(e.begin_download("huge", dir_there).unwrap_err(), "Unsupported model: huge");
    let plan = e.begin_download("base", dir_there).unwrap();
    assert_eq!(plan.url, "https://huggingface.co/ggerganov/whisper.cpp/resolve/main/ggml-base.bin");
    assert_eq!(plan.path, "/m/ggml-base.bin");
    assert_eq!(status_of(&e, "base"), ModelStatus::Downloading { progress: 0 });
    assert_eq!(e.begin_download("base", dir_there).unwrap_err(), "Download already in progress for model: base");
    e.on_progress("base", 40);
    assert_eq!(status_of(&e, "base"), ModelStatus::Downloading { progress: 40 });
    assert_eq!(e.begin_load("base"), Err("Model base is currently downloading".to_string()));
    let bad = HeaderRead::Bytes(*b"notmodel");
    let why = validate_model_file_magic(&bad).unwrap_err();
    let (result, remove) = e.finish_download("base", TransferEnd::Complete(bad));
    assert_eq!(result, Err(format!("Downloaded model base failed validation: {why}")));
    assert!(remove);
    assert_eq!(status_of(&e, "base"), ModelStatus::Missing);
    assert!(e.begin_download("base", dir_there).is_ok());
    assert_eq!(e.finish_download("base", TransferEnd::Failed("net".to_string())), (Err("net".to_string()), false));
    assert_eq!(status_of(&e, "base"), ModelStatus::Missing);
    assert!(e.begin_download("base", dir_there).is_ok());
    assert_eq!(e.finish_download("base", good_file()), (Ok(()), false));
    assert_eq!(status_of(&e, "base"), ModelStatus::Available);
    assert!(e.begin_load("base").is_ok());
}

#[test]
fn downloads_stop_where_they_are_cancelled() {
    let mut e = engine();
    assert!(e.begin_download("base", dir_there).is_ok());
    assert!(!e.is_cancelled("base"));
    assert_eq!(e.cancel_download("base"), "/m/ggml-base.bin");
    assert!(e.is_cancelled("base"));
    assert!(!e.is_cancelled("tiny"));
    assert_eq!(status_of(&e, "base"), ModelStatus::Missing);
    assert_eq!(
        e.finish_download("base", TransferEnd::Stopped),
        (Err("Download cancelled by user".to_string()), false)
    );
    assert!(!e.is_cancelled("base"));
    assert!(e.begin_download("base", dir_there).is_ok());
    assert_eq!(download_end(TransferEnd::Stopped, true), DownloadEnd::Cancelled);
    assert_eq!(
        download_end(TransferEnd::Stopped, false),
        DownloadEnd::Failed("Download cancelled by user".to_string())
    );
    assert_eq!(download_end(good_file(), false), DownloadEnd::Completed);
}

#[test]
fn whole_downloads_settle() {
    let mut e = engine();
    let done = e.download_model("base", dir_there, &vec![10, 60, 100], good_file());
    assert_eq!((done.result, done.started, done.remove), (Ok(()), true, false));
    assert_eq!(status_of(&e, "base"), ModelStatus::Available);
    let again = e.download_model("base", dir_there, &vec![10], TransferEnd::Failed("net".to_string()));
    assert_eq!(again.result, Err("net".to_string()));
    assert_eq!(status_of(&e, "base"), ModelStatus::Missing);
    let stopped = e.download_model("base", dir_there, &vec![10], TransferEnd::Stopped);
    assert_eq!(stopped.result, Err("Download cancelled by user".to_string()));
    assert_eq!(status_of(&e, "base"), ModelStatus::Missing);
    assert_eq!(status_of(&e, "tiny"), ModelStatus::Available);
}

#[test]
fn downloads_need_the_models_directory() {
    let mut e = engine();
    let refused = e.begin_download("base", || Err("read-only".to_string())).unwrap_err();
    assert_eq!(refused, "Failed to create models directory: read-only");
    assert_eq!(status_of(&e, "base"), ModelStatus::Missing);
    assert_eq!(e.begin_download("base", dir_there).unwrap_err(), "Download already in progress for model: base");
}

#[test]
fn twelve_models_can_be_downloaded() {
    for name in ["tiny", "base", "small", "medium", "large-v3-turbo", "large-v3", "tiny-q5_1", "base-q5_1"] {
        assert!(is_downloadable(name));
    }
    for name in ["small-q5_1", "medium-q5_0", "large-v3-turbo-q5_0", "large-v3-q5_0"] {
        assert!(is_downloadable(name));
    }
    assert!(!is_downloadable("large-v2"));
    assert_eq!(model_filename("large-v3-q5_0"), "ggml-large-v3-q5_0.bin");
}

#[test]
fn failed_loads_say_why() {
    let mut e = engine();
    assert_eq!(
        e.end_load("tiny", Err(LoadFault::Failed("bad file".to_string()))),
        Err("Failed to load model tiny: bad file".to_string())
    );
    assert_eq!(
        e.end_load("tiny", Err(LoadFault::Crashed("gone".to_string()))),
        Err("Model loading task panicked: gone".to_string())
    );
    assert!(!e.is_model_loaded());
    assert_eq!(e.end_load("tiny", Ok(4)), Ok(()));
    assert_eq!(e.get_current_model().as_deref(), Some("tiny"));
    assert_eq!(ready_result("tiny", Ok(())), Ok("tiny".to_string()));
    assert_eq!(ready_result("tiny", Err("x".to_string())), Err("Failed to load model tiny: x".to_string()));
}

#[test]
fn available_models_can_be_deleted() {
    let mut e = engine();
    assert_eq!(e.begin_delete("tiny"), Ok("/m/ggml-tiny.bin".to_string()));
    assert_eq!(
        e.end_delete("tiny", Err("busy".to_string())),
        Err("Failed to delete file '/m/ggml-tiny.bin': busy".to_string())
    );
    assert_eq!(status_of(&e, "tiny"), ModelStatus::Available);
    assert_eq!(e.end_delete("tiny", Ok(())), Ok("Successfully deleted model 'tiny'".to_string()));
    assert_eq!(status_of(&e, "tiny"), ModelStatus::Missing);
    assert!(e.begin_delete("tiny").is_err());
    assert!(e.begin_delete("nope").is_err());
    assert_eq!(deletion_result(Err("x".to_string())), Err("Failed to delete model: x".to_string()));
}

#[test]
fn commands_need_an_engine() {
    let mut none: Option<WhisperEngine<u8, u8>> = None;
    assert!(whisper_cancel_download(&mut none, "tiny").is_err());
    assert!(whisper_get_models_directory(&none).is_err());
    whisper_init(&mut none, "/m".to_string());
    assert_eq!(whisper_get_models_directory(&none), Ok("/m".to_string()));
    assert_eq!(whisper_cancel_download(&mut none, "tiny"), Ok("/m/ggml-tiny.bin".to_string()));
    assert_eq!(cancel_result(Ok(())), Ok(()));
    assert_eq!(cancel_result(Err("x".to_string())), Err("Failed to cancel download: x".to_string()));
    whisper_init(&mut none, "/other".to_string());
    assert_eq!(whisper_get_models_directory(&none), Ok("/m".to_string()));
}

#[test]
fn ended_downloads_are_reported() {
    let base = "base".to_string();
    let mut none: Option<WhisperEngine<u8, u8>> = None;
    let without = download_model_with_progress(&mut none, "base", dir_there, &vec![5], good_file());
    assert_eq!(without, (vec![], Err("Whisper engine not initialized".to_string()), false));

    let mut some = Some(engine());
    let (reports, result, remove) =
        download_model_with_progress(&mut some, "base", dir_there, &vec![5, 100], good_file());
    assert_eq!((result, remove), (Ok(()), false));
    assert_eq!(
        reports,
        vec![
            DownloadReport::Progress { model_name: base.clone(), progress: 5 },
            DownloadReport::Progress { model_name: base.clone(), progress: 100 },
            DownloadReport::Complete { model_name: base.clone() },
        ]
    );
    assert_eq!(report_event(&reports[0]), "model-download-progress");
    assert_eq!(report_event(&reports[2]), "model-download-complete");

    let (reports, result, _) = download_model_with_progress(
        &mut some,
        "base",
        dir_there,
        &vec![5],
        TransferEnd::Failed("net".to_string()),
    );
    assert_eq!(result, Err("Failed to download model: net".to_string()));
    assert_eq!(reports.len(), 2);
    assert_eq!(reports[1], DownloadReport::Error { model_name: base.clone(), error: "net".to_string() });
    assert_eq!(report_event(&reports[1]), "model-download-error");

    let (reports, result, _) =
        download_model_with_progress(&mut some, "huge", dir_there, &vec![5], good_file());
    assert_eq!(result, Err("Failed to download model: Unsupported model: huge".to_string()));
    assert_eq!(reports.len(), 1);
    assert_eq!(progress_report("base", 7), DownloadReport::Progress { model_name: base.clone(), progress: 7 });
    assert_eq!(end_report("base", Ok(())), (DownloadReport::Complete { model_name: base }, Ok(())));
}

#[test]
fn every_decode_leaves_timestamps_out() {
    let fixed = plan_decode(16_000, None, None, &TranscribeOptions::default(), 5, None, 0).fixed;
    assert!(fixed.no_timestamps && fixed.token_timestamps);
    assert!(fixed.suppress_blank && fixed.suppress_nst);
    assert!(!fixed.print_special && !fixed.print_progress && !fixed.print_realtime && !fixed.print_timestamps);
    assert_eq!((fixed.max_len, fixed.single_segment), (200, false));
    assert_eq!((fixed.max_initial_ts, fixed.entropy_thold), (100, 240));
    assert_eq!((fixed.logprob_thold, fixed.no_speech_thold), (-100, 55));
}

#[test]
fn flash_attention_needs_fast_cuda() {
    assert!(flash_attention(GpuType::Cuda, PerformanceTier::Ultra));
    assert!(!flash_attention(GpuType::Cuda, PerformanceTier::Medium));
    assert!(!flash_attention(GpuType::Vulkan, PerformanceTier::High));
}

#[test]
fn models_are_listed_with_and_without_an_engine() {
    let catalog = vec![entry("tiny", 75)];
    let mut none: Option<WhisperEngine<u8, u8>> = None;
    let dirs = ModelsDirectory { dir: None };
    assert!(whisper_get_available_models(&mut none, &dirs, &catalog, &vec![None]).is_err());
    assert_eq!(
        whisper_delete_corrupted_model(&none, "tiny"),
        Err("Whisper engine not initialized".to_string())
    );
    let mut some = Some(engine());
    let found = vec![file(75 * MB, good_header())];
    let models = whisper_get_available_models(&mut some, &dirs, &catalog, &found).unwrap();
    assert_eq!(models[0].status, ModelStatus::Available);
    assert_eq!(models[0].path, "/m/ggml-tiny.bin");
    assert_eq!(whisper_delete_corrupted_model(&some, "tiny"), Ok("/m/ggml-tiny.bin".to_string()));
    assert_eq!(
        whisper_delete_corrupted_model(&some, "huge"),
        Err("Failed to delete model: Model 'huge' not found".to_string())
    );
}

#[test]
fn very_repetitive_texts_are_dropped() {
    assert_eq!(clean_repetitive_text("a b c a c b a b c b a c b c a b a c"), "");
    assert_eq!(clean_repetitive_text("one two three four five six"), "one two three four five six");
    assert_eq!(calculate_repetition_ratio("A b a B"), (2, 4));
}
