use parley::import::dialog::{
    import_event_kind, language_options, model_options, selected_language, speaker_options, warning_message,
    AudioFileInfo, DialogBody, DialogButtons, ImportChoices, ImportEffect, ImportEvent, ImportEventKind,
    ImportProgress, ImportState, Status,
};
use parley::import::files::{
    format_duration, format_file_size, formats_label, is_audio_path, language_label, pick_dropped_audio_file, progress_percent,
    speaker_count_label, LANGUAGES,
};
use parley::whisper::models::{ModelInfo, ModelStatus};

fn extensions() -> Vec<String> {
    ["wav", "mp3", "mp4"].iter().map(|e| e.to_string()).collect()
}

fn info() -> AudioFileInfo {
    AudioFileInfo {
        path: "/tmp/clip.mp3".to_string(),
        filename: "clip".to_string(),
        duration_seconds: 65,
        size_bytes: 2048,
        format: "MP3".to_string(),
    }
}

fn choices(title: &str, language: &str) -> ImportChoices {
    ImportChoices {
        title: title.to_string(),
        language: Some(language.to_string()),
        speakers: None,
        model: Some("base".to_string()),
    }
}

fn model(name: &str, status: ModelStatus) -> ModelInfo {
    ModelInfo {
        name: name.to_string(),
        path: "".to_string(),
        size_mb: 1,
        accuracy: "Good".to_string(),
        speed: "Fast".to_string(),
        status,
        description: "".to_string(),
    }
}

#[test]
fn audio_extensions_case_insensitive() {
    assert!(is_audio_path("/tmp/meeting.WAV", &extensions()));
    assert!(is_audio_path("/tmp/meeting.mp3", &extensions()));
    assert!(!is_audio_path("/tmp/notes.txt", &extensions()));
    assert!(!is_audio_path("/tmp/no-extension", &extensions()));
}

#[test]
fn dots_elsewhere_in_a_path_name_no_format() {
    assert!(!is_audio_path("/tmp/.mp3", &extensions()));
    assert!(!is_audio_path("/tmp.mp3/notes", &extensions()));
    assert!(is_audio_path("/tmp/a.b.mp3", &extensions()));
}

#[test]
fn picks_first_audio_file_among_dropped_paths() {
    let paths = vec!["/tmp/readme.txt".to_string(), "/tmp/clip.mp4".to_string(), "/tmp/other.wav".to_string()];
    assert_eq!(pick_dropped_audio_file(&paths, &extensions()), Some(&"/tmp/clip.mp4".to_string()));
}

#[test]
fn no_audio_file_among_dropped_paths() {
    let paths = vec!["/tmp/readme.txt".to_string()];
    assert_eq!(pick_dropped_audio_file(&paths, &extensions()), None);
}

#[test]
fn formats_duration_under_an_hour() {
    assert_eq!(format_duration(65), "1:05");
    assert_eq!(format_duration(5), "0:05");
}

#[test]
fn formats_duration_over_an_hour() {
    assert_eq!(format_duration(3725), "1:02:05");
}

#[test]
fn formats_negative_duration_as_zero() {
    assert_eq!(format_duration(-5), "0:00");
}

#[test]
fn formats_file_sizes() {
    assert_eq!(format_file_size(500), "500 B");
    assert_eq!(format_file_size(2048), "2.0 KB");
    assert_eq!(format_file_size(5 * 1024 * 1024), "5.0 MB");
    assert_eq!(format_file_size(3 * 1024 * 1024 * 1024), "3.0 GB");
}

#[test]
fn file_sizes_round_as_numbers_are_printed() {
    for bytes in [0u64, 1023, 1024, 1075, 1076, 1126, 1280, 1331, 1434, 1536, 999_999, 1_048_575, 1_048_576] {
        let kb = bytes as f64 / 1024.0;
        let expected = if bytes < 1024 {
            format!("{bytes} B")
        } else if bytes < 1024 * 1024 {
            format!("{kb:.1} KB")
        } else {
            format!("{:.1} MB", kb / 1024.0)
        };
        assert_eq!(format_file_size(bytes), expected);
    }
    for bytes in [u64::MAX, u64::MAX / 3, 0x20_0000_0000_0001, 0x20_0000_0000_0003, 1_073_741_824, 1_234_567_890_123] {
        assert_eq!(format_file_size(bytes), format!("{:.1} GB", bytes as f64 / 1_073_741_824.0));
    }
}

#[test]
fn clamps_progress_percent() {
    assert_eq!(progress_percent(0), 0);
    assert_eq!(progress_percent(50), 50);
    assert_eq!(progress_percent(150), 100);
}

#[test]
fn language_label_falls_back_to_code() {
    assert_eq!(language_label("en"), "English");
    assert_eq!(language_label("xx-unknown"), "xx-unknown");
}

#[test]
fn speaker_count_labels() {
    assert_eq!(speaker_count_label(0), "Auto-detect");
    assert_eq!(speaker_count_label(1), "1 speaker");
    assert_eq!(speaker_count_label(3), "3 speakers");
}

#[test]
fn negative_speaker_counts_keep_their_sign() {
    assert_eq!(speaker_count_label(-2), "-2 speakers");
    assert_eq!(speaker_count_label(i32::MIN), "-2147483648 speakers");
}

#[test]
fn pickers_offer_languages_speakers_and_usable_models() {
    let languages = language_options();
    assert_eq!(languages.len(), LANGUAGES.len());
    assert_eq!(languages[0], ("auto".to_string(), "Auto Detect".to_string()));
    let speakers = speaker_options();
    assert_eq!(speakers.len(), 9);
    assert_eq!(speakers[8], (8, "8 speakers".to_string()));
    let models = vec![model("tiny", ModelStatus::Missing), model("base", ModelStatus::Available)];
    assert_eq!(model_options(Some(models)), Some(vec!["base".to_string()]));
    assert_eq!(model_options(Some(vec![model("tiny", ModelStatus::Missing)])), None);
    assert_eq!(model_options(None), None);
}

#[test]
fn auto_is_no_language() {
    assert_eq!(selected_language(Some("auto".to_string())), None);
    assert_eq!(selected_language(Some("fr".to_string())), Some("fr".to_string()));
    assert_eq!(selected_language(None), None);
}

#[test]
fn warnings_carry_their_details() {
    assert_eq!(warning_message("Slow".to_string(), Some("disk".to_string())), "Slow: disk");
    assert_eq!(warning_message("Slow".to_string(), None), "Slow");
}

#[test]
fn a_file_is_validated_and_imported() {
    let mut state = ImportState::new();
    assert_eq!(state.body(), DialogBody::Pick { label: "Select Audio File", enabled: true });
    assert_eq!(state.buttons(), DialogButtons::CancelAndImport { can_import: false });
    assert!(state.start_import(choices("", "auto")).is_none());
    state.begin_validate();
    assert_eq!(state.body(), DialogBody::Pick { label: "Validating…", enabled: false });
    assert_eq!(state.finish_validate(Ok(info())), Some("clip".to_string()));
    assert_eq!(state.buttons(), DialogButtons::CancelAndImport { can_import: true });
    match state.body() {
        DialogBody::File(card) => {
            assert_eq!(card.duration, "1:05");
            assert_eq!(card.size, "2.0 KB");
            assert_eq!(card.advanced_label, "Advanced options");
        }
        other => panic!("{other:?}"),
    }
    let ask = state.start_import(choices("   ", "auto")).unwrap();
    assert_eq!(ask.title, "clip");
    assert_eq!(ask.language, None);
    assert_eq!(ask.num_speakers, 0);
    assert_eq!(state.dialog_title(), "Importing Audio…");
    assert!(!state.closable());
    assert!(state.cancels_import());
    assert_eq!(state.buttons(), DialogButtons::CancelImport);
    let effect = state.on_core_event(ImportEvent::Progress(ImportProgress {
        stage: "Decoding".to_string(),
        progress_percentage: 140,
        message: "Half way".to_string(),
    }));
    assert_eq!(effect, ImportEffect::Redraw);
    assert_eq!(
        state.body(),
        DialogBody::Running {
            percent: 100,
            percent_label: "100%".to_string(),
            stage: "Decoding".to_string(),
            message: "Half way".to_string(),
        }
    );
    let done = state.on_core_event(ImportEvent::Complete { meeting_id: "m1".to_string() });
    assert_eq!(done, ImportEffect::OpenMeeting("m1".to_string()));
    assert_eq!(state.status, Status::Idle);
}

#[test]
fn a_typed_title_is_kept() {
    let mut state = ImportState::new();
    state.title_changed();
    assert_eq!(state.finish_validate(Ok(info())), None);
    let ask = state.start_import(choices(" Sync ", "fr")).unwrap();
    assert_eq!(ask.title, " Sync ");
    assert_eq!(ask.language.as_deref(), Some("fr"));
    assert_eq!(ask.model.as_deref(), Some("base"));
}

#[test]
fn failed_imports_can_be_tried_again() {
    let mut state = ImportState::new();
    assert_eq!(state.finish_validate(Err("not audio".to_string())), None);
    assert_eq!(state.dialog_title(), "Import Failed");
    assert_eq!(state.body(), DialogBody::Failed("not audio".to_string()));
    assert_eq!(state.buttons(), DialogButtons::CloseAndRetry);
    state.retry();
    assert_eq!(state.dialog_title(), "Import Audio File");
    state.on_core_event(ImportEvent::Failed { error: "boom".to_string() });
    assert_eq!(state.body(), DialogBody::Failed("boom".to_string()));
    let warned = state.on_core_event(ImportEvent::Warning { warning: "w".to_string(), details: None });
    assert_eq!(warned, ImportEffect::Warn("w".to_string()));
}

#[test]
fn import_events_are_told_apart_by_name() {
    assert_eq!(import_event_kind("import-progress"), Some(ImportEventKind::Progress));
    assert_eq!(import_event_kind("import-complete"), Some(ImportEventKind::Complete));
    assert_eq!(import_event_kind("import-error"), Some(ImportEventKind::Failed));
    assert_eq!(import_event_kind("import-warning"), Some(ImportEventKind::Warning));
    assert_eq!(import_event_kind("import"), None);
}

#[test]
fn formats_are_listed_in_capitals() {
    assert_eq!(formats_label(&extensions()), "WAV, MP3, MP4");
}

#[test]
fn the_case_of_an_extension_does_not_count() {
    for path in ["/tmp/a.Mp3", "/tmp/a.MP3", "/tmp/a.mP3"] {
        assert_eq!(is_audio_path(path, &extensions()), is_audio_path("/tmp/a.mp3", &extensions()));
    }
}

#[test]
fn lower_case_keeps_the_answer_in_every_script() {
    for c in ('\u{1}'..=char::MAX).filter(|c| *c != '/' && *c != '.') {
        let low = c.to_string().to_lowercase();
        let formats = vec![low.clone()];
        assert!(is_audio_path(&format!("/tmp/a.{c}"), &formats), "{c:?}");
        assert!(is_audio_path(&format!("/tmp/a.{low}"), &formats), "{c:?}");
    }
}
