use parley::onboarding::{
    can_continue, first_view, mark_completed, next_step, previous_step, records_at_completion, records_at_creation,
    setup_event_kind, summary_model_size_label, view_for_status, CompleteStep, OnboardingStatus, OnboardingView,
    Opening, SetupEvent, SetupEventKind, SetupWork, Step, ONBOARDING_WHISPER_MODEL,
};

fn status(completed: bool, current_step: u8) -> OnboardingStatus {
    OnboardingStatus {
        completed,
        current_step,
        transcription_model: "pending".to_string(),
        summary_model: "pending".to_string(),
    }
}

#[test]
fn next_step_advances_and_stops_at_the_end() {
    assert_eq!(next_step(Step::Welcome), Step::SetupOverview);
    assert_eq!(next_step(Step::SetupOverview), Step::DownloadProgress);
    assert_eq!(next_step(Step::DownloadProgress), Step::DownloadProgress);
}

#[test]
fn previous_step_retreats_and_stops_at_the_start() {
    assert_eq!(previous_step(Step::DownloadProgress), Step::SetupOverview);
    assert_eq!(previous_step(Step::SetupOverview), Step::Welcome);
    assert_eq!(previous_step(Step::Welcome), Step::Welcome);
}

#[test]
fn step_number_round_trips_through_clamp() {
    for step in [Step::Welcome, Step::SetupOverview, Step::DownloadProgress] {
        assert_eq!(Step::clamp(step.number()), step);
    }
}

#[test]
fn clamp_treats_zero_as_the_first_step() {
    assert_eq!(Step::clamp(0), Step::Welcome);
}

#[test]
fn clamp_treats_anything_past_three_as_the_last_step() {
    assert_eq!(Step::clamp(4), Step::DownloadProgress);
    assert_eq!(Step::clamp(255), Step::DownloadProgress);
}

#[test]
fn summary_model_size_label_matches_react_copy() {
    assert_eq!(summary_model_size_label("gemma3:4b"), "~2.5 GB");
    assert_eq!(summary_model_size_label("gemma3:1b"), "~806 MB");
    assert_eq!(summary_model_size_label("unknown-model"), "~806 MB");
}

#[test]
fn can_continue_requires_whisper_downloaded_and_not_completing() {
    assert!(can_continue(true, false));
    assert!(!can_continue(false, false));
    assert!(!can_continue(true, true));
    assert!(!can_continue(false, true));
}

#[test]
fn first_launch_creates_the_database_and_downloads_once() {
    let (mut view, work) = OnboardingView::new(true, Step::Welcome, None);
    assert_eq!(work, SetupWork { create_db: true, start_downloads: false });
    assert_eq!(view.recommended_model, "gemma3:1b");
    assert!(!view.go_next());
    assert!(view.continue_disabled());
    assert_eq!(view.status_line(), "Setting up your local database…");
    view.finish_db_creation(Ok(()));
    assert_eq!(view.status_line(), "Ready.");
    assert!(view.go_next());
    assert!(!view.go_next());
    assert_eq!(view.lit_marks(), [true, true, true]);
    view.go_previous();
    assert_eq!(view.lit_marks(), [true, true, false]);
    assert!(!view.go_next());
}

#[test]
fn a_database_that_fails_is_reported() {
    let (mut view, _) = OnboardingView::new(true, Step::SetupOverview, None);
    view.finish_db_creation(Err("disk full".to_string()));
    assert_eq!(view.status_line(), "Setup failed: disk full");
    assert!(view.continue_disabled());
}

#[test]
fn downloads_follow_their_reports() {
    let (mut view, work) = OnboardingView::new(false, Step::DownloadProgress, Some("gemma3:4b".to_string()));
    assert_eq!(work, SetupWork { create_db: false, start_downloads: true });
    view.on_core_event(SetupEvent::WhisperProgress { model: "other".to_string(), progress: 50 });
    assert_eq!(view.whisper.status_text(), "0%");
    view.on_core_event(SetupEvent::WhisperProgress { model: ONBOARDING_WHISPER_MODEL.to_string(), progress: 40 });
    assert_eq!(view.whisper.status_text(), "40%");
    assert_eq!(view.finish_button(), ("Continue", false));
    view.on_core_event(SetupEvent::WhisperComplete { model: ONBOARDING_WHISPER_MODEL.to_string() });
    assert_eq!(view.whisper.status_text(), "Done");
    assert_eq!(view.finish_button(), ("Continue", true));
    view.on_core_event(SetupEvent::Summary {
        model: "gemma3:4b".to_string(),
        progress: 7,
        status: "error".to_string(),
        error: Some("offline".to_string()),
    });
    assert_eq!(view.summary.status_text(), "Failed");
    assert_eq!(view.summary.progress, 7);
}

#[test]
fn a_failed_speech_download_is_shown() {
    let (mut view, _) = OnboardingView::new(false, Step::DownloadProgress, None);
    view.on_core_event(SetupEvent::WhisperFailed {
        model: ONBOARDING_WHISPER_MODEL.to_string(),
        error: "offline".to_string(),
    });
    assert_eq!(view.whisper.status_text(), "Failed");
    assert_eq!(view.complete(true), CompleteStep::Ignored);
}

#[test]
fn finishing_needs_a_model_and_a_database() {
    let (mut view, _) = OnboardingView::new(false, Step::DownloadProgress, None);
    view.whisper.downloaded = true;
    assert_eq!(view.complete(false), CompleteStep::NoDatabase);
    assert_eq!(
        view.complete_error_line().as_deref(),
        Some("Failed to finish setup: Database not ready yet")
    );
    assert_eq!(view.complete(true), CompleteStep::Store);
    assert_eq!(view.finish_button(), ("Finishing…", false));
    assert_eq!(view.complete(true), CompleteStep::Ignored);
    assert!(!view.finish_complete(Err("locked".to_string())));
    assert_eq!(view.complete_error.as_deref(), Some("locked"));
    assert!(view.finish_complete(Ok(())));
}

#[test]
fn setup_goes_on_where_it_was_left() {
    assert_eq!(first_view(false), Opening::Onboarding { needs_db_creation: true, step: Step::Welcome });
    assert_eq!(first_view(true), Opening::Loading);
    assert_eq!(
        view_for_status(&Some(status(false, 2))),
        Opening::Onboarding { needs_db_creation: false, step: Step::SetupOverview }
    );
    assert_eq!(view_for_status(&None), Opening::Shell);
    let mut done = status(false, 1);
    mark_completed(&mut done);
    assert_eq!(done.current_step, 3);
    assert_eq!(done.transcription_model, "downloaded");
    assert_eq!(view_for_status(&Some(done)), Opening::Shell);
}

#[test]
fn setup_events_are_told_apart_by_name() {
    assert_eq!(setup_event_kind("model-download-progress"), Some(SetupEventKind::WhisperProgress));
    assert_eq!(setup_event_kind("model-download-complete"), Some(SetupEventKind::WhisperComplete));
    assert_eq!(setup_event_kind("model-download-error"), Some(SetupEventKind::WhisperFailed));
    assert_eq!(setup_event_kind("builtin-ai-download-progress"), Some(SetupEventKind::Summary));
    assert_eq!(setup_event_kind("other"), None);
}

#[test]
fn setup_stores_its_models() {
    let first = records_at_creation("small");
    assert_eq!((first.provider.as_str(), first.model.as_str()), ("builtin-ai", "gemma3:1b"));
    assert_eq!((first.whisper_model.as_str(), first.ollama_endpoint.as_deref()), ("large-v3", None));
    assert_eq!((first.transcript_provider.as_str(), first.transcript_model.as_str()), ("localWhisper", "small"));
    let last = records_at_completion("gemma3:4b", "small");
    assert_eq!(last.model, "gemma3:4b");
    assert_eq!(last.transcript_model, "small");
}
