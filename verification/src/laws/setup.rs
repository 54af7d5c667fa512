//! The first launch goes step by step, and is not shown again once it is done.
use vstd::prelude::*;
use crate::numbers::to_decimal;
use crate::onboarding::{can_continue, first_view, mark_completed, next_step, previous_step, records_at_completion, records_at_creation, setup_event_kind, summary_model_size_label, view_for_status, CompleteStep, DownloadState, ModelRecords, OnboardingStatus, OnboardingView, Opening, SetupEvent, SetupEventKind, SetupWork, Step};

verus! {

/// The steps follow each other: welcome, overview, downloads.
pub proof fn steps_follow_each_other(step: Step, next: Step, before: Step, number: u8)
    requires
        call_ensures(next_step, (step,), next),
        call_ensures(previous_step, (step,), before),
        call_ensures(Step::number, (step,), number),
    ensures
        step is Welcome ==> next is SetupOverview && before is Welcome && number == 1,
        step is SetupOverview ==> next is DownloadProgress && before is Welcome && number == 2,
        step is DownloadProgress ==> next is DownloadProgress && before is SetupOverview && number
            == 3,
{
}

/// A stored number leads to its step, one that is too small to the first and one
/// that is too large to the last.
pub proof fn stored_steps_are_found(n: u8, r: Step)
    requires
        call_ensures(Step::clamp, (n,), r),
    ensures
        n <= 1 ==> r is Welcome,
        n == 2 ==> r is SetupOverview,
        n >= 3 ==> r is DownloadProgress,
{
}

/// The setup can be finished once the speech model is there, and once.
pub proof fn setups_need_the_speech_model(there: bool, completing: bool, r: bool)
    requires
        call_ensures(can_continue, (there, completing), r),
    ensures
        r <==> there && !completing,
{
}

/// A download is shown by how far it is.
pub proof fn downloads_are_shown(state: &DownloadState, n: u64, of_n: String, r: String)
    requires
        call_ensures(DownloadState::status_text, (state,), r),
        n == state.progress,
        call_ensures(to_decimal, (n,), of_n),
    ensures
        state.downloaded ==> r@ == "Done"@,
        !state.downloaded && state.error is Some ==> r@ == "Failed"@,
        !state.downloaded && state.error is None && state.in_progress ==> r@ == of_n@ + "%"@,
        !state.downloaded && state.error is None && !state.in_progress ==> r@ == "Waiting…"@,
{
}

/// Reports about the setup's speech model are followed, and those about another
/// change nothing.
pub proof fn speech_downloads_are_followed(view: &mut OnboardingView, event: SetupEvent)
    requires
        call_ensures(OnboardingView::on_core_event, (view, event), ()),
    ensures
        event matches SetupEvent::WhisperProgress { model, progress } ==> (model@
            == "large-v3-turbo-q5_0"@ ==> final(view).whisper.in_progress && final(
            view).whisper.progress == progress && final(view).whisper.downloaded == old(
            view).whisper.downloaded),
        event matches SetupEvent::WhisperComplete { model } ==> (model@ == "large-v3-turbo-q5_0"@
            ==> final(view).whisper.downloaded && !final(view).whisper.in_progress && final(
            view).whisper.progress == 100),
        event matches SetupEvent::WhisperFailed { model, error } ==> (model@ == "large-v3-turbo-q5_0"@
            ==> !final(view).whisper.in_progress && final(view).whisper.error == Some(error) && final(
            view).whisper.downloaded == old(view).whisper.downloaded),
        event matches SetupEvent::WhisperProgress { model, progress } ==> (model@
            != "large-v3-turbo-q5_0"@ ==> *final(view) == *old(view)),
        event matches SetupEvent::WhisperComplete { model } ==> (model@ != "large-v3-turbo-q5_0"@
            ==> *final(view) == *old(view)),
        !(event is Summary) ==> final(view).summary == old(view).summary,
        event is Summary ==> final(view).whisper == old(view).whisper,
        final(view).step == old(view).step,
{
}

/// So are reports about the recommended summary model and the two that come with
/// the program.
pub proof fn summary_downloads_are_followed(
    view: &mut OnboardingView,
    model: String,
    progress: u8,
    status: String,
    error: Option<String>,
)
    requires
        call_ensures(
            OnboardingView::on_core_event,
            (view, SetupEvent::Summary { model, progress, status, error }),
            (),
        ),
    ensures
        model@ == old(view).recommended_model@ || model@ == "gemma3:1b"@ || model@ == "gemma3:4b"@ ==> {
            &&& final(view).summary.progress == progress
            &&& status@ == "completed"@ ==> final(view).summary.downloaded && !final(
                view).summary.in_progress
            &&& status@ == "error"@ && status@ != "completed"@ ==> !final(view).summary.in_progress
                && final(view).summary.error == error
            &&& status@ != "completed"@ && status@ != "error"@ ==> final(view).summary.in_progress
        },
        model@ != old(view).recommended_model@ && model@ != "gemma3:1b"@ && model@ != "gemma3:4b"@
            ==> *final(view) == *old(view),
{
}

/// The setup starts at its step, creates the database where there is none, and
/// downloads at once where it was left at the last step.
pub proof fn setups_start_where_they_were_left(
    needs_db: bool,
    step: Step,
    recommended: Option<String>,
    r: (OnboardingView, SetupWork),
)
    requires
        call_ensures(OnboardingView::new, (needs_db, step, recommended), r),
    ensures
        r.0.step == step,
        r.1.create_db == needs_db,
        r.0.db_ready == !needs_db,
        r.1.start_downloads == (step is DownloadProgress),
        recommended matches Some(m) ==> r.0.recommended_model@ == m@,
        recommended is None ==> r.0.recommended_model@ == "gemma3:1b"@,
        !r.0.whisper.downloaded && !r.0.summary.downloaded,
{
}

/// Going on leads to the next step, and starts the downloads once, when the last
/// step is reached.
pub proof fn going_on_starts_the_downloads_once(view: &mut OnboardingView, r: bool)
    requires
        call_ensures(OnboardingView::go_next, (view,), r),
    ensures
        old(view).step is Welcome ==> final(view).step is SetupOverview && !r,
        old(view).step is SetupOverview ==> final(view).step is DownloadProgress,
        r ==> !old(view).downloads_started && final(view).downloads_started && final(
            view).whisper.in_progress && final(view).summary.in_progress,
        !r ==> final(view).whisper == old(view).whisper && final(view).summary == old(view).summary,
        old(view).step is SetupOverview && !old(view).downloads_started ==> r,
        old(view).downloads_started ==> !r,
{
}

/// Going back leads to the step before, and stops nothing.
pub proof fn going_back_stops_nothing(view: &mut OnboardingView)
    requires
        call_ensures(OnboardingView::go_previous, (view,), ()),
    ensures
        old(view).step is DownloadProgress ==> final(view).step is SetupOverview,
        old(view).step is SetupOverview ==> final(view).step is Welcome,
        old(view).step is Welcome ==> final(view).step is Welcome,
        final(view).whisper == old(view).whisper,
        final(view).downloads_started == old(view).downloads_started,
{
}

/// The database is created once; that it is there, or why it is not, is taken over.
pub proof fn databases_are_created_once(view: &mut OnboardingView, r: bool)
    requires
        call_ensures(OnboardingView::start_db_creation, (view,), r),
    ensures
        r <==> !old(view).creating_db && !old(view).db_ready,
        r ==> final(view).creating_db,
        final(view).db_ready == old(view).db_ready,
{
}

/// A database that was created is ready, and one that was not says why.
pub proof fn created_databases_are_ready(view: &mut OnboardingView, result: Result<(), String>)
    requires
        call_ensures(OnboardingView::finish_db_creation, (view, result), ()),
    ensures
        !final(view).creating_db,
        result is Ok ==> final(view).db_ready && final(view).db_error == old(view).db_error,
        result matches Err(why) ==> final(view).db_error == Some(why) && final(view).db_ready == old(
            view).db_ready,
{
}

/// One cannot go on while the database is being made, and is told so.
pub proof fn setups_wait_for_the_database(view: &OnboardingView, disabled: bool, line: String)
    requires
        call_ensures(OnboardingView::continue_disabled, (view,), disabled),
        call_ensures(OnboardingView::status_line, (view,), line),
    ensures
        !view.needs_db_creation ==> !disabled,
        view.needs_db_creation && view.creating_db ==> disabled,
        view.needs_db_creation && !view.db_ready ==> disabled,
        view.db_ready && !view.creating_db ==> !disabled,
        view.db_error matches Some(e) ==> line@ == "Setup failed: "@ + e@,
        view.db_error is None && disabled ==> line@ == "Setting up your local database…"@,
        view.db_error is None && !disabled ==> line@ == "Ready."@,
{
}

/// Finishing needs the speech model and a database, and happens once.
pub proof fn setups_are_finished_once(view: &mut OnboardingView, has_db: bool, r: CompleteStep)
    requires
        call_ensures(OnboardingView::complete, (view, has_db), r),
    ensures
        old(view).completing || !old(view).whisper.downloaded ==> r is Ignored && *final(view) == *old(
            view),
        !old(view).completing && old(view).whisper.downloaded && has_db ==> r is Store && final(
            view).completing,
        !old(view).completing && old(view).whisper.downloaded && !has_db ==> r is NoDatabase && !final(
            view).completing && (final(view).complete_error matches Some(e) && e@
            == "Database not ready yet"@),
{
}

/// The setup is done where it was stored; where it was not, why is shown.
pub proof fn stored_setups_are_done(view: &mut OnboardingView, result: Result<(), String>, r: bool)
    requires
        call_ensures(OnboardingView::finish_complete, (view, result), r),
    ensures
        r <==> result is Ok,
        !final(view).completing,
        result matches Err(why) ==> final(view).complete_error == Some(why),
{
}

/// The last button can be pressed once the speech model is there.
pub proof fn the_last_button_waits_for_the_speech_model(
    view: &OnboardingView,
    r: (&'static str, bool),
    line: Option<String>,
)
    requires
        call_ensures(OnboardingView::finish_button, (view,), r),
        call_ensures(OnboardingView::complete_error_line, (view,), line),
    ensures
        r.1 <==> view.whisper.downloaded && !view.completing,
        view.completing ==> r.0@ == "Finishing…"@,
        !view.completing ==> r.0@ == "Continue"@,
        view.complete_error is None <==> line is None,
        view.complete_error matches Some(e) ==> (line matches Some(l) && l@
            == "Failed to finish setup: "@ + e@),
{
}

/// As many marks are lit as steps were reached.
pub proof fn marks_show_the_step(view: &OnboardingView, r: [bool; 3])
    requires
        call_ensures(OnboardingView::lit_marks, (view,), r),
    ensures
        r@[0],
        r@[1] == !(view.step is Welcome),
        r@[2] == (view.step is DownloadProgress),
{
}

/// What is stored says that all is done.
pub proof fn finished_setups_are_stored(status: &mut OnboardingStatus)
    requires
        call_ensures(mark_completed, (status,), ()),
    ensures
        final(status).completed,
        final(status).current_step == 3,
        final(status).transcription_model@ == "downloaded"@,
        final(status).summary_model@ == "downloaded"@,
{
}

/// Without a database the setup is shown from its start. One that was stored is
/// shown where it was left, unless it was finished.
pub proof fn windows_open_with_what_is_due(
    has_db: bool,
    first: Opening,
    status: &Option<OnboardingStatus>,
    r: Opening,
)
    requires
        call_ensures(first_view, (has_db,), first),
        call_ensures(view_for_status, (status,), r),
    ensures
        has_db ==> first is Loading,
        !has_db ==> first == (Opening::Onboarding { needs_db_creation: true, step: Step::Welcome }),
        *status is None ==> r is Shell,
        *status matches Some(s) ==> (s.completed <==> r is Shell),
        *status matches Some(s) ==> (!s.completed && s.current_step == 2 ==> r == (
        Opening::Onboarding { needs_db_creation: false, step: Step::SetupOverview })),
        *status matches Some(s) ==> (!s.completed && s.current_step == 3 ==> r == (
        Opening::Onboarding { needs_db_creation: false, step: Step::DownloadProgress })),
        *status matches Some(s) ==> (!s.completed && s.current_step <= 1 ==> r == (
        Opening::Onboarding { needs_db_creation: false, step: Step::Welcome })),
{
}

/// The models of the setup are stored for summaries and for transcripts.
pub proof fn setups_store_their_models(
    model: &str,
    whisper: &str,
    at_creation: ModelRecords,
    at_completion: ModelRecords,
)
    requires
        call_ensures(records_at_creation, (whisper,), at_creation),
        call_ensures(records_at_completion, (model, whisper), at_completion),
    ensures
        at_creation.provider@ == "builtin-ai"@ && at_completion.provider@ == "builtin-ai"@,
        at_creation.model@ == "gemma3:1b"@,
        at_completion.model@ == model@,
        at_creation.whisper_model@ == "large-v3"@ && at_completion.whisper_model@ == "large-v3"@,
        at_creation.ollama_endpoint is None && at_completion.ollama_endpoint is None,
        at_creation.transcript_provider@ == "localWhisper"@ && at_completion.transcript_provider@
            == "localWhisper"@,
        at_creation.transcript_model@ == whisper@ && at_completion.transcript_model@ == whisper@,
{
}

/// The larger summary model is shown with its size, and every other with the
/// smaller one's.
pub proof fn summary_models_have_sizes(model: &str, r: &'static str)
    requires
        call_ensures(summary_model_size_label, (model,), r),
    ensures
        model@ == "gemma3:4b"@ ==> r@ == "~2.5 GB"@,
        model@ != "gemma3:4b"@ ==> r@ == "~806 MB"@,
{
}

/// Events are told apart by their names.
pub proof fn setup_events_have_names(name: &str, r: Option<SetupEventKind>)
    requires
        call_ensures(setup_event_kind, (name,), r),
    ensures
        r == Some(SetupEventKind::WhisperProgress) <==> name@ == "model-download-progress"@,
        r == Some(SetupEventKind::WhisperComplete) ==> name@ == "model-download-complete"@,
        r == Some(SetupEventKind::WhisperFailed) ==> name@ == "model-download-error"@,
        r == Some(SetupEventKind::Summary) ==> name@ == "builtin-ai-download-progress"@,
        name@ == "model-download-complete"@ || name@ == "model-download-error"@ || name@
            == "builtin-ai-download-progress"@ ==> r is Some,
{
}

/// The downloads of the setup start once.
pub proof fn setups_download_once(view: &mut OnboardingView, r: bool, new: DownloadState)
    requires
        call_ensures(OnboardingView::start_downloads, (view,), r),
        call_ensures(DownloadState::new, (), new),
    ensures
        r <==> !old(view).downloads_started,
        r ==> final(view).downloads_started && final(view).whisper.in_progress && final(
            view).summary.in_progress,
        !r ==> *final(view) == *old(view),
        !new.downloaded && !new.in_progress && new.progress == 0 && new.error is None,
{
}

} // verus!
