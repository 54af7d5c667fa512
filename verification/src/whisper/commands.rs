//! What is asked of the engine from outside, where there may be no engine yet.
use vstd::prelude::*;
use crate::text::texts;
use crate::whisper::download::{course_error, is_bad_file, result_is, with_name, TransferEnd};
use crate::whisper::engine::{known_from, known_progress, restatus, Known, WhisperEngine};
use crate::whisper::models::{discover_models_standalone, info_for, scanned, standalone_models, status_words, CatalogEntry, FoundFile, ModelInfo, ModelStatus, ModelsDirectory};

verus! {

/// The message where there is no engine.
pub const NO_ENGINE: &'static str = "Whisper engine not initialized";

/// `prefix`, and then `cause`.
pub fn failure(prefix: &str, cause: &str) -> (r: String)
    ensures
        r@ == prefix@ + cause@,
{
    let mut out = prefix.to_owned();
    out.append(cause);
    out
}

/// Makes an engine on a models directory, unless there is one.
pub fn whisper_init<C, S>(engine: &mut Option<WhisperEngine<C, S>>, models_dir: String)
    ensures
        match *old(engine) {
            Some(_) => *final(engine) == *old(engine),
            None => *final(engine) matches Some(e) && e.wf() && e.models_dir == models_dir
                && e.current_context is None && e.available_models@ == Known::empty()
                && e.downloads@.len() == 0 && e.cancelled@.len() == 0,
        },
{
    if engine.is_none() {
        *engine = Some(WhisperEngine::new_with_models_dir(models_dir));
    }
}

/// Where models are kept.
pub fn whisper_get_models_directory<C, S>(engine: &Option<WhisperEngine<C, S>>) -> (r: Result<
    String,
    String,
>)
    ensures
        match *engine {
            Some(e) => r matches Ok(dir) && dir@ == e.models_dir@,
            None => r matches Err(e) && e@ == NO_ENGINE@,
        },
{
    match engine {
        Some(e) => Ok(e.get_models_directory()),
        None => Err(NO_ENGINE.to_owned()),
    }
}

/// The models of the catalog: as the engine finds them, or without one as a scan
/// of the models directory does. `found` is what is on disk for each entry.
pub fn whisper_get_available_models<C, S>(
    engine: &mut Option<WhisperEngine<C, S>>,
    dirs: &ModelsDirectory,
    catalog: &Vec<CatalogEntry>,
    found: &Vec<Option<FoundFile>>,
) -> (r: Result<Vec<ModelInfo>, String>)
    requires
        *old(engine) matches Some(e) ==> e.wf(),
        catalog@.len() == found@.len(),
    ensures
        match *old(engine) {
            Some(before) => {
                &&& *final(engine) matches Some(after) && after.wf() && after.same_model(&before)
                    && after.downloads == before.downloads && after.cancelled == before.cancelled && (
                r matches Ok(models)
                    && after.available_models@ == known_from(models@))
                &&& r matches Ok(models) && models@.len() == catalog@.len() && forall|i: int|
                    0 <= i < catalog@.len() ==> info_for(
                        #[trigger] catalog@[i],
                        before.models_dir@,
                        scanned(
                            found@[i],
                            catalog@[i].size_mb,
                            known_progress(before.available_models@, catalog@[i].name@),
                        ),
                        models@[i],
                    )
            },
            None => *final(engine) is None && match dirs.dir {
                Some(dir) => r matches Ok(models) && standalone_models(
                    catalog@,
                    dir@,
                    found@,
                    models@,
                ),
                None => r matches Err(e) && e@ == "Models directory not initialized"@,
            },
        },
{
    match engine {
        Some(e) => Ok(e.discover_models(catalog, found)),
        None => discover_models_standalone(dirs, catalog, found),
    }
}

/// The file to delete for a model, where there is an engine and the model can be
/// deleted.
pub fn whisper_delete_corrupted_model<C, S>(
    engine: &Option<WhisperEngine<C, S>>,
    name: &str,
) -> (r: Result<String, String>)
    ensures
        match *engine {
            None => r matches Err(e) && e@ == NO_ENGINE@,
            Some(engine) => if !engine.available_models@.dom().contains(name@) {
                r matches Err(e) && e@ == "Failed to delete model: "@ + ("Model '"@ + name@
                    + "' not found"@)
            } else {
                let status = engine.available_models@[name@].status;
                if status is Corrupted || status is Available {
                    r matches Ok(path) && path@ == engine.available_models@[name@].path@
                } else {
                    r matches Err(e) && e@ == "Failed to delete model: "@ + (
                    "Can only delete corrupted or available models. Model '"@ + name@
                        + "' has status: "@ + status_words(status))
                }
            },
        },
{
    match engine {
        Some(e) => deletion_result(e.begin_delete(name)),
        None => Err(NO_ENGINE.to_owned()),
    }
}

/// What a deletion comes to: the message of the engine, or its error with what
/// failed before it.
pub fn deletion_result(result: Result<String, String>) -> (r: Result<String, String>)
    ensures
        match result {
            Ok(m) => r matches Ok(n) && n@ == m@,
            Err(e) => r matches Err(f) && f@ == "Failed to delete model: "@ + e@,
        },
{
    match result {
        Ok(m) => Ok(m),
        Err(e) => Err(failure("Failed to delete model: ", &e)),
    }
}

/// What getting a model ready comes to once it was to be loaded: its name, or why
/// it could not be.
pub fn ready_result(name: &str, loaded: Result<(), String>) -> (r: Result<String, String>)
    ensures
        match loaded {
            Ok(_) => r matches Ok(n) && n@ == name@,
            Err(e) => r matches Err(f) && f@ == "Failed to load model "@ + name@ + ": "@ + e@,
        },
{
    match loaded {
        Ok(_) => Ok(name.to_owned()),
        Err(e) => {
            let mut out = "Failed to load model ".to_owned();
            out.append(name);
            out.append(": ");
            out.append(&e);
            Err(out)
        },
    }
}

/// What a cancellation comes to.
pub fn cancel_result(result: Result<(), String>) -> (r: Result<(), String>)
    ensures
        match result {
            Ok(_) => r is Ok,
            Err(e) => r matches Err(f) && f@ == "Failed to cancel download: "@ + e@,
        },
{
    match result {
        Ok(_) => Ok(()),
        Err(e) => Err(failure("Failed to cancel download: ", &e)),
    }
}

/// Something to report about the download of a model.
#[derive(Debug, Clone, PartialEq, Eq)]
pub enum DownloadReport {
    Progress { model_name: String, progress: u8 },
    Complete { model_name: String },
    Error { model_name: String, error: String },
}

/// Something to report about the download of a model, by its texts.
pub enum ReportView {
    Progress(Seq<char>, u8),
    Complete(Seq<char>),
    Error(Seq<char>, Seq<char>),
}

/// The texts of a report.
pub open spec fn report_view(report: DownloadReport) -> ReportView {
    match report {
        DownloadReport::Progress { model_name, progress } => ReportView::Progress(
            model_name@,
            progress,
        ),
        DownloadReport::Complete { model_name } => ReportView::Complete(model_name@),
        DownloadReport::Error { model_name, error } => ReportView::Error(model_name@, error@),
    }
}

/// The texts of reports, in order.
pub open spec fn report_views(reports: Seq<DownloadReport>) -> Seq<ReportView> {
    reports.map_values(|r: DownloadReport| report_view(r))
}

/// The name of the event that reports something about a download.
pub open spec fn report_name(report: DownloadReport) -> Seq<char> {
    match report {
        DownloadReport::Progress { .. } => "model-download-progress"@,
        DownloadReport::Complete { .. } => "model-download-complete"@,
        DownloadReport::Error { .. } => "model-download-error"@,
    }
}

/// The name of the event that reports something about a download.
pub fn report_event(report: &DownloadReport) -> (r: &'static str)
    ensures
        r@ == report_name(*report),
{
    match report {
        DownloadReport::Progress { .. } => "model-download-progress",
        DownloadReport::Complete { .. } => "model-download-complete",
        DownloadReport::Error { .. } => "model-download-error",
    }
}

/// What is reported of how far a download is.
pub fn progress_report(name: &str, progress: u8) -> (r: DownloadReport)
    ensures
        report_view(r) == ReportView::Progress(name@, progress),
{
    DownloadReport::Progress { model_name: name.to_owned(), progress }
}

/// What is reported once a download ended, given why it came to nothing.
pub open spec fn last_report(name: Seq<char>, error: Option<Seq<char>>) -> ReportView {
    match error {
        None => ReportView::Complete(name),
        Some(why) => ReportView::Error(name, why),
    }
}

/// What a download comes to, given why it came to nothing.
pub open spec fn reported_error(error: Option<Seq<char>>) -> Option<Seq<char>> {
    match error {
        None => None,
        Some(why) => Some("Failed to download model: "@ + why),
    }
}

/// The error in a result.
pub open spec fn error_in(result: Result<(), String>) -> Option<Seq<char>> {
    match result {
        Ok(_) => None,
        Err(e) => Some(e@),
    }
}

/// What is reported once a download ended, and what it comes to.
pub fn end_report(name: &str, result: Result<(), String>) -> (r: (DownloadReport, Result<(), String>))
    ensures
        report_view(r.0) == last_report(name@, error_in(result)),
        result_is(r.1, reported_error(error_in(result))),
{
    match result {
        Ok(_) => (DownloadReport::Complete { model_name: name.to_owned() }, Ok(())),
        Err(e) => {
            let out = failure("Failed to download model: ", &e);
            (DownloadReport::Error { model_name: name.to_owned(), error: e }, Err(out))
        },
    }
}

/// What is reported of how far a download is, tick by tick.
pub open spec fn tick_reports(name: Seq<char>, ticks: Seq<u8>) -> Seq<ReportView> {
    ticks.map_values(|p: u8| ReportView::Progress(name, p))
}

/// A download from its start to its end, with what is reported of it: each tick
/// of the transfer, and then how it ended. Without an engine nothing is reported.
/// Whether a report reaches anybody changes nothing. `ticks` are the percents
/// that the transfer reports, and `transfer` is how it ends. The last part of the
/// result says whether the file is to be removed.
pub fn download_model_with_progress<C, S, F: FnOnce() -> Result<(), String>>(
    engine: &mut Option<WhisperEngine<C, S>>,
    name: &str,
    make_dir: F,
    ticks: &Vec<u8>,
    transfer: TransferEnd,
) -> (r: (Vec<DownloadReport>, Result<(), String>, bool))
    requires
        *old(engine) matches Some(e) ==> e.wf(),
        make_dir.requires(()),
    ensures
        match *old(engine) {
            None => *final(engine) is None && r.0@.len() == 0 && result_is(r.1, Some(NO_ENGINE@))
                && !r.2,
            Some(before) => *final(engine) matches Some(after) && after.wf() && match before.refusal(
                name@,
            ) {
                Some(why) => after == before && report_views(r.0@) == seq![
                    ReportView::Error(name@, why),
                ] && result_is(r.1, reported_error(Some(why))) && !r.2,
                None => exists|made: Result<(), String>| #[trigger]
                    make_dir.ensures((), made) && after.downloaded(&before, name@, made, transfer)
                        && report_views(r.0@) == (if made is Ok {
                        tick_reports(name@, ticks@)
                    } else {
                        seq![]
                    }).push(last_report(name@, course_error(name@, made, transfer))) && result_is(
                        r.1,
                        reported_error(course_error(name@, made, transfer)),
                    ) && r.2 == (made is Ok && is_bad_file(transfer)),
            },
        },
{
    let mut reports: Vec<DownloadReport> = Vec::new();
    match engine {
        None => (reports, Err(NO_ENGINE.to_owned()), false),
        Some(e) => {
            let course = e.download_model(name, make_dir, ticks, transfer);
            if course.started {
                for i in 0..ticks.len()
                    invariant
                        report_views(reports@) == tick_reports(name@, ticks@.take(i as int)),
                {
                    let ghost before = reports@;
                    reports.push(progress_report(name, ticks[i]));
                    proof {
                        assert(report_views(reports@) =~= report_views(before).push(
                            report_view(reports@.last()),
                        ));
                        assert(tick_reports(name@, ticks@.take(i + 1)) =~= tick_reports(
                            name@,
                            ticks@.take(i as int),
                        ).push(ReportView::Progress(name@, ticks@[i as int])));
                    }
                }
            }
            proof {
                assert(ticks@.take(ticks@.len() as int) =~= ticks@);
                assert(!course.started ==> report_views(reports@) =~= seq![]);
            }
            let ghost before = reports@;
            let (last, result) = end_report(name, course.result);
            reports.push(last);
            proof {
                assert(report_views(reports@) =~= report_views(before).push(report_view(last)));
                assert(Seq::<ReportView>::empty().push(report_view(last)) =~= seq![report_view(last)]);
            }
            (reports, result, course.remove)
        },
    }
}

/// Cancels a download, where there is an engine. The file to remove.
pub fn whisper_cancel_download<C, S>(
    engine: &mut Option<WhisperEngine<C, S>>,
    name: &str,
) -> (r: Result<String, String>)
    requires
        *old(engine) matches Some(e) ==> e.wf(),
    ensures
        match *old(engine) {
            Some(before) => (*final(engine) matches Some(after) && after.wf() && after.same_model(
                &before,
            ) && after.downloads == before.downloads && texts(after.cancelled@) == with_name(
                texts(before.cancelled@),
                name@,
            ) && after.available_models@ == restatus(
                before.available_models@,
                name@,
                ModelStatus::Missing,
            )) && (r matches Ok(path) && path@ == before.path_of(name@)),
            None => *final(engine) is None && (r matches Err(e) && e@ == NO_ENGINE@),
        },
{
    match engine {
        Some(e) => Ok(e.cancel_download(name)),
        None => Err(NO_ENGINE.to_owned()),
    }
}

} // verus!
