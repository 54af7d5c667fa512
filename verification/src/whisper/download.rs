//! Downloading models: one download of a model at a time, which ends with the
//! model available or to be tried again.
use vstd::prelude::*;
use crate::paths::{join_path, path_in};
use crate::text::{contains_text, same_text, texts};
use crate::whisper::engine::{restatus, Known, WhisperEngine};
use crate::whisper::models::{header_fault, validate_model_file_magic, HeaderRead, ModelInfo, ModelStatus};

verus! {

/// The models that can be downloaded.
pub open spec fn downloadable(name: Seq<char>) -> bool {
    ||| name == "tiny"@
    ||| name == "base"@
    ||| name == "small"@
    ||| name == "medium"@
    ||| name == "large-v3-turbo"@
    ||| name == "large-v3"@
    ||| name == "tiny-q5_1"@
    ||| name == "base-q5_1"@
    ||| name == "small-q5_1"@
    ||| name == "medium-q5_0"@
    ||| name == "large-v3-turbo-q5_0"@
    ||| name == "large-v3-q5_0"@
}

/// The file that a model is kept in.
pub open spec fn model_file(name: Seq<char>) -> Seq<char> {
    "ggml-"@ + name + ".bin"@
}

/// Where a model is downloaded from.
pub open spec fn model_url(name: Seq<char>) -> Seq<char> {
    "https://huggingface.co/ggerganov/whisper.cpp/resolve/main/"@ + model_file(name)
}

/// Whether a model can be downloaded.
pub fn is_downloadable(name: &str) -> (r: bool)
    ensures
        r == downloadable(name@),
{
    same_text(name, "tiny") || same_text(name, "base") || same_text(name, "small") || same_text(
        name,
        "medium",
    ) || same_text(name, "large-v3-turbo") || same_text(name, "large-v3") || same_text(
        name,
        "tiny-q5_1",
    ) || same_text(name, "base-q5_1") || same_text(name, "small-q5_1") || same_text(
        name,
        "medium-q5_0",
    ) || same_text(name, "large-v3-turbo-q5_0") || same_text(name, "large-v3-q5_0")
}

/// The file that a model is kept in.
pub fn model_filename(name: &str) -> (r: String)
    ensures
        r@ == model_file(name@),
{
    let mut out = "ggml-".to_owned();
    out.append(name);
    out.append(".bin");
    out
}

/// What a download is made of.
#[derive(Debug, Clone, PartialEq, Eq)]
pub struct DownloadPlan {
    pub url: String,
    pub path: String,
}

/// The downloads without one of them.
pub open spec fn without_download(downloads: Seq<Seq<char>>, name: Seq<char>) -> Seq<Seq<char>> {
    downloads.filter(|d: Seq<char>| d != name)
}

fn drop_download(downloads: &Vec<String>, name: &str) -> (r: Vec<String>)
    ensures
        texts(r@) == without_download(texts(downloads@), name@),
{
    let ghost keep = |d: Seq<char>| d != name@;
    let ghost all = texts(downloads@);
    let mut out: Vec<String> = Vec::new();
    reveal(Seq::filter);
    assert(texts(out@) =~= all.take(0).filter(keep));
    for i in 0..downloads.len()
        invariant
            all == texts(downloads@),
            keep == (|d: Seq<char>| d != name@),
            texts(out@) == all.take(i as int).filter(keep),
    {
        let ghost next = all.take(i + 1);
        assert(next.drop_last() =~= all.take(i as int));
        assert(next.last() == downloads@[i as int]@);
        reveal(Seq::filter);
        if !same_text(&downloads[i], name) {
            let ghost had = out@;
            out.push(downloads[i].clone());
            assert(texts(out@) =~= texts(had).push(downloads@[i as int]@));
        }
    }
    assert(all.take(all.len() as int) =~= all);
    out
}

/// How the transfer of a file ended.
#[derive(Debug, Clone, PartialEq, Eq)]
pub enum TransferEnd {
    /// The file is there, with these first bytes.
    Complete(HeaderRead),
    /// It was stopped.
    Stopped,
    /// It failed, for this reason.
    Failed(String),
}

/// How a download ended.
#[derive(Debug, Clone, PartialEq, Eq)]
pub enum DownloadEnd {
    /// The file is there, and its first bytes are a model's.
    Completed,
    /// The file is there, but is not a model's, for this reason.
    Invalid(String),
    /// It was stopped, as was asked for.
    Cancelled,
    /// It failed, for this reason.
    Failed(String),
}

/// What a whole download comes to.
#[derive(Debug, PartialEq, Eq)]
pub struct Course {
    pub result: Result<(), String>,
    /// Whether there was a transfer.
    pub started: bool,
    /// Whether the file is to be removed.
    pub remove: bool,
}

/// What is said of a download that was stopped.
pub const STOPPED: &'static str = "Download cancelled by user";

/// Whether `end` is how a download ended, given how its transfer ended and
/// whether it was asked to stop.
pub open spec fn ends_as(transfer: TransferEnd, asked: bool, end: DownloadEnd) -> bool {
    match transfer {
        TransferEnd::Complete(header) => match header_fault(header) {
            None => end is Completed,
            Some(why) => end matches DownloadEnd::Invalid(e) && e@ == why,
        },
        TransferEnd::Stopped => if asked {
            end is Cancelled
        } else {
            end matches DownloadEnd::Failed(e) && e@ == STOPPED@
        },
        TransferEnd::Failed(why) => end matches DownloadEnd::Failed(e) && e@ == why@,
    }
}

/// How a download ended: a file that came through is looked into.
pub fn download_end(transfer: TransferEnd, asked: bool) -> (r: DownloadEnd)
    ensures
        ends_as(transfer, asked, r),
{
    match transfer {
        TransferEnd::Complete(header) => match validate_model_file_magic(&header) {
            Ok(_) => DownloadEnd::Completed,
            Err(why) => DownloadEnd::Invalid(why),
        },
        TransferEnd::Stopped => if asked {
            DownloadEnd::Cancelled
        } else {
            DownloadEnd::Failed(STOPPED.to_owned())
        },
        TransferEnd::Failed(why) => DownloadEnd::Failed(why),
    }
}

/// Why a download comes to nothing, given how its transfer ended.
pub open spec fn end_error(name: Seq<char>, transfer: TransferEnd) -> Option<Seq<char>> {
    match transfer {
        TransferEnd::Complete(header) => match header_fault(header) {
            None => None,
            Some(why) => Some("Downloaded model "@ + name + " failed validation: "@ + why),
        },
        TransferEnd::Stopped => Some(STOPPED@),
        TransferEnd::Failed(why) => Some(why@),
    }
}

/// Whether a file came through that is not a model's and is to be removed.
pub open spec fn is_bad_file(transfer: TransferEnd) -> bool {
    transfer matches TransferEnd::Complete(header) && header_fault(header) is Some
}

/// Whether a result is the error, or success where there is none.
pub open spec fn result_is(r: Result<(), String>, error: Option<Seq<char>>) -> bool {
    match error {
        None => r is Ok,
        Some(why) => r matches Err(e) && e@ == why,
    }
}

/// What is known once a transfer ended that was not asked to stop: the model is
/// available under its path, or missing.
pub open spec fn known_after(
    known: Known,
    name: Seq<char>,
    transfer: TransferEnd,
    path: Seq<char>,
    after: Known,
) -> bool {
    if end_error(name, transfer) is Some {
        after == restatus(known, name, ModelStatus::Missing)
    } else if known.dom().contains(name) {
        &&& after == known.insert(name, after[name])
        &&& after[name].path@ == path
        &&& after[name] == (ModelInfo {
            status: ModelStatus::Available,
            path: after[name].path,
            ..known[name]
        })
    } else {
        after == known
    }
}

proof fn lemma_restatus(known: Known, name: Seq<char>, a: ModelStatus, b: ModelStatus)
    ensures
        restatus(restatus(known, name, a), name, b) == restatus(known, name, b),
        restatus(known, name, a).dom() == known.dom(),
{
    assert(restatus(known, name, a).dom() =~= known.dom());
    assert(restatus(restatus(known, name, a), name, b) =~= restatus(known, name, b));
}

proof fn lemma_known_after(
    known: Known,
    name: Seq<char>,
    status: ModelStatus,
    transfer: TransferEnd,
    path: Seq<char>,
    after: Known,
)
    requires
        known_after(restatus(known, name, status), name, transfer, path, after),
    ensures
        known_after(known, name, transfer, path, after),
{
    lemma_restatus(known, name, status, ModelStatus::Missing);
    if end_error(name, transfer) is None && known.dom().contains(name) {
        assert(after =~= known.insert(name, after[name]));
    }
}

proof fn lemma_without_pushed(names: Seq<Seq<char>>, name: Seq<char>)
    ensures
        without_download(names.push(name), name) == without_download(names, name),
{
    reveal(Seq::filter);
    assert(names.push(name).drop_last() =~= names);
}

impl<C, S> WhisperEngine<C, S> {
    /// Where a model is kept.
    pub open spec fn path_of(&self, name: Seq<char>) -> Seq<char> {
        path_in(self.models_dir@, model_file(name))
    }

    /// Why a download is refused: the model is being downloaded, or is none that
    /// can be.
    pub open spec fn refusal(&self, name: Seq<char>) -> Option<Seq<char>> {
        if texts(self.downloads@).contains(name) {
            Some("Download already in progress for model: "@ + name)
        } else if !downloadable(name) {
            Some("Unsupported model: "@ + name)
        } else {
            None
        }
    }

    /// Whether this is `before` after a download began, or after the models
    /// directory could not be made for it. Then the download still counts as
    /// being in progress.
    pub open spec fn began(&self, before: &Self, name: Seq<char>, made: Result<(), String>) -> bool {
        &&& self.same_model(before)
        &&& texts(self.downloads@) == texts(before.downloads@).push(name)
        &&& texts(self.cancelled@) == without_download(texts(before.cancelled@), name)
        &&& self.available_models@ == match made {
            Ok(_) => restatus(
                before.available_models@,
                name,
                ModelStatus::Downloading { progress: 0 },
            ),
            Err(_) => before.available_models@,
        }
    }

    /// Starts a download, unless it is refused. `make_dir` makes the models
    /// directory where it is not there.
    pub fn begin_download<F: FnOnce() -> Result<(), String>>(&mut self, name: &str, make_dir: F) -> (r:
        Result<DownloadPlan, String>)
        requires
            old(self).wf(),
            make_dir.requires(()),
        ensures
            final(self).wf(),
            match old(self).refusal(name@) {
                Some(why) => *final(self) == *old(self) && (r matches Err(e) && e@ == why),
                None => exists|made: Result<(), String>| #[trigger]
                    make_dir.ensures((), made) && final(self).began(old(self), name@, made)
                        && match made {
                        Ok(_) => r matches Ok(plan) && plan.url@ == model_url(name@) && plan.path@
                            == old(self).path_of(name@),
                        Err(why) => r matches Err(e) && e@
                            == "Failed to create models directory: "@ + why@,
                    },
            },
    {
        if contains_text(&self.downloads, name) {
            let mut out = "Download already in progress for model: ".to_owned();
            out.append(name);
            return Err(out);
        }
        if !is_downloadable(name) {
            let mut out = "Unsupported model: ".to_owned();
            out.append(name);
            return Err(out);
        }
        let file = model_filename(name);
        let mut url = "https://huggingface.co/ggerganov/whisper.cpp/resolve/main/".to_owned();
        url.append(&file);
        let path = join_path(&self.models_dir, &file);
        let ghost before = self.downloads@;
        self.downloads.push(name.to_owned());
        assert(texts(self.downloads@) =~= texts(before).push(name@));
        self.cancelled = drop_download(&self.cancelled, name);
        let made = make_dir();
        match made {
            Ok(_) => {
                self.set_status(name, ModelStatus::Downloading { progress: 0 });
                Ok(DownloadPlan { url, path })
            },
            Err(why) => {
                let mut out = "Failed to create models directory: ".to_owned();
                out.append(&why);
                Err(out)
            },
        }
    }

    /// Takes over how far a download is, in percent.
    pub fn on_progress(&mut self, name: &str, progress: u8)
        requires
            old(self).wf(),
        ensures
            final(self).wf(),
            final(self).same_model(old(self)),
            final(self).downloads == old(self).downloads,
            final(self).cancelled == old(self).cancelled,
            final(self).available_models@ == restatus(
                old(self).available_models@,
                name@,
                ModelStatus::Downloading { progress },
            ),
    {
        self.set_status(name, ModelStatus::Downloading { progress });
    }

    /// Whether the transfer of a model is to stop.
    pub fn is_cancelled(&self, name: &str) -> (r: bool)
        ensures
            r == texts(self.cancelled@).contains(name@),
    {
        contains_text(&self.cancelled, name)
    }

    /// Takes over how a transfer ended. A file that is a model's makes the model
    /// available; anything else leaves it to be tried again. Where it was
    /// stopped as asked for, that was seen to when it was asked for. The second
    /// part of the result says whether the file is to be removed.
    pub fn finish_download(&mut self, name: &str, transfer: TransferEnd) -> (r: (
        Result<(), String>,
        bool,
    ))
        requires
            old(self).wf(),
        ensures
            final(self).wf(),
            final(self).same_model(old(self)),
            texts(final(self).downloads@) == without_download(texts(old(self).downloads@), name@),
            texts(final(self).cancelled@) == without_download(texts(old(self).cancelled@), name@),
            if transfer is Stopped && texts(old(self).cancelled@).contains(name@) {
                final(self).available_models == old(self).available_models
            } else {
                known_after(
                    old(self).available_models@,
                    name@,
                    transfer,
                    old(self).path_of(name@),
                    final(self).available_models@,
                )
            },
            result_is(r.0, end_error(name@, transfer)),
            r.1 == is_bad_file(transfer),
    {
        let asked = self.is_cancelled(name);
        self.downloads = drop_download(&self.downloads, name);
        self.cancelled = drop_download(&self.cancelled, name);
        match download_end(transfer, asked) {
            DownloadEnd::Completed => {
                let file = model_filename(name);
                let path = join_path(&self.models_dir, &file);
                let done = match self.available_models.get(name) {
                    Some(info) => {
                        let mut info = info.with_status(ModelStatus::Available);
                        info.path = path;
                        Some(info)
                    },
                    None => None,
                };
                if let Some(info) = done {
                    self.available_models.insert(name, info);
                }
                (Ok(()), false)
            },
            DownloadEnd::Invalid(why) => {
                self.set_status(name, ModelStatus::Missing);
                let mut out = "Downloaded model ".to_owned();
                out.append(name);
                out.append(" failed validation: ");
                out.append(&why);
                (Err(out), true)
            },
            DownloadEnd::Cancelled => (Err(STOPPED.to_owned()), false),
            DownloadEnd::Failed(why) => {
                self.set_status(name, ModelStatus::Missing);
                (Err(why), false)
            },
        }
    }

    /// Cancels a download: its transfer is to stop, and the model is missing, so
    /// that it can be tried again. The file to remove.
    pub fn cancel_download(&mut self, name: &str) -> (r: String)
        requires
            old(self).wf(),
        ensures
            final(self).wf(),
            final(self).same_model(old(self)),
            final(self).downloads == old(self).downloads,
            texts(final(self).cancelled@) == with_name(texts(old(self).cancelled@), name@),
            final(self).available_models@ == restatus(
                old(self).available_models@,
                name@,
                ModelStatus::Missing,
            ),
            r@ == old(self).path_of(name@),
    {
        if !contains_text(&self.cancelled, name) {
            let ghost before = self.cancelled@;
            self.cancelled.push(name.to_owned());
            assert(texts(self.cancelled@) =~= texts(before).push(name@));
        }
        self.set_status(name, ModelStatus::Missing);
        let file = model_filename(name);
        join_path(&self.models_dir, &file)
    }

    /// Whether this is `before` after a download that was not refused ran to its
    /// end, or after the models directory could not be made for it.
    pub open spec fn downloaded(
        &self,
        before: &Self,
        name: Seq<char>,
        made: Result<(), String>,
        transfer: TransferEnd,
    ) -> bool {
        match made {
            Err(_) => self.began(before, name, made),
            Ok(_) => {
                &&& self.same_model(before)
                &&& texts(self.downloads@) == without_download(texts(before.downloads@), name)
                &&& texts(self.cancelled@) == without_download(texts(before.cancelled@), name)
                &&& known_after(
                    before.available_models@,
                    name,
                    transfer,
                    before.path_of(name),
                    self.available_models@,
                )
            },
        }
    }

    /// A download from its start to its end, which nobody cancels: `ticks` are
    /// the percents that its transfer reports, and `transfer` is how that ends.
    pub fn download_model<F: FnOnce() -> Result<(), String>>(
        &mut self,
        name: &str,
        make_dir: F,
        ticks: &Vec<u8>,
        transfer: TransferEnd,
    ) -> (r: Course)
        requires
            old(self).wf(),
            make_dir.requires(()),
        ensures
            final(self).wf(),
            match old(self).refusal(name@) {
                Some(why) => *final(self) == *old(self) && result_is(r.result, Some(why)) && !r.started
                    && !r.remove,
                None => exists|made: Result<(), String>| #[trigger]
                    make_dir.ensures((), made) && final(self).downloaded(
                        old(self),
                        name@,
                        made,
                        transfer,
                    ) && result_is(r.result, course_error(name@, made, transfer)) && r.started
                        == made is Ok && r.remove == (made is Ok && is_bad_file(transfer)),
            },
    {
        let ghost before = *self;
        match self.begin_download(name, make_dir) {
            Err(why) => {
                return Course { result: Err(why), started: false, remove: false };
            },
            Ok(_) => {},
        }
        let ghost started = *self;
        let ghost known = before.available_models@;
        let ghost mut status = ModelStatus::Downloading { progress: 0 };
        for i in 0..ticks.len()
            invariant
                self.wf(),
                self.same_model(&started),
                self.downloads == started.downloads,
                self.cancelled == started.cancelled,
                self.available_models@ == restatus(known, name@, status),
        {
            proof {
                lemma_restatus(
                    known,
                    name@,
                    status,
                    ModelStatus::Downloading { progress: ticks@[i as int] },
                );
                status = ModelStatus::Downloading { progress: ticks@[i as int] };
            }
            self.on_progress(name, ticks[i]);
        }
        proof {
            lemma_without_pushed(texts(before.downloads@), name@);
            ended_download_can_be_retried(texts(before.cancelled@), name@, name@);
            lemma_without_absent(texts(started.cancelled@), name@);
        }
        let (result, remove) = self.finish_download(name, transfer);
        proof {
            lemma_known_after(
                known,
                name@,
                status,
                transfer,
                before.path_of(name@),
                self.available_models@,
            );
        }
        Course { result, started: true, remove }
    }
}

/// Why a download that was not refused comes to nothing.
pub open spec fn course_error(
    name: Seq<char>,
    made: Result<(), String>,
    transfer: TransferEnd,
) -> Option<Seq<char>> {
    match made {
        Ok(_) => end_error(name, transfer),
        Err(why) => Some("Failed to create models directory: "@ + why@),
    }
}

/// Some names, with one more where it is not among them.
pub open spec fn with_name(names: Seq<Seq<char>>, name: Seq<char>) -> Seq<Seq<char>> {
    if names.contains(name) {
        names
    } else {
        names.push(name)
    }
}

proof fn lemma_without_absent(names: Seq<Seq<char>>, name: Seq<char>)
    requires
        !names.contains(name),
    ensures
        without_download(names, name) == names,
    decreases names.len(),
{
    reveal(Seq::filter);
    if names.len() > 0 {
        let front = names.drop_last();
        assert forall|i: int| 0 <= i < front.len() implies front[i] != name by {
            assert(front[i] == names[i]);
        }
        lemma_without_absent(front, name);
        assert(names.last() != name) by {
            assert(names[names.len() - 1] == names.last());
        }
        assert(front.push(names.last()) =~= names);
    }
}

/// A download of a model that is known, for which the models directory is there,
/// settles: either it succeeds, and then the model is available under its path
/// and its file starts with a model's bytes, or it fails, and then the model is
/// missing. Either way it can be started again.
pub proof fn downloads_settle<C, S>(
    before: WhisperEngine<C, S>,
    after: WhisperEngine<C, S>,
    name: Seq<char>,
    transfer: TransferEnd,
)
    requires
        before.refusal(name) is None,
        before.available_models@.dom().contains(name),
        after.downloaded(&before, name, Ok(()), transfer),
    ensures
        course_error(name, Ok(()), transfer) is None ==> {
            &&& after.available_models@[name].status is Available
            &&& after.available_models@[name].path@ == before.path_of(name)
            &&& transfer matches TransferEnd::Complete(header) && header_fault(header) is None
        },
        course_error(name, Ok(()), transfer) is Some
            ==> after.available_models@[name].status is Missing,
        after.available_models@.dom().contains(name),
        after.refusal(name) is None,
{
    ended_download_can_be_retried(texts(before.downloads@), name, name);
}

/// Once a download has ended, it is no longer in progress, so it can be
/// started again; others go on.
pub proof fn ended_download_can_be_retried(
    downloads: Seq<Seq<char>>,
    name: Seq<char>,
    other: Seq<char>,
)
    ensures
        !without_download(downloads, name).contains(name),
        other != name ==> (without_download(downloads, name).contains(other)
            <==> downloads.contains(other)),
    decreases downloads.len(),
{
    reveal(Seq::filter);
    if downloads.len() > 0 {
        let front = downloads.drop_last();
        ended_download_can_be_retried(front, name, other);
        let a = without_download(front, name);
        let b = without_download(downloads, name);
        let keep = |d: Seq<char>| d != name;
        assert(downloads.filter(keep) == if keep(downloads.last()) {
            front.filter(keep).push(downloads.last())
        } else {
            front.filter(keep)
        });
        assert(b == if downloads.last() != name {
            a.push(downloads.last())
        } else {
            a
        });
        if b.contains(name) {
            let k = choose|k: int| 0 <= k < b.len() && b[k] == name;
            assert(a[k] == name);
        }
        if other != name {
            if downloads.contains(other) {
                let k = choose|k: int| 0 <= k < downloads.len() && downloads[k] == other;
                if k < front.len() {
                    assert(front[k] == other);
                    let m = choose|m: int| 0 <= m < a.len() && a[m] == other;
                    assert(b[m] == other);
                } else {
                    assert(b[a.len() as int] == other);
                }
            }
            if b.contains(other) {
                let k = choose|k: int| 0 <= k < b.len() && b[k] == other;
                if k < a.len() {
                    assert(a[k] == other);
                    let m = choose|m: int| 0 <= m < front.len() && front[m] == other;
                    assert(downloads[m] == other);
                } else {
                    assert(downloads[downloads.len() - 1] == other);
                }
            }
        }
    }
}

} // verus!
