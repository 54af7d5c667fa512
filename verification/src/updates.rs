//! Whether a newer release is out, and what to say about it.
use vstd::prelude::*;
use crate::numbers::decimal;
use crate::text::{opt_text, trim_start_of, trim_start_set, CharSet};
use crate::words::{after_prefix, strip_prefix};

verus! {

/// A version of three numbers, as it is written.
pub open spec fn plain_version(major: u64, minor: u64, patch: u64) -> Seq<char> {
    decimal(major as nat) + seq!['.'] + decimal(minor as nat) + seq!['.'] + decimal(patch as nat)
}

/// Whether one version of three numbers comes after another.
pub open spec fn plain_after(a: (u64, u64, u64), b: (u64, u64, u64)) -> bool {
    a.0 > b.0 || (a.0 == b.0 && (a.1 > b.1 || (a.1 == b.1 && a.2 > b.2)))
}

/// Why a text is no semantic version, or nothing where it is one.
pub uninterp spec fn semver_fault(s: Seq<char>) -> Option<Seq<char>>;

/// Whether one semantic version comes after another.
pub uninterp spec fn semver_after(a: Seq<char>, b: Seq<char>) -> bool;

/// `semver::Version::parse`: why the text is no semantic version, a function of
/// the text alone. Three numbers with dots between them are one.
#[verifier::external_body]
fn version_fault(text: &str) -> (r: Option<String>)
    ensures
        opt_text(r) == semver_fault(text@),
        forall|x: u64, y: u64, z: u64| text@ == #[trigger] plain_version(x, y, z) ==> r is None,
{
    semver::Version::parse(text).err().map(|e| e.to_string())
}

/// The order of `semver::Version`: whether `a` comes after `b`, a function of
/// the two alone. No version comes after itself, and versions of three numbers
/// go by their numbers.
#[verifier::external_body]
fn version_after(a: &str, b: &str) -> (r: bool)
    requires
        semver_fault(a@) is None,
        semver_fault(b@) is None,
    ensures
        r == semver_after(a@, b@),
        a@ == b@ ==> !r,
        forall|x: u64, y: u64, z: u64, p: u64, q: u64, w: u64|
            a@ == #[trigger] plain_version(x, y, z) && b@ == #[trigger] plain_version(p, q, w)
                ==> r == plain_after((x, y, z), (p, q, w)),
{
    semver::Version::parse(a).unwrap() > semver::Version::parse(b).unwrap()
}

/// The version that a release tag names: the tag without one leading `v`.
pub open spec fn tag_version(tag: Seq<char>) -> Seq<char> {
    match after_prefix(tag, "v"@) {
        Some(rest) => rest,
        None => tag,
    }
}

/// The version that a release tag names.
pub fn version_of_tag(tag: &str) -> (r: String)
    ensures
        r@ == tag_version(tag@),
{
    match strip_prefix(tag, "v") {
        Some(rest) => rest,
        None => tag.to_owned(),
    }
}

/// Whether the latest version is newer, given what reading and comparing the
/// two versions came to. A version that cannot be read is an error; the running
/// one is looked at first.
pub fn version_verdict(
    current: &str,
    latest: &str,
    current_fault: Option<String>,
    latest_fault: Option<String>,
    later: bool,
) -> (r: Result<bool, String>)
    ensures
        match (current_fault, latest_fault) {
            (Some(e), _) => r matches Err(m) && m@ == "couldn't parse the current version ("@
                + current@ + "): "@ + e@,
            (None, Some(e)) => r matches Err(m) && m@
                == "couldn't parse the latest release version ("@ + latest@ + "): "@ + e@,
            (None, None) => r matches Ok(b) && b == later,
        },
{
    if let Some(e) = current_fault {
        let mut out = "couldn't parse the current version (".to_owned();
        out.append(current);
        out.append("): ");
        out.append(&e);
        return Err(out);
    }
    if let Some(e) = latest_fault {
        let mut out = "couldn't parse the latest release version (".to_owned();
        out.append(latest);
        out.append("): ");
        out.append(&e);
        return Err(out);
    }
    Ok(later)
}

/// Whether the release tagged `latest_tag` is newer than `current`.
pub fn is_newer(current: &str, latest_tag: &str) -> (r: Result<bool, String>)
    ensures
        match (semver_fault(current@), semver_fault(tag_version(latest_tag@))) {
            (Some(e), _) => r matches Err(m) && m@ == "couldn't parse the current version ("@
                + current@ + "): "@ + e,
            (None, Some(e)) => r matches Err(m) && m@
                == "couldn't parse the latest release version ("@ + tag_version(latest_tag@)
                + "): "@ + e,
            (None, None) => r matches Ok(b) && b == semver_after(
                tag_version(latest_tag@),
                current@,
            ),
        },
        tag_version(latest_tag@) == current@ ==> !(r matches Ok(b) && b),
        forall|x: u64, y: u64, z: u64, p: u64, q: u64, w: u64|
            current@ == #[trigger] plain_version(x, y, z) && tag_version(latest_tag@)
                == #[trigger] plain_version(p, q, w) ==> (r matches Ok(b) && b == plain_after(
                (p, q, w),
                (x, y, z),
            )),
{
    let latest = version_of_tag(latest_tag);
    let current_fault = version_fault(current);
    let latest_fault = version_fault(&latest);
    let later = if current_fault.is_none() && latest_fault.is_none() {
        version_after(&latest, current)
    } else {
        false
    };
    version_verdict(current, &latest, current_fault, latest_fault, later)
}

/// What asking for the latest release came to.
#[derive(Debug, Clone, PartialEq, Eq)]
pub enum ReleaseReply {
    /// The request could not be made, or its answer could not be read.
    Failed,
    /// The release's tag and its page.
    Release { tag_name: String, html_url: String },
}

/// What to say where nothing could be found out.
pub const NO_ANSWER: &'static str = "Couldn't check for updates right now.";

/// What to say about a release.
pub open spec fn update_text(newer: bool, tag: Seq<char>, url: Seq<char>) -> Seq<char> {
    if newer {
        "Parley "@ + trim_start_of(tag, CharSet::Only('v')) + " is available — "@ + url
    } else {
        "You're up to date."@
    }
}

/// What to say about a release, given whether it is newer.
pub fn update_message(newer: &Result<bool, String>, tag_name: &str, html_url: &str) -> (r: String)
    ensures
        r@ == match *newer {
            Ok(b) => update_text(b, tag_name@, html_url@),
            Err(_) => NO_ANSWER@,
        },
{
    match newer {
        Ok(true) => {
            let mut out = "Parley ".to_owned();
            let version = trim_start_set(tag_name, CharSet::Only('v'));
            out.append(&version);
            out.append(" is available — ");
            out.append(html_url);
            out
        },
        Ok(false) => "You're up to date.".to_owned(),
        Err(_) => NO_ANSWER.to_owned(),
    }
}

/// What to tell the user about updates.
pub fn check_for_updates(current: &str, reply: &ReleaseReply) -> (r: String)
    ensures
        match *reply {
            ReleaseReply::Failed => r@ == NO_ANSWER@,
            ReleaseReply::Release { tag_name, html_url } => if semver_fault(current@) is Some
                || semver_fault(tag_version(tag_name@)) is Some {
                r@ == NO_ANSWER@
            } else {
                r@ == update_text(
                    semver_after(tag_version(tag_name@), current@),
                    tag_name@,
                    html_url@,
                )
            },
        },
{
    match reply {
        ReleaseReply::Failed => NO_ANSWER.to_owned(),
        ReleaseReply::Release { tag_name, html_url } => {
            let newer = is_newer(current, tag_name);
            update_message(&newer, tag_name, html_url)
        },
    }
}

} // verus!
