//! The texts of the meeting page: time stamps, the transcript and what is
//! copied to the clipboard.
use vstd::prelude::*;
use crate::clock::{format_stamp, local_stamp, local_to, moment_named, parse_moment, stamp_text, Moment, Stamp, HEADER_PATTERN, LONG_PATTERN, NOTE_PATTERN, NUMERIC_PATTERN};
use crate::numbers::{push_signed, push_two_digits, signed_decimal, two_digits};
use crate::text::{contains_text, opt_str, same_text, texts};
use crate::words::{join, joined};

verus! {

/// One piece of a meeting's transcript.
#[derive(Debug, Clone, PartialEq, Eq)]
pub struct MeetingTranscript {
    pub id: String,
    pub text: String,
    /// Wall-clock time, as stored.
    pub timestamp: String,
    /// Nanoseconds from the start of the recording, where they are known.
    pub audio_start_time: Option<i64>,
    pub audio_end_time: Option<i64>,
    /// Nanoseconds.
    pub duration: Option<i64>,
    pub speaker: Option<String>,
    pub voice_profile_id: Option<String>,
    /// "mic" or "system".
    pub source: Option<String>,
    pub confidence: Option<Confidence>,
}

/// How sure the speech model was of a piece.
#[derive(Debug, Clone, Copy, PartialEq, Eq, Structural)]
pub struct Confidence {
    /// Rounded to whole percents.
    pub percent: i64,
    pub level: ConfidenceLevel,
}

/// Four bands of confidence.
#[derive(Debug, Clone, Copy, PartialEq, Eq, Structural)]
pub enum ConfidenceLevel {
    High,
    Good,
    Medium,
    Low,
}

impl ConfidenceLevel {
    /// The name of a band.
    pub open spec fn name(self) -> Seq<char> {
        match self {
            ConfidenceLevel::High => "High confidence"@,
            ConfidenceLevel::Good => "Good confidence"@,
            ConfidenceLevel::Medium => "Medium confidence"@,
            ConfidenceLevel::Low => "Low confidence"@,
        }
    }

    /// The name of a band.
    pub fn label(self) -> (r: &'static str)
        ensures
            r@ == self.name(),
    {
        match self {
            ConfidenceLevel::High => "High confidence",
            ConfidenceLevel::Good => "Good confidence",
            ConfidenceLevel::Medium => "Medium confidence",
            ConfidenceLevel::Low => "Low confidence",
        }
    }
}

/// The text beside a confidence mark: "87% confidence - High confidence".
pub fn confidence_tooltip(confidence: &Confidence) -> (r: String)
    ensures
        r@ == signed_decimal(confidence.percent as int) + "% confidence - "@
            + confidence.level.name(),
{
    let mut out = String::new();
    push_signed(&mut out, confidence.percent);
    out.append("% confidence - ");
    out.append(confidence.level.label());
    assert(out@ =~= signed_decimal(confidence.percent as int) + "% confidence - "@
        + confidence.level.name());
    out
}

/// Minutes and seconds from the start of the recording: "[01:05]".
pub open spec fn audio_time(nanos: int) -> Seq<char> {
    let total = nanos / 1_000_000_000;
    "["@ + two_digits((total / 60) as nat) + ":"@ + two_digits((total % 60) as nat) + "]"@
}

/// The time of a piece: from the start of the recording where it is known and
/// not below zero, else the wall-clock time as stored.
pub open spec fn segment_time(start: Option<i64>, fallback: Seq<char>) -> Seq<char> {
    match start {
        Some(nanos) => if nanos >= 0 {
            audio_time(nanos as int)
        } else {
            fallback
        },
        None => fallback,
    }
}

/// The time of a piece, from its nanoseconds from the start of the recording.
pub fn segment_timestamp(audio_start_time: Option<i64>, fallback_timestamp: &str) -> (r: String)
    ensures
        r@ == segment_time(audio_start_time, fallback_timestamp@),
{
    match audio_start_time {
        Some(nanos) => if nanos >= 0 {
            let total: u64 = (nanos / 1_000_000_000) as u64;
            let mut out = "[".to_owned();
            push_two_digits(&mut out, total / 60);
            out.append(":");
            push_two_digits(&mut out, total % 60);
            out.append("]");
            assert(out@ =~= audio_time(nanos as int));
            out
        } else {
            fallback_timestamp.to_owned()
        },
        None => fallback_timestamp.to_owned(),
    }
}

/// One line of the transcript: its time and its text.
pub open spec fn plain_line(t: MeetingTranscript) -> Seq<char> {
    segment_time(t.audio_start_time, t.timestamp@) + " "@ + t.text@
}

/// The lines of the transcript.
pub open spec fn plain_lines(transcripts: Seq<MeetingTranscript>) -> Seq<Seq<char>> {
    transcripts.map_values(|t: MeetingTranscript| plain_line(t))
}

/// The transcript as text: a line with time and text for each piece.
pub fn build_transcript_text(transcripts: &Vec<MeetingTranscript>) -> (r: String)
    ensures
        r@ == joined(plain_lines(transcripts@), "\n"@),
{
    let mut lines: Vec<String> = Vec::new();
    for i in 0..transcripts.len()
        invariant
            texts(lines@) == plain_lines(transcripts@.take(i as int)),
    {
        let t = &transcripts[i];
        let ghost had = lines@;
        let mut line = segment_timestamp(t.audio_start_time, &t.timestamp);
        line.append(" ");
        line.append(&t.text);
        lines.push(line);
        proof {
            assert(line@ =~= plain_line(transcripts@[i as int]));
            assert(texts(lines@) =~= texts(had).push(line@));
            assert(plain_lines(transcripts@.take(i + 1)) =~= plain_lines(
                transcripts@.take(i as int),
            ).push(line@));
        }
    }
    assert(transcripts@.take(transcripts@.len() as int) =~= transcripts@);
    join(&lines, "\n")
}

/// The date in the header, for a local date and time: "11 Sep 2026, 14:03".
pub fn header_date(local: &Stamp) -> (r: String)
    requires
        local.valid(),
    ensures
        r@ == stamp_text(*local, HEADER_PATTERN@),
{
    format_stamp(local, HEADER_PATTERN)
}

/// The date in the header, in the machine's time zone.
pub fn format_header_date(created_at: &Moment) -> (r: String)
    requires
        created_at.valid(),
    ensures
        exists|local: Stamp| #[trigger]
            local_to(local, *created_at) && r@ == stamp_text(local, HEADER_PATTERN@),
{
    header_date(&local_stamp(created_at))
}

/// A local date and time in a pattern; nothing where there is none.
pub open spec fn stamp_or_nothing(local: Option<Stamp>, pattern: Seq<char>) -> Seq<char> {
    match local {
        Some(t) => stamp_text(t, pattern),
        None => ""@,
    }
}

/// Whether a local date and time is one in the calendar, or there is none.
pub open spec fn stamp_fits(local: Option<Stamp>) -> bool {
    match local {
        Some(t) => t.valid(),
        None => true,
    }
}

/// One line of a copied transcript: time, speaker and text, with a line break.
pub open spec fn copied_line(t: MeetingTranscript) -> Seq<char> {
    segment_time(t.audio_start_time, t.timestamp@) + " "@ + (match t.speaker {
        Some(s) => s@ + ": "@,
        None => ""@,
    }) + t.text@ + "  "@
}

/// The lines of a copied transcript.
pub open spec fn copied_lines(transcripts: Seq<MeetingTranscript>) -> Seq<Seq<char>> {
    transcripts.map_values(|t: MeetingTranscript| copied_line(t))
}

/// A copied transcript, for a local date.
pub open spec fn transcript_copy(
    meeting_id: Seq<char>,
    title: Seq<char>,
    local: Option<Stamp>,
    transcripts: Seq<MeetingTranscript>,
) -> Seq<char> {
    "# Transcript of the Meeting: "@ + meeting_id + " - "@ + title + "\n\n"@ + "## Date: "@
        + stamp_or_nothing(local, NUMERIC_PATTERN@) + "\n\n"@ + joined(
        copied_lines(transcripts),
        "\n"@,
    )
}

/// The transcript for the clipboard, for a local date: a header and a line for
/// each piece.
pub fn copy_transcript_on(
    meeting_id: &str,
    title: &str,
    local: Option<Stamp>,
    transcripts: &Vec<MeetingTranscript>,
) -> (r: String)
    requires
        stamp_fits(local),
    ensures
        r@ == transcript_copy(meeting_id@, title@, local, transcripts@),
{
    let mut lines: Vec<String> = Vec::new();
    for i in 0..transcripts.len()
        invariant
            texts(lines@) == copied_lines(transcripts@.take(i as int)),
    {
        let t = &transcripts[i];
        let ghost had = lines@;
        let mut line = segment_timestamp(t.audio_start_time, &t.timestamp);
        line.append(" ");
        let mut who = "".to_owned();
        if let Some(s) = &t.speaker {
            who = s.clone();
            who.append(": ");
        }
        line.append(&who);
        line.append(&t.text);
        line.append("  ");
        lines.push(line);
        proof {
            assert(line@ =~= copied_line(transcripts@[i as int]));
            assert(texts(lines@) =~= texts(had).push(line@));
            assert(copied_lines(transcripts@.take(i + 1)) =~= copied_lines(
                transcripts@.take(i as int),
            ).push(line@));
        }
    }
    assert(transcripts@.take(transcripts@.len() as int) =~= transcripts@);
    let mut out = "# Transcript of the Meeting: ".to_owned();
    out.append(meeting_id);
    out.append(" - ");
    out.append(title);
    out.append("\n\n");
    out.append("## Date: ");
    let date = match local {
        Some(t) => format_stamp(&t, NUMERIC_PATTERN),
        None => "".to_owned(),
    };
    out.append(&date);
    out.append("\n\n");
    out.append(&join(&lines, "\n"));
    assert(out@ =~= transcript_copy(meeting_id@, title@, local, transcripts@));
    out
}

/// Whether a local date and time is that of a moment in some time zone: there is
/// one exactly where there is a moment.
pub open spec fn stamp_of(local: Option<Stamp>, moment: Option<Moment>) -> bool {
    match (local, moment) {
        (Some(t), Some(m)) => local_to(t, m),
        (None, None) => true,
        _ => false,
    }
}

fn local_stamp_of(moment: Option<Moment>) -> (r: Option<Stamp>)
    requires
        moment matches Some(m) ==> m.valid(),
    ensures
        stamp_of(r, moment),
{
    match moment {
        Some(m) => Some(local_stamp(&m)),
        None => None,
    }
}

/// The transcript for the clipboard, dated in the machine's time zone.
pub fn copy_transcript_text(
    meeting_id: &str,
    title: &str,
    created_at: Option<Moment>,
    transcripts: &Vec<MeetingTranscript>,
) -> (r: String)
    requires
        created_at matches Some(m) ==> m.valid(),
    ensures
        exists|local: Option<Stamp>| #[trigger]
            stamp_of(local, created_at) && r@ == transcript_copy(
                meeting_id@,
                title@,
                local,
                transcripts@,
            ),
{
    let local = local_stamp_of(created_at);
    copy_transcript_on(meeting_id, title, local, transcripts)
}

/// A copied summary, for local dates and times of the meeting and of the copy.
pub open spec fn summary_copy(
    meeting_id: Seq<char>,
    title: Seq<char>,
    created: Option<Stamp>,
    copied: Stamp,
    markdown: Seq<char>,
) -> Seq<char> {
    "# Meeting Summary: "@ + title + "\n\n"@ + "**Meeting ID:** "@ + meeting_id + "\n**Date:** "@
        + stamp_or_nothing(created, LONG_PATTERN@) + "\n**Copied on:** "@ + stamp_text(
        copied,
        LONG_PATTERN@,
    ) + "\n\n---\n\n"@ + markdown
}

/// The summary for the clipboard, for local dates and times.
pub fn copy_summary_on(
    meeting_id: &str,
    title: &str,
    created: Option<Stamp>,
    copied: &Stamp,
    summary_markdown: &str,
) -> (r: String)
    requires
        stamp_fits(created),
        copied.valid(),
    ensures
        r@ == summary_copy(meeting_id@, title@, created, *copied, summary_markdown@),
{
    let mut out = "# Meeting Summary: ".to_owned();
    out.append(title);
    out.append("\n\n");
    out.append("**Meeting ID:** ");
    out.append(meeting_id);
    out.append("\n**Date:** ");
    let date = match created {
        Some(t) => format_stamp(&t, LONG_PATTERN),
        None => "".to_owned(),
    };
    out.append(&date);
    out.append("\n**Copied on:** ");
    out.append(&format_stamp(copied, LONG_PATTERN));
    out.append("\n\n---\n\n");
    out.append(summary_markdown);
    assert(out@ =~= summary_copy(meeting_id@, title@, created, *copied, summary_markdown@));
    out
}

/// The summary for the clipboard, in the machine's time zone.
pub fn copy_summary_text(
    meeting_id: &str,
    title: &str,
    created_at: Option<Moment>,
    now: &Moment,
    summary_markdown: &str,
) -> (r: String)
    requires
        created_at matches Some(m) ==> m.valid(),
        now.valid(),
    ensures
        exists|created: Option<Stamp>, copied: Stamp| #[trigger]
            stamp_of(created, created_at) && #[trigger] local_to(copied, *now) && r@ == summary_copy(
                meeting_id@,
                title@,
                created,
                copied,
                summary_markdown@,
            ),
{
    let created = local_stamp_of(created_at);
    let copied = local_stamp(now);
    copy_summary_on(meeting_id, title, created, &copied, summary_markdown)
}

/// The template that a summary is made with where none is chosen.
pub const STANDARD_TEMPLATE: &'static str = "standard_meeting";

/// The template to start with: the configured one where it exists, else the
/// standard one where it exists, else the first, else the standard one.
pub open spec fn default_template(configured: Option<Seq<char>>, available: Seq<Seq<char>>) -> Seq<
    char,
> {
    if configured matches Some(id) && available.contains(id) {
        configured->Some_0
    } else if available.contains(STANDARD_TEMPLATE@) || available.len() == 0 {
        STANDARD_TEMPLATE@
    } else {
        available[0]
    }
}

/// The template to start with.
pub fn resolve_default_template(configured: Option<&str>, available: &Vec<String>) -> (r: String)
    ensures
        r@ == default_template(opt_str(configured), texts(available@)),
{
    if let Some(id) = configured {
        if contains_text(available, id) {
            return id.to_owned();
        }
    }
    if contains_text(available, STANDARD_TEMPLATE) || available.len() == 0 {
        return STANDARD_TEMPLATE.to_owned();
    }
    available[0].clone()
}

/// A template that starts out chosen exists, wherever any does.
pub proof fn chosen_template_exists(configured: Option<Seq<char>>, available: Seq<Seq<char>>)
    ensures
        available.len() > 0 ==> available.contains(default_template(configured, available)),
{
    if available.len() > 0 {
        assert(available.contains(available[0]));
    }
}

/// Whether the summary is being edited and differs from what was saved.
pub fn has_unsaved_summary_edits(editing: bool, editor_text: &str, saved_markdown: &str) -> (r:
    bool)
    ensures
        r == (editing && editor_text@ != saved_markdown@),
{
    editing && !same_text(editor_text, saved_markdown)
}

/// The time of a note, for a local date and time: "Sep 11, 2:30 PM".
pub fn note_time(local: &Stamp) -> (r: String)
    requires
        local.valid(),
    ensures
        r@ == stamp_text(*local, NOTE_PATTERN@),
        r@.len() > 0,
{
    format_stamp(local, NOTE_PATTERN)
}

/// The time of a note in the machine's time zone; nothing for a text that names
/// no moment.
pub fn format_note_time(created_at: &str) -> (r: String)
    ensures
        match moment_named(created_at@) {
            Some(m) => r@.len() > 0 && exists|local: Stamp| #[trigger]
                local_to(local, m) && r@ == stamp_text(local, NOTE_PATTERN@),
            None => r@ == ""@,
        },
{
    match parse_moment(created_at) {
        Some(m) => note_time(&local_stamp(&m)),
        None => "".to_owned(),
    }
}

/// Milliseconds between two steps of showing a streamed summary.
pub const SUMMARY_REVEAL_INTERVAL_MS: u64 = 50;

/// How many characters a step shows of those that wait: an eighth of them,
/// rounded up, at least two, and no more than there are.
pub open spec fn reveal_step(pending: nat) -> nat {
    let eighth = (pending + 7) / 8;
    let least = if eighth < 2 {
        2
    } else {
        eighth
    };
    if least < pending {
        least
    } else {
        pending
    }
}

/// How many characters a step shows of those that wait.
pub fn summary_reveal_chars_per_tick(pending_len: usize) -> (r: usize)
    ensures
        r == reveal_step(pending_len as nat),
{
    reveal_units(pending_len as u128) as usize
}

/// How many units a step shows of those that wait.
pub(crate) fn reveal_units(pending: u128) -> (r: u128)
    requires
        pending <= u128::MAX - 7,
    ensures
        r == reveal_step(pending as nat),
        r <= pending,
{
    let eighth: u128 = (pending + 7) / 8;
    let least: u128 = if eighth < 2 {
        2
    } else {
        eighth
    };
    if least < pending {
        least
    } else {
        pending
    }
}

/// What waits is shown in the end: each step shows something, never more than
/// waits, and an eighth of it at least.
pub proof fn revealing_drains(pending: nat)
    ensures
        reveal_step(pending) <= pending,
        pending > 0 ==> reveal_step(pending) > 0,
        8 * reveal_step(pending) >= pending,
{
}

} // verus!
