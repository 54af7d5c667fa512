//! A meeting's transcript and summary are copied as text.
use vstd::prelude::*;
use crate::clock::{moment_named, stamp_text, Moment, Stamp};
use crate::laws::recording::{both_digits, lemma_both_digits};
use crate::meeting::format::{build_transcript_text, confidence_tooltip, copied_line, copied_lines, copy_summary_on, copy_transcript_on, format_header_date, format_note_time, has_unsaved_summary_edits, header_date, note_time, plain_line, plain_lines, resolve_default_template, segment_timestamp, summary_reveal_chars_per_tick, transcript_copy, Confidence, ConfidenceLevel, MeetingTranscript};
use crate::numbers::{push_signed, to_decimal};
use crate::text::texts;
use crate::words::joined;

verus! {

/// A piece is timed from the start of the recording, in minutes and seconds with
/// two digits, where that time is known; else its stored time stands.
pub proof fn pieces_are_timed_from_the_start(
    start: Option<i64>,
    stored: &str,
    r: String,
    minutes: u64,
    of_minutes: String,
)
    requires
        call_ensures(segment_timestamp, (start, stored), r),
        start matches Some(n) ==> (n >= 0 ==> minutes == n / 60_000_000_000),
        call_ensures(to_decimal, (minutes,), of_minutes),
    ensures
        start is None ==> r@ == stored@,
        start matches Some(n) && n < 0 ==> r@ == stored@,
        start matches Some(n) ==> (0 <= n < 6_000_000_000_000 ==> r@ == seq!['['] + both_digits(
            n as int / 60_000_000_000,
        ) + seq![':'] + both_digits((n as int / 1_000_000_000) % 60) + seq![']']),
        start matches Some(n) ==> (n >= 6_000_000_000_000 ==> r@ == seq!['['] + of_minutes@ + seq![':']
            + both_digits((n as int / 1_000_000_000) % 60) + seq![']']),
{
    if let Some(n) = start {
        if n >= 0 {
            let total = n as int / 1_000_000_000;
            reveal_strlit("[");
            reveal_strlit(":");
            reveal_strlit("]");
            assert("["@ =~= seq!['[']);
            assert(":"@ =~= seq![':']);
            assert("]"@ =~= seq![']']);
            assert(total / 60 == n as int / 60_000_000_000);
            lemma_both_digits((total % 60) as nat);
            if n < 6_000_000_000_000 {
                lemma_both_digits((total / 60) as nat);
            }
        }
    }
}

/// One more piece is one more line: in a copied transcript its time, who speaks if
/// that is known, and its text, with a line break for Markdown at its end. Nothing
/// else of the piece counts.
pub proof fn copied_pieces_name_their_speaker(
    id: &str,
    title: &str,
    local: Option<Stamp>,
    front: &Vec<MeetingTranscript>,
    last: MeetingTranscript,
    all: &Vec<MeetingTranscript>,
    stored: &str,
    time: String,
    of_front: String,
    of_all: String,
)
    requires
        all@ == front@.push(last),
        stored@ == last.timestamp@,
        call_ensures(segment_timestamp, (last.audio_start_time, stored), time),
        call_ensures(copy_transcript_on, (id, title, local, front), of_front),
        call_ensures(copy_transcript_on, (id, title, local, all), of_all),
    ensures
        of_all@ == of_front@ + (if front@.len() == 0 {
            ""@
        } else {
            "\n"@
        }) + time@ + " "@ + (match last.speaker {
            Some(s) => s@ + ": "@,
            None => ""@,
        }) + last.text@ + "  "@,
{
    let lines = copied_lines(front@);
    assert(copied_lines(all@) =~= lines.push(copied_line(last)));
    assert(copied_lines(all@).drop_last() =~= lines);
    reveal_strlit("");
    let head = "# Transcript of the Meeting: "@ + id@ + " - "@ + title@ + "\n\n"@ + "## Date: "@
        + crate::meeting::format::stamp_or_nothing(local, crate::clock::NUMERIC_PATTERN@) + "\n\n"@;
    assert(of_front@ == head + joined(lines, "\n"@));
    assert(of_all@ == head + joined(copied_lines(all@), "\n"@));
    let who = match last.speaker {
        Some(s) => s@ + ": "@,
        None => ""@,
    };
    assert(copied_line(last) == time@ + " "@ + who + last.text@ + "  "@);
    if front@.len() == 0 {
        assert(lines.len() == 0);
        assert(of_all@ =~= of_front@ + ""@ + time@ + " "@ + who + last.text@ + "  "@);
    } else {
        assert(lines.len() > 0);
        assert(of_all@ =~= of_front@ + "\n"@ + time@ + " "@ + who + last.text@ + "  "@);
    }
}

/// A copied transcript starts with the meeting's id, its title and its date as
/// month, day and year.
pub proof fn copied_transcripts_are_headed(
    id: &str,
    title: &str,
    local: Option<Stamp>,
    none: &Vec<MeetingTranscript>,
    r: String,
)
    requires
        none@.len() == 0,
        call_ensures(copy_transcript_on, (id, title, local, none), r),
    ensures
        r@ == "# Transcript of the Meeting: "@ + id@ + " - "@ + title@ + "\n\n## Date: "@ + (
        match local {
            Some(t) => stamp_text(t, "%-m/%-d/%Y"@),
            None => ""@,
        }) + "\n\n"@,
{
    reveal_strlit("");
    reveal_strlit("\n\n");
    reveal_strlit("## Date: ");
    reveal_strlit("\n\n## Date: ");
    assert("\n\n"@ + "## Date: "@ =~= "\n\n## Date: "@);
    assert(copied_lines(none@).len() == 0);
    let date = crate::meeting::format::stamp_or_nothing(local, crate::clock::NUMERIC_PATTERN@);
    assert(r@ =~= "# Transcript of the Meeting: "@ + id@ + " - "@ + title@ + ("\n\n"@
        + "## Date: "@) + date + "\n\n"@);
}

/// The transcript that a summary is made from has a line for each piece: its time
/// and its text.
pub proof fn transcripts_have_a_line_for_each_piece(
    front: &Vec<MeetingTranscript>,
    last: MeetingTranscript,
    all: &Vec<MeetingTranscript>,
    stored: &str,
    time: String,
    of_front: String,
    of_all: String,
)
    requires
        all@ == front@.push(last),
        stored@ == last.timestamp@,
        call_ensures(segment_timestamp, (last.audio_start_time, stored), time),
        call_ensures(build_transcript_text, (front,), of_front),
        call_ensures(build_transcript_text, (all,), of_all),
    ensures
        front@.len() == 0 ==> of_front@.len() == 0 && of_all@ == time@ + " "@ + last.text@,
        front@.len() > 0 ==> of_all@ == of_front@ + "\n"@ + time@ + " "@ + last.text@,
{
    let lines = plain_lines(front@);
    assert(plain_lines(all@) =~= lines.push(plain_line(last)));
    assert(plain_lines(all@).drop_last() =~= lines);
    if front@.len() > 0 {
        assert(of_all@ =~= of_front@ + "\n"@ + time@ + " "@ + last.text@);
    } else {
        assert(lines.len() == 0);
    }
}

/// A copied summary starts with the meeting's title, its id, its date and the date
/// of the copy, each once and in this order, and ends with the summary as it is.
pub proof fn copied_summaries_keep_the_summary(
    id: &str,
    title: &str,
    created: Option<Stamp>,
    copied: &Stamp,
    markdown: &str,
    r: String,
)
    requires
        call_ensures(copy_summary_on, (id, title, created, copied, markdown), r),
    ensures
        r@ == "# Meeting Summary: "@ + title@ + "\n\n**Meeting ID:** "@ + id@ + "\n**Date:** "@ + (
        match created {
            Some(t) => stamp_text(t, "%B %-d, %Y, %I:%M %p"@),
            None => ""@,
        }) + "\n**Copied on:** "@ + stamp_text(*copied, "%B %-d, %Y, %I:%M %p"@) + "\n\n---\n\n"@
            + markdown@,
{
    reveal_strlit("\n\n");
    reveal_strlit("**Meeting ID:** ");
    reveal_strlit("\n\n**Meeting ID:** ");
    assert("\n\n"@ + "**Meeting ID:** "@ =~= "\n\n**Meeting ID:** "@);
    let date = crate::meeting::format::stamp_or_nothing(created, crate::clock::LONG_PATTERN@);
    assert(r@ =~= "# Meeting Summary: "@ + title@ + ("\n\n"@ + "**Meeting ID:** "@) + id@
        + "\n**Date:** "@ + date + "\n**Copied on:** "@ + stamp_text(
        *copied,
        "%B %-d, %Y, %I:%M %p"@,
    ) + "\n\n---\n\n"@ + markdown@);
}

/// The date in the header is the day, the month, the year and the time of day;
/// that of a note is the month, the day and the time of day.
pub proof fn dates_are_written_out(local: &Stamp, header: String, note: String)
    requires
        call_ensures(header_date, (local,), header),
        call_ensures(note_time, (local,), note),
    ensures
        header@ == stamp_text(*local, "%-d %b %Y, %H:%M"@),
        note@ == stamp_text(*local, "%b %-d, %-I:%M %p"@),
{
}

/// The time of a note that cannot be read is left out, and every other is shown.
pub proof fn notes_show_times_that_can_be_read(created: &str, r: String)
    requires
        call_ensures(format_note_time, (created,), r),
    ensures
        r@.len() == 0 <==> moment_named(created@) is None,
{
    reveal_strlit("");
}

/// The configured template is taken where there is one such; else the standard
/// one, else the first that there is.
pub proof fn templates_are_chosen_among_those_there_are(
    configured: Option<&str>,
    available: &Vec<String>,
    r: String,
    i: int,
)
    requires
        call_ensures(resolve_default_template, (configured, available), r),
    ensures
        0 <= i < available@.len() && (configured matches Some(c) && available@[i]@ == c@) ==> (
        configured matches Some(c) && r@ == c@),
        configured is None && 0 <= i < available@.len() && available@[i]@ == "standard_meeting"@
            ==> r@ == "standard_meeting"@,
        available@.len() == 0 ==> r@ == "standard_meeting"@,
        (forall|j: int|
            0 <= j < available@.len() ==> (#[trigger] available@[j])@ != "standard_meeting"@ && !(
            configured matches Some(c) && available@[j]@ == c@)) && available@.len() > 0 ==> r@
            == available@[0]@,
        available@.len() > 0 ==> exists|j: int| 0 <= j < available@.len() && (#[trigger] available@[j])@ == r@,
{
    let all = texts(available@);
    assert(all.len() == available@.len());
    if 0 <= i < available@.len() {
        assert(all[i] == available@[i]@);
    }
    crate::meeting::format::chosen_template_exists(crate::text::opt_str(configured), all);
    if available@.len() > 0 {
        let j = choose|j: int| 0 <= j < all.len() && all[j] == r@;
        assert(available@[j]@ == r@);
        assert(all[0] == available@[0]@);
    }
    if forall|j: int|
        0 <= j < available@.len() ==> (#[trigger] available@[j])@ != "standard_meeting"@ && !(
        configured matches Some(c) && available@[j]@ == c@) {
        if all.contains("standard_meeting"@) {
            let j = choose|j: int| 0 <= j < all.len() && all[j] == "standard_meeting"@;
            assert(available@[j]@ == "standard_meeting"@);
        }
        if let Some(c) = configured {
            if all.contains(c@) {
                let j = choose|j: int| 0 <= j < all.len() && all[j] == c@;
                assert(available@[j]@ == c@);
            }
        }
    }
}

/// Edits are unsaved exactly while the summary is edited and the editor holds
/// something else than was saved.
pub proof fn edits_are_unsaved_where_they_differ(editing: bool, text: &str, saved: &str, r: bool)
    requires
        call_ensures(has_unsaved_summary_edits, (editing, text, saved), r),
    ensures
        !editing ==> !r,
        text@ == saved@ ==> !r,
        editing && text@ != saved@ ==> r,
{
}

/// A step of a streamed summary shows an eighth of what waits, rounded up, but two
/// characters at least where two wait.
pub proof fn streams_are_shown_by_eighths(pending: usize, r: usize)
    requires
        call_ensures(summary_reveal_chars_per_tick, (pending,), r),
    ensures
        pending <= 2 ==> r == pending,
        2 < pending <= 16 ==> r == 2,
        pending > 16 ==> 8 * (r - 1) < pending <= 8 * r,
{
}

/// The tooltip names the percents and the band that a confidence is in.
pub proof fn tooltips_name_percents_and_band(
    c: &Confidence,
    r: String,
    empty: &mut String,
)
    requires
        call_ensures(confidence_tooltip, (c,), r),
        old(empty)@.len() == 0,
        call_ensures(push_signed, (empty, c.percent), ()),
    ensures
        r@ == final(empty)@ + "% confidence - "@ + (match c.level {
            ConfidenceLevel::High => "High confidence"@,
            ConfidenceLevel::Good => "Good confidence"@,
            ConfidenceLevel::Medium => "Medium confidence"@,
            ConfidenceLevel::Low => "Low confidence"@,
        }),
{
    assert(final(empty)@ =~= crate::numbers::signed_decimal(c.percent as int));
}

/// The bands of confidence have names.
pub proof fn bands_have_names(level: ConfidenceLevel, r: &'static str)
    requires
        call_ensures(ConfidenceLevel::label, (level,), r),
    ensures
        level is High ==> r@ == "High confidence"@,
        level is Good ==> r@ == "Good confidence"@,
        level is Medium ==> r@ == "Medium confidence"@,
        level is Low ==> r@ == "Low confidence"@,
{
}

/// A transcript is copied under the meeting's local date, and without a date where
/// none is known.
pub proof fn copies_are_dated_locally(
    id: &str,
    title: &str,
    created: Option<Moment>,
    transcripts: &Vec<MeetingTranscript>,
    undated: String,
    r: String,
)
    requires
        call_ensures(crate::meeting::format::copy_transcript_text, (id, title, created, transcripts), r),
        call_ensures(copy_transcript_on, (id, title, None, transcripts), undated),
    ensures
        created is None ==> r@ == undated@,
        created matches Some(m) ==> exists|t: Stamp| #[trigger]
            crate::clock::local_to(t, m) && r@ == transcript_copy(id@, title@, Some(t), transcripts@),
{
    let local = choose|local: Option<Stamp>| #[trigger]
        crate::meeting::format::stamp_of(local, created) && r@ == transcript_copy(
            id@,
            title@,
            local,
            transcripts@,
        );
    if let Some(m) = created {
        if let Some(t) = local {
            assert(crate::clock::local_to(t, m));
        }
    }
}

/// A summary is copied under the local dates of the meeting and of the copy, and
/// ends with the summary as it is.
pub proof fn copied_summaries_are_dated_locally(
    id: &str,
    title: &str,
    now: &Moment,
    markdown: &str,
    r: String,
)
    requires
        call_ensures(crate::meeting::format::copy_summary_text, (id, title, None, now, markdown), r),
    ensures
        exists|t: Stamp| #[trigger]
            crate::clock::local_to(t, *now) && r@ == crate::meeting::format::summary_copy(
                id@,
                title@,
                None,
                t,
                markdown@,
            ),
{
    let (created, copied) = choose|created: Option<Stamp>, copied: Stamp| #[trigger]
        crate::meeting::format::stamp_of(created, None) && #[trigger] crate::clock::local_to(copied, *now)
            && r@ == crate::meeting::format::summary_copy(id@, title@, created, copied, markdown@);
    assert(crate::clock::local_to(copied, *now));
}

/// The header's date is the meeting's local one.
pub proof fn headers_are_dated_locally(created: &Moment, r: String)
    requires
        call_ensures(format_header_date, (created,), r),
    ensures
        exists|t: Stamp| #[trigger]
            crate::clock::local_to(t, *created) && r@ == stamp_text(t, "%-d %b %Y, %H:%M"@),
{
}

/// A copied transcript holds, for every piece of a meeting whose speaker is known,
/// who said it.
pub proof fn pages_copy_the_transcript(
    page: &crate::meeting::page::MeetingView,
    r: crate::meeting::page::CopyOutcome,
    id: String,
)
    requires
        call_ensures(crate::meeting::page::MeetingView::copy_transcript, (page,), r),
        page.meeting_id == Some(id),
        page.transcripts@.len() > 0,
        page.created_at is None,
    ensures
        r matches crate::meeting::page::CopyOutcome::Copy(text, told) && text@ == transcript_copy(
            id@,
            page.title@,
            None,
            page.transcripts@,
        ),
{
    if let crate::meeting::page::CopyOutcome::Copy(text, told) = r {
        let local = choose|local: Option<Stamp>| #[trigger]
            crate::meeting::format::stamp_of(local, page.created_at) && text@ == transcript_copy(
                id@,
                page.title@,
                local,
                page.transcripts@,
            );
        assert(local is None);
    }
}

} // verus!
