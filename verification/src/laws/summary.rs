//! A meeting's summary is loaded, made, streamed, edited and saved.
use vstd::prelude::*;
use crate::json::{json_document, json_object, json_string};
use crate::meeting::summary::{lemma_place_of, lower_status_kind, markdown_in, place_of, status_kind, steps_make_progress, template_ids, GenerateStep, StatusKind, SummaryHeader, SummaryPanel, SummaryPhase, SummaryProcess, Template};
use crate::words::lowercase;

verus! {

/// A summary is being made while its status says so, in whatever case; it failed
/// where its status says that; any other status means that nothing goes on.
pub proof fn statuses_say_what_goes_on(status: &str, r: StatusKind, lower: &str, of_lower: StatusKind)
    requires
        call_ensures(status_kind, (status,), r),
        lower@ == lowercase(status@),
        call_ensures(lower_status_kind, (lower,), of_lower),
    ensures
        r == of_lower,
        lower@ == "processing"@ || lower@ == "pending"@ || lower@ == "summarizing"@ ==> r is Running,
        r is Running ==> lower@ == "processing"@ || lower@ == "pending"@ || lower@ == "summarizing"@,
        lower@ == "completed"@ || lower@ == "cancelled"@ ==> r is Settled,
        r is Failed ==> lower@ == "failed"@ || lower@ == "error"@,
        lower@ == "failed"@ || lower@ == "error"@ ==> r is Failed,
{
    reveal_strlit("processing");
    reveal_strlit("pending");
    reveal_strlit("summarizing");
    reveal_strlit("failed");
    reveal_strlit("error");
    reveal_strlit("completed");
    reveal_strlit("cancelled");
    assert("completed"@.len() == 9 && "cancelled"@.len() == 9);
    assert("failed"@.len() == 6 && "error"@.len() == 5 && "processing"@.len() == 10
        && "pending"@.len() == 7 && "summarizing"@.len() == 11);
}

/// The summary is the string in the member "markdown" of what is stored, where
/// that is an object with such a member.
pub proof fn summaries_are_stored_as_markdown(result: &Option<String>, r: Option<String>, key: Seq<char>)
    requires
        call_ensures(markdown_in, (result,), r),
    ensures
        *result is None ==> r is None,
        *result matches Some(text) ==> (json_document(text@) is None ==> r is None),
        *result matches Some(text) ==> (json_document(text@) matches Some(value) ==> (json_object(
            value,
        ) matches Some(members) ==> {
            if members.contains_key("markdown"@) {
                json_string(members["markdown"@]) == (match r {
                    Some(t) => Some(t@),
                    None => None,
                })
            } else {
                r is None
            }
        })),
{
}

/// What is found of a summary is shown: its text in full, and what became of it.
/// A stored state without a text leaves the text that is shown.
pub proof fn stored_summaries_are_shown(
    panel: &mut SummaryPanel,
    process: &SummaryProcess,
    text: Option<String>,
    kind: StatusKind,
    status: &str,
)
    requires
        call_ensures(SummaryPanel::apply_process, (panel, process), ()),
        call_ensures(markdown_in, (&process.result,), text),
        status@ == process.status@,
        call_ensures(status_kind, (status,), kind),
    ensures
        text matches Some(t) ==> final(panel).markdown@ == t@ && final(panel).shown@ == t@ && (final(
            panel).has_content <==> t@.len() > 0),
        text is None ==> final(panel).markdown@ == old(panel).markdown@ && final(panel).shown@ == old(
            panel).shown@ && final(panel).has_content == old(panel).has_content,
        kind is Running <==> final(panel).phase is Generating,
        kind is Settled <==> final(panel).phase is Idle,
        kind is Failed ==> (final(panel).phase matches SummaryPhase::Error(e) && e@ == (
        match process.error {
            Some(why) => why@,
            None => "Summary generation failed"@,
        })),
        kind is Running ==> final(panel).polling,
        final(panel).editing == old(panel).editing,
        final(panel).selected_template == old(panel).selected_template,
{
}

/// Where no summary is stored nothing goes on; one that cannot be loaded is said to
/// be so. Either way the text that is shown stays.
pub proof fn missing_summaries_leave_the_text(
    panel: &mut SummaryPanel,
    found: Result<Option<SummaryProcess>, String>,
)
    requires
        call_ensures(SummaryPanel::finish_refresh, (panel, found), ()),
    ensures
        found matches Ok(p) ==> (p is None ==> final(panel).phase is Idle && final(panel).markdown
            == old(panel).markdown && final(panel).shown == old(panel).shown),
        found matches Err(why) ==> (final(panel).phase matches SummaryPhase::Error(e) && e@
            == "Failed to load summary: "@ + why@) && final(panel).markdown == old(panel).markdown,
        final(panel).editing == old(panel).editing,
{
}

/// A stored state is taken over in full where it is found.
pub proof fn found_summaries_are_shown(
    panel: &mut SummaryPanel,
    process: SummaryProcess,
    text: Option<String>,
    kind: StatusKind,
    status: &str,
)
    requires
        call_ensures(SummaryPanel::finish_refresh, (panel, Ok(Some(process))), ()),
        call_ensures(markdown_in, (&process.result,), text),
        status@ == process.status@,
        call_ensures(status_kind, (status,), kind),
    ensures
        text matches Some(t) ==> final(panel).markdown@ == t@ && final(panel).shown@ == t@,
        text is None ==> final(panel).markdown == old(panel).markdown,
        kind is Running <==> final(panel).phase is Generating,
        kind is Settled <==> final(panel).phase is Idle,
        kind is Failed ==> final(panel).phase is Error,
{
}

/// A summary is made of a transcript: without a meeting and a database nothing
/// happens, without a transcript that is said, and else the old summary goes.
pub proof fn summaries_are_made_of_transcripts(
    panel: &mut SummaryPanel,
    ready: bool,
    has_transcript: bool,
    r: GenerateStep,
)
    requires
        call_ensures(SummaryPanel::begin_generate, (panel, ready, has_transcript), r),
    ensures
        !ready ==> r is Ignored,
        ready && !has_transcript ==> r is NoTranscript,
        ready && has_transcript ==> r is Start,
        r is Start <==> final(panel).phase is Generating && final(panel).markdown@.len() == 0 && final(
            panel).shown@.len() == 0 && !final(panel).has_content && ready && has_transcript,
        !(r is Start) ==> *final(panel) == *old(panel),
        final(panel).selected_template == old(panel).selected_template,
{
    reveal_strlit("");
}

/// Without a model that is said; with one the result is looked for.
pub proof fn summaries_need_a_model(panel: &mut SummaryPanel, has_model: bool)
    requires
        call_ensures(SummaryPanel::continue_generate, (panel, has_model), ()),
    ensures
        has_model ==> final(panel).polling && final(panel).phase == old(panel).phase,
        !has_model ==> (final(panel).phase matches SummaryPhase::Error(e) && e@
            == "No model configured — set one up in Settings first."@) && final(panel).polling == old(
            panel).polling,
        final(panel).markdown == old(panel).markdown,
{
}

/// What is streamed belongs to the summary at once. It is shown at once where
/// motion is reduced; else it waits behind what waits already.
pub proof fn streams_are_kept_at_once(
    panel: &mut SummaryPanel,
    delta: &str,
    reduce_motion: bool,
    r: bool,
)
    requires
        call_ensures(SummaryPanel::on_stream, (panel, delta, reduce_motion), r),
    ensures
        final(panel).markdown@ == old(panel).markdown@ + delta@,
        reduce_motion ==> final(panel).shown@ == old(panel).shown@ + delta@ && final(panel).pending@
            == old(panel).pending@ && !r,
        !reduce_motion ==> final(panel).shown@ == old(panel).shown@ && final(panel).pending@ == old(
            panel).pending@ + delta@,
        delta@.len() > 0 ==> final(panel).has_content,
        delta@.len() > 0 && !reduce_motion ==> final(panel).revealing && r == !old(panel).revealing,
        delta@.len() == 0 ==> !r,
{
    if delta@.len() == 0 {
        assert(old(panel).markdown@ + delta@ =~= old(panel).markdown@);
        assert(old(panel).shown@ + delta@ =~= old(panel).shown@);
        assert(old(panel).pending@ + delta@ =~= old(panel).pending@);
    }
}

/// A step shows some of what waits, in its order, and leaves the summary as it is.
/// The timer stops when nothing waits any more.
pub proof fn steps_show_what_waits(panel: &mut SummaryPanel, r: bool)
    requires
        call_ensures(SummaryPanel::show_some, (panel,), r),
    ensures
        final(panel).shown@ + final(panel).pending@ == old(panel).shown@ + old(panel).pending@,
        old(panel).pending@.len() > 0 ==> final(panel).shown@.len() > old(panel).shown@.len(),
        final(panel).shown@.len() >= old(panel).shown@.len(),
        final(panel).shown@.subrange(0, old(panel).shown@.len() as int) == old(panel).shown@,
        r <==> final(panel).pending@.len() == 0,
        final(panel).revealing == !r,
        final(panel).markdown == old(panel).markdown,
{
    let waits = old(panel).pending@;
    steps_make_progress(waits);
    let n = crate::meeting::summary::revealed_chars(waits) as int;
    assert(waits.subrange(0, n) + waits.subrange(n, waits.len() as int) =~= waits);
    assert(old(panel).shown@ + waits.subrange(0, n) + waits.subrange(n, waits.len() as int) =~= old(
        panel).shown@ + (waits.subrange(0, n) + waits.subrange(n, waits.len() as int)));
    assert(final(panel).shown@.subrange(0, old(panel).shown@.len() as int) =~= old(panel).shown@);
}

/// The editor starts with the summary, and leaving it loses something exactly
/// where it holds something else by then.
pub proof fn editors_start_with_the_summary(
    panel: &mut SummaryPanel,
    r: String,
    after: &SummaryPanel,
    text: &str,
    unsaved: bool,
)
    requires
        call_ensures(SummaryPanel::start_edit, (panel,), r),
        *after == *final(panel),
        call_ensures(SummaryPanel::has_unsaved_edits, (after, text), unsaved),
    ensures
        r@ == old(panel).markdown@,
        final(panel).editing,
        final(panel).markdown == old(panel).markdown,
        unsaved <==> text@ != r@,
{
}

/// An edit that was saved is the summary from then on, and editing ends. One that
/// was not, or that belongs to a meeting that was left, changes nothing.
pub proof fn saved_edits_are_the_summary(
    panel: &mut SummaryPanel,
    current: bool,
    saved: bool,
    markdown: &str,
)
    requires
        call_ensures(SummaryPanel::finish_save, (panel, current, saved, markdown), ()),
    ensures
        current && saved ==> final(panel).markdown@ == markdown@ && final(panel).shown@ == markdown@
            && !final(panel).editing && (final(panel).has_content <==> markdown@.len() > 0),
        !current || !saved ==> final(panel).markdown == old(panel).markdown && final(panel).shown
            == old(panel).shown && final(panel).editing == old(panel).editing,
        !final(panel).saving,
{
}

/// Cancelling an edit leaves the summary as it was.
pub proof fn cancelled_edits_change_nothing(panel: &mut SummaryPanel)
    requires
        call_ensures(SummaryPanel::cancel_edit, (panel,), ()),
    ensures
        !final(panel).editing,
        final(panel).markdown == old(panel).markdown,
        final(panel).shown == old(panel).shown,
{
}

/// A template that was chosen by hand stays; else the configured one is taken.
pub proof fn chosen_templates_stay(
    panel: &mut SummaryPanel,
    configured: Option<&str>,
    ids: &Vec<String>,
    taken: String,
)
    requires
        call_ensures(SummaryPanel::apply_default_template, (panel, configured), ()),
        crate::text::texts(ids@) == template_ids(old(panel).templates@),
        call_ensures(crate::meeting::format::resolve_default_template, (configured, ids), taken),
    ensures
        old(panel).template_user_selected ==> final(panel).selected_template@ == old(
            panel).selected_template@,
        !old(panel).template_user_selected ==> final(panel).selected_template@ == taken@,
        final(panel).markdown == old(panel).markdown,
{
}

/// Going on from a template leads to the one behind it, and from the last to the
/// first; the choice then counts as made by hand.
pub proof fn templates_are_gone_through(panel: &mut SummaryPanel, at: int)
    requires
        call_ensures(SummaryPanel::cycle_template, (panel,), ()),
        0 <= at < old(panel).templates@.len(),
        old(panel).templates@[at].0@ == old(panel).selected_template@,
        forall|j: int|
            0 <= j < at ==> (#[trigger] old(panel).templates@[j]).0@ != old(panel).selected_template@,
    ensures
        at + 1 < old(panel).templates@.len() ==> final(panel).selected_template@ == old(
            panel).templates@[at + 1].0@,
        at + 1 == old(panel).templates@.len() ==> final(panel).selected_template@ == old(
            panel).templates@[0].0@,
        final(panel).template_user_selected,
{
    let ids = template_ids(old(panel).templates@);
    let id = old(panel).selected_template@;
    assert(ids.len() == old(panel).templates@.len());
    assert(ids[at] == id);
    lemma_place_of(ids, id);
    let p = place_of(ids, id);
    if p < at {
        assert(ids[p] == old(panel).templates@[p].0@);
    }
    assert(p == at);
    let n = ids.len() as int;
    if at + 1 < n {
        assert((at + 1) % n == at + 1) by (nonlinear_arith)
            requires
                0 <= at,
                at + 1 < n,
        ;
    } else {
        assert((at + 1) % n == 0) by (nonlinear_arith)
            requires
                at + 1 == n,
                n > 0,
        ;
    }
}

/// The header says what goes on, and offers what can be done then: making a
/// summary where none is on its way, copying one that is there, editing it once it
/// is made.
pub proof fn headers_offer_what_can_be_done(panel: &SummaryPanel, r: SummaryHeader)
    requires
        call_ensures(SummaryPanel::header, (panel,), r),
    ensures
        panel.phase is Idle ==> r.status is None && r.button_enabled,
        panel.phase is Loading ==> (r.status matches Some(s) && s@ == "Loading summary…"@)
            && !r.button_enabled,
        panel.phase is Generating ==> (r.status matches Some(s) && s@ == "Generating…"@) && r.button@
            == "Generating…"@ && !r.button_enabled && !r.can_edit && !r.can_pick_template,
        panel.phase matches SummaryPhase::Error(e) ==> (r.status matches Some(s) && s@ == e@)
            && r.button_enabled && r.button@ == "Regenerate summary"@,
        panel.phase is Idle && panel.has_content ==> r.button@ == "Regenerate summary"@ && r.can_edit,
        panel.phase is Idle && !panel.has_content ==> r.button@ == "Generate summary"@ && !r.can_edit,
        r.can_copy == panel.has_content,
        panel.saving ==> r.save_label@ == "Saving…"@,
        !panel.saving ==> r.save_label@ == "Save"@,
{
}

/// The header names the chosen template and describes it.
pub proof fn headers_name_the_template(panel: &SummaryPanel, r: SummaryHeader, at: int)
    requires
        call_ensures(SummaryPanel::header, (panel,), r),
        0 <= at < panel.templates@.len(),
        panel.templates@[at].0@ == panel.selected_template@,
        forall|j: int|
            0 <= j < at ==> (#[trigger] panel.templates@[j]).0@ != panel.selected_template@,
    ensures
        r.template@ == panel.templates@[at].1@,
        panel.templates@[at].2@.len() > 0 ==> r.template_hint@ == panel.templates@[at].2@,
        panel.templates@[at].2@.len() == 0 ==> r.template_hint@ == "Summary template"@,
{
    let ids = template_ids(panel.templates@);
    let id = panel.selected_template@;
    assert(ids[at] == id);
    lemma_place_of(ids, id);
    let p = place_of(ids, id);
    if p < at {
        assert(ids[p] == panel.templates@[p].0@);
    }
}

/// Instructions can be given while no summary is made, and their field hides while
/// the summary is edited.
pub proof fn instructions_show_where_they_can_be_given(panel: &SummaryPanel, can: bool, shows: bool)
    requires
        call_ensures(SummaryPanel::can_toggle_custom_prompt, (panel,), can),
        call_ensures(SummaryPanel::custom_prompt_shows, (panel,), shows),
    ensures
        can <==> !(panel.phase is Generating),
        shows <==> panel.show_custom_prompt && !panel.editing,
{
}

/// Another meeting starts without a summary, with the template that was chosen.
pub proof fn other_meetings_start_without_a_summary(panel: &mut SummaryPanel)
    requires
        call_ensures(SummaryPanel::reset, (panel,), ()),
    ensures
        final(panel).markdown@.len() == 0,
        final(panel).shown@.len() == 0,
        final(panel).pending@.len() == 0,
        !final(panel).has_content,
        !final(panel).editing,
        final(panel).selected_template == old(panel).selected_template,
{
    reveal_strlit("");
}

/// A summary that is made is looked for, saving is under way until it ends, and the
/// field for instructions shows and hides.
pub proof fn panels_say_what_is_under_way(
    panel: &SummaryPanel,
    polls: bool,
    a: &mut SummaryPanel,
    b: &mut SummaryPanel,
)
    requires
        call_ensures(SummaryPanel::keeps_polling, (panel,), polls),
        call_ensures(SummaryPanel::begin_save, (a,), ()),
        call_ensures(SummaryPanel::toggle_custom_prompt, (b,), ()),
    ensures
        polls <==> panel.phase is Generating,
        final(a).saving && final(a).markdown == old(a).markdown && final(a).editing == old(a).editing,
        final(b).show_custom_prompt == !old(b).show_custom_prompt && final(b).markdown == old(
            b).markdown,
{
}

/// A panel starts without a summary and with the template that is taken where none
/// is configured.
pub proof fn panels_start_without_a_summary(
    templates: Vec<Template>,
    ids: &Vec<String>,
    taken: String,
    r: SummaryPanel,
)
    requires
        call_ensures(SummaryPanel::new, (templates,), r),
        crate::text::texts(ids@) == template_ids(templates@),
        call_ensures(crate::meeting::format::resolve_default_template, (None, ids), taken),
    ensures
        r.markdown@.len() == 0 && r.shown@.len() == 0 && r.pending@.len() == 0,
        r.phase is Idle && !r.has_content && !r.editing && !r.saving && !r.polling && !r.revealing,
        r.templates == templates,
        r.selected_template@ == taken@,
        !r.template_user_selected && !r.show_custom_prompt,
{
    reveal_strlit("");
}

/// Of plain text a step shows an eighth of what waits, rounded up, at least two
/// characters, and all where that is less.
pub proof fn plain_text_is_shown_by_eighths(panel: &mut SummaryPanel, r: bool)
    requires
        call_ensures(SummaryPanel::show_some, (panel,), r),
        forall|i: int| 0 <= i < old(panel).pending@.len() ==> ((
        #[trigger] old(panel).pending@[i]) as u32) < 128,
    ensures
        old(panel).pending@.len() >= 16 ==> final(panel).shown@.len() == old(panel).shown@.len() + (old(
            panel).pending@.len() + 7) / 8,
        2 <= old(panel).pending@.len() < 16 ==> final(panel).shown@.len() == old(panel).shown@.len() + 2,
        old(panel).pending@.len() == 1 ==> final(panel).shown@.len() == old(panel).shown@.len() + 1,
{
    let waits = old(panel).pending@;
    steps_make_progress(waits);
    lemma_plain_bytes(waits);
    lemma_plain_covering(waits, crate::meeting::format::reveal_step(waits.len()) as int);
}

/// Plain text has as many bytes as characters.
proof fn lemma_plain_bytes(s: Seq<char>)
    requires
        forall|i: int| 0 <= i < s.len() ==> ((#[trigger] s[i]) as u32) < 128,
    ensures
        crate::meeting::summary::utf8_len(s) == s.len(),
    decreases s.len(),
{
    if s.len() > 0 {
        lemma_plain_bytes(s.drop_last());
        assert(s.last() == s[s.len() - 1]);
    }
}

/// So many bytes of plain text are so many of its characters.
proof fn lemma_plain_covering(s: Seq<char>, n: int)
    requires
        forall|i: int| 0 <= i < s.len() ==> ((#[trigger] s[i]) as u32) < 128,
        0 <= n <= s.len(),
    ensures
        crate::meeting::summary::chars_covering(s, n) == n,
    decreases s.len(),
{
    if n > 0 {
        let rest = s.subrange(1, s.len() as int);
        assert forall|i: int| 0 <= i < rest.len() implies ((#[trigger] rest[i]) as u32) < 128 by {
            assert(rest[i] == s[i + 1]);
        }
        lemma_plain_covering(rest, n - 1);
    }
}

/// A character outside plain text is never cut: each counts with all its bytes.
pub proof fn characters_have_one_to_four_bytes(c: char)
    ensures
        (c as u32) < 128 <==> crate::meeting::summary::utf8_width(c) == 1,
        128 <= c as u32 <= 2047 <==> crate::meeting::summary::utf8_width(c) == 2,
        2048 <= c as u32 <= 65_535 <==> crate::meeting::summary::utf8_width(c) == 3,
        c as u32 >= 65_536 <==> crate::meeting::summary::utf8_width(c) == 4,
{
}

} // verus!
