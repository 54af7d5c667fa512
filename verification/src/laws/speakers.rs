//! Speakers are named, merged and suggested.
use vstd::prelude::*;
use crate::laws::cleaning::holds;
use crate::laws::sidebar::{lemma_filter_same, lemma_infix_holds};
use crate::meeting::calendar::CalendarEvent;
use crate::meeting::speaker_chip::{attendee_label, attendee_suggestions, can_edit_speaker, can_save_speaker_edit, edit_panel_title, filter_attendee_suggestions, is_unnamed_speaker_label, label_matches, lower_labels, offers, pointed_at, suggested, Attendee, AttendeeSuggestion};
use crate::meeting::speakers::{finish_profiles, finish_save, key_of, lemma_target_place, picked_attendee, target_place, toggle_speaker_edit, SpeakerEditState, SpeakerSave, VoiceProfile};
use crate::numbers::is_digit;
use crate::text::{is_blank, is_space, opt_text, trim, trimmed, trimmed_or_none};
use crate::words::lowercase;

verus! {

/// A label without a name is "Speaker", white space and a number, and nothing else.
pub proof fn unnamed_speakers_are_numbered(
    label: &str,
    core: String,
    r: bool,
    spaces: Seq<char>,
    digits: Seq<char>,
)
    requires
        call_ensures(is_unnamed_speaker_label, (label,), r),
        call_ensures(trim, (label,), core),
    ensures
        core@ == "Speaker"@ + spaces + digits && spaces.len() > 0 && digits.len() > 0 && (forall|i: int|
            0 <= i < spaces.len() ==> is_space(#[trigger] spaces[i])) && (forall|i: int|
            0 <= i < digits.len() ==> '0' <= #[trigger] digits[i] <= '9') ==> r,
        r ==> exists|s: Seq<char>, d: Seq<char>|
            core@ == #[trigger] ("Speaker"@ + s + d) && s.len() > 0 && d.len() > 0 && (forall|i: int|
                0 <= i < s.len() ==> is_space(#[trigger] s[i])) && (forall|i: int|
                0 <= i < d.len() ==> '0' <= #[trigger] d[i] <= '9'),
{
    if core@ == "Speaker"@ + spaces + digits && spaces.len() > 0 && digits.len() > 0 && (forall|i: int|
        0 <= i < spaces.len() ==> is_space(#[trigger] spaces[i])) && (forall|i: int|
        0 <= i < digits.len() ==> '0' <= #[trigger] digits[i] <= '9') {
        assert(crate::meeting::speaker_chip::all_spaces(spaces));
        assert(crate::numbers::all_digits(digits));
    }
    if r {
        let (s, d) = choose|s: Seq<char>, d: Seq<char>| #[trigger]
            crate::meeting::speaker_chip::all_spaces(s) && #[trigger] crate::numbers::all_digits(d)
                && trimmed(label@) == "Speaker"@ + s + d;
        assert(core@ == "Speaker"@ + s + d);
        assert forall|i: int| 0 <= i < d.len() implies '0' <= #[trigger] d[i] <= '9' by {
            assert(is_digit(d[i]));
        }
    }
}

/// The label of the one who records is never edited; that of any other is where
/// the speaker has a profile or no name.
pub proof fn labels_are_edited_where_that_helps(
    speaker: &str,
    profile: Option<&str>,
    unnamed: bool,
    r: bool,
)
    requires
        call_ensures(can_edit_speaker, (speaker, profile), r),
        call_ensures(is_unnamed_speaker_label, (speaker,), unnamed),
    ensures
        speaker@ == "Me"@ ==> !r,
        speaker@ != "Me"@ ==> r == (profile is Some || unnamed),
{
}

/// An edit can be saved where there is a profile to fold into or a name.
pub proof fn edits_need_a_name_or_a_target(target: Option<&str>, name: &str, blank: bool, r: bool)
    requires
        call_ensures(can_save_speaker_edit, (target, name), r),
        call_ensures(is_blank, (name,), blank),
    ensures
        r <==> target is Some || !blank,
{
}

/// An attendee is called by their name, without white space around it; where that
/// is blank, by their mail address.
pub proof fn attendees_are_called_by_name(a: Attendee, i: int, attendees: &Vec<Attendee>, r: Vec<AttendeeSuggestion>)
    requires
        call_ensures(attendee_suggestions, (attendees,), r),
        attendees@ == seq![a],
    ensures
        a.name matches Some(n) ==> (trimmed(n@).len() > 0 ==> r@.len() == 1 && r@[0].label@ == trimmed(
            n@,
        ) && opt_text(r@[0].email) == opt_text(a.email)),
        a.name is None ==> (a.email matches Some(e) ==> (trimmed(e@).len() > 0 ==> r@.len() == 1
            && r@[0].label@ == trimmed(e@) && opt_text(r@[0].email) == Some(e@))),
        a.name matches Some(n) ==> (trimmed(n@).len() == 0 ==> (a.email matches Some(e) ==> (trimmed(
            e@,
        ).len() > 0 ==> r@.len() == 1 && r@[0].label@ == trimmed(e@)))),
        a.name is None && a.email is None ==> r@.len() == 0,
{
    if let Some(n) = a.name {
        crate::text::trim_is_idempotent(n@, crate::text::CharSet::Space);
    }
    reveal_strlit("");
    assert(""@.len() == 0);
    let front = attendees@.drop_last();
    assert(front =~= Seq::<Attendee>::empty());
    let before = suggested(front);
    assert(before =~= seq![]);
    assert(lower_labels(before) =~= seq![]);
    assert(trimmed(""@).len() == 0);
    assert(offers(r@).len() == r@.len());
    if r@.len() > 0 {
        assert(offers(r@)[0] == r@[0]@);
    }
}

/// One more attendee is offered behind the others, unless they have no label or
/// one that was offered in some case.
pub proof fn attendees_are_offered_once(
    front: &Vec<Attendee>,
    last: Attendee,
    all: &Vec<Attendee>,
    alone: &Vec<Attendee>,
    of_front: Vec<AttendeeSuggestion>,
    of_all: Vec<AttendeeSuggestion>,
    of_alone: Vec<AttendeeSuggestion>,
)
    requires
        all@ == front@.push(last),
        alone@ == seq![last],
        call_ensures(attendee_suggestions, (front,), of_front),
        call_ensures(attendee_suggestions, (all,), of_all),
        call_ensures(attendee_suggestions, (alone,), of_alone),
    ensures
        of_alone@.len() == 0 ==> offers(of_all@) == offers(of_front@),
        of_alone@.len() == 1 && (exists|i: int|
            0 <= i < of_front@.len() && lowercase((#[trigger] of_front@[i]).label@) == lowercase(
                of_alone@[0].label@,
            )) ==> offers(of_all@) == offers(of_front@),
        of_alone@.len() == 1 && (forall|i: int|
            0 <= i < of_front@.len() ==> lowercase((#[trigger] of_front@[i]).label@) != lowercase(
                of_alone@[0].label@,
            )) ==> offers(of_all@) == offers(of_front@) + offers(of_alone@),
        of_alone@.len() <= 1,
{
    assert(all@.drop_last() =~= front@);
    assert(alone@.drop_last() =~= Seq::<Attendee>::empty());
    let none = suggested(alone@.drop_last());
    assert(none =~= seq![]);
    assert(lower_labels(none) =~= seq![]);
    assert(offers(of_alone@).len() == of_alone@.len());
    assert(offers(of_front@).len() == of_front@.len());
    let label = attendee_label(last);
    let lows = lower_labels(suggested(front@));
    assert(lows.len() == of_front@.len());
    assert forall|i: int| 0 <= i < of_front@.len() implies lows[i] == lowercase(
        (#[trigger] of_front@[i]).label@,
    ) by {
        assert(offers(of_front@)[i] == of_front@[i]@);
    }
    if of_alone@.len() == 1 {
        assert(offers(of_alone@)[0] == of_alone@[0]@);
        assert(of_alone@[0].label@ == label);
        if exists|i: int|
            0 <= i < of_front@.len() && lowercase((#[trigger] of_front@[i]).label@) == lowercase(
                label,
            ) {
            let i = choose|i: int|
                0 <= i < of_front@.len() && lowercase((#[trigger] of_front@[i]).label@)
                    == lowercase(label);
            assert(lows[i] == lowercase(label));
            assert(lows.contains(lowercase(label)));
        }
        if lows.contains(lowercase(label)) {
            let i = choose|i: int| 0 <= i < lows.len() && lows[i] == lowercase(label);
            assert(lowercase(of_front@[i].label@) == lowercase(label));
        } else {
            assert(offers(of_all@) =~= offers(of_front@) + offers(of_alone@));
        }
    }
}

/// The suggestions are shown, in their order, whose label holds what was typed, in
/// any case and without white space around it.
pub proof fn suggestions_are_found_by_what_was_typed<'a>(
    all: &'a Vec<AttendeeSuggestion>,
    query: &str,
    r: Vec<&'a AttendeeSuggestion>,
)
    requires
        call_ensures(filter_attendee_suggestions, (all, query), r),
    ensures
        trimmed(query@).len() == 0 ==> pointed_at(r@) == all@,
        pointed_at(r@) == all@.filter(
            |a: AttendeeSuggestion| holds(lowercase(a.label@), lowercase(trimmed(query@))),
        ),
{
    let p = |a: AttendeeSuggestion| label_matches(a, query@);
    let q = |a: AttendeeSuggestion| holds(lowercase(a.label@), lowercase(trimmed(query@)));
    assert forall|i: int| 0 <= i < all@.len() implies p(#[trigger] all@[i]) == q(all@[i]) by {
        lemma_infix_holds(lowercase(all@[i].label@), lowercase(trimmed(query@)));
    }
    lemma_filter_same(all@, p, q);
}

/// A click on the label of the open panel closes it, and one on any other label
/// opens the panel of that label, empty and waiting for the profiles.
pub proof fn panels_open_and_close(
    open: &mut Option<SpeakerEditState>,
    segment: &str,
    speaker: &str,
    profile: Option<String>,
    event: &Option<CalendarEvent>,
    key: String,
    r: bool,
)
    requires
        call_ensures(toggle_speaker_edit, (open, segment, speaker, profile, event), r),
        call_ensures(key_of, (segment, speaker), key),
    ensures
        key@ == segment@ + ":"@ + speaker@,
        *old(open) is None ==> r,
        *old(open) matches Some(had) ==> r == (had.key@ != key@),
        !r ==> *final(open) is None,
        r ==> (*final(open) matches Some(s) && s.key@ == key@ && s.speaker@ == speaker@
            && s.profiles_loading && s.merge_target is None && !s.saving && s.error is None && opt_text(
            s.voice_profile_id,
        ) == opt_text(profile)),
        r && *event is None ==> (*final(open) matches Some(s) && s.attendees@.len() == 0),
{
    if r {
        if let Some(s) = *final(open) {
            assert(offers(s.attendees@).len() == s.attendees@.len());
        }
    }
}

/// The panel offers the attendees of the linked event.
pub proof fn panels_offer_the_attendees(
    open: &mut Option<SpeakerEditState>,
    segment: &str,
    speaker: &str,
    profile: Option<String>,
    event: &Option<CalendarEvent>,
    e: CalendarEvent,
    suggestions: Vec<AttendeeSuggestion>,
)
    requires
        call_ensures(toggle_speaker_edit, (open, segment, speaker, profile, event), true),
        *event == Some(e),
        call_ensures(attendee_suggestions, (&e.attendees,), suggestions),
    ensures
        *final(open) matches Some(s) && offers(s.attendees@) == offers(suggestions@),
{
}

proof fn lemma_place(profiles: Seq<VoiceProfile>, id: Seq<char>, at: int)
    requires
        0 <= at < profiles.len(),
        profiles[at].id@ == id,
        forall|j: int| 0 <= j < at ==> (#[trigger] profiles[j]).id@ != id,
    ensures
        target_place(profiles, Some(id)) == at + 1,
    decreases profiles.len(),
{
    let front = profiles.drop_last();
    if at < profiles.len() - 1 {
        assert forall|j: int| 0 <= j < at implies (#[trigger] front[j]).id@ != id by {
            assert(profiles[j].id@ != id);
        }
        lemma_place(front, id, at);
    } else {
        lemma_absent(front, id);
    }
}

proof fn lemma_absent(profiles: Seq<VoiceProfile>, id: Seq<char>)
    requires
        forall|j: int| 0 <= j < profiles.len() ==> (#[trigger] profiles[j]).id@ != id,
    ensures
        target_place(profiles, Some(id)) == 0,
    decreases profiles.len(),
{
    if profiles.len() > 0 {
        let front = profiles.drop_last();
        assert forall|j: int| 0 <= j < front.len() implies (#[trigger] front[j]).id@ != id by {
            assert(profiles[j].id@ != id);
        }
        lemma_absent(front, id);
        assert(profiles[profiles.len() - 1].id@ != id);
    }
}

/// The profiles go to the panel that asked for them, and the mail address of its
/// speaker is filled in; a panel of another label stays as it is.
pub proof fn profiles_go_to_the_panel_that_asked(
    open: &mut Option<SpeakerEditState>,
    key: &str,
    list: Vec<VoiceProfile>,
    had: SpeakerEditState,
    at: int,
    r: Option<String>,
)
    requires
        call_ensures(finish_profiles, (open, key, Some(list)), r),
        *old(open) == Some(had),
    ensures
        had.key@ != key@ ==> *final(open) == *old(open) && r is None,
        had.key@ == key@ ==> (*final(open) matches Some(s) && s.profiles == list && !s.profiles_loading
            && s.speaker == had.speaker && s.merge_target == had.merge_target),
        had.key@ == key@ && had.voice_profile_id is None ==> r is None,
        had.key@ == key@ && 0 <= at < list@.len() && (had.voice_profile_id matches Some(p) && p@
            == list@[at].id@) && (forall|j: int|
            0 <= j < at ==> (#[trigger] list@[j]).id@ != list@[at].id@) ==> (r matches Some(mail)
            && mail@ == (match list@[at].email {
            Some(e) => e@,
            None => ""@,
        })),
{
    if 0 <= at < list@.len() && (forall|j: int|
        0 <= j < at ==> (#[trigger] list@[j]).id@ != list@[at].id@) {
        lemma_place(list@, list@[at].id@, at);
    }
}

/// The targets follow each other: from a new speaker to the first profile, from a
/// profile to the next, and from the last to a new speaker.
pub proof fn targets_follow_each_other(state: &mut SpeakerEditState, at: int)
    requires
        call_ensures(SpeakerEditState::cycle_merge_target, (state,), ()),
        old(state).profiles@.len() > 0,
    ensures
        old(state).merge_target is None ==> (final(state).merge_target matches Some(t) && t@ == old(
            state).profiles@[0].id@),
        0 <= at < old(state).profiles@.len() && (old(state).merge_target matches Some(m) && m@ == old(
            state).profiles@[at].id@) && (forall|j: int|
            0 <= j < at ==> (#[trigger] old(state).profiles@[j]).id@ != old(state).profiles@[at].id@)
            ==> (if at + 1 < old(state).profiles@.len() {
            final(state).merge_target matches Some(t) && t@ == old(state).profiles@[at + 1].id@
        } else {
            final(state).merge_target is None
        }),
        final(state).profiles == old(state).profiles,
{
    lemma_target_place(old(state).profiles@, opt_text(old(state).merge_target));
    if 0 <= at < old(state).profiles@.len() && (forall|j: int|
        0 <= j < at ==> (#[trigger] old(state).profiles@[j]).id@ != old(state).profiles@[at].id@) {
        lemma_place(old(state).profiles@, old(state).profiles@[at].id@, at);
    }
}

/// An edit folds the speaker into the chosen profile, else renames the speaker's
/// profile, else makes one, with the typed name and mail address without white
/// space around them.
pub proof fn edits_store_what_was_typed(
    state: &mut SpeakerEditState,
    name: &str,
    email: &str,
    core: String,
    mail: Option<String>,
    blank: bool,
    r: Option<SpeakerSave>,
)
    requires
        call_ensures(SpeakerEditState::begin_save, (state, name, email), r),
        call_ensures(trim, (name,), core),
        call_ensures(trimmed_or_none, (email,), mail),
        call_ensures(is_blank, (name,), blank),
    ensures
        r is Some <==> old(state).merge_target is Some || !blank,
        r is Some ==> final(state).saving && final(state).error is None,
        r is None ==> *final(state) == *old(state),
        r matches Some(save) ==> match old(state).merge_target {
            Some(target) => save matches SpeakerSave::Merge { speaker, profile_id } && speaker@ == old(
                state).speaker@ && profile_id@ == target@,
            None => match old(state).voice_profile_id {
                Some(profile) => save matches SpeakerSave::Rename { profile_id, name: n, email: e }
                    && profile_id@ == profile@ && n@ == core@ && opt_text(e) == opt_text(mail),
                None => save matches SpeakerSave::Promote { speaker, name: n, email: e } && speaker@
                    == old(state).speaker@ && n@ == core@ && opt_text(e) == opt_text(mail),
            },
        },
{
}

/// The button that saves says what it will do, and can be pressed once.
pub proof fn save_buttons_say_what_they_do(
    state: &SpeakerEditState,
    name: &str,
    blank: bool,
    can: bool,
    label: &'static str,
)
    requires
        call_ensures(SpeakerEditState::can_save, (state, name), can),
        call_ensures(SpeakerEditState::save_label, (state,), label),
        call_ensures(is_blank, (name,), blank),
    ensures
        can <==> !state.saving && (state.merge_target is Some || !blank),
        state.saving ==> label@ == "Saving…"@,
        !state.saving && state.merge_target is Some ==> label@ == "Merge"@,
        !state.saving && state.merge_target is None ==> label@ == "Save"@,
{
}

/// An edit that was saved closes the panel and has the transcript loaded again;
/// one that failed says why in the panel that asked for it.
pub proof fn saved_edits_close_the_panel(
    open: &mut Option<SpeakerEditState>,
    key: &str,
    outcome: Result<(), String>,
    r: bool,
)
    requires
        call_ensures(finish_save, (open, key, outcome), r),
    ensures
        outcome is Ok ==> r && *final(open) is None,
        outcome matches Err(why) ==> !r && (*old(open) matches Some(had) ==> (if had.key@ == key@ {
            *final(open) matches Some(s) && !s.saving && (s.error matches Some(e) && e@ == why@)
        } else {
            *final(open) == *old(open)
        })),
{
}

/// Folding into a profile is said to do so, with the profile's name and mail
/// address.
pub proof fn merges_are_announced(
    state: &SpeakerEditState,
    at: int,
    note: Option<String>,
    label: Option<String>,
)
    requires
        call_ensures(SpeakerEditState::merge_note, (state,), note),
        call_ensures(SpeakerEditState::target_label, (state,), label),
        0 <= at < state.profiles@.len(),
        state.merge_target matches Some(m) && m@ == state.profiles@[at].id@,
        forall|j: int| 0 <= j < at ==> (#[trigger] state.profiles@[j]).id@ != state.profiles@[at].id@,
    ensures
        note matches Some(n) && n@ == "This cluster's samples will be folded into "@
            + state.profiles@[at].name@ + (match state.profiles@[at].email {
            Some(e) => " ("@ + e@ + ")"@,
            None => ""@,
        }) + ", and every transcript from this meeting will be relabelled."@,
        state.voice_profile_id is None ==> (label matches Some(l) && l@ == state.profiles@[at].name@),
        state.voice_profile_id is Some ==> label is None,
{
    lemma_place(state.profiles@, state.profiles@[at].id@, at);
}

/// A picked attendee fills in their name and their mail address.
pub proof fn picked_attendees_fill_in_both_fields(picked: &AttendeeSuggestion, r: (String, String))
    requires
        call_ensures(picked_attendee, (picked,), r),
    ensures
        r.0@ == picked.label@,
        picked.email matches Some(e) ==> r.1@ == e@,
        picked.email is None ==> r.1@.len() == 0,
{
    reveal_strlit("");
}

/// Names are offered while no profile to fold into is chosen, those that hold what
/// was typed, and the one that was typed in full is marked.
pub proof fn chips_offer_names<'a>(
    state: &SpeakerEditState,
    typed: &str,
    core: String,
    core_text: &str,
    found: Vec<&'a AttendeeSuggestion>,
    r: Vec<(String, bool)>,
    i: int,
)
    requires
        call_ensures(SpeakerEditState::chips, (state, typed), r),
        call_ensures(trim, (typed,), core),
        core_text@ == core@,
        call_ensures(filter_attendee_suggestions, (&state.attendees, core_text), found),
    ensures
        state.merge_target is Some ==> r@.len() == 0,
        state.merge_target is None ==> r@.len() == found@.len(),
        state.merge_target is None && 0 <= i < r@.len() ==> r@[i].0@ == found@[i].label@ && r@[i].1 == (
        found@[i].label@ == core@),
{
    let shown = state.attendees@.filter(
        |a: AttendeeSuggestion| label_matches(a, trimmed(typed@)),
    );
    lemma_filter_same(
        state.attendees@,
        |a: AttendeeSuggestion| label_matches(a, trimmed(typed@)),
        |a: AttendeeSuggestion| label_matches(a, core_text@),
    );
    assert(pointed_at(found@) == shown);
    assert(pointed_at(found@).len() == found@.len());
    if state.merge_target is None && 0 <= i < r@.len() {
        assert(pointed_at(found@)[i] == *found@[i]);
    }
}

/// The panel is headed by what it does.
pub proof fn panels_are_headed_by_what_they_do(named: bool, r: &'static str)
    requires
        call_ensures(edit_panel_title, (named,), r),
    ensures
        named ==> r@ == "Edit speaker"@,
        !named ==> r@ == "Name this speaker"@,
{
}

} // verus!
