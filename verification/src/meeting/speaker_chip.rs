//! Naming the speakers of a transcript.
use vstd::prelude::*;
use crate::numbers::{all_digits, char_is_digit, is_digit};
use crate::text::{chars_of, contains_text, is_blank, is_space, lemma_trim_start_splits, opt_text, same_text, texts, trim, trim_start_of, trim_start_set, trimmed, char_is_space, CharSet};
use crate::words::{contains, has_infix, lowercase, stands_at, strip_prefix, to_lowercase};

verus! {

/// Whether a text is one or more white-space characters.
pub open spec fn all_spaces(s: Seq<char>) -> bool {
    s.len() > 0 && forall|i: int| 0 <= i < s.len() ==> is_space(#[trigger] s[i])
}

/// Whether a text is "Speaker", white space and a number.
pub open spec fn is_cluster_label(s: Seq<char>) -> bool {
    exists|spaces: Seq<char>, digits: Seq<char>| #[trigger]
        all_spaces(spaces) && #[trigger] all_digits(digits) && s == "Speaker"@ + spaces + digits
}

/// Whether a label is that of a speaker without a name: "Speaker 3", with
/// white space around it or not.
pub fn is_unnamed_speaker_label(label: &str) -> (r: bool)
    ensures
        r == is_cluster_label(trimmed(label@)),
{
    let whole = trim(label);
    let rest = match strip_prefix(&whole, "Speaker") {
        Some(rest) => rest,
        None => {
            proof {
                if is_cluster_label(whole@) {
                    let (spaces, digits) = choose|spaces: Seq<char>, digits: Seq<char>| #[trigger]
                        all_spaces(spaces) && #[trigger] all_digits(digits) && whole@ == "Speaker"@
                            + spaces + digits;
                    assert(whole@.subrange(0, "Speaker"@.len() as int) =~= "Speaker"@);
                }
            }
            return false;
        },
    };
    let ghost name = "Speaker"@;
    assert(whole@ =~= name + rest@);
    proof {
        if is_cluster_label(whole@) {
            let (spaces, digits) = choose|spaces: Seq<char>, digits: Seq<char>| #[trigger]
                all_spaces(spaces) && #[trigger] all_digits(digits) && whole@ == name + spaces
                    + digits;
            lemma_cluster(rest@, spaces, digits, name);
        }
    }
    let cs = chars_of(&rest);
    if cs.len() == 0 || !char_is_space(cs[0]) {
        return false;
    }
    let digits = trim_start_set(&rest, CharSet::Space);
    let ds = chars_of(&digits);
    if ds.len() == 0 {
        return false;
    }
    for i in 0..ds.len()
        invariant
            ds@ == digits@,
            whole@ == trimmed(label@),
            forall|j: int| 0 <= j < i ==> is_digit(#[trigger] ds@[j]),
            all_digits(digits@) || !is_cluster_label(whole@),
    {
        if !char_is_digit(ds[i]) {
            return false;
        }
    }
    proof {
        let n = lemma_trim_start_splits(rest@, CharSet::Space);
        let spaces = rest@.subrange(0, n);
        assert(rest@[0] == cs@[0]);
        if n == 0 {
            assert(false);
        }
        assert forall|i: int| 0 <= i < spaces.len() implies is_space(#[trigger] spaces[i]) by {
            assert(spaces[i] == rest@[i]);
            assert(CharSet::Space.has(rest@[i]));
        }
        assert(all_spaces(spaces));
        assert(all_digits(digits@));
        assert(whole@ =~= name + spaces + digits@);
    }
    true
}

proof fn lemma_cluster(rest: Seq<char>, spaces: Seq<char>, digits: Seq<char>, name: Seq<char>)
    requires
        all_spaces(spaces),
        all_digits(digits),
        name + rest == name + spaces + digits,
    ensures
        rest.len() > 0,
        is_space(rest[0]),
        trim_start_of(rest, CharSet::Space) == digits,
{
    assert(rest =~= (name + rest).subrange(name.len() as int, (name + rest).len() as int));
    assert(rest =~= spaces + digits);
    let n = lemma_trim_start_splits(rest, CharSet::Space);
    assert(rest[0] == spaces[0]);
    if n > spaces.len() {
        assert(CharSet::Space.has(rest[spaces.len() as int]));
        assert(rest[spaces.len() as int] == digits[0]);
        assert(is_digit(digits[0]));
    }
    if n < spaces.len() {
        assert(rest[n] == spaces[n]);
    }
    assert(rest.subrange(n, rest.len() as int) =~= digits);
}

/// The label of the one who records.
pub const ME_LABEL: &'static str = "Me";

/// Whether a speaker's label can be edited: one with a profile, or one without
/// a name; never the label of the one who records.
pub open spec fn editable_speaker(speaker: Seq<char>, has_profile: bool) -> bool {
    speaker != ME_LABEL@ && (has_profile || is_cluster_label(trimmed(speaker)))
}

/// Whether a speaker's label can be edited.
pub fn can_edit_speaker(speaker: &str, voice_profile_id: Option<&str>) -> (r: bool)
    ensures
        r == editable_speaker(speaker@, voice_profile_id is Some),
{
    if same_text(speaker, ME_LABEL) {
        return false;
    }
    voice_profile_id.is_some() || is_unnamed_speaker_label(speaker)
}

/// Whether an edit can be saved: a profile to merge into, or a name.
pub fn can_save_speaker_edit(merge_target: Option<&str>, name: &str) -> (r: bool)
    ensures
        r == (merge_target is Some || trimmed(name@).len() > 0),
{
    merge_target.is_some() || !is_blank(name)
}

/// The heading of the edit panel.
pub fn edit_panel_title(is_named_profile: bool) -> (r: &'static str)
    ensures
        r@ == if is_named_profile {
            "Edit speaker"@
        } else {
            "Name this speaker"@
        },
{
    if is_named_profile {
        "Edit speaker"
    } else {
        "Name this speaker"
    }
}

/// One who was invited to a calendar event.
#[derive(Debug, Clone, PartialEq, Eq)]
pub struct Attendee {
    pub name: Option<String>,
    pub email: Option<String>,
    pub role: Option<String>,
    pub status: Option<String>,
    pub is_organizer: bool,
}

/// A name that is offered for a speaker.
#[derive(Debug, Clone, PartialEq, Eq)]
pub struct AttendeeSuggestion {
    pub label: String,
    pub email: Option<String>,
}

impl View for AttendeeSuggestion {
    type V = (Seq<char>, Option<Seq<char>>);

    open spec fn view(&self) -> (Seq<char>, Option<Seq<char>>) {
        (self.label@, opt_text(self.email))
    }
}

/// The views of suggestions, in order.
pub open spec fn offers(s: Seq<AttendeeSuggestion>) -> Seq<(Seq<char>, Option<Seq<char>>)> {
    s.map_values(|a: AttendeeSuggestion| a@)
}

/// How an attendee is called: by name where there is one that is not blank,
/// else by mail address; nothing where there is neither.
pub open spec fn attendee_label(a: Attendee) -> Seq<char> {
    match a.name {
        Some(name) if trimmed(name@).len() > 0 => trimmed(trimmed(name@)),
        _ => match a.email {
            Some(email) => trimmed(email@),
            None => trimmed(""@),
        },
    }
}

/// The labels that were offered, in lower case.
pub open spec fn lower_labels(s: Seq<(Seq<char>, Option<Seq<char>>)>) -> Seq<Seq<char>> {
    s.map_values(|a: (Seq<char>, Option<Seq<char>>)| lowercase(a.0))
}

/// The names to offer, in the attendees' order: one for each that has a label,
/// unless it was offered before in the same or another case.
pub open spec fn suggested(attendees: Seq<Attendee>) -> Seq<(Seq<char>, Option<Seq<char>>)>
    decreases attendees.len(),
{
    if attendees.len() == 0 {
        seq![]
    } else {
        let front = suggested(attendees.drop_last());
        let label = attendee_label(attendees.last());
        if label.len() == 0 || lower_labels(front).contains(lowercase(label)) {
            front
        } else {
            front.push((label, opt_text(attendees.last().email)))
        }
    }
}

fn label_of(a: &Attendee) -> (r: String)
    ensures
        r@ == attendee_label(*a),
{
    if let Some(name) = &a.name {
        let t = trim(name);
        if !t.as_str().is_empty() {
            return trim(&t);
        }
    }
    match &a.email {
        Some(email) => trim(email),
        None => trim(""),
    }
}

/// The names to offer for a speaker.
pub fn attendee_suggestions(attendees: &Vec<Attendee>) -> (r: Vec<AttendeeSuggestion>)
    ensures
        offers(r@) == suggested(attendees@),
{
    let mut seen: Vec<String> = Vec::new();
    let mut out: Vec<AttendeeSuggestion> = Vec::new();
    assert(offers(out@) =~= suggested(attendees@.take(0)));
    assert(texts(seen@) =~= lower_labels(offers(out@)));
    for i in 0..attendees.len()
        invariant
            offers(out@) == suggested(attendees@.take(i as int)),
            texts(seen@) == lower_labels(offers(out@)),
    {
        let a = &attendees[i];
        let ghost next = attendees@.take(i + 1);
        assert(next.drop_last() =~= attendees@.take(i as int));
        let label = label_of(a);
        let lower = to_lowercase(&label);
        if !label.as_str().is_empty() && !contains_text(&seen, &lower) {
            let email = match &a.email {
                Some(e) => Some(e.clone()),
                None => None,
            };
            let ghost had = out@;
            let ghost had_seen = seen@;
            seen.push(lower);
            out.push(AttendeeSuggestion { label, email });
            proof {
                assert(offers(out@) =~= offers(had).push((label@, opt_text(a.email))));
                assert(texts(seen@) =~= texts(had_seen).push(lower@));
                assert(lower_labels(offers(out@)) =~= lower_labels(offers(had)).push(lower@));
            }
        }
    }
    assert(attendees@.take(attendees@.len() as int) =~= attendees@);
    out
}

/// No name is offered twice, in whatever case, and none is empty.
pub proof fn suggestions_are_distinct(attendees: Seq<Attendee>)
    ensures
        lower_labels(suggested(attendees)).no_duplicates(),
        forall|i: int|
            0 <= i < suggested(attendees).len() ==> (#[trigger] suggested(attendees)[i]).0.len()
                > 0,
    decreases attendees.len(),
{
    if attendees.len() > 0 {
        suggestions_are_distinct(attendees.drop_last());
        let front = suggested(attendees.drop_last());
        let all = suggested(attendees);
        if all != front {
            let x = all.last();
            assert(lower_labels(all) =~= lower_labels(front).push(lowercase(x.0)));
            let low = lower_labels(all);
            assert forall|i: int, j: int|
                0 <= i < low.len() && 0 <= j < low.len() && i != j implies low[i] != low[j] by {
                if i == front.len() {
                    assert(lower_labels(front).contains(low[j]));
                } else if j == front.len() {
                    assert(lower_labels(front).contains(low[i]));
                }
            }
        }
    }
}

/// Everyone who has a name or a mail address is offered, in whatever case.
pub proof fn every_attendee_is_offered(attendees: Seq<Attendee>, k: int)
    requires
        0 <= k < attendees.len(),
        attendee_label(attendees[k]).len() > 0,
    ensures
        lower_labels(suggested(attendees)).contains(lowercase(attendee_label(attendees[k]))),
    decreases attendees.len(),
{
    let front = suggested(attendees.drop_last());
    let all = suggested(attendees);
    let wanted = lowercase(attendee_label(attendees[k]));
    if k < attendees.len() - 1 {
        every_attendee_is_offered(attendees.drop_last(), k);
        if all != front {
            assert(lower_labels(all) =~= lower_labels(front).push(lowercase(all.last().0)));
            let at = choose|i: int|
                0 <= i < lower_labels(front).len() && lower_labels(front)[i] == wanted;
            assert(lower_labels(all)[at] == wanted);
        }
    } else if all != front {
        assert(lower_labels(all) =~= lower_labels(front).push(wanted));
        assert(lower_labels(all).last() == wanted);
    }
}

/// The items that references point at, in order.
pub open spec fn pointed_at<'a>(s: Seq<&'a AttendeeSuggestion>) -> Seq<AttendeeSuggestion> {
    s.map_values(|a: &'a AttendeeSuggestion| *a)
}

/// Whether a suggestion's label holds what was typed, in whatever case.
pub open spec fn label_matches(a: AttendeeSuggestion, query: Seq<char>) -> bool {
    has_infix(lowercase(a.label@), lowercase(trimmed(query)))
}

/// The suggestions whose label holds what was typed, in whatever case and
/// without white space around it; all of them where nothing was typed.
pub fn filter_attendee_suggestions<'a>(
    suggestions: &'a Vec<AttendeeSuggestion>,
    query: &str,
) -> (r: Vec<&'a AttendeeSuggestion>)
    ensures
        pointed_at(r@) == suggestions@.filter(|a: AttendeeSuggestion| label_matches(a, query@)),
        trimmed(query@).len() == 0 ==> pointed_at(r@) == suggestions@,
{
    let q = to_lowercase(&trim(query));
    assert(trimmed(query@).len() == 0 ==> q@.len() == 0);
    let ghost keep = |a: AttendeeSuggestion| label_matches(a, query@);
    let mut out: Vec<&'a AttendeeSuggestion> = Vec::new();
    reveal(Seq::filter);
    assert(pointed_at(out@) =~= suggestions@.take(0).filter(keep));
    for i in 0..suggestions.len()
        invariant
            q@ == lowercase(trimmed(query@)),
            trimmed(query@).len() == 0 ==> q@.len() == 0,
            keep == (|a: AttendeeSuggestion| label_matches(a, query@)),
            pointed_at(out@) == suggestions@.take(i as int).filter(keep),
    {
        let ghost next = suggestions@.take(i + 1);
        let ghost had = out@;
        reveal(Seq::filter);
        assert(next.drop_last() =~= suggestions@.take(i as int));
        if contains(&to_lowercase(&suggestions[i].label), &q) {
            out.push(&suggestions[i]);
            assert(pointed_at(out@) =~= pointed_at(had).push(suggestions@[i as int]));
        }
    }
    assert(suggestions@.take(suggestions@.len() as int) =~= suggestions@);
    proof {
        if trimmed(query@).len() == 0 {
            lemma_nothing_typed(suggestions@, query@);
        }
    }
    out
}

proof fn lemma_nothing_typed(all: Seq<AttendeeSuggestion>, query: Seq<char>)
    requires
        lowercase(trimmed(query)).len() == 0,
    ensures
        all.filter(|a: AttendeeSuggestion| label_matches(a, query)) == all,
    decreases all.len(),
{
    reveal(Seq::filter);
    if all.len() > 0 {
        lemma_nothing_typed(all.drop_last(), query);
        let hay = lowercase(all.last().label@);
        let needle = lowercase(trimmed(query));
        assert(hay.subrange(0, 0) =~= needle);
        assert(stands_at(hay, needle, 0));
        assert(all =~= all.drop_last().push(all.last()));
    }
}

} // verus!
