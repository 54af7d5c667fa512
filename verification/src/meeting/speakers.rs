//! The panel that names the speaker of a piece of the transcript.
use vstd::prelude::*;
use crate::meeting::calendar::CalendarEvent;
use crate::meeting::speaker_chip::{attendee_suggestions, can_save_speaker_edit, filter_attendee_suggestions, label_matches, offers, pointed_at, suggested, AttendeeSuggestion};
use crate::text::{filled, opt_text, same_text, trim, trimmed, trimmed_or_none};

verus! {

/// A voice that is known by name.
#[derive(Debug, Clone, PartialEq, Eq)]
pub struct VoiceProfile {
    pub id: String,
    pub name: String,
    pub email: Option<String>,
}

/// An open panel.
pub struct SpeakerEditState {
    /// Which label of which piece the panel belongs to.
    pub key: String,
    pub speaker: String,
    pub voice_profile_id: Option<String>,
    pub profiles: Vec<VoiceProfile>,
    pub profiles_loading: bool,
    /// The profile to fold an unnamed speaker into; none makes a new one.
    pub merge_target: Option<String>,
    pub saving: bool,
    pub error: Option<String>,
    pub attendees: Vec<AttendeeSuggestion>,
}

/// Which label of which piece a panel belongs to.
pub open spec fn chip_key(segment: Seq<char>, speaker: Seq<char>) -> Seq<char> {
    segment + ":"@ + speaker
}

/// Which label of which piece a panel belongs to.
pub fn key_of(segment_id: &str, speaker: &str) -> (r: String)
    ensures
        r@ == chip_key(segment_id@, speaker@),
{
    let mut out = segment_id.to_owned();
    out.append(":");
    out.append(speaker);
    out
}

/// What to store for an edit.
#[derive(Debug, Clone, PartialEq, Eq)]
pub enum SpeakerSave {
    /// Fold the speaker into a profile.
    Merge { speaker: String, profile_id: String },
    /// Rename a profile.
    Rename { profile_id: String, name: String, email: Option<String> },
    /// Make a profile of the speaker.
    Promote { speaker: String, name: String, email: Option<String> },
}

/// Whether `save` is what an edit stores: a merge where a target was chosen,
/// else a new name for the profile, else a new profile.
pub open spec fn saves(
    save: SpeakerSave,
    state: SpeakerEditState,
    name: Seq<char>,
    email: Seq<char>,
) -> bool {
    match (state.merge_target, state.voice_profile_id) {
        (Some(target), _) => save matches SpeakerSave::Merge { speaker, profile_id }
            && speaker@ == state.speaker@ && profile_id@ == target@,
        (None, Some(profile)) => save matches SpeakerSave::Rename { profile_id, name: n, email: e }
            && profile_id@ == profile@ && n@ == trimmed(name) && opt_text(e) == filled(email),
        (None, None) => save matches SpeakerSave::Promote { speaker, name: n, email: e }
            && speaker@ == state.speaker@ && n@ == trimmed(name) && opt_text(e) == filled(email),
    }
}

/// Whether an edit can be saved.
pub open spec fn savable(state: SpeakerEditState, name: Seq<char>) -> bool {
    state.merge_target is Some || trimmed(name).len() > 0
}

/// What picking a suggested attendee puts into the fields: the name, and the
/// mail address, empty where there is none.
pub fn picked_attendee(picked: &AttendeeSuggestion) -> (r: (String, String))
    ensures
        r.0@ == picked.label@,
        r.1@ == (match picked.email {
            Some(email) => email@,
            None => ""@,
        }),
{
    let email = match &picked.email {
        Some(email) => email.clone(),
        None => "".to_owned(),
    };
    (picked.label.clone(), email)
}

/// Where a profile stands among profiles, from one on; zero for none and for
/// one that is not there.
pub open spec fn target_place(profiles: Seq<VoiceProfile>, target: Option<Seq<char>>) -> int
    decreases profiles.len(),
{
    match target {
        None => 0,
        Some(id) => if profiles.len() == 0 {
            0
        } else {
            let front = target_place(profiles.drop_last(), target);
            if front > 0 {
                front
            } else if profiles.last().id@ == id {
                profiles.len() as int
            } else {
                0
            }
        },
    }
}

/// The target at a place: none at zero, then the profiles in order, round to
/// none.
pub open spec fn target_at(profiles: Seq<VoiceProfile>, place: int) -> Option<Seq<char>> {
    if 0 < place <= profiles.len() {
        Some(profiles[place - 1].id@)
    } else {
        None
    }
}

pub(crate) proof fn lemma_target_place(profiles: Seq<VoiceProfile>, target: Option<Seq<char>>)
    ensures
        0 <= target_place(profiles, target) <= profiles.len(),
    decreases profiles.len(),
{
    if target is Some && profiles.len() > 0 {
        lemma_target_place(profiles.drop_last(), target);
    }
}

fn find_target(profiles: &Vec<VoiceProfile>, target: &Option<String>) -> (r: usize)
    ensures
        r == target_place(profiles@, opt_text(*target)),
        r <= profiles@.len(),
{
    proof {
        lemma_target_place(profiles@, opt_text(*target));
    }
    match target {
        None => 0,
        Some(id) => {
            let mut found: usize = 0;
            for i in 0..profiles.len()
                invariant
                    opt_text(*target) == Some(id@),
                    found == target_place(profiles@.take(i as int), opt_text(*target)),
            {
                let ghost next = profiles@.take(i + 1);
                assert(next.drop_last() =~= profiles@.take(i as int));
                if found == 0 && same_text(&profiles[i].id, id) {
                    found = i + 1;
                }
            }
            assert(profiles@.take(profiles@.len() as int) =~= profiles@);
            found
        },
    }
}

/// The mail address to start with, for an edit of a profile that is among the
/// profiles.
pub open spec fn profile_email(
    profiles: Seq<VoiceProfile>,
    profile: Option<Seq<char>>,
) -> Option<Seq<char>> {
    let place = target_place(profiles, profile);
    if place > 0 {
        Some(
            match profiles[place - 1].email {
                Some(e) => e@,
                None => ""@,
            },
        )
    } else {
        None
    }
}

/// Whether `state` is a panel that was just opened.
pub open spec fn just_opened(
    state: SpeakerEditState,
    segment: Seq<char>,
    speaker: Seq<char>,
    profile: Option<Seq<char>>,
    event: Option<CalendarEvent>,
) -> bool {
    &&& state.key@ == chip_key(segment, speaker)
    &&& state.speaker@ == speaker
    &&& opt_text(state.voice_profile_id) == profile
    &&& state.profiles@.len() == 0
    &&& state.profiles_loading
    &&& state.merge_target is None
    &&& !state.saving
    &&& state.error is None
    &&& offers(state.attendees@) == match event {
        Some(e) => suggested(e.attendees@),
        None => seq![],
    }
}

/// Opens or closes the panel of a label: a second click on it closes it.
/// Whether it was opened.
pub fn toggle_speaker_edit(
    open: &mut Option<SpeakerEditState>,
    segment_id: &str,
    speaker: &str,
    voice_profile_id: Option<String>,
    event: &Option<CalendarEvent>,
) -> (r: bool)
    ensures
        r == !is_open_for(*old(open), chip_key(segment_id@, speaker@)),
        !r ==> *final(open) is None,
        r ==> (*final(open) matches Some(state) && just_opened(
            state,
            segment_id@,
            speaker@,
            opt_text(voice_profile_id),
            *event,
        )),
{
    let key = key_of(segment_id, speaker);
    let same = match open {
        Some(state) => same_text(&state.key, &key),
        None => false,
    };
    if same {
        *open = None;
        return false;
    }
    let attendees = match event {
        Some(e) => attendee_suggestions(&e.attendees),
        None => Vec::new(),
    };
    proof {
        if *event is None {
            assert(offers(attendees@) =~= seq![]);
        }
    }
    *open = Some(
        SpeakerEditState {
            key,
            speaker: speaker.to_owned(),
            voice_profile_id,
            profiles: Vec::new(),
            profiles_loading: true,
            merge_target: None,
            saving: false,
            error: None,
            attendees,
        },
    );
    true
}

/// Whether the open panel belongs to a label.
pub open spec fn is_open_for(open: Option<SpeakerEditState>, key: Seq<char>) -> bool {
    open matches Some(state) && state.key@ == key
}

/// Takes over the profiles for the panel that asked for them. What to fill the
/// mail address with, if anything.
pub fn finish_profiles(
    open: &mut Option<SpeakerEditState>,
    key: &str,
    profiles: Option<Vec<VoiceProfile>>,
) -> (r: Option<String>)
    ensures
        !is_open_for(*old(open), key@) ==> *final(open) == *old(open) && r is None,
        *old(open) matches Some(had) ==> (had.key@ == key@ ==> match profiles {
            Some(list) => *final(open) == Some(
                SpeakerEditState { profiles_loading: false, profiles: list, ..had },
            ) && opt_text(r) == profile_email(list@, opt_text(had.voice_profile_id)),
            None => *final(open) == Some(SpeakerEditState { profiles_loading: false, ..had })
                && r is None,
        }),
{
    match open.take() {
        Some(state) => {
            let mut state = state;
            let mut email = None;
            if same_text(&state.key, key) {
                state.profiles_loading = false;
                if let Some(list) = profiles {
                    let place: usize = find_target(&list, &state.voice_profile_id);
                    if place > 0 {
                        email = Some(
                            match &list[place - 1].email {
                                Some(e) => e.clone(),
                                None => "".to_owned(),
                            },
                        );
                    }
                    state.profiles = list;
                }
            }
            *open = Some(state);
            email
        },
        None => None,
    }
}

impl SpeakerEditState {
    /// Chooses the next target: a new speaker, then each profile, then a new
    /// speaker again. Nothing changes where there are no profiles.
    pub fn cycle_merge_target(&mut self)
        ensures
            opt_text(final(self).merge_target) == if old(self).profiles@.len() == 0 {
                opt_text(old(self).merge_target)
            } else {
                target_at(
                    old(self).profiles@,
                    target_place(old(self).profiles@, opt_text(old(self).merge_target)) + 1,
                )
            },
            *final(self) == (SpeakerEditState {
                merge_target: final(self).merge_target,
                ..*old(self)
            }),
    {
        let n: usize = self.profiles.len();
        if n == 0 {
            return;
        }
        let at: usize = find_target(&self.profiles, &self.merge_target);
        self.merge_target = if at < n {
            Some(self.profiles[at].id.clone())
        } else {
            None
        };
    }

    /// Starts saving, where there is a target or a name; what to store.
    pub fn begin_save(&mut self, name: &str, email: &str) -> (r: Option<SpeakerSave>)
        ensures
            r is Some == savable(*old(self), name@),
            r matches Some(save) ==> saves(save, *old(self), name@, email@),
            *final(self) == (if r is Some {
                SpeakerEditState { saving: true, error: None, ..*old(self) }
            } else {
                *old(self)
            }),
    {
        let name = trim(name);
        let email = trimmed_or_none(email);
        if self.merge_target.is_none() && name.as_str().is_empty() {
            return None;
        }
        let speaker = self.speaker.clone();
        let save = match &self.merge_target {
            Some(target) => SpeakerSave::Merge { speaker, profile_id: target.clone() },
            None => match &self.voice_profile_id {
                Some(profile) => SpeakerSave::Rename { profile_id: profile.clone(), name, email },
                None => SpeakerSave::Promote { speaker, name, email },
            },
        };
        self.saving = true;
        self.error = None;
        Some(save)
    }

    /// Whether the button that saves can be pressed.
    pub fn can_save(&self, name: &str) -> (r: bool)
        ensures
            r == (savable(*self, name@) && !self.saving),
    {
        let target = match &self.merge_target {
            Some(t) => Some(t.as_str()),
            None => None,
        };
        can_save_speaker_edit(target, name) && !self.saving
    }

    /// The label of the button that saves.
    pub fn save_label(&self) -> (r: &'static str)
        ensures
            r@ == if self.saving {
                "Saving…"@
            } else if self.merge_target is Some {
                "Merge"@
            } else {
                "Save"@
            },
    {
        if self.saving {
            "Saving…"
        } else if self.merge_target.is_some() {
            "Merge"
        } else {
            "Save"
        }
    }

    /// The label of the button that goes through the targets; none where the
    /// speaker has a profile or there are no profiles.
    pub fn target_label(&self) -> (r: Option<String>)
        ensures
            opt_text(r) == if self.voice_profile_id is Some || self.profiles@.len() == 0 {
                None
            } else {
                let place = target_place(self.profiles@, opt_text(self.merge_target));
                Some(
                    if place > 0 {
                        self.profiles@[place - 1].name@
                    } else {
                        "Create new speaker…"@
                    },
                )
            },
    {
        if self.voice_profile_id.is_some() || self.profiles.len() == 0 {
            return None;
        }
        let place: usize = find_target(&self.profiles, &self.merge_target);
        if place > 0 {
            Some(self.profiles[place - 1].name.clone())
        } else {
            Some("Create new speaker…".to_owned())
        }
    }

    /// The names that are offered for the speaker, with those marked that are
    /// typed already; none while a profile to fold into is chosen.
    pub fn chips(&self, typed: &str) -> (r: Vec<(String, bool)>)
        ensures
            self.merge_target is Some ==> r@.len() == 0,
            self.merge_target is None ==> {
                let shown = self.attendees@.filter(
                    |a: AttendeeSuggestion| label_matches(a, trimmed(typed@)),
                );
                r@.len() == shown.len() && forall|i: int|
                    0 <= i < r@.len() ==> (#[trigger] r@[i]).0@ == shown[i].label@ && r@[i].1 == (
                    shown[i].label@ == trimmed(typed@))
            },
    {
        let mut out: Vec<(String, bool)> = Vec::new();
        if self.merge_target.is_some() {
            return out;
        }
        let name = trim(typed);
        let shown = filter_attendee_suggestions(&self.attendees, &name);
        for i in 0..shown.len()
            invariant
                name@ == trimmed(typed@),
                out@.len() == i,
                forall|j: int|
                    0 <= j < i ==> (#[trigger] out@[j]).0@ == pointed_at(shown@)[j].label@
                        && out@[j].1 == (pointed_at(shown@)[j].label@ == trimmed(typed@)),
        {
            assert(pointed_at(shown@)[i as int] == *shown@[i as int]);
            out.push((shown[i].label.clone(), same_text(&shown[i].label, &name)));
        }
        assert(pointed_at(shown@).len() == shown@.len());
        out
    }

    /// What folding into the chosen profile will do; nothing where none is
    /// chosen.
    pub fn merge_note(&self) -> (r: Option<String>)
        ensures
            opt_text(r) == ({
                let place = target_place(self.profiles@, opt_text(self.merge_target));
                if place > 0 {
                    Some(merge_text(self.profiles@[place - 1]))
                } else {
                    None
                }
            }),
    {
        let place: usize = find_target(&self.profiles, &self.merge_target);
        if place == 0 {
            return None;
        }
        let p = &self.profiles[place - 1];
        let mut out = "This cluster's samples will be folded into ".to_owned();
        out.append(&p.name);
        let mut contact = "".to_owned();
        if let Some(e) = &p.email {
            contact = " (".to_owned();
            contact.append(e);
            contact.append(")");
        }
        out.append(&contact);
        out.append(", and every transcript from this meeting will be relabelled.");
        assert(out@ =~= merge_text(*p));
        Some(out)
    }
}

/// What folding into a profile will do.
pub open spec fn merge_text(p: VoiceProfile) -> Seq<char> {
    "This cluster's samples will be folded into "@ + p.name@ + (match p.email {
        Some(e) => " ("@ + e@ + ")"@,
        None => ""@,
    }) + ", and every transcript from this meeting will be relabelled."@
}

/// Takes over how saving ended. The panel closes where it was saved; an error is
/// shown in the panel that asked, if it is still open. Whether the transcript is
/// to be loaded again.
pub fn finish_save(
    open: &mut Option<SpeakerEditState>,
    key: &str,
    outcome: Result<(), String>,
) -> (r: bool)
    ensures
        r == outcome is Ok,
        match outcome {
            Ok(_) => *final(open) is None,
            Err(e) => {
                &&& !is_open_for(*old(open), key@) ==> *final(open) == *old(open)
                &&& *old(open) matches Some(had) ==> (had.key@ == key@ ==> *final(open) == Some(
                    SpeakerEditState { saving: false, error: Some(e), ..had },
                ))
            },
        },
{
    match outcome {
        Ok(_) => {
            *open = None;
            true
        },
        Err(e) => {
            match open.take() {
                Some(state) => {
                    let mut state = state;
                    if same_text(&state.key, key) {
                        state.saving = false;
                        state.error = Some(e);
                    }
                    *open = Some(state);
                },
                None => {},
            }
            false
        },
    }
}

/// Going through the targets comes round: behind the last profile comes a new
/// speaker, and from there the first profile.
pub proof fn targets_go_round(profiles: Seq<VoiceProfile>)
    requires
        profiles.len() > 0,
    ensures
        target_at(profiles, target_place(profiles, None) + 1) == Some(profiles[0].id@),
        target_at(profiles, profiles.len() as int + 1) is None,
{
}

} // verus!
