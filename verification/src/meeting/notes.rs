//! A meeting's notes.
use vstd::prelude::*;
use crate::meeting::format::format_note_time;
use crate::clock::{local_to, moment_named, stamp_text, Stamp, NOTE_PATTERN};
use crate::sorting::{orders, sort_stably, stably_sorted, text_leq, text_leq_chains, text_leq_is_total, text_not_after};
use crate::text::{is_blank, opt_text, same_text, trim, trimmed};

verus! {

/// A note.
#[derive(Debug, Clone, PartialEq, Eq)]
pub struct MeetingNote {
    pub id: String,
    pub body: String,
    /// Who wrote it: "manual" or "agent".
    pub source: String,
    pub created_at: String,
}

/// The part of the meeting page with the notes, oldest first.
pub struct NotesPanel {
    pub notes: Vec<MeetingNote>,
    pub composing: bool,
    pub saving: bool,
}

/// Whether one note was written no later than another.
pub open spec fn note_leq() -> spec_fn(MeetingNote, MeetingNote) -> bool {
    |a: MeetingNote, b: MeetingNote| text_leq(a.created_at@, b.created_at@)
}

/// Notes can be put in order.
pub proof fn notes_can_be_sorted()
    ensures
        orders(note_leq()),
{
    let leq = note_leq();
    assert forall|a: MeetingNote, b: MeetingNote| #[trigger] leq(a, b) || #[trigger] leq(b, a) by {
        text_leq_is_total(a.created_at@, b.created_at@);
    }
    assert forall|a: MeetingNote, b: MeetingNote, c: MeetingNote|
        #![trigger leq(a, b), leq(b, c)]
        leq(a, b) && leq(b, c) implies leq(a, c) by {
        text_leq_chains(a.created_at@, b.created_at@, c.created_at@);
    }
}

/// Whether `i` is the place of the first note with an id.
pub open spec fn first_note(notes: Seq<MeetingNote>, id: Seq<char>, i: int) -> bool {
    0 <= i < notes.len() && notes[i].id@ == id && forall|j: int|
        0 <= j < i ==> (#[trigger] notes[j]).id@ != id
}

impl NotesPanel {
    /// The panel before any meeting was shown.
    pub fn new() -> (r: Self)
        ensures
            r.notes@.len() == 0,
            !r.composing,
            !r.saving,
    {
        NotesPanel { notes: Vec::new(), composing: false, saving: false }
    }

    /// Starts over for another meeting.
    pub fn reset(&mut self)
        ensures
            final(self).notes@.len() == 0,
            !final(self).composing,
            !final(self).saving,
    {
        self.notes = Vec::new();
        self.composing = false;
        self.saving = false;
    }

    /// The panel with the notes taken over.
    pub open spec fn with_notes(self, notes: Option<Vec<MeetingNote>>) -> Self {
        NotesPanel {
            notes: match notes {
                Some(n) => n,
                None => self.notes,
            },
            ..self
        }
    }

    /// Takes over the notes; where they could not be loaded nothing changes.
    pub fn finish_load(&mut self, notes: Option<Vec<MeetingNote>>)
        ensures
            *final(self) == old(self).with_notes(notes),
    {
        if let Some(n) = notes {
            self.notes = n;
        }
    }

    /// Opens or closes the field for a new note.
    pub fn set_composing(&mut self, composing: bool)
        ensures
            *final(self) == (NotesPanel { composing, ..*old(self) }),
    {
        self.composing = composing;
    }

    /// Starts saving a note, unless it is blank or one is being saved; what to
    /// store.
    pub fn begin_save(&mut self, draft: &str) -> (r: Option<String>)
        ensures
            opt_text(r) == if trimmed(draft@).len() == 0 || old(self).saving {
                None
            } else {
                Some(trimmed(draft@))
            },
            *final(self) == (NotesPanel { saving: old(self).saving || r is Some, ..*old(self) }),
    {
        if is_blank(draft) || self.saving {
            return None;
        }
        self.saving = true;
        Some(trim(draft))
    }

    /// Takes over how saving ended, for the meeting that is shown or one that
    /// was left meanwhile. What to tell, if anything.
    pub fn finish_save(&mut self, current: bool, result: Result<MeetingNote, String>) -> (r: Option<
        String,
    >)
        ensures
            !final(self).saving,
            match result {
                Ok(note) => r is None && if current {
                    final(self).notes@ == old(self).notes@.push(note) && !final(self).composing
                } else {
                    final(self).notes == old(self).notes && final(self).composing
                        == old(self).composing
                },
                Err(e) => final(self).notes == old(self).notes && final(self).composing
                    == old(self).composing && opt_text(r) == if current {
                    Some("Failed to add note: "@ + e@)
                } else {
                    None
                },
            },
    {
        self.saving = false;
        if !current {
            return None;
        }
        match result {
            Ok(note) => {
                self.notes.push(note);
                self.composing = false;
                None
            },
            Err(e) => {
                let mut out = "Failed to add note: ".to_owned();
                out.append(&e);
                Some(out)
            },
        }
    }

    /// Takes a note out at once, where it is there.
    pub fn begin_delete(&mut self, id: &str) -> (r: Option<MeetingNote>)
        ensures
            match r {
                Some(note) => exists|i: int| #[trigger]
                    first_note(old(self).notes@, id@, i) && note == old(self).notes@[i] && final(
                        self).notes@ == old(self).notes@.remove(i),
                None => (forall|j: int|
                    0 <= j < old(self).notes@.len() ==> (#[trigger] old(self).notes@[j]).id@
                        != id@) && final(self).notes == old(self).notes,
            },
            final(self).composing == old(self).composing,
            final(self).saving == old(self).saving,
    {
        let n: usize = self.notes.len();
        for i in 0..n
            invariant
                *self == *old(self),
                n == self.notes@.len(),
                forall|j: int| 0 <= j < i ==> (#[trigger] self.notes@[j]).id@ != id@,
        {
            if same_text(&self.notes[i].id, id) {
                assert(first_note(self.notes@, id@, i as int));
                let note = self.notes.remove(i);
                return Some(note);
            }
        }
        None
    }

    /// Takes over how deleting ended: where it failed, the note is put back in
    /// its place by time.
    pub fn finish_delete(&mut self, deleted: bool, removed: Option<MeetingNote>)
        ensures
            final(self).notes@ == match removed {
                Some(note) => if deleted {
                    old(self).notes@
                } else {
                    stably_sorted(old(self).notes@.push(note), note_leq())
                },
                None => old(self).notes@,
            },
            final(self).composing == old(self).composing,
            final(self).saving == old(self).saving,
    {
        if deleted {
            return;
        }
        if let Some(note) = removed {
            let mut all: Vec<MeetingNote> = Vec::new();
            std::mem::swap(&mut all, &mut self.notes);
            all.push(note);
            let compare = |a: &MeetingNote, b: &MeetingNote| -> (o: bool)
                ensures
                    o == text_leq(a.created_at@, b.created_at@),
                { text_not_after(&a.created_at, &b.created_at) };
            proof {
                notes_can_be_sorted();
            }
            self.notes = sort_stably(all, compare, Ghost(note_leq()));
        }
    }
}

/// What stands below a note, after its time.
pub open spec fn note_suffix(source: Seq<char>) -> Seq<char> {
    if source == "agent"@ {
        " · added by an agent"@
    } else {
        ""@
    }
}

/// What stands below a note: when it was written, and by whom.
pub fn note_footer(note: &MeetingNote) -> (r: String)
    ensures
        match moment_named(note.created_at@) {
            Some(m) => exists|local: Stamp| #[trigger]
                local_to(local, m) && r@ == stamp_text(local, NOTE_PATTERN@) + note_suffix(
                    note.source@,
                ),
            None => r@ == note_suffix(note.source@),
        },
{
    let mut out = format_note_time(&note.created_at);
    let ghost time = out@;
    let suffix = if same_text(&note.source, "agent") {
        " · added by an agent"
    } else {
        ""
    };
    out.append(suffix);
    proof {
        reveal_strlit("");
        if moment_named(note.created_at@) is None {
            assert(out@ =~= note_suffix(note.source@));
        }
    }
    out
}

/// A note that could not be deleted is back where it was, where the notes were
/// in order and no other was written at the same time.
pub proof fn failed_deletion_puts_back(notes: Seq<MeetingNote>, i: int)
    requires
        0 <= i < notes.len(),
        crate::sorting::in_order(notes, note_leq()),
        forall|j: int|
            0 <= j < notes.len() && j != i ==> (#[trigger] notes[j]).created_at@
                != notes[i].created_at@,
    ensures
        stably_sorted(notes.remove(i).push(notes[i]), note_leq()) == notes,
{
    let leq = note_leq();
    let rest = notes.remove(i);
    notes_can_be_sorted();
    assert(crate::sorting::in_order(rest, leq)) by {
        assert forall|a: int, b: int| 0 <= a < b < rest.len() implies leq(
            #[trigger] rest[a],
            #[trigger] rest[b],
        ) by {
            let x = if a < i { a } else { a + 1 };
            let y = if b < i { b } else { b + 1 };
            assert(rest[a] == notes[x] && rest[b] == notes[y]);
        }
    }
    crate::sorting::sorted_stays(rest, leq);
    let pushed = rest.push(notes[i]);
    assert(pushed.drop_last() =~= rest);
    assert forall|k: int| 0 <= k < i implies leq(#[trigger] rest[k], notes[i]) by {
        assert(rest[k] == notes[k]);
    }
    if i < rest.len() {
        assert(rest[i] == notes[i + 1]);
        assert(leq(notes[i], notes[i + 1]));
        text_leq_both_ways(notes[i].created_at@, notes[i + 1].created_at@);
    }
    crate::sorting::lemma_place_is(rest, notes[i], leq, i);
    assert(rest.insert(i, notes[i]) =~= notes);
}

proof fn text_leq_both_ways(a: Seq<char>, b: Seq<char>)
    ensures
        text_leq(a, b) && text_leq(b, a) ==> a == b,
    decreases a.len(),
{
    if a.len() > 0 && b.len() > 0 && a[0] == b[0] {
        text_leq_both_ways(a.subrange(1, a.len() as int), b.subrange(1, b.len() as int));
        if text_leq(a, b) && text_leq(b, a) {
            assert(a =~= seq![a[0]] + a.subrange(1, a.len() as int));
            assert(b =~= seq![b[0]] + b.subrange(1, b.len() as int));
        }
    } else {
        if text_leq(a, b) && text_leq(b, a) {
            assert(a =~= b);
        }
    }
}

} // verus!
