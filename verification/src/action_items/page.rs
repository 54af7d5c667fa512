//! The page of all action items.
use vstd::prelude::*;
use crate::action_items::grouping::{group_by_meeting, grouped, MeetingRef};
use crate::action_items::items::{count_items, find_item, first_with_id, matches_filter, next_status, no_item, open_count, passes, remove_items, set_status, set_text, status_set, text_set, toggled, without_id, ActionItem, Filter};
use crate::numbers::{decimal, push_decimal};
use crate::text::{is_blank, opt_text, opt_text_is, same_text, trim, trimmed};

verus! {

/// What stands where there is no database.
pub const NO_DATABASE: &'static str =
    "No database — complete onboarding in the Tauri app first.";

/// Whether an event makes the action items stale.
pub open spec fn refreshes_items(name: Seq<char>) -> bool {
    name == "action-items-extracted"@ || name == "live-action-items"@
}

/// Whether an event makes the action items stale.
pub fn is_refresh_event(name: &str) -> (r: bool)
    ensures
        r == refreshes_items(name@),
{
    same_text(name, "action-items-extracted") || same_text(name, "live-action-items")
}

/// The page.
pub struct ActionItemsView {
    pub items: Vec<ActionItem>,
    pub meetings: Vec<MeetingRef>,
    pub loading: bool,
    pub error: Option<String>,
    pub filter: Filter,
    /// The item whose text is being edited.
    pub editing_id: Option<String>,
    /// The meeting that an item is being added to.
    pub adding_to: Option<String>,
}

/// What the page holds below its header.
#[derive(Debug, Clone, PartialEq, Eq)]
pub enum Body {
    Loading,
    Failed(String),
    Empty,
    Groups,
}

/// The items that pass a filter, in order.
pub open spec fn filtered(items: Seq<ActionItem>, filter: Filter) -> Seq<ActionItem> {
    items.filter(|i: ActionItem| passes(i, filter))
}

/// An item with the same fields.
pub fn copy_item(item: &ActionItem) -> (r: ActionItem)
    ensures
        r == *item,
{
    ActionItem {
        id: item.id.clone(),
        meeting_id: item.meeting_id.clone(),
        text: item.text.clone(),
        assignee: copy_text(&item.assignee),
        due_hint: copy_text(&item.due_hint),
        status: item.status.clone(),
        source: item.source.clone(),
        external_ref: copy_text(&item.external_ref),
        source_start_ms: item.source_start_ms,
        source_end_ms: item.source_end_ms,
        source_quote: copy_text(&item.source_quote),
        created_at: item.created_at.clone(),
        updated_at: item.updated_at.clone(),
        completed_at: copy_text(&item.completed_at),
    }
}

fn copy_text(text: &Option<String>) -> (r: Option<String>)
    ensures
        r == *text,
{
    match text {
        Some(t) => Some(t.clone()),
        None => None,
    }
}

impl ActionItemsView {
    /// A page that is loading, on the open items.
    pub fn new() -> (r: Self)
        ensures
            r.items@.len() == 0,
            r.meetings@.len() == 0,
            r.loading,
            r.error is None,
            r.filter == Filter::Open,
            r.editing_id is None,
            r.adding_to is None,
    {
        ActionItemsView {
            items: Vec::new(),
            meetings: Vec::new(),
            loading: true,
            error: None,
            filter: Filter::Open,
            editing_id: None,
            adding_to: None,
        }
    }

    /// Whether what is being edited, added and filtered is the same.
    pub open spec fn same_editing(&self, other: &Self) -> bool {
        &&& self.filter == other.filter
        &&& self.editing_id == other.editing_id
        &&& self.adding_to == other.adding_to
    }

    /// Starts a refresh; whether there is anything to load.
    pub fn begin_refresh(&mut self, has_db: bool) -> (r: bool)
        ensures
            r == has_db,
            final(self).loading == has_db,
            opt_text(final(self).error) == if has_db {
                None
            } else {
                Some(NO_DATABASE@)
            },
            final(self).items == old(self).items,
            final(self).meetings == old(self).meetings,
            final(self).same_editing(old(self)),
    {
        if !has_db {
            self.error = Some(NO_DATABASE.to_owned());
            self.loading = false;
            return false;
        }
        self.loading = true;
        self.error = None;
        true
    }

    /// Takes over what was loaded. Items that could not be loaded are reported;
    /// meetings that could not be are left as they were.
    pub fn finish_refresh(
        &mut self,
        items: Result<Vec<ActionItem>, String>,
        meetings: Option<Vec<MeetingRef>>,
    )
        ensures
            !final(self).loading,
            match items {
                Ok(loaded) => final(self).items@ == loaded@ && final(self).error
                    == old(self).error,
                Err(e) => final(self).items == old(self).items && opt_text(final(self).error)
                    == Some("Failed to load action items: "@ + e@),
            },
            final(self).meetings@ == match meetings {
                Some(m) => m@,
                None => old(self).meetings@,
            },
            final(self).same_editing(old(self)),
    {
        self.loading = false;
        match items {
            Ok(loaded) => {
                self.items = loaded;
            },
            Err(e) => {
                let mut out = "Failed to load action items: ".to_owned();
                out.append(&e);
                self.error = Some(out);
            },
        }
        if let Some(m) = meetings {
            self.meetings = m;
        }
    }

    /// Ticks or clears an item's box at once; the status to store.
    pub fn toggle_status(&mut self, id: &str, currently_done: bool) -> (r: &'static str)
        ensures
            r@ == toggled(currently_done),
            status_set(old(self).items@, final(self).items@, id@, toggled(currently_done)),
            final(self).meetings == old(self).meetings,
            final(self).loading == old(self).loading,
            final(self).error == old(self).error,
            final(self).same_editing(old(self)),
    {
        let next = next_status(currently_done);
        set_status(&mut self.items, id, next);
        next
    }

    /// Starts editing an item that is there; its text.
    pub fn start_edit(&mut self, id: &str) -> (r: Option<String>)
        ensures
            match r {
                Some(text) => opt_text(final(self).editing_id) == Some(id@) && exists|i: int| #[trigger]
                    first_with_id(old(self).items@, id@, i) && text@ == old(self).items@[i].text@,
                None => no_item(old(self).items@, id@) && final(self).editing_id
                    == old(self).editing_id,
            },
            final(self).items == old(self).items,
            final(self).meetings == old(self).meetings,
            final(self).loading == old(self).loading,
            final(self).error == old(self).error,
            final(self).filter == old(self).filter,
            final(self).adding_to == old(self).adding_to,
    {
        match find_item(&self.items, id) {
            Some(i) => {
                self.editing_id = Some(id.to_owned());
                Some(self.items[i].text.clone())
            },
            None => None,
        }
    }

    /// Ends editing. What to store: the item and its trimmed text, unless
    /// nothing was being edited, the text is blank or there is no database.
    pub fn save_edit(&mut self, text: &str, has_db: bool) -> (r: Option<(String, String)>)
        ensures
            final(self).editing_id is None,
            match r {
                Some((id, new)) => opt_text(old(self).editing_id) == Some(id@) && has_db && trimmed(
                    text@,
                ).len() > 0 && new@ == trimmed(text@) && text_set(
                    old(self).items@,
                    final(self).items@,
                    id@,
                    trimmed(text@),
                ),
                None => (old(self).editing_id is None || !has_db || trimmed(text@).len() == 0)
                    && final(self).items == old(self).items,
            },
            final(self).meetings == old(self).meetings,
            final(self).loading == old(self).loading,
            final(self).error == old(self).error,
            final(self).filter == old(self).filter,
            final(self).adding_to == old(self).adding_to,
    {
        match self.editing_id.take() {
            Some(id) => {
                if !has_db || is_blank(text) {
                    return None;
                }
                let new = trim(text);
                set_text(&mut self.items, &id, &new);
                Some((id, new))
            },
            None => None,
        }
    }

    /// Ends editing without saving.
    pub fn cancel_edit(&mut self)
        ensures
            *final(self) == (ActionItemsView { editing_id: None, ..*old(self) }),
    {
        self.editing_id = None;
    }

    /// Starts adding an item to a meeting.
    pub fn start_add(&mut self, meeting_id: &str)
        ensures
            opt_text(final(self).adding_to) == Some(meeting_id@),
            *final(self) == (ActionItemsView { adding_to: final(self).adding_to, ..*old(self) }),
    {
        self.adding_to = Some(meeting_id.to_owned());
    }

    /// Ends adding without saving.
    pub fn cancel_add(&mut self)
        ensures
            *final(self) == (ActionItemsView { adding_to: None, ..*old(self) }),
    {
        self.adding_to = None;
    }

    /// Takes an item out at once.
    pub fn delete(&mut self, id: &str)
        ensures
            final(self).items@ == without_id(old(self).items@, id@),
            final(self).meetings == old(self).meetings,
            final(self).loading == old(self).loading,
            final(self).error == old(self).error,
            final(self).same_editing(old(self)),
    {
        let mut items: Vec<ActionItem> = Vec::new();
        std::mem::swap(&mut items, &mut self.items);
        self.items = remove_items(items, id);
    }

    /// Ends adding. What to store: the meeting and the text as typed, unless
    /// nothing was being added, the text is blank or there is no database.
    pub fn save_add(&mut self, text: &str, has_db: bool) -> (r: Option<(String, String)>)
        ensures
            final(self).adding_to is None,
            match r {
                Some((meeting, new)) => opt_text(old(self).adding_to) == Some(meeting@) && has_db
                    && trimmed(text@).len() > 0 && new@ == text@,
                None => old(self).adding_to is None || !has_db || trimmed(text@).len() == 0,
            },
            final(self).items == old(self).items,
            final(self).meetings == old(self).meetings,
            final(self).loading == old(self).loading,
            final(self).error == old(self).error,
            final(self).filter == old(self).filter,
            final(self).editing_id == old(self).editing_id,
    {
        match self.adding_to.take() {
            Some(meeting) => if !has_db || is_blank(text) {
                None
            } else {
                Some((meeting, text.to_owned()))
            },
            None => None,
        }
    }

    /// The counts in the header: "2 open · 3 done".
    pub fn header_counts(&self) -> (r: String)
        ensures
            r@ == decimal(open_count(self.items@)) + " open · "@ + decimal(
                (self.items@.len() - open_count(self.items@)) as nat,
            ) + " done"@,
    {
        let (open, done) = count_items(&self.items);
        let mut out = String::new();
        push_decimal(&mut out, open as u64);
        out.append(" open · ");
        push_decimal(&mut out, done as u64);
        out.append(" done");
        assert(out@ =~= decimal(open_count(self.items@)) + " open · "@ + decimal(
            (self.items@.len() - open_count(self.items@)) as nat,
        ) + " done"@);
        out
    }

    /// The items that are shown, in order.
    pub fn visible_items(&self) -> (r: Vec<ActionItem>)
        ensures
            r@ == filtered(self.items@, self.filter),
    {
        let filter = self.filter;
        let ghost keep = |i: ActionItem| passes(i, filter);
        let mut out: Vec<ActionItem> = Vec::new();
        reveal(Seq::filter);
        assert(out@ =~= self.items@.take(0).filter(keep));
        for i in 0..self.items.len()
            invariant
                filter == self.filter,
                keep == (|i: ActionItem| passes(i, filter)),
                out@ == self.items@.take(i as int).filter(keep),
        {
            let ghost next = self.items@.take(i + 1);
            assert(next.drop_last() =~= self.items@.take(i as int));
            assert(next.last() == self.items@[i as int]);
            reveal(Seq::filter);
            if matches_filter(&self.items[i], filter) {
                out.push(copy_item(&self.items[i]));
            }
        }
        assert(self.items@.take(self.items@.len() as int) =~= self.items@);
        out
    }

    /// What the page holds below its header.
    pub fn body(&self) -> (r: Body)
        ensures
            if self.loading {
                r is Loading
            } else {
                match self.error {
                    Some(e) => r matches Body::Failed(m) && m@ == e@,
                    None => if grouped(filtered(self.items@, self.filter), self.meetings@).len()
                        == 0 {
                        r is Empty
                    } else {
                        r is Groups
                    },
                }
            },
    {
        if self.loading {
            return Body::Loading;
        }
        if let Some(e) = &self.error {
            return Body::Failed(e.clone());
        }
        let visible = self.visible_items();
        let groups = group_by_meeting(&visible, &self.meetings);
        assert(crate::action_items::grouping::group_views(groups@).len() == groups@.len());
        if groups.len() == 0 {
            Body::Empty
        } else {
            Body::Groups
        }
    }

    /// Whether an item is shown with its text to be edited.
    pub fn is_editing(&self, id: &str) -> (r: bool)
        ensures
            r == (opt_text(self.editing_id) == Some(id@)),
    {
        opt_text_is(&self.editing_id, id)
    }

    /// Whether a meeting shows the row for adding an item; if not, whether its
    /// button for it can be used.
    pub fn add_row(&self, meeting_id: &str) -> (r: (bool, bool))
        ensures
            r.0 == (opt_text(self.adding_to) == Some(meeting_id@)),
            r.1 == (self.adding_to is None),
    {
        (opt_text_is(&self.adding_to, meeting_id), self.adding_to.is_none())
    }
}

} // verus!
