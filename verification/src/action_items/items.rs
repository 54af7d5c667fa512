//! Action items, and changes to a list of them.
use vstd::prelude::*;
use crate::text::{same_text};

verus! {

/// The status of an item that is done.
pub const STATUS_DONE: &'static str = "done";

/// The status of an item that is open.
pub const STATUS_OPEN: &'static str = "open";

/// Something to do that came out of a meeting.
#[derive(Debug, Clone, PartialEq, Eq)]
pub struct ActionItem {
    pub id: String,
    pub meeting_id: String,
    pub text: String,
    pub assignee: Option<String>,
    pub due_hint: Option<String>,
    pub status: String,
    pub source: String,
    pub external_ref: Option<String>,
    /// Where in the recording it was said, in milliseconds.
    pub source_start_ms: Option<i64>,
    pub source_end_ms: Option<i64>,
    pub source_quote: Option<String>,
    pub created_at: String,
    pub updated_at: String,
    pub completed_at: Option<String>,
}

impl ActionItem {
    /// Whether it is done.
    pub open spec fn done(self) -> bool {
        self.status@ == STATUS_DONE@
    }

    /// Whether it is done.
    pub fn is_done(&self) -> (r: bool)
        ensures
            r == self.done(),
    {
        same_text(&self.status, STATUS_DONE)
    }
}

/// Which items to show.
#[derive(Debug, Clone, Copy, PartialEq, Eq, Structural)]
pub enum Filter {
    Open,
    Done,
    All,
}

/// Whether an item is shown under a filter.
pub open spec fn passes(item: ActionItem, filter: Filter) -> bool {
    match filter {
        Filter::All => true,
        Filter::Open => !item.done(),
        Filter::Done => item.done(),
    }
}

/// Whether `item` is shown under `filter`.
pub fn matches_filter(item: &ActionItem, filter: Filter) -> (r: bool)
    ensures
        r == passes(*item, filter),
{
    match filter {
        Filter::All => true,
        Filter::Open => !item.is_done(),
        Filter::Done => item.is_done(),
    }
}

/// Every item is shown under exactly one of the filters for open and done
/// items.
pub proof fn open_and_done_split_all(item: ActionItem)
    ensures
        passes(item, Filter::All),
        passes(item, Filter::Open) != passes(item, Filter::Done),
{
}

/// How many items are not done.
pub open spec fn open_count(items: Seq<ActionItem>) -> nat
    decreases items.len(),
{
    if items.len() == 0 {
        0
    } else {
        open_count(items.drop_last()) + if items.last().done() {
            0nat
        } else {
            1nat
        }
    }
}

/// How many items are not done, and how many are.
pub fn count_items(items: &Vec<ActionItem>) -> (r: (usize, usize))
    ensures
        r.0 == open_count(items@),
        r.0 + r.1 == items@.len(),
{
    let mut open: usize = 0;
    for i in 0..items.len()
        invariant
            open <= i,
            open == open_count(items@.take(i as int)),
    {
        assert(items@.take(i + 1).drop_last() =~= items@.take(i as int));
        assert(items@.take(i + 1).last() == items@[i as int]);
        if !items[i].is_done() {
            open += 1;
        }
    }
    assert(items@.take(items@.len() as int) =~= items@);
    (open, items.len() - open)
}

/// Whether the item at `i` is the first with an id.
pub open spec fn first_with_id(items: Seq<ActionItem>, id: Seq<char>, i: int) -> bool {
    0 <= i < items.len() && items[i].id@ == id && forall|j: int|
        0 <= j < i ==> (#[trigger] items[j]).id@ != id
}

/// Whether no item has an id.
pub open spec fn no_item(items: Seq<ActionItem>, id: Seq<char>) -> bool {
    forall|j: int| 0 <= j < items.len() ==> (#[trigger] items[j]).id@ != id
}

/// The first item with an id.
pub fn find_item(items: &Vec<ActionItem>, id: &str) -> (r: Option<usize>)
    ensures
        match r {
            Some(i) => first_with_id(items@, id@, i as int),
            None => no_item(items@, id@),
        },
{
    for i in 0..items.len()
        invariant
            forall|j: int| 0 <= j < i ==> (#[trigger] items@[j]).id@ != id@,
    {
        if same_text(&items[i].id, id) {
            return Some(i);
        }
    }
    None
}

/// What a box that is ticked or cleared makes of an item's status.
pub open spec fn toggled(currently_done: bool) -> Seq<char> {
    if currently_done {
        STATUS_OPEN@
    } else {
        STATUS_DONE@
    }
}

/// What a box that is ticked or cleared makes of an item's status.
pub fn next_status(currently_done: bool) -> (r: &'static str)
    ensures
        r@ == toggled(currently_done),
{
    if currently_done {
        STATUS_OPEN
    } else {
        STATUS_DONE
    }
}

/// Whether `after` is `before` with another status for the first item with an
/// id, if there is one.
pub open spec fn status_set(
    before: Seq<ActionItem>,
    after: Seq<ActionItem>,
    id: Seq<char>,
    status: Seq<char>,
) -> bool {
    &&& no_item(before, id) ==> after == before
    &&& forall|i: int| #[trigger]
        first_with_id(before, id, i) ==> after.len() == before.len() && after[i].status@ == status
            && after == before.update(i, ActionItem { status: after[i].status, ..before[i] })
}

/// Gives the first item with an id another status.
pub fn set_status(items: &mut Vec<ActionItem>, id: &str, status: &str)
    ensures
        status_set(old(items)@, final(items)@, id@, status@),
{
    match find_item(items, id) {
        Some(i) => {
            let mut item = items.remove(i);
            item.status = status.to_owned();
            items.insert(i, item);
            proof {
                let before = old(items)@;
                assert forall|k: int| #[trigger] first_with_id(before, id@, k) implies k == i by {
                    if k < i {
                        assert(before[k].id@ != id@);
                    } else if i < k {
                        assert(before[i as int].id@ != id@);
                    }
                }
                assert(items@ =~= before.update(
                    i as int,
                    ActionItem { status: items@[i as int].status, ..before[i as int] },
                ));
            }
        },
        None => {},
    }
}

/// Whether `after` is `before` with another text for the first item with an
/// id, if there is one.
pub open spec fn text_set(
    before: Seq<ActionItem>,
    after: Seq<ActionItem>,
    id: Seq<char>,
    text: Seq<char>,
) -> bool {
    &&& no_item(before, id) ==> after == before
    &&& forall|i: int| #[trigger]
        first_with_id(before, id, i) ==> after.len() == before.len() && after[i].text@ == text
            && after == before.update(i, ActionItem { text: after[i].text, ..before[i] })
}

/// Gives the first item with an id another text.
pub fn set_text(items: &mut Vec<ActionItem>, id: &str, text: &str)
    ensures
        text_set(old(items)@, final(items)@, id@, text@),
{
    match find_item(items, id) {
        Some(i) => {
            let mut item = items.remove(i);
            item.text = text.to_owned();
            items.insert(i, item);
            proof {
                let before = old(items)@;
                assert forall|k: int| #[trigger] first_with_id(before, id@, k) implies k == i by {
                    if k < i {
                        assert(before[k].id@ != id@);
                    } else if i < k {
                        assert(before[i as int].id@ != id@);
                    }
                }
                assert(items@ =~= before.update(
                    i as int,
                    ActionItem { text: items@[i as int].text, ..before[i as int] },
                ));
            }
        },
        None => {},
    }
}

/// The items without those that have an id.
pub open spec fn without_id(items: Seq<ActionItem>, id: Seq<char>) -> Seq<ActionItem> {
    items.filter(|i: ActionItem| i.id@ != id)
}

/// Takes the items with an id out.
pub fn remove_items(items: Vec<ActionItem>, id: &str) -> (r: Vec<ActionItem>)
    ensures
        r@ == without_id(items@, id@),
{
    let ghost keep = |i: ActionItem| i.id@ != id@;
    let ghost all = items@;
    let mut rest = items;
    let mut kept: Vec<ActionItem> = Vec::new();
    // Items come off the end, so what is kept is gathered back to front.
    assert(all.subrange(all.len() as int, all.len() as int).filter(keep) =~= Seq::empty()) by {
        reveal(Seq::filter);
    }
    while rest.len() > 0
        invariant
            keep == (|i: ActionItem| i.id@ != id@),
            rest@.len() <= all.len(),
            rest@ == all.take(rest@.len() as int),
            kept@ == all.subrange(rest@.len() as int, all.len() as int).filter(keep),
        decreases rest@.len(),
    {
        let ghost n = rest@.len();
        let item = rest.pop().unwrap();
        proof {
            let tail = all.subrange(n as int, all.len() as int);
            let here = all.subrange(n - 1, all.len() as int);
            assert(item == all[n - 1]);
            assert(here =~= seq![item] + tail);
            Seq::filter_distributes_over_add(seq![item], tail, keep);
            reveal_with_fuel(Seq::filter, 2);
            assert(seq![item].drop_last() =~= Seq::<ActionItem>::empty());
            assert(seq![item].filter(keep) =~= if keep(item) {
                seq![item]
            } else {
                Seq::empty()
            });
        }
        if !same_text(&item.id, id) {
            let ghost had = kept@;
            kept.insert(0, item);
            assert(kept@ =~= seq![item] + had);
        } else {
            assert(Seq::<ActionItem>::empty() + kept@ =~= kept@);
        }
    }
    assert(all.subrange(0, all.len() as int) =~= all);
    kept
}

} // verus!
