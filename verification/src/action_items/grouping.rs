//! Action items by meeting.
use vstd::prelude::*;
use crate::action_items::items::ActionItem;
use crate::sorting::{lemma_sort_map, orders, sort_stably, sorting_orders, stably_sorted, text_leq, text_leq_chains, text_leq_is_total, text_not_after};
use crate::text::{contains_text, same_text, texts};

verus! {

/// A meeting, as far as groups need to know it.
#[derive(Debug, Clone, PartialEq, Eq)]
pub struct MeetingRef {
    pub id: String,
    pub title: String,
}

/// The items of one meeting, in the order in which they are shown.
#[derive(Debug, Clone)]
pub struct Group<'a> {
    pub meeting_id: String,
    pub title: String,
    pub items: Vec<&'a ActionItem>,
}

/// The title of a group whose meeting is not known.
pub const UNKNOWN_MEETING_TITLE: &'static str = "Untitled meeting";

/// Whether one item stands at or before another: open ones first, then by when
/// they were created.
pub open spec fn item_leq(a: ActionItem, b: ActionItem) -> bool {
    if a.done() != b.done() {
        !a.done()
    } else {
        text_leq(a.created_at@, b.created_at@)
    }
}

/// The order of items.
pub open spec fn item_order() -> spec_fn(ActionItem, ActionItem) -> bool {
    |a: ActionItem, b: ActionItem| item_leq(a, b)
}

/// Any two items compare, and comparisons chain.
pub proof fn items_can_be_sorted()
    ensures
        orders(item_order()),
{
    let leq = item_order();
    assert forall|a: ActionItem, b: ActionItem| #[trigger] leq(a, b) || #[trigger] leq(b, a) by {
        text_leq_is_total(a.created_at@, b.created_at@);
    }
    assert forall|a: ActionItem, b: ActionItem, c: ActionItem|
        #![trigger leq(a, b), leq(b, c)]
        leq(a, b) && leq(b, c) implies leq(a, c) by {
        if a.done() == b.done() && b.done() == c.done() {
            text_leq_chains(a.created_at@, b.created_at@, c.created_at@);
        }
    }
}

/// The items of a list of references.
pub open spec fn items_of(refs: Seq<&ActionItem>) -> Seq<ActionItem> {
    refs.map_values(|i: &ActionItem| *i)
}

/// The items of a meeting, as they came.
pub open spec fn meeting_items(items: Seq<ActionItem>, id: Seq<char>) -> Seq<ActionItem> {
    items.filter(|i: ActionItem| i.meeting_id@ == id)
}

/// The items of a meeting, in the order in which they are shown.
pub open spec fn shown_items(items: Seq<ActionItem>, id: Seq<char>) -> Seq<ActionItem> {
    stably_sorted(meeting_items(items, id), item_order())
}

/// The ids of some meetings.
pub open spec fn ref_ids(meetings: Seq<MeetingRef>) -> Seq<Seq<char>> {
    meetings.map_values(|m: MeetingRef| m.id@)
}

/// A group: its meeting's id and title, and its items.
pub type GroupView = (Seq<char>, Seq<char>, Seq<ActionItem>);

/// The groups of known meetings, in the order of the meetings. A meeting that
/// is listed again gets no second group.
pub open spec fn known_groups(items: Seq<ActionItem>, meetings: Seq<MeetingRef>) -> Seq<GroupView>
    decreases meetings.len(),
{
    if meetings.len() == 0 {
        Seq::empty()
    } else {
        let before = known_groups(items, meetings.drop_last());
        let m = meetings.last();
        if ref_ids(meetings.drop_last()).contains(m.id@) || meeting_items(items, m.id@).len()
            == 0 {
            before
        } else {
            before.push((m.id@, m.title@, shown_items(items, m.id@)))
        }
    }
}

/// The meetings of items that are not known, each once, as they came.
pub open spec fn orphans(items: Seq<ActionItem>, known: Seq<Seq<char>>) -> Seq<Seq<char>>
    decreases items.len(),
{
    if items.len() == 0 {
        Seq::empty()
    } else {
        let before = orphans(items.drop_last(), known);
        let id = items.last().meeting_id@;
        if known.contains(id) || before.contains(id) {
            before
        } else {
            before.push(id)
        }
    }
}

/// The order of texts.
pub open spec fn text_order() -> spec_fn(Seq<char>, Seq<char>) -> bool {
    |a: Seq<char>, b: Seq<char>| text_leq(a, b)
}

/// The groups of meetings that are not known, by their ids.
pub open spec fn orphan_groups(items: Seq<ActionItem>, ids: Seq<Seq<char>>) -> Seq<GroupView> {
    ids.map_values(|id: Seq<char>| (id, UNKNOWN_MEETING_TITLE@, shown_items(items, id)))
}

/// The items by meeting: known meetings in their order, then the others in the
/// order of their ids.
pub open spec fn grouped(items: Seq<ActionItem>, meetings: Seq<MeetingRef>) -> Seq<GroupView> {
    known_groups(items, meetings) + orphan_groups(
        items,
        stably_sorted(orphans(items, ref_ids(meetings)), text_order()),
    )
}

/// Groups of references.
pub open spec fn group_views(groups: Seq<Group>) -> Seq<GroupView> {
    groups.map_values(|g: Group| (g.meeting_id@, g.title@, items_of(g.items@)))
}

fn collect_items<'a>(items: &'a Vec<ActionItem>, id: &str) -> (r: Vec<&'a ActionItem>)
    ensures
        items_of(r@) == meeting_items(items@, id@),
        r@.len() == meeting_items(items@, id@).len(),
{
    let ghost keep = |i: ActionItem| i.meeting_id@ == id@;
    let mut out: Vec<&'a ActionItem> = Vec::new();
    reveal(Seq::filter);
    assert(items_of(out@) =~= items@.take(0).filter(keep));
    for i in 0..items.len()
        invariant
            keep == (|i: ActionItem| i.meeting_id@ == id@),
            items_of(out@) == items@.take(i as int).filter(keep),
    {
        let ghost next = items@.take(i + 1);
        assert(next.drop_last() =~= items@.take(i as int));
        assert(next.last() == items@[i as int]);
        reveal(Seq::filter);
        if same_text(&items[i].meeting_id, id) {
            let ghost had = out@;
            out.push(&items[i]);
            assert(items_of(out@) =~= items_of(had).push(items@[i as int]));
        }
    }
    assert(items@.take(items@.len() as int) =~= items@);
    assert(items_of(out@).len() == out@.len());
    out
}

fn sort_items<'a>(items: Vec<&'a ActionItem>) -> (r: Vec<&'a ActionItem>)
    ensures
        items_of(r@) == stably_sorted(items_of(items@), item_order()),
{
    let ghost by_ref = |a: &'a ActionItem, b: &'a ActionItem| item_leq(*a, *b);
    let ghost deref = |i: &'a ActionItem| *i;
    proof {
        items_can_be_sorted();
        let leq = item_order();
        assert forall|a: &ActionItem, b: &ActionItem| #[trigger]
            by_ref(a, b) || #[trigger] by_ref(b, a) by {
            assert(leq(*a, *b) || leq(*b, *a));
        }
        assert forall|a: &ActionItem, b: &ActionItem, c: &ActionItem|
            #![trigger by_ref(a, b), by_ref(b, c)]
            by_ref(a, b) && by_ref(b, c) implies by_ref(a, c) by {
            assert(leq(*a, *b) && leq(*b, *c));
            assert(leq(*a, *c));
        }
        lemma_sort_map(items@, deref, by_ref, leq);
        assert(items_of(items@) =~= items@.map_values(deref));
    }
    let compare = |a: &&'a ActionItem, b: &&'a ActionItem| -> (o: bool)
        ensures
            o == item_leq(**a, **b),
        {
            let a_done = a.is_done();
            let b_done = b.is_done();
            if a_done != b_done {
                !a_done
            } else {
                text_not_after(&a.created_at, &b.created_at)
            }
        };
    let r = sort_stably(items, compare, Ghost(by_ref));
    assert(items_of(r@) =~= r@.map_values(deref));
    r
}

fn sort_ids(ids: Vec<String>) -> (r: Vec<String>)
    ensures
        texts(r@) == stably_sorted(texts(ids@), text_order()),
{
    let ghost by_text = |a: String, b: String| text_leq(a@, b@);
    let ghost view = |s: String| s@;
    proof {
        assert forall|a: String, b: String| #[trigger] by_text(a, b) || #[trigger] by_text(b, a) by {
            text_leq_is_total(a@, b@);
        }
        assert forall|a: String, b: String, c: String|
            #![trigger by_text(a, b), by_text(b, c)]
            by_text(a, b) && by_text(b, c) implies by_text(a, c) by {
            text_leq_chains(a@, b@, c@);
        }
        lemma_sort_map(ids@, view, by_text, text_order());
        assert(texts(ids@) =~= ids@.map_values(view));
    }
    let compare = |a: &String, b: &String| -> (o: bool)
        ensures
            o == text_leq(a@, b@),
        { text_not_after(a, b) };
    let r = sort_stably(ids, compare, Ghost(by_text));
    assert(texts(r@) =~= r@.map_values(view));
    r
}

/// Groups `items` by meeting: known meetings in the order of `meetings`, then
/// the others in the order of their ids. In a group open items come first, then
/// done ones, each oldest first.
pub fn group_by_meeting<'a>(items: &'a Vec<ActionItem>, meetings: &Vec<MeetingRef>) -> (r: Vec<
    Group<'a>,
>)
    ensures
        group_views(r@) == grouped(items@, meetings@),
{
    let mut groups: Vec<Group<'a>> = Vec::new();
    let mut known: Vec<String> = Vec::new();
    assert(group_views(groups@) =~= known_groups(items@, meetings@.take(0)));
    assert(texts(known@) =~= ref_ids(meetings@.take(0)));
    for i in 0..meetings.len()
        invariant
            group_views(groups@) == known_groups(items@, meetings@.take(i as int)),
            texts(known@) == ref_ids(meetings@.take(i as int)),
    {
        let ghost next = meetings@.take(i + 1);
        let m = &meetings[i];
        proof {
            assert(next.drop_last() =~= meetings@.take(i as int));
            assert(next.last() == *m);
        }
        if !contains_text(&known, &m.id) {
            let own = collect_items(items, &m.id);
            if own.len() > 0 {
                let ghost had = groups@;
                let group = Group {
                    meeting_id: m.id.clone(),
                    title: m.title.clone(),
                    items: sort_items(own),
                };
                groups.push(group);
                assert(group_views(groups@) =~= group_views(had).push(
                    (m.id@, m.title@, shown_items(items@, m.id@)),
                ));
            }
        }
        let ghost had = known@;
        known.push(m.id.clone());
        assert(texts(known@) =~= texts(had).push(m.id@));
        assert(ref_ids(next) =~= ref_ids(meetings@.take(i as int)).push(m.id@));
    }
    assert(meetings@.take(meetings@.len() as int) =~= meetings@);

    let mut ids: Vec<String> = Vec::new();
    assert(texts(ids@) =~= orphans(items@.take(0), ref_ids(meetings@)));
    for i in 0..items.len()
        invariant
            texts(known@) == ref_ids(meetings@),
            texts(ids@) == orphans(items@.take(i as int), ref_ids(meetings@)),
    {
        let ghost next = items@.take(i + 1);
        assert(next.drop_last() =~= items@.take(i as int));
        assert(next.last() == items@[i as int]);
        let id = &items[i].meeting_id;
        if !contains_text(&known, id) && !contains_text(&ids, id) {
            let ghost had = ids@;
            ids.push(id.clone());
            assert(texts(ids@) =~= texts(had).push(id@));
        }
    }
    assert(items@.take(items@.len() as int) =~= items@);
    let ids = sort_ids(ids);
    let ghost sorted = texts(ids@);
    let ghost first = group_views(groups@);
    assert(first + orphan_groups(items@, sorted.take(0)) =~= first);
    for i in 0..ids.len()
        invariant
            sorted == texts(ids@),
            group_views(groups@) == first + orphan_groups(items@, sorted.take(i as int)),
    {
        let ghost had = groups@;
        let own = collect_items(items, &ids[i]);
        let group = Group {
            meeting_id: ids[i].clone(),
            title: UNKNOWN_MEETING_TITLE.to_owned(),
            items: sort_items(own),
        };
        groups.push(group);
        proof {
            let id = ids@[i as int]@;
            let view = (id, UNKNOWN_MEETING_TITLE@, shown_items(items@, id));
            assert(sorted[i as int] == id);
            assert(group_views(groups@) =~= group_views(had).push(view));
            assert(orphan_groups(items@, sorted.take(i + 1)) =~= orphan_groups(
                items@,
                sorted.take(i as int),
            ).push(view));
            assert(group_views(groups@) =~= first + orphan_groups(items@, sorted.take(i + 1)));
        }
    }
    assert(sorted.take(sorted.len() as int) =~= sorted);
    groups
}

// ---------------------------------------------------------------------------
// Laws
// ---------------------------------------------------------------------------

/// The ids of some groups.
pub open spec fn group_ids(groups: Seq<GroupView>) -> Seq<Seq<char>> {
    groups.map_values(|g: GroupView| g.0)
}

pub(crate) proof fn lemma_known_groups(items: Seq<ActionItem>, meetings: Seq<MeetingRef>)
    ensures
        group_ids(known_groups(items, meetings)).no_duplicates(),
        forall|i: int|
            0 <= i < known_groups(items, meetings).len() ==> ref_ids(meetings).contains(
                (#[trigger] known_groups(items, meetings)[i]).0,
            ) && known_groups(items, meetings)[i].2 == shown_items(
                items,
                known_groups(items, meetings)[i].0,
            ),
        forall|id: Seq<char>|
            ref_ids(meetings).contains(id) && meeting_items(items, id).len() > 0
                ==> #[trigger] group_ids(known_groups(items, meetings)).contains(id),
    decreases meetings.len(),
{
    if meetings.len() > 0 {
        let front = meetings.drop_last();
        lemma_known_groups(items, front);
        let m = meetings.last();
        let before = known_groups(items, front);
        let after = known_groups(items, meetings);
        assert(ref_ids(meetings) =~= ref_ids(front).push(m.id@));
        assert(ref_ids(meetings)[front.len() as int] == m.id@);
        assert forall|id: Seq<char>| ref_ids(front).contains(id) implies #[trigger] ref_ids(
            meetings,
        ).contains(id) by {
            let k = choose|k: int| 0 <= k < front.len() && ref_ids(front)[k] == id;
            assert(ref_ids(meetings)[k] == id);
        }
        if after.len() > before.len() {
            assert(group_ids(after) =~= group_ids(before).push(m.id@));
            if group_ids(before).contains(m.id@) {
                let k = choose|k: int| 0 <= k < before.len() && group_ids(before)[k] == m.id@;
                assert(before[k].0 == m.id@);
            }
        }
        assert forall|i: int| 0 <= i < after.len() implies ref_ids(meetings).contains(
            (#[trigger] after[i]).0,
        ) && after[i].2 == shown_items(items, after[i].0) by {
            if i < before.len() {
                assert(after[i] == before[i]);
            }
        }
        assert forall|id: Seq<char>|
            ref_ids(meetings).contains(id) && meeting_items(items, id).len()
                > 0 implies #[trigger] group_ids(after).contains(id) by {
            if ref_ids(front).contains(id) {
                assert(group_ids(before).contains(id));
                let k = choose|k: int| 0 <= k < before.len() && group_ids(before)[k] == id;
                assert(group_ids(after)[k] == id);
            } else {
                let k = choose|k: int| 0 <= k < ref_ids(meetings).len() && ref_ids(meetings)[k]
                    == id;
                if k < front.len() {
                    assert(ref_ids(front)[k] == id);
                }
                assert(id == m.id@);
                assert(group_ids(after)[before.len() as int] == id);
            }
        }
    }
}

pub(crate) proof fn lemma_orphans(items: Seq<ActionItem>, known: Seq<Seq<char>>)
    ensures
        orphans(items, known).no_duplicates(),
        forall|i: int|
            0 <= i < orphans(items, known).len() ==> !known.contains(
                #[trigger] orphans(items, known)[i],
            ),
        forall|i: int|
            0 <= i < items.len() ==> known.contains((#[trigger] items[i]).meeting_id@) || orphans(
                items,
                known,
            ).contains(items[i].meeting_id@),
    decreases items.len(),
{
    if items.len() > 0 {
        let front = items.drop_last();
        lemma_orphans(front, known);
        let before = orphans(front, known);
        let after = orphans(items, known);
        assert forall|i: int| 0 <= i < after.len() implies !known.contains(
            #[trigger] after[i],
        ) by {
            if i < before.len() {
                assert(after[i] == before[i]);
            }
        }
        assert forall|i: int| 0 <= i < items.len() implies known.contains(
            (#[trigger] items[i]).meeting_id@,
        ) || after.contains(items[i].meeting_id@) by {
            if i < front.len() {
                assert(items[i] == front[i]);
                if before.contains(front[i].meeting_id@) {
                    let k = choose|k: int| 0 <= k < before.len() && before[k]
                        == front[i].meeting_id@;
                    assert(after[k] == front[i].meeting_id@);
                }
            } else if after.len() > before.len() {
                assert(after[before.len() as int] == items[i].meeting_id@);
            }
        }
    }
}

pub(crate) proof fn lemma_text_order()
    ensures
        orders(text_order()),
{
    let leq = text_order();
    assert forall|a: Seq<char>, b: Seq<char>| #[trigger] leq(a, b) || #[trigger] leq(b, a) by {
        text_leq_is_total(a, b);
    }
    assert forall|a: Seq<char>, b: Seq<char>, c: Seq<char>|
        #![trigger leq(a, b), leq(b, c)]
        leq(a, b) && leq(b, c) implies leq(a, c) by {
        text_leq_chains(a, b, c);
    }
}

/// Each meeting has at most one group, every item's meeting has one, and a
/// group holds exactly the items of its meeting: no item is lost or shown
/// twice.
pub proof fn grouping_keeps_every_item(items: Seq<ActionItem>, meetings: Seq<MeetingRef>)
    ensures
        group_ids(grouped(items, meetings)).no_duplicates(),
        forall|i: int|
            0 <= i < items.len() ==> group_ids(grouped(items, meetings)).contains(
                (#[trigger] items[i]).meeting_id@,
            ),
        forall|k: int|
            0 <= k < grouped(items, meetings).len() ==> (#[trigger] grouped(
                items,
                meetings,
            )[k]).2.to_multiset() == meeting_items(items, grouped(items, meetings)[k].0).to_multiset(),
{
    broadcast use vstd::seq_lib::group_to_multiset_ensures;

    let known = ref_ids(meetings);
    let first = known_groups(items, meetings);
    let ids = orphans(items, known);
    let sorted = stably_sorted(ids, text_order());
    let second = orphan_groups(items, sorted);
    let all = grouped(items, meetings);
    lemma_known_groups(items, meetings);
    lemma_orphans(items, known);
    lemma_text_order();
    items_can_be_sorted();
    sorting_orders(ids, text_order());
    assert forall|id: Seq<char>| sorted.contains(id) <==> ids.contains(id) by {
        assert(sorted.to_multiset().count(id) == ids.to_multiset().count(id));
    }
    ids.lemma_multiset_has_no_duplicates();
    sorted.lemma_multiset_has_no_duplicates_conv();
    assert(group_ids(all) =~= group_ids(first) + sorted);
    assert forall|i: int, j: int|
        0 <= i < group_ids(all).len() && 0 <= j < group_ids(all).len() && i != j implies group_ids(
        all,
    )[i] != group_ids(all)[j] by {
        let n = first.len();
        if i < n && j < n {
            assert(group_ids(first)[i] != group_ids(first)[j]);
        } else if i >= n && j >= n {
            assert(sorted[i - n] != sorted[j - n]);
        } else {
            let a = if i < n { i } else { j };
            let b = if i < n { j } else { i };
            assert(known.contains(first[a].0));
            assert(ids.contains(sorted[b - n]));
            let k = choose|k: int| 0 <= k < ids.len() && ids[k] == sorted[b - n];
            assert(!known.contains(ids[k]));
        }
    }
    assert forall|i: int| 0 <= i < items.len() implies group_ids(all).contains(
        (#[trigger] items[i]).meeting_id@,
    ) by {
        let id = items[i].meeting_id@;
        if known.contains(id) {
            lemma_item_in_meeting(items, i);
            assert(group_ids(first).contains(id));
            let k = choose|k: int| 0 <= k < group_ids(first).len() && group_ids(first)[k] == id;
            assert(group_ids(all)[k] == id);
        } else {
            assert(ids.contains(id));
            assert(sorted.contains(id));
            let k = choose|k: int| 0 <= k < sorted.len() && sorted[k] == id;
            assert(group_ids(all)[first.len() + k] == id);
        }
    }
    assert forall|k: int| 0 <= k < all.len() implies (#[trigger] all[k]).2.to_multiset()
        == meeting_items(items, all[k].0).to_multiset() by {
        if k < first.len() {
            assert(all[k] == first[k]);
        } else {
            assert(all[k] == second[k - first.len()]);
        }
        sorting_orders(meeting_items(items, all[k].0), item_order());
    }
}

pub(crate) proof fn lemma_item_in_meeting(items: Seq<ActionItem>, at: int)
    requires
        0 <= at < items.len(),
    ensures
        meeting_items(items, items[at].meeting_id@).len() > 0,
    decreases items.len(),
{
    let id = items[at].meeting_id@;
    reveal(Seq::filter);
    if at < items.len() - 1 {
        lemma_item_in_meeting(items.drop_last(), at);
    }
}

} // verus!
