//! Action items are grouped by meeting, filtered, ticked, edited and counted.
use vstd::prelude::*;
use crate::action_items::grouping::{group_by_meeting, group_ids, group_views, grouped, item_order, items_can_be_sorted, items_of, known_groups, lemma_known_groups, lemma_orphans, lemma_text_order, meeting_items, orphan_groups, orphans, ref_ids, shown_items, text_order, Group, MeetingRef};
use crate::action_items::items::{count_items, first_with_id, matches_filter, open_count, passes, without_id, ActionItem, Filter};
use crate::action_items::page::ActionItemsView;
use crate::numbers::to_decimal;
use crate::sorting::{sorting_orders, stably_sorted, text_leq, text_not_after};

verus! {

/// Whether a meeting is the first listed under its id.
pub open spec fn first_listed(meetings: Seq<MeetingRef>, m: int) -> bool {
    0 <= m < meetings.len() && forall|j: int|
        0 <= j < m ==> (#[trigger] meetings[j]).id@ != meetings[m].id@
}

proof fn lemma_known_titles(items: Seq<ActionItem>, meetings: Seq<MeetingRef>, k: int, m: int)
    requires
        0 <= k < known_groups(items, meetings).len(),
        first_listed(meetings, m),
        known_groups(items, meetings)[k].0 == meetings[m].id@,
    ensures
        known_groups(items, meetings)[k].1 == meetings[m].title@,
    decreases meetings.len(),
{
    let front = meetings.drop_last();
    let last = meetings.last();
    let before = known_groups(items, front);
    lemma_known_groups(items, front);
    if k < before.len() {
        assert(known_groups(items, meetings)[k] == before[k]);
        assert(ref_ids(front).contains(before[k].0));
        let j = choose|j: int| 0 <= j < ref_ids(front).len() && ref_ids(front)[j] == before[k].0;
        assert(meetings[j].id@ == meetings[m].id@);
        assert(m <= j);
        assert forall|i: int| 0 <= i < m implies (#[trigger] front[i]).id@ != front[m].id@ by {
            assert(meetings[i].id@ != meetings[m].id@);
        }
        lemma_known_titles(items, front, k, m);
    } else {
        if m < meetings.len() - 1 {
            assert(ref_ids(front)[m] == last.id@);
        }
    }
}

proof fn lemma_known_order(items: Seq<ActionItem>, meetings: Seq<MeetingRef>, k: int, l: int, a: int, b: int)
    requires
        0 <= k < l < known_groups(items, meetings).len(),
        first_listed(meetings, a),
        first_listed(meetings, b),
        known_groups(items, meetings)[k].0 == meetings[a].id@,
        known_groups(items, meetings)[l].0 == meetings[b].id@,
    ensures
        a < b,
    decreases meetings.len(),
{
    let front = meetings.drop_last();
    let before = known_groups(items, front);
    lemma_known_groups(items, front);
    lemma_known_groups(items, meetings);
    let at_k = before[k].0;
    assert(known_groups(items, meetings)[k] == before[k]);
    assert(ref_ids(front).contains(at_k));
    let j = choose|j: int| 0 <= j < ref_ids(front).len() && ref_ids(front)[j] == at_k;
    assert(meetings[j].id@ == meetings[a].id@);
    assert(a <= j);
    if l < before.len() {
        assert(known_groups(items, meetings)[l] == before[l]);
        assert(ref_ids(front).contains(before[l].0));
        let i = choose|i: int| 0 <= i < ref_ids(front).len() && ref_ids(front)[i] == before[l].0;
        assert(meetings[i].id@ == meetings[b].id@);
        assert(b <= i);
        assert forall|i: int| 0 <= i < a implies (#[trigger] front[i]).id@ != front[a].id@ by {
            assert(meetings[i].id@ != meetings[a].id@);
        }
        assert forall|i: int| 0 <= i < b implies (#[trigger] front[i]).id@ != front[b].id@ by {
            assert(meetings[i].id@ != meetings[b].id@);
        }
        lemma_known_order(items, front, k, l, a, b);
    } else {
        // The last group is that of the last meeting, which no earlier one names.
        if b < meetings.len() - 1 {
            assert(ref_ids(front)[b] == meetings.last().id@);
        }
    }
}

proof fn lemma_sorted_member(s: Seq<Seq<char>>, i: int)
    requires
        0 <= i < stably_sorted(s, text_order()).len(),
    ensures
        s.contains(stably_sorted(s, text_order())[i]),
{
    crate::sorting::lemma_sort_keeps_items(s, text_order());
    let t = stably_sorted(s, text_order());
    broadcast use vstd::seq_lib::group_seq_properties;

    assert(t.contains(t[i]));
    assert(t.to_multiset().count(t[i]) > 0);
    assert(s.to_multiset().count(t[i]) > 0);
}

proof fn lemma_groups_split(items: Seq<ActionItem>, meetings: Seq<MeetingRef>, k: int)
    requires
        0 <= k < grouped(items, meetings).len(),
    ensures
        k < known_groups(items, meetings).len() ==> ref_ids(meetings).contains(
            grouped(items, meetings)[k].0,
        ),
        k >= known_groups(items, meetings).len() ==> !ref_ids(meetings).contains(
            grouped(items, meetings)[k].0,
        ) && grouped(items, meetings)[k].1 == "Untitled meeting"@,
        grouped(items, meetings)[k].2 == shown_items(items, grouped(items, meetings)[k].0),
{
    lemma_known_groups(items, meetings);
    lemma_orphans(items, ref_ids(meetings));
    let n = known_groups(items, meetings).len();
    let lost = orphans(items, ref_ids(meetings));
    let ids = stably_sorted(lost, text_order());
    if k < n {
        assert(grouped(items, meetings)[k] == known_groups(items, meetings)[k]);
    } else {
        assert(grouped(items, meetings)[k] == orphan_groups(items, ids)[k - n]);
        lemma_sorted_member(lost, k - n);
        let i = choose|i: int| 0 <= i < lost.len() && lost[i] == ids[k - n];
        assert(!ref_ids(meetings).contains(lost[i]));
    }
}

proof fn lemma_view(r: Seq<Group>, k: int)
    requires
        0 <= k < r.len(),
    ensures
        group_views(r)[k] == (r[k].meeting_id@, r[k].title@, items_of(r[k].items@)),
        group_views(r).len() == r.len(),
{
}

/// A group of a listed meeting has the title of the first one listed under its
/// id; every other group is untitled.
pub proof fn groups_have_their_meetings_titles<'a>(
    items: &'a Vec<ActionItem>,
    meetings: &Vec<MeetingRef>,
    r: Vec<Group<'a>>,
    k: int,
    m: int,
)
    requires
        call_ensures(group_by_meeting, (items, meetings), r),
        0 <= k < r@.len(),
    ensures
        first_listed(meetings@, m) && r@[k].meeting_id@ == meetings@[m].id@ ==> r@[k].title@
            == meetings@[m].title@,
        (forall|j: int| 0 <= j < meetings@.len() ==> (#[trigger] meetings@[j]).id@ != r@[k].meeting_id@)
            ==> r@[k].title@ == "Untitled meeting"@,
{
    let all = grouped(items@, meetings@);
    lemma_view(r@, k);
    lemma_groups_split(items@, meetings@, k);
    let ids = ref_ids(meetings@);
    if first_listed(meetings@, m) && r@[k].meeting_id@ == meetings@[m].id@ {
        assert(ids[m] == meetings@[m].id@);
        assert(all[k] == known_groups(items@, meetings@)[k]);
        lemma_known_titles(items@, meetings@, k, m);
    }
    if forall|j: int| 0 <= j < meetings@.len() ==> (#[trigger] meetings@[j]).id@ != r@[k].meeting_id@ {
        assert(!ids.contains(r@[k].meeting_id@)) by {
            if ids.contains(r@[k].meeting_id@) {
                let j = choose|j: int| 0 <= j < ids.len() && ids[j] == r@[k].meeting_id@;
                assert(meetings@[j].id@ == r@[k].meeting_id@);
            }
        }
    }
}

/// Groups stand in the order of the list of meetings, and those of meetings that
/// are not listed stand behind them, in the order of their ids.
pub proof fn groups_stand_in_the_order_of_meetings<'a>(
    items: &'a Vec<ActionItem>,
    meetings: &Vec<MeetingRef>,
    r: Vec<Group<'a>>,
    k: int,
    l: int,
    a: int,
    b: int,
)
    requires
        call_ensures(group_by_meeting, (items, meetings), r),
        0 <= k < l < r@.len(),
    ensures
        first_listed(meetings@, a) && r@[k].meeting_id@ == meetings@[a].id@ && first_listed(
            meetings@,
            b,
        ) && r@[l].meeting_id@ == meetings@[b].id@ ==> a < b,
        first_listed(meetings@, b) && r@[l].meeting_id@ == meetings@[b].id@ ==> exists|j: int|
            0 <= j < meetings@.len() && (#[trigger] meetings@[j]).id@ == r@[k].meeting_id@,
        (forall|j: int|
            0 <= j < meetings@.len() ==> (#[trigger] meetings@[j]).id@ != r@[k].meeting_id@
                && meetings@[j].id@ != r@[l].meeting_id@) ==> text_leq(
            r@[k].meeting_id@,
            r@[l].meeting_id@,
        ),
{
    let all = grouped(items@, meetings@);
    let ids = ref_ids(meetings@);
    let known = known_groups(items@, meetings@);
    lemma_view(r@, k);
    lemma_view(r@, l);
    lemma_groups_split(items@, meetings@, k);
    lemma_groups_split(items@, meetings@, l);
    if first_listed(meetings@, b) && r@[l].meeting_id@ == meetings@[b].id@ {
        assert(ids[b] == meetings@[b].id@);
        assert(all[l] == known[l]);
        assert(all[k] == known[k]);
        let j = choose|j: int| 0 <= j < ids.len() && ids[j] == r@[k].meeting_id@;
        assert(meetings@[j].id@ == r@[k].meeting_id@);
        if first_listed(meetings@, a) && r@[k].meeting_id@ == meetings@[a].id@ {
            lemma_known_order(items@, meetings@, k, l, a, b);
        }
    }
    if forall|j: int|
        0 <= j < meetings@.len() ==> (#[trigger] meetings@[j]).id@ != r@[k].meeting_id@
            && meetings@[j].id@ != r@[l].meeting_id@ {
        if ids.contains(r@[k].meeting_id@) {
            let j = choose|j: int| 0 <= j < ids.len() && ids[j] == r@[k].meeting_id@;
            assert(meetings@[j].id@ == r@[k].meeting_id@);
        }
        let lost = stably_sorted(orphans(items@, ids), text_order());
        lemma_text_order();
        sorting_orders(orphans(items@, ids), text_order());
        let n = known.len();
        assert(all[k].0 == lost[k - n]);
        assert(all[l].0 == lost[l - n]);
        assert(text_order()(lost[k - n], lost[l - n]));
    }
}

/// No meeting has two groups, every item stands in the group of its meeting, and
/// a group holds items of its meeting only, each as often as it was given.
pub proof fn groups_hold_the_items_of_their_meetings<'a>(
    items: &'a Vec<ActionItem>,
    meetings: &Vec<MeetingRef>,
    r: Vec<Group<'a>>,
)
    requires
        call_ensures(group_by_meeting, (items, meetings), r),
    ensures
        forall|k: int, l: int|
            0 <= k < l < r@.len() ==> (#[trigger] r@[k]).meeting_id@ != (#[trigger] r@[l]).meeting_id@,
        forall|i: int|
            0 <= i < items@.len() ==> exists|k: int|
                0 <= k < r@.len() && (#[trigger] r@[k]).meeting_id@ == (
                #[trigger] items@[i]).meeting_id@,
        forall|k: int|
            0 <= k < r@.len() ==> items_of((#[trigger] r@[k]).items@).to_multiset() == items@.filter(
                |i: ActionItem| i.meeting_id@ == r@[k].meeting_id@,
            ).to_multiset(),
{
    crate::action_items::grouping::grouping_keeps_every_item(items@, meetings@);
    let all = grouped(items@, meetings@);
    let ids = group_ids(all);
    assert forall|k: int, l: int| 0 <= k < l < r@.len() implies (#[trigger] r@[k]).meeting_id@ != (
    #[trigger] r@[l]).meeting_id@ by {
        lemma_view(r@, k);
        lemma_view(r@, l);
        assert(ids[k] != ids[l]);
    }
    assert forall|i: int| 0 <= i < items@.len() implies exists|k: int|
        0 <= k < r@.len() && (#[trigger] r@[k]).meeting_id@ == (#[trigger] items@[i]).meeting_id@ by {
        assert(ids.contains(items@[i].meeting_id@));
        let k = choose|k: int| 0 <= k < ids.len() && ids[k] == items@[i].meeting_id@;
        assert(group_views(r@).len() == r@.len());
        lemma_view(r@, k);
        assert(r@[k].meeting_id@ == items@[i].meeting_id@);
    }
    assert forall|k: int| 0 <= k < r@.len() implies items_of((#[trigger] r@[k]).items@).to_multiset()
        == items@.filter(|i: ActionItem| i.meeting_id@ == r@[k].meeting_id@).to_multiset() by {
        lemma_view(r@, k);
        assert(all[k].2.to_multiset() == meeting_items(items@, all[k].0).to_multiset());
    }
}

/// In a group no item that is done stands before one that is not, and among
/// those that are done, and among those that are not, the oldest stands first.
pub proof fn open_items_come_first_and_then_the_oldest<'a>(
    items: &'a Vec<ActionItem>,
    meetings: &Vec<MeetingRef>,
    r: Vec<Group<'a>>,
    k: int,
    i: int,
    j: int,
)
    requires
        call_ensures(group_by_meeting, (items, meetings), r),
        0 <= k < r@.len(),
        0 <= i < j < r@[k].items@.len(),
    ensures
        r@[k].items@[i].status@ == "done"@ ==> r@[k].items@[j].status@ == "done"@,
        (r@[k].items@[i].status@ == "done"@) == (r@[k].items@[j].status@ == "done"@) ==> text_leq(
            r@[k].items@[i].created_at@,
            r@[k].items@[j].created_at@,
        ),
{
    lemma_view(r@, k);
    lemma_groups_split(items@, meetings@, k);
    let mine = meeting_items(items@, r@[k].meeting_id@);
    items_can_be_sorted();
    sorting_orders(mine, item_order());
    let shown = stably_sorted(mine, item_order());
    assert(items_of(r@[k].items@) == shown);
    assert(items_of(r@[k].items@)[i] == *r@[k].items@[i]);
    assert(items_of(r@[k].items@)[j] == *r@[k].items@[j]);
    assert(item_order()(shown[i], shown[j]));
}

/// One text stands at or before another exactly where it goes on like it and ends
/// first, or has the smaller character where the two first differ.
pub proof fn texts_are_ordered_by_their_first_difference(
    a: &str,
    b: &str,
    r: bool,
    common: Seq<char>,
    x: char,
    y: char,
    ta: Seq<char>,
    tb: Seq<char>,
)
    requires
        call_ensures(text_not_after, (a, b), r),
    ensures
        b@ == a@ + tb ==> r,
        a@ == b@ + ta && ta.len() > 0 ==> !r,
        x != y && a@ == common.push(x) + ta && b@ == common.push(y) + tb ==> r == (x < y),
{
    if b@ == a@ + tb {
        lemma_common(a@, seq![], tb);
        assert(a@ + seq![] =~= a@);
    }
    if a@ == b@ + ta && ta.len() > 0 {
        lemma_common(b@, ta, seq![]);
        assert(b@ + seq![] =~= b@);
    }
    if x != y && a@ == common.push(x) + ta && b@ == common.push(y) + tb {
        lemma_common(common, seq![x] + ta, seq![y] + tb);
        assert(a@ =~= common + (seq![x] + ta));
        assert(b@ =~= common + (seq![y] + tb));
    }
}

proof fn lemma_common(common: Seq<char>, a: Seq<char>, b: Seq<char>)
    ensures
        text_leq(common + a, common + b) == text_leq(a, b),
    decreases common.len(),
{
    if common.len() == 0 {
        assert(common + a =~= a);
        assert(common + b =~= b);
    } else {
        let rest = common.subrange(1, common.len() as int);
        lemma_common(rest, a, b);
        let (x, y) = (common + a, common + b);
        assert(x.subrange(1, x.len() as int) =~= rest + a);
        assert(y.subrange(1, y.len() as int) =~= rest + b);
    }
}

/// An item is done where its status says "done", and each filter shows what its
/// name says.
pub proof fn filters_show_what_they_name(item: &ActionItem, filter: Filter, r: bool)
    requires
        call_ensures(matches_filter, (item, filter), r),
    ensures
        filter is All ==> r,
        filter is Done ==> r == (item.status@ == "done"@),
        filter is Open ==> r == (item.status@ != "done"@),
{
}

proof fn lemma_one_more_open(items: Seq<ActionItem>, at: int)
    requires
        0 <= at < items.len(),
    ensures
        open_count(items) == open_count(items.remove(at)) + if items[at].status@ == "done"@ {
            0nat
        } else {
            1nat
        },
    decreases items.len(),
{
    if at == items.len() - 1 {
        assert(items.remove(at) =~= items.drop_last());
    } else {
        let front = items.drop_last();
        lemma_one_more_open(front, at);
        let less = items.remove(at);
        assert(less.drop_last() =~= front.remove(at));
        assert(less.last() == items.last());
    }
}

/// Every item counts once: as done where its status says so, and else as open.
pub proof fn every_item_counts_once(
    items: &Vec<ActionItem>,
    less: &Vec<ActionItem>,
    at: int,
    r: (usize, usize),
    of_less: (usize, usize),
)
    requires
        0 <= at < items@.len(),
        less@ == items@.remove(at),
        call_ensures(count_items, (items,), r),
        call_ensures(count_items, (less,), of_less),
    ensures
        items@[at].status@ == "done"@ ==> r.0 == of_less.0 && r.1 == of_less.1 + 1,
        items@[at].status@ != "done"@ ==> r.0 == of_less.0 + 1 && r.1 == of_less.1,
        less@.len() == 0 ==> of_less == (0usize, 0usize),
{
    lemma_one_more_open(items@, at);
}

/// The header counts the items that are open and those that are done.
pub proof fn headers_count_items(
    page: &ActionItemsView,
    counts: (usize, usize),
    open: u64,
    done: u64,
    of_open: String,
    of_done: String,
    r: String,
)
    requires
        call_ensures(ActionItemsView::header_counts, (page,), r),
        call_ensures(count_items, (&page.items,), counts),
        open == counts.0,
        done == counts.1,
        call_ensures(to_decimal, (open,), of_open),
        call_ensures(to_decimal, (done,), of_done),
    ensures
        r@ == of_open@ + " open · "@ + of_done@ + " done"@,
{
}

/// Ticking the box of an item that is not done makes it done, clearing that of
/// one that is done makes it open, and nothing else of the list changes.
pub proof fn ticking_changes_one_status(
    page: &mut ActionItemsView,
    id: &str,
    done: bool,
    r: &'static str,
    at: int,
)
    requires
        call_ensures(ActionItemsView::toggle_status, (page, id, done), r),
        0 <= at < old(page).items@.len(),
        old(page).items@[at].id@ == id@,
        forall|j: int| 0 <= j < at ==> (#[trigger] old(page).items@[j]).id@ != id@,
    ensures
        r@ == if done {
            "open"@
        } else {
            "done"@
        },
        final(page).items@.len() == old(page).items@.len(),
        final(page).items@[at].status@ == r@,
        final(page).items@[at].text == old(page).items@[at].text,
        final(page).items@[at].meeting_id == old(page).items@[at].meeting_id,
        forall|j: int|
            0 <= j < old(page).items@.len() && j != at ==> #[trigger] final(page).items@[j] == old(
                page,
            ).items@[j],
{
    assert(first_with_id(old(page).items@, id@, at));
}

/// Saving an edit stores the typed text, without white space at its ends, as the
/// text of the item that was edited, and changes no other item.
pub proof fn edits_change_one_text(
    page: &mut ActionItemsView,
    text: &str,
    r: Option<(String, String)>,
    trimmed_text: String,
    at: int,
    id: String,
)
    requires
        call_ensures(ActionItemsView::save_edit, (page, text, true), r),
        call_ensures(crate::text::trim, (text,), trimmed_text),
        trimmed_text@.len() > 0,
        old(page).editing_id == Some(id),
        0 <= at < old(page).items@.len(),
        old(page).items@[at].id@ == id@,
        forall|j: int| 0 <= j < at ==> (#[trigger] old(page).items@[j]).id@ != id@,
    ensures
        r matches Some((i, t)) && i@ == id@ && t@ == trimmed_text@,
        final(page).items@.len() == old(page).items@.len(),
        final(page).items@[at].text@ == trimmed_text@,
        final(page).items@[at].status == old(page).items@[at].status,
        forall|j: int|
            0 <= j < old(page).items@.len() && j != at ==> #[trigger] final(page).items@[j] == old(
                page,
            ).items@[j],
        final(page).editing_id is None,
{
    assert(first_with_id(old(page).items@, id@, at));
}

/// A blank text, or one without a database to store it in, is not saved, and
/// editing ends all the same.
pub proof fn blank_edits_change_nothing(
    page: &mut ActionItemsView,
    text: &str,
    has_db: bool,
    r: Option<(String, String)>,
    blank: bool,
)
    requires
        call_ensures(ActionItemsView::save_edit, (page, text, has_db), r),
        call_ensures(crate::text::is_blank, (text,), blank),
        blank || !has_db,
    ensures
        r is None,
        final(page).items == old(page).items,
        final(page).editing_id is None,
{
}

/// An item that is added is stored with its text as it was typed, under the
/// meeting that it was added to.
pub proof fn added_items_keep_their_text(
    page: &mut ActionItemsView,
    text: &str,
    has_db: bool,
    r: Option<(String, String)>,
    blank: bool,
    meeting: String,
)
    requires
        call_ensures(ActionItemsView::save_add, (page, text, has_db), r),
        call_ensures(crate::text::is_blank, (text,), blank),
        old(page).adding_to == Some(meeting),
    ensures
        !blank && has_db ==> (r matches Some((m, t)) && m@ == meeting@ && t@ == text@),
        blank || !has_db ==> r is None,
        final(page).adding_to is None,
        final(page).items == old(page).items,
{
}

proof fn lemma_without(items: Seq<ActionItem>, id: Seq<char>)
    ensures
        forall|i: int| 0 <= i < without_id(items, id).len() ==> (#[trigger] without_id(items, id)[i]).id@
            != id && items.contains(without_id(items, id)[i]),
        (forall|j: int| 0 <= j < items.len() ==> (#[trigger] items[j]).id@ != id) ==> without_id(
            items,
            id,
        ) == items,
    decreases items.len(),
{
    reveal(Seq::filter);
    let keep = |i: ActionItem| i.id@ != id;
    if items.len() > 0 {
        let front = items.drop_last();
        lemma_without(front, id);
        assert forall|i: int| 0 <= i < without_id(items, id).len() implies (#[trigger] without_id(
            items,
            id,
        )[i]).id@ != id && items.contains(without_id(items, id)[i]) by {
            if i < without_id(front, id).len() {
                let x = without_id(front, id)[i];
                assert(without_id(items, id)[i] == x);
                let j = choose|j: int| 0 <= j < front.len() && front[j] == x;
                assert(items[j] == x);
            } else {
                assert(items[items.len() - 1] == items.last());
            }
        }
        if forall|j: int| 0 <= j < items.len() ==> (#[trigger] items[j]).id@ != id {
            assert forall|j: int| 0 <= j < front.len() implies (#[trigger] front[j]).id@ != id by {
                assert(items[j].id@ != id);
            }
            assert(items[items.len() - 1].id@ != id);
            assert(front.push(items.last()) =~= items);
        }
    }
}

/// Deleting an item takes out those with its id, and a list without it stays.
pub proof fn deleting_takes_one_id_out(page: &mut ActionItemsView, id: &str)
    requires
        call_ensures(ActionItemsView::delete, (page, id), ()),
    ensures
        forall|i: int| 0 <= i < final(page).items@.len() ==> (#[trigger] final(page).items@[i]).id@
            != id@,
        forall|i: int|
            0 <= i < final(page).items@.len() ==> old(page).items@.contains(
                #[trigger] final(page).items@[i],
            ),
        (forall|j: int| 0 <= j < old(page).items@.len() ==> (#[trigger] old(page).items@[j]).id@ != id@)
            ==> final(page).items@ == old(page).items@,
        final(page).meetings == old(page).meetings,
{
    lemma_without(old(page).items@, id@);
}

/// An item stays through the deletion of another.
pub proof fn deleting_keeps_other_items(page: &mut ActionItemsView, id: &str, at: int)
    requires
        call_ensures(ActionItemsView::delete, (page, id), ()),
        0 <= at < old(page).items@.len(),
        old(page).items@[at].id@ != id@,
    ensures
        final(page).items@.contains(old(page).items@[at]),
{
    lemma_kept(old(page).items@, |i: ActionItem| i.id@ != id@, at);
}

proof fn lemma_kept(items: Seq<ActionItem>, keep: spec_fn(ActionItem) -> bool, at: int)
    requires
        0 <= at < items.len(),
        keep(items[at]),
    ensures
        items.filter(keep).contains(items[at]),
    decreases items.len(),
{
    reveal(Seq::filter);
    let front = items.drop_last();
    let less = front.filter(keep);
    if at < items.len() - 1 {
        lemma_kept(front, keep, at);
        let j = choose|j: int| 0 <= j < less.len() && less[j] == items[at];
        assert(items.filter(keep)[j] == items[at]);
    } else {
        assert(items.filter(keep)[less.len() as int] == items[at]);
    }
}

/// The page shows every item that its filter names and no other.
pub proof fn pages_show_what_the_filter_names(
    page: &ActionItemsView,
    r: Vec<ActionItem>,
    at: int,
    k: int,
)
    requires
        call_ensures(ActionItemsView::visible_items, (page,), r),
    ensures
        0 <= at < page.items@.len() && (page.filter is All || (page.filter is Done) == (
        page.items@[at].status@ == "done"@)) ==> r@.contains(page.items@[at]),
        0 <= k < r@.len() ==> page.items@.contains(r@[k]) && (page.filter is All || (
        page.filter is Done) == (r@[k].status@ == "done"@)),
{
    let keep = |i: ActionItem| passes(i, page.filter);
    if 0 <= at < page.items@.len() && passes(page.items@[at], page.filter) {
        lemma_kept(page.items@, keep, at);
    }
    if 0 <= k < r@.len() {
        lemma_all_kept(page.items@, keep, k);
    }
}

proof fn lemma_all_kept(items: Seq<ActionItem>, keep: spec_fn(ActionItem) -> bool, k: int)
    requires
        0 <= k < items.filter(keep).len(),
    ensures
        keep(items.filter(keep)[k]),
        items.contains(items.filter(keep)[k]),
    decreases items.len(),
{
    reveal(Seq::filter);
    let front = items.drop_last();
    if k < front.filter(keep).len() {
        lemma_all_kept(front, keep, k);
        let x = front.filter(keep)[k];
        let j = choose|j: int| 0 <= j < front.len() && front[j] == x;
        assert(items[j] == x);
    } else {
        assert(items[items.len() - 1] == items.last());
    }
}

/// Items that could not be loaded are reported, and the page keeps what it had.
pub proof fn failed_loads_keep_the_page(
    page: &mut ActionItemsView,
    why: String,
    meetings: Option<Vec<MeetingRef>>,
)
    requires
        call_ensures(ActionItemsView::finish_refresh, (page, Err(why), meetings), ()),
    ensures
        final(page).items == old(page).items,
        final(page).error matches Some(e) && e@ == "Failed to load action items: "@ + why@,
        !final(page).loading,
{
}

/// Items that were loaded are the page's, with nothing added or left out.
pub proof fn loaded_items_are_shown(
    page: &mut ActionItemsView,
    items: Vec<ActionItem>,
    meetings: Vec<MeetingRef>,
)
    requires
        call_ensures(ActionItemsView::finish_refresh, (page, Ok(items), Some(meetings)), ()),
    ensures
        final(page).items@ == items@,
        final(page).meetings@ == meetings@,
        !final(page).loading,
{
}

/// An item is done where its status says so.
pub proof fn done_items_say_so(item: &ActionItem, r: bool, copy: ActionItem)
    requires
        call_ensures(ActionItem::is_done, (item,), r),
        call_ensures(crate::action_items::page::copy_item, (item,), copy),
    ensures
        r <==> item.status@ == "done"@,
        copy == *item,
{
}

/// The first item with an id is found, where there is one.
pub proof fn items_are_found_by_id(items: &Vec<ActionItem>, id: &str, at: int, r: Option<usize>)
    requires
        call_ensures(crate::action_items::items::find_item, (items, id), r),
    ensures
        r matches Some(i) ==> i < items@.len() && items@[i as int].id@ == id@ && (0 <= at < i
            ==> items@[at].id@ != id@),
        r is None && 0 <= at < items@.len() ==> items@[at].id@ != id@,
{
    let given = (items, id);
    if 0 <= at < items@.len() {
        assert(given.0@[at].id@ == items@[at].id@);
    }
}

/// A box that is ticked leads to "done", and one that is cleared to "open".
pub proof fn boxes_lead_to_the_other_status(done: bool, r: &'static str)
    requires
        call_ensures(crate::action_items::items::next_status, (done,), r),
    ensures
        done ==> r@ == "open"@,
        !done ==> r@ == "done"@,
{
}

/// Giving an item another status or another text changes that alone, in the first
/// item with the id alone.
pub proof fn items_change_in_one_place(
    items: &mut Vec<ActionItem>,
    more: &mut Vec<ActionItem>,
    id: &str,
    text: &str,
    at: int,
)
    requires
        call_ensures(crate::action_items::items::set_status, (items, id, text), ()),
        call_ensures(crate::action_items::items::set_text, (more, id, text), ()),
        old(items)@ == old(more)@,
        0 <= at < old(items)@.len(),
        old(items)@[at].id@ == id@,
        forall|j: int| 0 <= j < at ==> (#[trigger] old(items)@[j]).id@ != id@,
    ensures
        final(items)@.len() == old(items)@.len(),
        final(items)@[at].status@ == text@,
        final(items)@[at].text == old(items)@[at].text,
        final(more)@[at].text@ == text@,
        final(more)@[at].status == old(items)@[at].status,
        forall|j: int|
            0 <= j < old(items)@.len() && j != at ==> #[trigger] final(items)@[j] == old(items)@[j],
        forall|j: int|
            0 <= j < old(items)@.len() && j != at ==> #[trigger] final(more)@[j] == old(items)@[j],
{
    assert(first_with_id(old(items)@, id@, at));
    assert(first_with_id(old(more)@, id@, at));
}

/// Taking an id out leaves the items with other ids, in their order.
pub proof fn other_items_stay_in_order(items: Vec<ActionItem>, id: &str, r: Vec<ActionItem>)
    requires
        call_ensures(crate::action_items::items::remove_items, (items, id), r),
    ensures
        r@ == items@.filter(|i: ActionItem| i.id@ != id@),
{
}

/// The page starts with the open items, which are being loaded.
pub proof fn pages_start_with_open_items(r: ActionItemsView)
    requires
        call_ensures(ActionItemsView::new, (), r),
    ensures
        r.loading,
        r.filter is Open,
        r.items@.len() == 0,
        r.error is None && r.editing_id is None && r.adding_to is None,
{
}

/// Items are loaded where there is a database, and else that is said.
pub proof fn items_need_a_database(page: &mut ActionItemsView, has_db: bool, r: bool)
    requires
        call_ensures(ActionItemsView::begin_refresh, (page, has_db), r),
    ensures
        r == has_db,
        has_db ==> final(page).loading && final(page).error is None,
        !has_db ==> !final(page).loading && final(page).error is Some,
        final(page).items == old(page).items,
{
}

/// An item that is edited starts with its text, and editing ends without a change
/// where it is cancelled.
pub proof fn editing_starts_with_the_text(page: &mut ActionItemsView, id: &str, at: int, r: Option<String>)
    requires
        call_ensures(ActionItemsView::start_edit, (page, id), r),
        0 <= at < old(page).items@.len(),
        old(page).items@[at].id@ == id@,
        forall|j: int| 0 <= j < at ==> (#[trigger] old(page).items@[j]).id@ != id@,
    ensures
        r matches Some(t) && t@ == old(page).items@[at].text@,
        final(page).editing_id matches Some(e) && e@ == id@,
        final(page).items == old(page).items,
{
    if let Some(t) = r {
        let i = choose|i: int| #[trigger]
            first_with_id(old(page).items@, id@, i) && t@ == old(page).items@[i].text@;
        if i < at {
            assert(old(page).items@[i].id@ != id@);
        }
        assert(i == at);
    } else {
        assert(old(page).items@[at].id@ != id@);
    }
}

/// Cancelling leaves the items as they are.
pub proof fn cancelling_keeps_the_items(a: &mut ActionItemsView, b: &mut ActionItemsView)
    requires
        call_ensures(ActionItemsView::cancel_edit, (a,), ()),
        call_ensures(ActionItemsView::cancel_add, (b,), ()),
    ensures
        final(a).editing_id is None && final(a).items == old(a).items && final(a).adding_to == old(
            a).adding_to,
        final(b).adding_to is None && final(b).items == old(b).items && final(b).editing_id == old(
            b).editing_id,
{
}

/// An item is added to the meeting that was asked for, and only that one shows the
/// row for it.
pub proof fn items_are_added_to_their_meeting(
    page: &mut ActionItemsView,
    meeting: &str,
    after: &ActionItemsView,
    other: &str,
    row: (bool, bool),
)
    requires
        call_ensures(ActionItemsView::start_add, (page, meeting), ()),
        *after == *final(page),
        call_ensures(ActionItemsView::add_row, (after, other), row),
    ensures
        row.0 <==> other@ == meeting@,
        !row.1,
        final(page).items == old(page).items,
{
}

/// Without an item that is being added every meeting offers to add one.
pub proof fn meetings_offer_to_add(page: &ActionItemsView, meeting: &str, row: (bool, bool), id: &str, editing: bool)
    requires
        call_ensures(ActionItemsView::add_row, (page, meeting), row),
        call_ensures(ActionItemsView::is_editing, (page, id), editing),
    ensures
        page.adding_to is None ==> !row.0 && row.1,
        page.editing_id is None ==> !editing,
        page.editing_id matches Some(e) ==> (editing <==> e@ == id@),
{
}

/// The page shows that it loads, why it could not, that there is nothing, or its
/// groups.
pub proof fn pages_show_groups_where_there_are_any<'a>(
    page: &ActionItemsView,
    visible: &'a Vec<ActionItem>,
    groups: Vec<Group<'a>>,
    r: crate::action_items::page::Body,
)
    requires
        call_ensures(ActionItemsView::body, (page,), r),
        call_ensures(ActionItemsView::visible_items, (page,), *visible),
        call_ensures(group_by_meeting, (visible, &page.meetings), groups),
    ensures
        page.loading <==> r is Loading,
        !page.loading ==> (page.error matches Some(e) ==> (r matches crate::action_items::page::Body::Failed(
            m,
        ) && m@ == e@)),
        !page.loading && page.error is None ==> (r is Empty <==> groups@.len() == 0),
        !page.loading && page.error is None ==> (r is Groups <==> groups@.len() > 0),
{
    assert(group_views(groups@).len() == groups@.len());
}

/// Events that change the action items have them loaded again.
pub proof fn item_events_refresh_the_page(name: &str, r: bool)
    requires
        call_ensures(crate::action_items::page::is_refresh_event, (name,), r),
    ensures
        r <==> name@ == "action-items-extracted"@ || name@ == "live-action-items"@,
{
}

} // verus!
