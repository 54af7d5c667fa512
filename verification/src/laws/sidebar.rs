//! Meetings are grouped by date, and found by their titles and by what was said.
use vstd::prelude::*;
use crate::clock::{local_day_is_near, local_to, Moment, Stamp};
use crate::laws::cleaning::holds;
use crate::shell::meeting_list::{build_content_matches, content_match_label, each_meeting_is_found_once, filter_by_title, first_hits, group_by_days, group_index, group_label, group_name, group_of, group_rows, groups_from, hit_ids, in_group, label_at, meeting_label, rows_of, title_hits, title_matches, ContentMatch, MeetingRow};
use crate::shell::navigation::{AppShell, LeaveChoice, NavEffects, NavOutcome, QuitGuard, Route, SearchStep};
use crate::text::{is_blank, texts, trimmed};
use crate::words::{ascii_lowercase, has_infix, lowercase, stands_at};

verus! {

/// The same items pass two tests that agree on all of them.
pub(crate) proof fn lemma_filter_same<T>(s: Seq<T>, p: spec_fn(T) -> bool, q: spec_fn(T) -> bool)
    requires
        forall|i: int| 0 <= i < s.len() ==> p(#[trigger] s[i]) == q(s[i]),
    ensures
        s.filter(p) == s.filter(q),
    decreases s.len(),
{
    reveal(Seq::filter);
    if s.len() > 0 {
        let front = s.drop_last();
        assert forall|i: int| 0 <= i < front.len() implies p(#[trigger] front[i]) == q(front[i]) by {
            assert(p(s[i]) == q(s[i]));
        }
        lemma_filter_same(front, p, q);
        assert(p(s[s.len() - 1]) == q(s[s.len() - 1]));
    }
}

pub(crate) proof fn lemma_infix_holds(hay: Seq<char>, needle: Seq<char>)
    ensures
        has_infix(hay, needle) == holds(hay, needle),
{
    if has_infix(hay, needle) {
        let i = choose|i: int| stands_at(hay, needle, i);
        let x = hay.subrange(0, i);
        let y = hay.subrange(i + needle.len(), hay.len() as int);
        assert(hay =~= x + needle + y);
    }
    if holds(hay, needle) {
        let (x, y) = choose|x: Seq<char>, y: Seq<char>| hay == #[trigger] (x + needle + y);
        assert(hay.subrange(x.len() as int, x.len() as int + needle.len()) =~= needle);
        assert(stands_at(hay, needle, x.len() as int));
    }
}

/// The title filter finds, in their order, the meetings whose title holds what was
/// typed, both in lower case and without white space around what was typed. What
/// is blank finds every meeting.
pub proof fn titles_are_found_by_what_they_hold<'a>(
    meetings: &'a Vec<MeetingRow>,
    query: &str,
    r: Vec<&'a MeetingRow>,
    blank: bool,
)
    requires
        call_ensures(filter_by_title, (meetings, query), r),
        call_ensures(is_blank, (query,), blank),
    ensures
        blank ==> rows_of(r@) == meetings@,
        !blank ==> rows_of(r@) == meetings@.filter(
            |m: MeetingRow| holds(lowercase(m.title@), lowercase(trimmed(query@))),
        ),
{
    let p = |m: MeetingRow| title_matches(m.title@, query@);
    if blank {
        lemma_filter_same(meetings@, p, |m: MeetingRow| true);
        lemma_filter_all(meetings@);
    } else {
        let q = |m: MeetingRow| holds(lowercase(m.title@), lowercase(trimmed(query@)));
        assert forall|i: int| 0 <= i < meetings@.len() implies p(#[trigger] meetings@[i]) == q(
            meetings@[i],
        ) by {
            lemma_infix_holds(lowercase(meetings@[i].title@), lowercase(trimmed(query@)));
        }
        lemma_filter_same(meetings@, p, q);
    }
}

proof fn lemma_filter_all<T>(s: Seq<T>)
    ensures
        s.filter(|x: T| true) == s,
    decreases s.len(),
{
    reveal(Seq::filter);
    if s.len() > 0 {
        lemma_filter_all(s.drop_last());
        assert(s.drop_last().push(s.last()) =~= s);
    }
}

/// Two queries that are the same in lower case, white space around them aside,
/// find the same meetings.
pub proof fn case_of_a_query_does_not_count<'a>(
    meetings: &'a Vec<MeetingRow>,
    one: &str,
    other: &str,
    of_one: Vec<&'a MeetingRow>,
    of_other: Vec<&'a MeetingRow>,
)
    requires
        trimmed(one@).len() > 0,
        trimmed(other@).len() > 0,
        lowercase(trimmed(one@)) == lowercase(trimmed(other@)),
        call_ensures(filter_by_title, (meetings, one), of_one),
        call_ensures(filter_by_title, (meetings, other), of_other),
    ensures
        rows_of(of_one@) == rows_of(of_other@),
{
    lemma_filter_same(
        meetings@,
        |m: MeetingRow| title_matches(m.title@, one@),
        |m: MeetingRow| title_matches(m.title@, other@),
    );
}

proof fn lemma_ascii_infix(a: Seq<char>, w: Seq<char>, b: Seq<char>)
    ensures
        ascii_lowercase(a + w + b) == ascii_lowercase(a) + ascii_lowercase(w) + ascii_lowercase(b),
{
    assert(ascii_lowercase(a + w + b) =~= ascii_lowercase(a) + ascii_lowercase(w)
        + ascii_lowercase(b));
}

pub(crate) proof fn lemma_kept<T>(items: Seq<T>, keep: spec_fn(T) -> bool, at: int)
    requires
        0 <= at < items.len(),
        keep(items[at]),
    ensures
        items.filter(keep).contains(items[at]),
    decreases items.len(),
{
    reveal(Seq::filter);
    let front = items.drop_last();
    let less = front.filter(keep);
    if at < items.len() - 1 {
        lemma_kept(front, keep, at);
        let j = choose|j: int| 0 <= j < less.len() && less[j] == items[at];
        assert(items.filter(keep)[j] == items[at]);
    } else {
        assert(items.filter(keep)[less.len() as int] == items[at]);
    }
}

pub(crate) proof fn lemma_all_kept<T>(items: Seq<T>, keep: spec_fn(T) -> bool, k: int)
    requires
        0 <= k < items.filter(keep).len(),
    ensures
        keep(items.filter(keep)[k]),
        items.contains(items.filter(keep)[k]),
    decreases items.len(),
{
    reveal(Seq::filter);
    let front = items.drop_last();
    if k < front.filter(keep).len() {
        lemma_all_kept(front, keep, k);
        let x = front.filter(keep)[k];
        let j = choose|j: int| 0 <= j < front.len() && front[j] == x;
        assert(items[j] == x);
    } else {
        assert(items[items.len() - 1] == items.last());
    }
}

/// Whatever letters stand in a label for a day, seen from today.
pub open spec fn right_label(label: Seq<char>, today: int, day: int) -> bool {
    ||| label == "Today"@ && day == today
    ||| label == "Yesterday"@ && day == today - 1
    ||| label == "This week"@ && (day > today || today - 7 < day < today - 1)
    ||| label == "Older"@ && day <= today - 7
}

/// A day has the label that says how long ago it is.
pub proof fn labels_say_how_long_ago(today: i64, day: i64, index: usize, label: &'static str)
    requires
        call_ensures(group_index, (today, day), index),
        call_ensures(label_at, (index,), label),
    ensures
        right_label(label@, today as int, day as int),
{
}

/// The label of a meeting is that of its day in the machine's time zone, which is
/// its day in UTC or next to it.
pub proof fn labels_are_those_of_a_near_day(now: &Stamp, created: &Moment, label: &'static str)
    requires
        call_ensures(group_label, (now, created), label),
    ensures
        exists|day: int|
            #![trigger right_label(label@, now.day_count(), day)]
            right_label(label@, now.day_count(), day) && crate::clock::EPOCH_DAY
                + created.seconds as int / 86_400 - 1 <= day <= crate::clock::EPOCH_DAY
                + created.seconds as int / 86_400 + 1,
{
    let local = choose|local: Stamp| #[trigger]
        local_to(local, *created) && label@ == group_name(
            group_of(now.day_count(), local.day_count()),
        );
    local_day_is_near(local, *created);
    assert(right_label(label@, now.day_count(), local.day_count()));
}

/// Whether a row is one of the meetings whose day belongs to a group.
pub open spec fn of_group(
    meetings: Seq<MeetingRow>,
    days: Seq<i64>,
    today: int,
    index: int,
    row: MeetingRow,
) -> bool {
    exists|i: int|
        0 <= i < meetings.len() && #[trigger] meetings[i] == row && group_of(today, days[i] as int)
            == index
}

/// Whether a row is one of the meetings, and a label says how long ago its day is.
pub open spec fn labelled(
    meetings: Seq<MeetingRow>,
    days: Seq<i64>,
    today: int,
    label: Seq<char>,
    row: MeetingRow,
) -> bool {
    exists|i: int|
        0 <= i < meetings.len() && #[trigger] meetings[i] == row && right_label(
            label,
            today,
            days[i] as int,
        )
}

proof fn lemma_in_group(meetings: Seq<MeetingRow>, days: Seq<i64>, today: int, index: int)
    requires
        days.len() >= meetings.len(),
    ensures
        forall|j: int|
            0 <= j < in_group(meetings, days, today, index).len() ==> of_group(
                meetings,
                days,
                today,
                index,
                #[trigger] in_group(meetings, days, today, index)[j],
            ),
        forall|i: int|
            0 <= i < meetings.len() && group_of(today, days[i] as int) == index ==> in_group(
                meetings,
                days,
                today,
                index,
            ).contains(#[trigger] meetings[i]),
    decreases meetings.len(),
{
    if meetings.len() > 0 {
        let front = meetings.drop_last();
        lemma_in_group(front, days, today, index);
        let rows = in_group(meetings, days, today, index);
        let before = in_group(front, days, today, index);
        assert forall|j: int| 0 <= j < rows.len() implies of_group(
            meetings,
            days,
            today,
            index,
            #[trigger] rows[j],
        ) by {
            if j < before.len() {
                assert(rows[j] == before[j]);
                assert(of_group(front, days, today, index, before[j]));
                let i = choose|i: int|
                    0 <= i < front.len() && #[trigger] front[i] == before[j] && group_of(
                        today,
                        days[i] as int,
                    ) == index;
                assert(meetings[i] == rows[j]);
            } else {
                assert(meetings[meetings.len() - 1] == rows[j]);
            }
        }
        assert forall|i: int|
            0 <= i < meetings.len() && group_of(today, days[i] as int) == index implies rows.contains(
            #[trigger] meetings[i],
        ) by {
            if i < front.len() {
                assert(before.contains(front[i]));
                let j = choose|j: int| 0 <= j < before.len() && before[j] == front[i];
                assert(rows[j] == meetings[i]);
            } else {
                assert(rows[rows.len() - 1] == meetings[i]);
            }
        }
    }
}

proof fn lemma_groups(meetings: Seq<MeetingRow>, days: Seq<i64>, today: int, from: int)
    requires
        0 <= from <= 4,
    ensures
        forall|k: int|
            0 <= k < groups_from(meetings, days, today, from).len() ==> exists|index: int|
                from <= index < 4 && (#[trigger] groups_from(meetings, days, today, from)[k]) == (
                    group_name(index),
                    #[trigger] in_group(meetings, days, today, index),
                ),
        forall|index: int|
            from <= index < 4 && (#[trigger] in_group(meetings, days, today, index)).len() > 0
                ==> groups_from(meetings, days, today, from).contains(
                (group_name(index), in_group(meetings, days, today, index)),
            ),
    decreases 4 - from,
{
    if from < 4 {
        lemma_groups(meetings, days, today, from + 1);
        let all = groups_from(meetings, days, today, from);
        let rest = groups_from(meetings, days, today, from + 1);
        let rows = in_group(meetings, days, today, from);
        assert forall|k: int| 0 <= k < all.len() implies exists|index: int|
            from <= index < 4 && (#[trigger] all[k]) == (
                group_name(index),
                #[trigger] in_group(meetings, days, today, index),
            ) by {
            if rows.len() > 0 && k == 0 {
                assert(all[0] == (group_name(from), in_group(meetings, days, today, from)));
            } else {
                let j = if rows.len() > 0 {
                    k - 1
                } else {
                    k
                };
                assert(all[k] == rest[j]);
            }
        }
        assert forall|index: int|
            from <= index < 4 && (#[trigger] in_group(meetings, days, today, index)).len()
                > 0 implies all.contains(
            (group_name(index), in_group(meetings, days, today, index)),
        ) by {
            let g = (group_name(index), in_group(meetings, days, today, index));
            if index == from {
                assert(all[0] == g);
            } else {
                assert(rest.contains(g));
                let j = choose|j: int| 0 <= j < rest.len() && rest[j] == g;
                if rows.len() > 0 {
                    assert(all[j + 1] == g);
                } else {
                    assert(all[j] == g);
                }
            }
        }
    }
}

/// Every meeting stands under the label that says how long ago its day is, and
/// under no label stands a meeting of another day.
pub proof fn meetings_stand_under_their_days<'a>(
    today: i64,
    meetings: &'a Vec<MeetingRow>,
    days: &Vec<i64>,
    r: Vec<(&'static str, Vec<&'a MeetingRow>)>,
)
    requires
        days@.len() == meetings@.len(),
        call_ensures(group_by_days, (today, meetings, days), r),
    ensures
        forall|k: int, j: int|
            0 <= k < r@.len() && 0 <= j < r@[k].1@.len() ==> labelled(
                meetings@,
                days@,
                today as int,
                r@[k].0@,
                *(#[trigger] r@[k].1@[j]),
            ),
        forall|i: int|
            0 <= i < meetings@.len() ==> exists|k: int|
                0 <= k < r@.len() && rows_of((#[trigger] r@[k]).1@).contains(#[trigger] meetings@[i])
                    && right_label(r@[k].0@, today as int, days@[i] as int),
{
    let all = groups_from(meetings@, days@, today as int, 0);
    let got = group_rows(r@);
    assert(got.len() == r@.len());
    lemma_groups(meetings@, days@, today as int, 0);
    assert forall|k: int, j: int| 0 <= k < r@.len() && 0 <= j < r@[k].1@.len() implies labelled(
        meetings@,
        days@,
        today as int,
        r@[k].0@,
        *(#[trigger] r@[k].1@[j]),
    ) by {
        assert(got[k] == (r@[k].0@, rows_of(r@[k].1@)));
        let index = choose|index: int|
            0 <= index < 4 && all[k] == (
                group_name(index),
                #[trigger] in_group(meetings@, days@, today as int, index),
            );
        lemma_in_group(meetings@, days@, today as int, index);
        let rows = in_group(meetings@, days@, today as int, index);
        assert(rows == rows_of(r@[k].1@));
        assert(rows_of(r@[k].1@)[j] == *r@[k].1@[j]);
        assert(of_group(meetings@, days@, today as int, index, rows[j]));
        let i = choose|i: int|
            0 <= i < meetings@.len() && #[trigger] meetings@[i] == rows[j] && group_of(
                today as int,
                days@[i] as int,
            ) == index;
        assert(right_label(r@[k].0@, today as int, days@[i] as int));
    }
    assert forall|i: int| 0 <= i < meetings@.len() implies exists|k: int|
        0 <= k < r@.len() && rows_of((#[trigger] r@[k]).1@).contains(#[trigger] meetings@[i])
            && right_label(r@[k].0@, today as int, days@[i] as int) by {
        let index = group_of(today as int, days@[i] as int);
        lemma_in_group(meetings@, days@, today as int, index);
        let rows = in_group(meetings@, days@, today as int, index);
        assert(rows.contains(meetings@[i]));
        let g = (group_name(index), rows);
        assert(all.contains(g));
        let k = choose|k: int| 0 <= k < all.len() && all[k] == g;
        assert(got[k] == (r@[k].0@, rows_of(r@[k].1@)));
        assert(rows_of(r@[k].1@).contains(meetings@[i]));
        assert(right_label(r@[k].0@, today as int, days@[i] as int));
    }
}

/// How recent the days under a label are.
pub open spec fn recency(label: Seq<char>) -> int {
    if label == "Today"@ {
        0
    } else if label == "Yesterday"@ {
        1
    } else if label == "This week"@ {
        2
    } else {
        3
    }
}

proof fn lemma_names()
    ensures
        forall|i: int| 0 <= i < 4 ==> recency(#[trigger] group_name(i)) == i,
{
    reveal_strlit("Today");
    reveal_strlit("Yesterday");
    reveal_strlit("This week");
    reveal_strlit("Older");
    assert("Today"@.len() == 5 && "Yesterday"@.len() == 9 && "This week"@.len() == 9 && "Older"@.len()
        == 5);
    assert("Today"@[0] != "Older"@[0]);
    assert("Yesterday"@[0] != "This week"@[0]);
}

proof fn lemma_groups_ranked(
    meetings: Seq<MeetingRow>,
    days: Seq<i64>,
    today: int,
    from: int,
    k: int,
    l: int,
)
    requires
        0 <= from <= 4,
        0 <= k < l < groups_from(meetings, days, today, from).len(),
    ensures
        recency(groups_from(meetings, days, today, from)[k].0) < recency(
            groups_from(meetings, days, today, from)[l].0,
        ),
    decreases 4 - from,
{
    lemma_names();
    if from < 4 {
        let all = groups_from(meetings, days, today, from);
        let rest = groups_from(meetings, days, today, from + 1);
        let rows = in_group(meetings, days, today, from);
        lemma_groups(meetings, days, today, from + 1);
        if rows.len() == 0 {
            lemma_groups_ranked(meetings, days, today, from + 1, k, l);
        } else if k > 0 {
            assert(all[k] == rest[k - 1] && all[l] == rest[l - 1]);
            lemma_groups_ranked(meetings, days, today, from + 1, k - 1, l - 1);
        } else {
            assert(all[l] == rest[l - 1]);
            let index = choose|index: int|
                from + 1 <= index < 4 && rest[l - 1] == (
                    group_name(index),
                    #[trigger] in_group(meetings, days, today, index),
                );
            assert(recency(group_name(index)) == index);
            assert(recency(group_name(from)) == from);
        }
    }
}

/// The groups come with the most recent first, no label twice.
pub proof fn recent_groups_come_first<'a>(
    today: i64,
    meetings: &'a Vec<MeetingRow>,
    days: &Vec<i64>,
    r: Vec<(&'static str, Vec<&'a MeetingRow>)>,
    k: int,
    l: int,
)
    requires
        call_ensures(group_by_days, (today, meetings, days), r),
        0 <= k < l < r@.len(),
    ensures
        recency(r@[k].0@) < recency(r@[l].0@),
{
    let got = group_rows(r@);
    assert(got[k] == (r@[k].0@, rows_of(r@[k].1@)));
    assert(got[l] == (r@[l].0@, rows_of(r@[l].1@)));
    lemma_groups_ranked(meetings@, days@, today as int, 0, k, l);
}

proof fn lemma_group_at(meetings: Seq<MeetingRow>, days: Seq<i64>, today: int, k: int) -> (index: int)
    requires
        0 <= k < groups_from(meetings, days, today, 0).len(),
    ensures
        0 <= index < 4,
        groups_from(meetings, days, today, 0)[k] == (
            group_name(index),
            in_group(meetings, days, today, index),
        ),
{
    lemma_groups(meetings, days, today, 0);
    choose|index: int|
        0 <= index < 4 && groups_from(meetings, days, today, 0)[k] == (
            group_name(index),
            #[trigger] in_group(meetings, days, today, index),
        )
}

/// Within a group meetings keep the order in which they came: one more meeting
/// goes to the end of one group and changes no other.
pub proof fn groups_keep_the_order_of_meetings<'a>(
    today: i64,
    meetings: &'a Vec<MeetingRow>,
    days: &Vec<i64>,
    front: &'a Vec<MeetingRow>,
    front_days: &Vec<i64>,
    r: Vec<(&'static str, Vec<&'a MeetingRow>)>,
    of_front: Vec<(&'static str, Vec<&'a MeetingRow>)>,
    k: int,
)
    requires
        meetings@.len() > 0,
        days@.len() == meetings@.len(),
        front@ == meetings@.drop_last(),
        front_days@ == days@.drop_last(),
        call_ensures(group_by_days, (today, meetings, days), r),
        call_ensures(group_by_days, (today, front, front_days), of_front),
        0 <= k < r@.len(),
    ensures
        rows_of(r@[k].1@) == seq![meetings@.last()] || exists|l: int|
            0 <= l < of_front@.len() && (#[trigger] of_front@[l]).0@ == r@[k].0@ && (rows_of(
                r@[k].1@,
            ) == rows_of(of_front@[l].1@) || rows_of(r@[k].1@) == rows_of(of_front@[l].1@).push(
                meetings@.last(),
            )),
{
    let t = today as int;
    let got = group_rows(r@);
    let before = group_rows(of_front@);
    assert(got[k] == (r@[k].0@, rows_of(r@[k].1@)));
    let index = lemma_group_at(meetings@, days@, t, k);
    let rows = in_group(meetings@, days@, t, index);
    lemma_days_prefix(front@, days@, front_days@, t, index);
    let had = in_group(front@, front_days@, t, index);
    crate::shell::meeting_list::shown_groups_are_not_empty(meetings@, days@, t, 0);
    lemma_groups(front@, front_days@, t, 0);
    if had.len() > 0 {
        let g = (group_name(index), had);
        let all = groups_from(front@, front_days@, t, 0);
        assert(all.contains(g));
        let l = choose|l: int| 0 <= l < all.len() && all[l] == g;
        assert(before[l] == (of_front@[l].0@, rows_of(of_front@[l].1@)));
        assert(of_front@[l].0@ == r@[k].0@);
    } else {
        assert(rows.len() > 0);
        assert(rows =~= seq![meetings@.last()]);
    }
}

proof fn lemma_days_prefix(meetings: Seq<MeetingRow>, a: Seq<i64>, b: Seq<i64>, today: int, index: int)
    requires
        a.len() >= meetings.len(),
        b.len() >= meetings.len(),
        forall|i: int| 0 <= i < meetings.len() ==> #[trigger] a[i] == b[i],
    ensures
        in_group(meetings, a, today, index) == in_group(meetings, b, today, index),
    decreases meetings.len(),
{
    if meetings.len() > 0 {
        lemma_days_prefix(meetings.drop_last(), a, b, today, index);
        assert(a[meetings.len() - 1] == b[meetings.len() - 1]);
    }
}

/// A title with a word in it is found by that word, as it is written there and in
/// any other case of its ASCII letters.
pub proof fn words_of_a_title_find_it<'a>(
    meetings: &'a Vec<MeetingRow>,
    query: &str,
    r: Vec<&'a MeetingRow>,
    at: int,
    a: Seq<char>,
    word: Seq<char>,
    b: Seq<char>,
)
    requires
        call_ensures(filter_by_title, (meetings, query), r),
        0 <= at < meetings@.len(),
        meetings@[at].title@ == a + word + b,
        ascii_lowercase(trimmed(query@)) == ascii_lowercase(word),
        lowercase(meetings@[at].title@) == ascii_lowercase(meetings@[at].title@),
        lowercase(trimmed(query@)) == ascii_lowercase(trimmed(query@)),
    ensures
        rows_of(r@).contains(meetings@[at]),
{
    lemma_ascii_infix(a, word, b);
    let hay = ascii_lowercase(meetings@[at].title@);
    let needle = ascii_lowercase(word);
    assert(hay == ascii_lowercase(a) + needle + ascii_lowercase(b));
    assert(holds(hay, needle));
    lemma_infix_holds(hay, needle);
    lemma_kept(meetings@, |m: MeetingRow| title_matches(m.title@, query@), at);
}

proof fn lemma_first_hits(rows: Seq<ContentMatch>, shown: Seq<Seq<char>>)
    ensures
        forall|k: int|
            0 <= k < first_hits(rows, shown).len() ==> exists|i: int|
                0 <= i < rows.len() && #[trigger] rows[i] == (#[trigger] first_hits(rows, shown)[k])
                    && forall|j: int| 0 <= j < i ==> (#[trigger] rows[j]).meeting_id@
                    != rows[i].meeting_id@,
    decreases rows.len(),
{
    if rows.len() > 0 {
        let front = rows.drop_last();
        lemma_first_hits(front, shown);
        each_meeting_is_found_once(front, shown);
        let all = first_hits(rows, shown);
        let before = first_hits(front, shown);
        assert forall|k: int| 0 <= k < all.len() implies exists|i: int|
            0 <= i < rows.len() && #[trigger] rows[i] == (#[trigger] all[k]) && forall|j: int|
                0 <= j < i ==> (#[trigger] rows[j]).meeting_id@ != rows[i].meeting_id@ by {
            if k < before.len() {
                assert(all[k] == before[k]);
                let i = choose|i: int|
                    0 <= i < front.len() && #[trigger] front[i] == before[k] && forall|j: int|
                        0 <= j < i ==> (#[trigger] front[j]).meeting_id@ != front[i].meeting_id@;
                assert(rows[i] == all[k]);
                assert forall|j: int| 0 <= j < i implies (#[trigger] rows[j]).meeting_id@
                    != rows[i].meeting_id@ by {
                    assert(front[j].meeting_id@ != front[i].meeting_id@);
                }
            } else {
                let i = rows.len() - 1;
                assert(rows[i] == all[k]);
                assert forall|j: int| 0 <= j < i implies (#[trigger] rows[j]).meeting_id@
                    != rows[i].meeting_id@ by {
                    assert(front[j] == rows[j]);
                    if rows[j].meeting_id@ == rows[i].meeting_id@ {
                        assert(!shown.contains(front[j].meeting_id@));
                    }
                }
            }
        }
    }
}

/// Of a meeting whose title is not shown already the first hit in its transcript
/// is listed, and no other; of one that is shown none is.
pub proof fn the_first_hit_of_a_meeting_is_listed(
    rows: Vec<ContentMatch>,
    shown: &Vec<String>,
    r: Vec<ContentMatch>,
)
    requires
        call_ensures(build_content_matches, (rows, shown), r),
    ensures
        forall|k: int|
            0 <= k < r@.len() ==> exists|i: int|
                0 <= i < rows@.len() && #[trigger] rows@[i] == (#[trigger] r@[k]) && forall|j: int|
                    0 <= j < i ==> (#[trigger] rows@[j]).meeting_id@ != rows@[i].meeting_id@,
        forall|k: int, s: int|
            0 <= k < r@.len() && 0 <= s < shown@.len() ==> (#[trigger] r@[k]).meeting_id@ != (
            #[trigger] shown@[s])@,
        forall|i: int|
            0 <= i < rows@.len() && (forall|s: int|
                0 <= s < shown@.len() ==> (#[trigger] shown@[s])@ != rows@[i].meeting_id@)
                ==> exists|k: int|
                0 <= k < r@.len() && (#[trigger] r@[k]).meeting_id@ == (
                #[trigger] rows@[i]).meeting_id@,
        forall|k: int, l: int|
            0 <= k < l < r@.len() ==> (#[trigger] r@[k]).meeting_id@ != (#[trigger] r@[l]).meeting_id@,
{
    let ids = texts(shown@);
    lemma_first_hits(rows@, ids);
    each_meeting_is_found_once(rows@, ids);
    let hits = hit_ids(r@);
    assert forall|k: int, s: int| 0 <= k < r@.len() && 0 <= s < shown@.len() implies (
    #[trigger] r@[k]).meeting_id@ != (#[trigger] shown@[s])@ by {
        assert(!ids.contains(hits[k]));
        assert(ids[s] == shown@[s]@);
        assert(hits[k] == r@[k].meeting_id@);
    }
    assert forall|i: int|
        0 <= i < rows@.len() && (forall|s: int|
            0 <= s < shown@.len() ==> (#[trigger] shown@[s])@ != rows@[i].meeting_id@) implies exists|
        k: int,
    |
        0 <= k < r@.len() && (#[trigger] r@[k]).meeting_id@ == (#[trigger] rows@[i]).meeting_id@ by {
        if ids.contains(rows@[i].meeting_id@) {
            let s = choose|s: int| 0 <= s < ids.len() && ids[s] == rows@[i].meeting_id@;
            assert(shown@[s]@ == rows@[i].meeting_id@);
        }
        assert(hits.contains(rows@[i].meeting_id@));
        let k = choose|k: int| 0 <= k < hits.len() && hits[k] == rows@[i].meeting_id@;
        assert(r@[k].meeting_id@ == rows@[i].meeting_id@);
    }
    assert forall|k: int, l: int| 0 <= k < l < r@.len() implies (#[trigger] r@[k]).meeting_id@ != (
    #[trigger] r@[l]).meeting_id@ by {
        assert(hits[k] != hits[l]);
    }
}

/// A meeting goes by its title as it stands, and by "Untitled meeting" where that
/// is blank; a hit shows what was found behind it.
pub proof fn meetings_go_by_their_titles(
    title: &str,
    blank: bool,
    r: String,
    hit: &ContentMatch,
    of_hit: String,
)
    requires
        call_ensures(meeting_label, (title,), r),
        call_ensures(is_blank, (title,), blank),
        hit.title@ == title@,
        call_ensures(content_match_label, (hit,), of_hit),
    ensures
        !blank ==> r@ == title@,
        blank ==> r@ == "Untitled meeting"@,
        of_hit@ == r@ + " — "@ + hit.snippet@,
{
}

/// Going to a meeting loads it, and going anywhere else loads none; the page is
/// then the one that was asked for.
pub proof fn pages_are_gone_to(shell: &mut AppShell, route: Route, r: NavEffects)
    requires
        call_ensures(AppShell::navigate, (shell, route), r),
    ensures
        final(shell).route == route,
        route matches Route::Meeting(id) ==> (r.load_meeting matches Some(l) && l@ == id@),
        !(route is Meeting) ==> r.load_meeting is None,
        r.leave_speakers == (old(shell).route is Speakers && !(route is Speakers)),
        final(shell).meetings == old(shell).meetings,
        final(shell).content_matches == old(shell).content_matches,
{
}

/// Unsaved edits are never left without asking: from a meeting with unsaved edits
/// one goes nowhere at once. The page that is shown is not gone to again.
pub proof fn edits_are_not_left_unasked(shell: &mut AppShell, route: Route, unsaved: bool, r: NavOutcome)
    requires
        call_ensures(AppShell::attempt_navigate, (shell, route, unsaved), r),
    ensures
        old(shell).route is Meeting && unsaved ==> final(shell).route == old(shell).route && !(
        r is Went),
        (route is Recording && old(shell).route is Recording) || (route is Settings && old(shell).route is Settings) ==> r is Stay,
        !unsaved && route is Settings && !(old(shell).route is Settings) ==> r is Went && final(shell).route == route,
        old(shell).route matches Route::Meeting(a) && (route matches Route::Meeting(b) && a@ != b@
            && !unsaved) ==> r is Went && final(shell).route == route,
        old(shell).route matches Route::Meeting(a) && (route matches Route::Meeting(b) && a@ == b@)
            ==> r is Stay,
{
}

/// Asked about unsaved edits, one stays, or goes with them saved or dropped as one
/// chose.
pub proof fn leaving_does_what_was_chosen(
    shell: &mut AppShell,
    route: Route,
    choice: LeaveChoice,
    r: Option<(NavEffects, bool)>,
)
    requires
        call_ensures(AppShell::confirm_leave_meeting, (shell, route, choice), r),
    ensures
        choice is Cancel <==> r is None,
        choice is Cancel ==> final(shell).route@ == old(shell).route@,
        choice is Save ==> (r matches Some(e) && e.1),
        choice is Discard ==> (r matches Some(e) && !e.1),
        !(choice is Cancel) ==> final(shell).route@ == route@,
{
}

/// The entry of a meeting is active exactly while that meeting is shown.
pub proof fn shown_meetings_are_active(shell: &AppShell, id: &str, r: bool)
    requires
        call_ensures(AppShell::is_active, (shell, id), r),
    ensures
        shell.route matches Route::Meeting(shown) ==> r == (shown@ == id@),
        !(shell.route is Meeting) ==> !r,
{
}

/// What was typed is searched in transcripts once typing pauses, unless it is
/// blank, which clears the hits.
pub proof fn blank_searches_clear_hits(
    shell: &mut AppShell,
    query: &str,
    has_db: bool,
    blank: bool,
    r: SearchStep,
)
    requires
        call_ensures(AppShell::search_transcript_content, (shell, query, has_db), r),
        call_ensures(is_blank, (query,), blank),
    ensures
        blank ==> r is Cleared && final(shell).content_matches@.len() == 0 && !final(shell).content_search_loading,
        !blank && has_db ==> r is Debounce && final(shell).content_search_loading,
        !blank && !has_db ==> r is Nothing,
{
}

/// Hits for a query that no longer stands are dropped.
pub proof fn late_hits_are_dropped(
    shell: &mut AppShell,
    searched: &str,
    current: &str,
    rows: Option<Vec<ContentMatch>>,
)
    requires
        call_ensures(AppShell::finish_search, (shell, searched, current, rows), ()),
    ensures
        searched@ != current@ ==> final(shell).content_matches == old(shell).content_matches,
        searched@ == current@ && rows is None ==> final(shell).content_matches@.len() == 0,
        !final(shell).content_search_loading,
{
}

/// Hits for the query that stands are listed, one for each meeting whose title
/// the query does not find.
pub proof fn hits_are_listed_beside_titles<'a>(
    shell: &mut AppShell,
    searched: &str,
    current: &str,
    rows: Vec<ContentMatch>,
    found: Vec<&'a MeetingRow>,
    i: int,
)
    requires
        searched@ == current@,
        call_ensures(AppShell::finish_search, (shell, searched, current, Some(rows)), ()),
        call_ensures(filter_by_title, (&old(shell).meetings, searched), found),
        0 <= i < rows@.len(),
    ensures
        (exists|k: int|
            0 <= k < final(shell).content_matches@.len() && (
            #[trigger] final(shell).content_matches@[k]).meeting_id@ == rows@[i].meeting_id@) <==> (
        forall|j: int|
            0 <= j < found@.len() ==> (#[trigger] found@[j]).id@ != rows@[i].meeting_id@),
{
    let ids = AppShell::ids_shown(old(shell).meetings@, searched@);
    each_meeting_is_found_once(rows@, ids);
    let hits = hit_ids(final(shell).content_matches@);
    let id = rows@[i].meeting_id@;
    let titles = rows_of(found@);
    assert(titles == title_hits(old(shell).meetings@, searched@));
    assert(ids.contains(id) <==> exists|j: int|
        0 <= j < found@.len() && (#[trigger] found@[j]).id@ == id) by {
        if ids.contains(id) {
            let j = choose|j: int| 0 <= j < ids.len() && ids[j] == id;
            assert(titles[j] == *found@[j]);
            assert(found@[j].id@ == id);
        }
        if exists|j: int| 0 <= j < found@.len() && (#[trigger] found@[j]).id@ == id {
            let j = choose|j: int| 0 <= j < found@.len() && (#[trigger] found@[j]).id@ == id;
            assert(titles[j] == *found@[j]);
            assert(ids[j] == id);
        }
    }
    if !ids.contains(id) {
        assert(hits.contains(id));
        let k = choose|k: int| 0 <= k < hits.len() && hits[k] == id;
        assert(final(shell).content_matches@[k].meeting_id@ == id);
    }
    if exists|k: int|
        0 <= k < final(shell).content_matches@.len() && (
        #[trigger] final(shell).content_matches@[k]).meeting_id@ == id {
        let k = choose|k: int|
            0 <= k < final(shell).content_matches@.len() && (
            #[trigger] final(shell).content_matches@[k]).meeting_id@ == id;
        assert(hits[k] == id);
        assert(!ids.contains(hits[k]));
    }
}

/// Meetings that were loaded are listed as they came; where they could not be
/// loaded, none is.
pub proof fn loaded_meetings_are_listed(shell: &mut AppShell, rows: Option<Vec<MeetingRow>>)
    requires
        call_ensures(AppShell::finish_load_meetings, (shell, rows), ()),
    ensures
        rows matches Some(m) ==> final(shell).meetings@ == m@,
        rows is None ==> final(shell).meetings@.len() == 0,
        !final(shell).meetings_loading,
        final(shell).route == old(shell).route,
{
}

/// The sidebar says that nothing matches only where something was typed, nothing
/// is loading and no group is left.
pub proof fn sidebars_say_what_they_show(
    shell: &mut AppShell,
    groups: usize,
    rows: usize,
    query: &str,
    blank: bool,
    r: (bool, bool, bool),
)
    requires
        call_ensures(AppShell::draw_sidebar, (shell, groups, rows, query), r),
        call_ensures(is_blank, (query,), blank),
    ensures
        r.1 == (!blank && groups == 0 && !old(shell).meetings_loading),
        r.2 == (!blank && (old(shell).content_search_loading || old(shell).content_matches@.len()
            > 0)),
{
}

/// Events that change the list of meetings have it loaded again.
pub proof fn meeting_events_refresh_the_list(name: &str, r: bool)
    requires
        call_ensures(crate::shell::navigation::is_refresh_event, (name,), r),
    ensures
        name@ == "recording-started"@ || name@ == "recording-stopped"@ || name@ == "meeting-refined"@
            || name@ == "import-complete"@ || name@ == "retranscription-complete"@ ==> r,
        name@ == "recording-state"@ || name@ == "audio-levels"@ || name@ == "transcript-update"@ ==> !r,
{
    reveal_strlit("recording-started");
    reveal_strlit("recording-stopped");
    reveal_strlit("meeting-refined");
    reveal_strlit("import-complete");
    reveal_strlit("retranscription-complete");
    reveal_strlit("recording-state");
    reveal_strlit("audio-levels");
    reveal_strlit("transcript-update");
    if name@ == "recording-state"@ {
        assert("recording-state"@[0] != "meeting-refined"@[0]);
        assert("recording-state"@[0] != "import-complete"@[0]);
        assert("recording-state"@.len() == 15);
    }
    if name@ == "transcript-update"@ {
        assert("transcript-update"@[0] != "recording-started"@[0]);
        assert("transcript-update"@[0] != "recording-stopped"@[0]);
        assert("transcript-update"@.len() == 17);
    }
    assert("audio-levels"@.len() == 12);
}

/// Quitting begins once, however often it is asked for.
pub proof fn quitting_begins_once(guard: &mut QuitGuard, r: bool)
    requires
        call_ensures(QuitGuard::request_quit, (guard,), r),
    ensures
        r <==> !old(guard).started,
        final(guard).started,
{
}

/// Pages are the same where they are of one kind, and show one meeting.
pub proof fn pages_are_the_same_where_they_show_the_same(a: &Route, b: &Route, r: bool, new: AppShell)
    requires
        call_ensures(Route::same, (a, b), r),
        call_ensures(AppShell::new, (), new),
    ensures
        *a matches Route::Meeting(x) ==> (*b matches Route::Meeting(y) ==> (r <==> x@ == y@)),
        *a is Meeting && !(*b is Meeting) ==> !r,
        *a is Recording ==> (r <==> *b is Recording),
        *a is Settings ==> (r <==> *b is Settings),
        *a is ActionItems ==> (r <==> *b is ActionItems),
        *a is Speakers ==> (r <==> *b is Speakers),
        new.route is Recording && new.meetings@.len() == 0 && !new.meetings_loading,
{
}

/// Meetings are loaded where there is a database.
pub proof fn meetings_need_a_database(shell: &mut AppShell, has_db: bool, r: bool)
    requires
        call_ensures(AppShell::begin_load_meetings, (shell, has_db), r),
    ensures
        r == has_db,
        has_db ==> final(shell).meetings_loading,
        !has_db ==> final(shell).meetings_loading == old(shell).meetings_loading,
        final(shell).meetings == old(shell).meetings,
{
}

/// In the machine's time zone too every meeting stands under a label, that of its
/// day in UTC or of a day next to it.
pub proof fn meetings_stand_under_near_days<'a>(
    now: &Stamp,
    meetings: &'a Vec<MeetingRow>,
    r: Vec<(&'static str, Vec<&'a MeetingRow>)>,
    k: int,
    j: int,
)
    requires
        call_ensures(crate::shell::meeting_list::group_meetings, (now, meetings), r),
        0 <= k < r@.len(),
        0 <= j < r@[k].1@.len(),
    ensures
        exists|i: int, day: int|
            0 <= i < meetings@.len() && #[trigger] meetings@[i] == *r@[k].1@[j] && #[trigger] right_label(
                r@[k].0@,
                now.day_count(),
                day,
            ) && crate::clock::EPOCH_DAY + meetings@[i].created_at.seconds as int / 86_400 - 1 <= day
                <= crate::clock::EPOCH_DAY + meetings@[i].created_at.seconds as int / 86_400 + 1,
{
    let today = now.day_count();
    let days = choose|days: Seq<i64>|
        crate::shell::meeting_list::possible_days(meetings@, days) && group_rows(r@)
            == #[trigger] groups_from(meetings@, days, today, 0);
    let got = group_rows(r@);
    assert(got.len() == r@.len());
    assert(got[k] == (r@[k].0@, rows_of(r@[k].1@)));
    let index = lemma_group_at(meetings@, days, today, k);
    lemma_in_group(meetings@, days, today, index);
    let rows = in_group(meetings@, days, today, index);
    assert(rows == rows_of(r@[k].1@));
    assert(rows_of(r@[k].1@)[j] == *r@[k].1@[j]);
    assert(of_group(meetings@, days, today, index, rows[j]));
    let i = choose|i: int|
        0 <= i < meetings@.len() && #[trigger] meetings@[i] == rows[j] && group_of(
            today,
            days[i] as int,
        ) == index;
    crate::shell::meeting_list::possible_days_are_near(meetings@, days, i);
    assert(right_label(r@[k].0@, today, days[i] as int));
}

} // verus!
