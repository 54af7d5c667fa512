//! The sidebar's meeting list: groups by date, the title filter, and hits in
//! transcripts.
use vstd::prelude::*;
use crate::clock::{local_day_is_near, local_stamp, local_to, Moment, Stamp, EPOCH_DAY};
use crate::text::{contains_text, is_blank, texts, trim, trimmed};
use crate::words::{contains, has_infix, lowercase, to_lowercase};

verus! {

/// A meeting in the list.
#[derive(Debug, Clone, PartialEq, Eq)]
pub struct MeetingRow {
    pub id: String,
    pub title: String,
    pub created_at: Moment,
}

/// The groups, in the order in which they are shown.
pub const GROUP_ORDER: [&'static str; 4] = ["Today", "Yesterday", "This week", "Older"];

/// The place in [`GROUP_ORDER`] of a day, seen from today: today, yesterday,
/// less than seven days ago, older. A day to come counts as this week.
pub open spec fn group_of(today: int, created: int) -> int {
    if created == today {
        0
    } else if created == today - 1 {
        1
    } else if today - created < 7 {
        2
    } else {
        3
    }
}

/// The place in [`GROUP_ORDER`] of a day, seen from today.
pub fn group_index(today: i64, created: i64) -> (r: usize)
    requires
        i32::MIN <= today <= i32::MAX,
        i32::MIN <= created <= i32::MAX,
    ensures
        r == group_of(today as int, created as int),
        r < 4,
{
    if created == today {
        0
    } else if created == today - 1 {
        1
    } else if today - created < 7 {
        2
    } else {
        3
    }
}

/// The name of a group.
pub open spec fn group_name(index: int) -> Seq<char> {
    if index == 0 {
        "Today"@
    } else if index == 1 {
        "Yesterday"@
    } else if index == 2 {
        "This week"@
    } else {
        "Older"@
    }
}

/// The name of a group.
pub fn label_at(index: usize) -> (r: &'static str)
    ensures
        r@ == group_name(index as int),
{
    if index == 0 {
        "Today"
    } else if index == 1 {
        "Yesterday"
    } else if index == 2 {
        "This week"
    } else {
        "Older"
    }
}

/// Every day is in exactly one group, and an earlier day is never in an earlier
/// group, apart from days to come.
pub proof fn groups_follow_time(today: int, earlier: int, later: int)
    requires
        earlier <= later <= today,
    ensures
        0 <= group_of(today, later) <= group_of(today, earlier) < 4,
{
}

/// The group of a meeting created at `created_at`, seen from `now`, both in the
/// machine's time zone.
pub fn group_label(now: &Stamp, created_at: &Moment) -> (r: &'static str)
    requires
        now.valid(),
        created_at.valid(),
    ensures
        exists|local: Stamp| #[trigger]
            local_to(local, *created_at) && r@ == group_name(
                group_of(now.day_count(), local.day_count()),
            ),
{
    let local = local_stamp(created_at);
    let index = group_index(now.days(), local.days());
    assert(local_to(local, *created_at));
    label_at(index)
}

/// The meetings of one group, in order. `days` is the day of each meeting.
pub open spec fn in_group(
    meetings: Seq<MeetingRow>,
    days: Seq<i64>,
    today: int,
    index: int,
) -> Seq<MeetingRow>
    decreases meetings.len(),
{
    if meetings.len() == 0 {
        meetings
    } else {
        let before = in_group(meetings.drop_last(), days, today, index);
        if group_of(today, days[meetings.len() - 1] as int) == index {
            before.push(meetings.last())
        } else {
            before
        }
    }
}

/// The groups from `index` on that have meetings, with their names.
pub open spec fn groups_from(
    meetings: Seq<MeetingRow>,
    days: Seq<i64>,
    today: int,
    index: int,
) -> Seq<(Seq<char>, Seq<MeetingRow>)>
    decreases 4 - index,
{
    if index >= 4 {
        Seq::empty()
    } else {
        let rows = in_group(meetings, days, today, index);
        let rest = groups_from(meetings, days, today, index + 1);
        if rows.len() == 0 {
            rest
        } else {
            seq![(group_name(index), rows)] + rest
        }
    }
}

/// The meetings of a list of references.
pub open spec fn rows_of(rows: Seq<&MeetingRow>) -> Seq<MeetingRow> {
    rows.map_values(|m: &MeetingRow| *m)
}

/// Groups of references, with their names.
pub open spec fn group_rows(groups: Seq<(&'static str, Vec<&MeetingRow>)>) -> Seq<
    (Seq<char>, Seq<MeetingRow>),
> {
    groups.map_values(|g: (&'static str, Vec<&MeetingRow>)| (g.0@, rows_of(g.1@)))
}

fn collect_group<'a>(
    meetings: &'a Vec<MeetingRow>,
    days: &Vec<i64>,
    today: i64,
    index: usize,
) -> (r: Vec<&'a MeetingRow>)
    requires
        days@.len() == meetings@.len(),
        i32::MIN <= today <= i32::MAX,
        forall|i: int| 0 <= i < days@.len() ==> i32::MIN <= #[trigger] days@[i] <= i32::MAX,
    ensures
        rows_of(r@) == in_group(meetings@, days@, today as int, index as int),
{
    let mut out: Vec<&'a MeetingRow> = Vec::new();
    assert(rows_of(out@) =~= in_group(meetings@.take(0), days@, today as int, index as int));
    for i in 0..meetings.len()
        invariant
            days@.len() == meetings@.len(),
            i32::MIN <= today <= i32::MAX,
            forall|k: int| 0 <= k < days@.len() ==> i32::MIN <= #[trigger] days@[k] <= i32::MAX,
            rows_of(out@) == in_group(
                meetings@.take(i as int),
                days@,
                today as int,
                index as int,
            ),
    {
        let ghost next = meetings@.take(i + 1);
        assert(next.drop_last() =~= meetings@.take(i as int));
        assert(next.last() == meetings@[i as int]);
        if group_index(today, days[i]) == index {
            let ghost had = out@;
            out.push(&meetings[i]);
            assert(rows_of(out@) =~= rows_of(had).push(meetings@[i as int]));
        }
    }
    assert(meetings@.take(meetings@.len() as int) =~= meetings@);
    out
}

/// The meetings in groups by their days, in the order in which they came, and
/// only the groups that have any.
pub fn group_by_days<'a>(
    today: i64,
    meetings: &'a Vec<MeetingRow>,
    days: &Vec<i64>,
) -> (r: Vec<(&'static str, Vec<&'a MeetingRow>)>)
    requires
        days@.len() == meetings@.len(),
        i32::MIN <= today <= i32::MAX,
        forall|i: int| 0 <= i < days@.len() ==> i32::MIN <= #[trigger] days@[i] <= i32::MAX,
    ensures
        group_rows(r@) == groups_from(meetings@, days@, today as int, 0),
{
    let mut out: Vec<(&'static str, Vec<&'a MeetingRow>)> = Vec::new();
    let ghost want = groups_from(meetings@, days@, today as int, 0);
    assert(group_rows(out@) + want =~= want);
    let mut index: usize = 0;
    while index < 4
        invariant
            index <= 4,
            days@.len() == meetings@.len(),
            i32::MIN <= today <= i32::MAX,
            forall|i: int| 0 <= i < days@.len() ==> i32::MIN <= #[trigger] days@[i] <= i32::MAX,
            group_rows(out@) + groups_from(meetings@, days@, today as int, index as int) == want,
        decreases 4 - index,
    {
        let rows = collect_group(meetings, days, today, index);
        let ghost rest = groups_from(meetings@, days@, today as int, index + 1);
        assert(rows_of(rows@).len() == rows@.len());
        if rows.len() > 0 {
            let ghost had = out@;
            let entry = (label_at(index), rows);
            out.push(entry);
            assert(group_rows(out@) =~= group_rows(had).push((entry.0@, rows_of(entry.1@))));
            assert(group_rows(had) + (seq![(entry.0@, rows_of(entry.1@))] + rest) =~= group_rows(
                out@,
            ) + rest);
        }
        index += 1;
    }
    assert(group_rows(out@) + Seq::empty() =~= group_rows(out@));
    out
}

/// Whether `day` is the day of a moment in some time zone.
pub open spec fn possible_day(m: Moment, day: int) -> bool {
    exists|local: Stamp| #[trigger] local_to(local, m) && day == local.day_count()
}

/// Whether `days` are the days of meetings in some time zones.
pub open spec fn possible_days(meetings: Seq<MeetingRow>, days: Seq<i64>) -> bool {
    days.len() == meetings.len() && forall|i: int|
        0 <= i < days.len() ==> possible_day(meetings[i].created_at, #[trigger] days[i] as int)
}

/// A meeting is under the group of its day in UTC, of the day before or of the
/// day after.
pub proof fn possible_days_are_near(meetings: Seq<MeetingRow>, days: Seq<i64>, i: int)
    requires
        possible_days(meetings, days),
        0 <= i < meetings.len(),
    ensures
        EPOCH_DAY + meetings[i].created_at.seconds as int / 86_400 - 1 <= days[i] <= EPOCH_DAY
            + meetings[i].created_at.seconds as int / 86_400 + 1,
{
    let m = meetings[i].created_at;
    assert(possible_day(m, days[i] as int));
    let local = choose|local: Stamp| #[trigger] local_to(local, m) && days[i] == local.day_count();
    local_day_is_near(local, m);
}

/// The meetings in groups by date, seen from `now` in the machine's time zone.
pub fn group_meetings<'a>(now: &Stamp, meetings: &'a Vec<MeetingRow>) -> (r: Vec<
    (&'static str, Vec<&'a MeetingRow>),
>)
    requires
        now.valid(),
        forall|i: int| 0 <= i < meetings@.len() ==> (#[trigger] meetings@[i]).created_at.valid(),
    ensures
        exists|days: Seq<i64>|
            possible_days(meetings@, days) && group_rows(r@) == #[trigger] groups_from(
                meetings@,
                days,
                now.day_count(),
                0,
            ),
{
    let mut days: Vec<i64> = Vec::new();
    for i in 0..meetings.len()
        invariant
            forall|k: int|
                0 <= k < meetings@.len() ==> (#[trigger] meetings@[k]).created_at.valid(),
            days@.len() == i,
            forall|k: int| 0 <= k < days@.len() ==> i32::MIN <= #[trigger] days@[k] <= i32::MAX,
            forall|k: int|
                0 <= k < days@.len() ==> possible_day(
                    meetings@[k].created_at,
                    #[trigger] days@[k] as int,
                ),
    {
        let local = local_stamp(&meetings[i].created_at);
        let day = local.days();
        assert(possible_day(meetings@[i as int].created_at, day as int)) by {
            assert(local_to(local, meetings@[i as int].created_at));
        }
        days.push(day);
    }
    group_by_days(now.days(), meetings, &days)
}

/// How many meetings some groups hold.
pub open spec fn total_rows(groups: Seq<(Seq<char>, Seq<MeetingRow>)>) -> nat
    decreases groups.len(),
{
    if groups.len() == 0 {
        0
    } else {
        groups[0].1.len() + total_rows(groups.subrange(1, groups.len() as int))
    }
}

proof fn lemma_group_sizes(meetings: Seq<MeetingRow>, days: Seq<i64>, today: int)
    ensures
        in_group(meetings, days, today, 0).len() + in_group(meetings, days, today, 1).len()
            + in_group(meetings, days, today, 2).len() + in_group(meetings, days, today, 3).len()
            == meetings.len(),
    decreases meetings.len(),
{
    if meetings.len() > 0 {
        lemma_group_sizes(meetings.drop_last(), days, today);
    }
}

proof fn lemma_total_from(meetings: Seq<MeetingRow>, days: Seq<i64>, today: int, index: int)
    requires
        0 <= index <= 4,
    ensures
        index == 4 ==> total_rows(groups_from(meetings, days, today, index)) == 0,
        index < 4 ==> total_rows(groups_from(meetings, days, today, index)) == in_group(
            meetings,
            days,
            today,
            index,
        ).len() + total_rows(groups_from(meetings, days, today, index + 1)),
{
    if index < 4 {
        let rows = in_group(meetings, days, today, index);
        let rest = groups_from(meetings, days, today, index + 1);
        let all = groups_from(meetings, days, today, index);
        if rows.len() > 0 {
            assert(all.subrange(1, all.len() as int) =~= rest);
        }
    }
}

/// Grouping loses no meeting and shows none twice.
pub proof fn grouping_is_a_partition(meetings: Seq<MeetingRow>, days: Seq<i64>, today: int)
    ensures
        total_rows(groups_from(meetings, days, today, 0)) == meetings.len(),
{
    lemma_group_sizes(meetings, days, today);
    lemma_total_from(meetings, days, today, 0);
    lemma_total_from(meetings, days, today, 1);
    lemma_total_from(meetings, days, today, 2);
    lemma_total_from(meetings, days, today, 3);
    lemma_total_from(meetings, days, today, 4);
}

/// No shown group is empty.
pub proof fn shown_groups_are_not_empty(
    meetings: Seq<MeetingRow>,
    days: Seq<i64>,
    today: int,
    index: int,
)
    requires
        0 <= index <= 4,
    ensures
        forall|i: int|
            0 <= i < groups_from(meetings, days, today, index).len() ==> (
            #[trigger] groups_from(meetings, days, today, index)[i]).1.len() > 0,
    decreases 4 - index,
{
    if index < 4 {
        shown_groups_are_not_empty(meetings, days, today, index + 1);
        let rest = groups_from(meetings, days, today, index + 1);
        let all = groups_from(meetings, days, today, index);
        let rows = in_group(meetings, days, today, index);
        assert forall|i: int| 0 <= i < all.len() implies (#[trigger] all[i]).1.len() > 0 by {
            if rows.len() > 0 && i > 0 {
                assert(all[i] == rest[i - 1]);
            } else if rows.len() == 0 {
                assert(all[i] == rest[i]);
            }
        }
    }
}

// ---------------------------------------------------------------------------
// Searching
// ---------------------------------------------------------------------------

/// Whether a title matches a query, whatever the case. A blank query matches
/// everything.
pub open spec fn title_matches(title: Seq<char>, query: Seq<char>) -> bool {
    trimmed(query).len() == 0 || has_infix(lowercase(title), lowercase(trimmed(query)))
}

/// The meetings whose title matches a query, in order.
pub open spec fn title_hits(meetings: Seq<MeetingRow>, query: Seq<char>) -> Seq<MeetingRow> {
    meetings.filter(|m: MeetingRow| title_matches(m.title@, query))
}

/// The meetings whose title matches a query, in order.
pub fn filter_by_title<'a>(meetings: &'a Vec<MeetingRow>, query: &str) -> (r: Vec<
    &'a MeetingRow,
>)
    ensures
        rows_of(r@) == title_hits(meetings@, query@),
{
    let needle = trim(query);
    let all = needle.as_str().is_empty();
    let needle = to_lowercase(&needle);
    let ghost keep = |m: MeetingRow| title_matches(m.title@, query@);
    let mut out: Vec<&'a MeetingRow> = Vec::new();
    reveal(Seq::filter);
    assert(rows_of(out@) =~= meetings@.take(0).filter(keep));
    for i in 0..meetings.len()
        invariant
            all == (trimmed(query@).len() == 0),
            needle@ == lowercase(trimmed(query@)),
            keep == (|m: MeetingRow| title_matches(m.title@, query@)),
            rows_of(out@) == meetings@.take(i as int).filter(keep),
    {
        let ghost next = meetings@.take(i + 1);
        assert(next.drop_last() =~= meetings@.take(i as int));
        assert(next.last() == meetings@[i as int]);
        reveal(Seq::filter);
        let title = to_lowercase(&meetings[i].title);
        if all || contains(&title, &needle) {
            let ghost had = out@;
            out.push(&meetings[i]);
            assert(rows_of(out@) =~= rows_of(had).push(meetings@[i as int]));
        }
    }
    assert(meetings@.take(meetings@.len() as int) =~= meetings@);
    out
}

/// A hit in a transcript.
#[derive(Debug, Clone, PartialEq, Eq)]
pub struct ContentMatch {
    pub meeting_id: String,
    pub title: String,
    pub snippet: String,
}

/// The meetings of some hits.
pub open spec fn hit_ids(hits: Seq<ContentMatch>) -> Seq<Seq<char>> {
    hits.map_values(|h: ContentMatch| h.meeting_id@)
}

/// The first hit of each meeting that is not shown already, in order.
pub open spec fn first_hits(rows: Seq<ContentMatch>, shown: Seq<Seq<char>>) -> Seq<ContentMatch>
    decreases rows.len(),
{
    if rows.len() == 0 {
        rows
    } else {
        let before = first_hits(rows.drop_last(), shown);
        let id = rows.last().meeting_id@;
        if shown.contains(id) || hit_ids(before).contains(id) {
            before
        } else {
            before.push(rows.last())
        }
    }
}

/// One hit for each meeting: the first, and none for a meeting that is shown
/// already.
pub fn build_content_matches(rows: Vec<ContentMatch>, already_shown_ids: &Vec<String>) -> (r: Vec<
    ContentMatch,
>)
    ensures
        r@ == first_hits(rows@, texts(already_shown_ids@)),
{
    let ghost shown = texts(already_shown_ids@);
    let ghost all = rows@;
    let mut seen: Vec<String> = Vec::new();
    let mut out: Vec<ContentMatch> = Vec::new();
    assert(all.take(0) =~= Seq::<ContentMatch>::empty());
    assert(texts(seen@) =~= hit_ids(out@));
    for i in 0..rows.len()
        invariant
            all == rows@,
            shown == texts(already_shown_ids@),
            out@ == first_hits(all.take(i as int), shown),
            texts(seen@) == hit_ids(out@),
    {
        let ghost next = all.take(i + 1);
        assert(next.drop_last() =~= all.take(i as int));
        assert(next.last() == all[i as int]);
        let row = &rows[i];
        if !contains_text(already_shown_ids, &row.meeting_id) && !contains_text(
            &seen,
            &row.meeting_id,
        ) {
            let ghost had = out@;
            let ghost known = seen@;
            seen.push(row.meeting_id.clone());
            let copy = ContentMatch {
                meeting_id: row.meeting_id.clone(),
                title: row.title.clone(),
                snippet: row.snippet.clone(),
            };
            out.push(copy);
            assert(texts(seen@) =~= texts(known).push(row.meeting_id@));
            assert(hit_ids(out@) =~= hit_ids(had).push(row.meeting_id@));
        }
    }
    assert(all.take(all.len() as int) =~= all);
    out
}

/// No meeting is listed twice among the hits, and none that is shown already;
/// every other meeting with a hit is listed.
pub proof fn each_meeting_is_found_once(rows: Seq<ContentMatch>, shown: Seq<Seq<char>>)
    ensures
        hit_ids(first_hits(rows, shown)).no_duplicates(),
        forall|i: int|
            0 <= i < first_hits(rows, shown).len() ==> !shown.contains(
                #[trigger] hit_ids(first_hits(rows, shown))[i],
            ),
        forall|i: int|
            0 <= i < rows.len() && !shown.contains((#[trigger] rows[i]).meeting_id@) ==> hit_ids(
                first_hits(rows, shown),
            ).contains(rows[i].meeting_id@),
    decreases rows.len(),
{
    if rows.len() > 0 {
        let front = rows.drop_last();
        each_meeting_is_found_once(front, shown);
        let before = first_hits(front, shown);
        let after = first_hits(rows, shown);
        let id = rows.last().meeting_id@;
        if after.len() > before.len() {
            assert(hit_ids(after) =~= hit_ids(before).push(id));
        }
        assert forall|i: int| 0 <= i < after.len() implies !shown.contains(
            #[trigger] hit_ids(after)[i],
        ) by {
            if i < before.len() {
                assert(hit_ids(after)[i] == hit_ids(before)[i]);
            }
        }
        assert forall|i: int|
            0 <= i < rows.len() && !shown.contains((#[trigger] rows[i]).meeting_id@) implies hit_ids(
            after,
        ).contains(rows[i].meeting_id@) by {
            if i < front.len() {
                assert(rows[i] == front[i]);
                assert(hit_ids(before).contains(front[i].meeting_id@));
                let k = choose|k: int|
                    0 <= k < hit_ids(before).len() && hit_ids(before)[k] == front[i].meeting_id@;
                assert(hit_ids(after)[k] == front[i].meeting_id@);
            } else if after.len() > before.len() {
                assert(hit_ids(after)[before.len() as int] == id);
            }
        }
    }
}

/// What stands for a meeting without a title.
pub const UNTITLED_MEETING: &'static str = "Untitled meeting";

/// What a meeting is called.
pub open spec fn display_title(title: Seq<char>) -> Seq<char> {
    if trimmed(title).len() == 0 {
        UNTITLED_MEETING@
    } else {
        title
    }
}

/// What a meeting is called: its title, unless that is blank.
pub fn meeting_label(title: &str) -> (r: String)
    ensures
        r@ == display_title(title@),
{
    if is_blank(title) {
        UNTITLED_MEETING.to_owned()
    } else {
        title.to_owned()
    }
}

/// What a hit in a transcript reads.
pub fn content_match_label(hit: &ContentMatch) -> (r: String)
    ensures
        r@ == display_title(hit.title@) + " — "@ + hit.snippet@,
{
    let mut out = meeting_label(&hit.title);
    out.append(" — ");
    out.append(&hit.snippet);
    out
}

} // verus!
