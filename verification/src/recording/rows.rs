//! The live transcript's rows, kept in chronological order.
use vstd::prelude::*;
use std::cmp::Ordering;

verus! {

/// One row of the live transcript.
#[derive(Debug, Clone, PartialEq, Eq)]
pub struct TranscriptRow {
    pub sequence_id: u64,
    /// Nanoseconds from the start of the recording: the chronological anchor
    /// across sources, whose segments can complete out of order.
    pub audio_start_time: i64,
    pub speaker: String,
    pub text: String,
    /// "mic" or "system".
    pub source: String,
}

impl TranscriptRow {
    /// Whether this row stands at or before `other`: by start time, then by
    /// sequence id.
    pub open spec fn not_after(self, other: TranscriptRow) -> bool {
        self.audio_start_time < other.audio_start_time || (self.audio_start_time
            == other.audio_start_time && self.sequence_id <= other.sequence_id)
    }

    /// Whether both rows have the same place in the order.
    pub open spec fn same_place(self, other: TranscriptRow) -> bool {
        self.audio_start_time == other.audio_start_time && self.sequence_id == other.sequence_id
    }
}

/// The order of two rows: by start time, then by sequence id.
pub open spec fn row_order(a: TranscriptRow, b: TranscriptRow) -> Ordering {
    if a.same_place(b) {
        Ordering::Equal
    } else if a.not_after(b) {
        Ordering::Less
    } else {
        Ordering::Greater
    }
}

/// Chronological order: start time first, sequence id as tiebreaker.
pub fn compare_rows(a: &TranscriptRow, b: &TranscriptRow) -> (r: Ordering)
    ensures
        r == row_order(*a, *b),
{
    if a.audio_start_time < b.audio_start_time {
        Ordering::Less
    } else if a.audio_start_time > b.audio_start_time {
        Ordering::Greater
    } else if a.sequence_id < b.sequence_id {
        Ordering::Less
    } else if a.sequence_id > b.sequence_id {
        Ordering::Greater
    } else {
        Ordering::Equal
    }
}

/// How [`upsert_row`] changed the list.
#[derive(Debug, Clone, Copy, PartialEq, Eq)]
pub enum RowChange {
    /// A new row landed at the end of the list.
    Appended,
    /// A new row was inserted before others.
    InsertedAt(usize),
    /// An existing row was updated without moving.
    ReplacedAt(usize),
    /// An existing row moved because its place in the order changed.
    Repositioned { removed_at: usize, inserted_at: usize },
}

/// Whether every row stands at or before those that follow it.
pub open spec fn sorted_rows(rows: Seq<TranscriptRow>) -> bool {
    forall|i: int, j: int| 0 <= i < j < rows.len() ==> #[trigger] rows[i].not_after(
        #[trigger] rows[j],
    )
}

/// Whether no two rows have the same sequence id.
pub open spec fn distinct_ids(rows: Seq<TranscriptRow>) -> bool {
    forall|i: int, j: int|
        0 <= i < j < rows.len() ==> (#[trigger] rows[i]).sequence_id != (
        #[trigger] rows[j]).sequence_id
}

/// The first row with sequence id `id`, if any.
pub open spec fn row_with_id(rows: Seq<TranscriptRow>, id: u64) -> Option<int>
    decreases rows.len(),
{
    if rows.len() == 0 {
        None
    } else {
        match row_with_id(rows.drop_last(), id) {
            Some(i) => Some(i),
            None => if rows.last().sequence_id == id {
                Some(rows.len() - 1)
            } else {
                None
            },
        }
    }
}

pub(crate) proof fn lemma_row_with_id(rows: Seq<TranscriptRow>, id: u64)
    ensures
        match row_with_id(rows, id) {
            Some(i) => 0 <= i < rows.len() && rows[i].sequence_id == id && forall|j: int|
                0 <= j < i ==> (#[trigger] rows[j]).sequence_id != id,
            None => forall|j: int|
                0 <= j < rows.len() ==> (#[trigger] rows[j]).sequence_id != id,
        },
    decreases rows.len(),
{
    if rows.len() > 0 {
        let front = rows.drop_last();
        lemma_row_with_id(front, id);
        match row_with_id(front, id) {
            Some(i) => {
                assert(rows[i] == front[i]);
                assert forall|j: int| 0 <= j < i implies (#[trigger] rows[j]).sequence_id
                    != id by {
                    assert(rows[j] == front[j]);
                }
            },
            None => {
                assert forall|j: int| 0 <= j < front.len() implies (
                #[trigger] rows[j]).sequence_id != id by {
                    assert(rows[j] == front[j]);
                }
            },
        }
    }
}

/// How many leading rows stand at or before `row`: where it goes in.
pub open spec fn insertion_point(rows: Seq<TranscriptRow>, row: TranscriptRow) -> int
    decreases rows.len(),
{
    if rows.len() == 0 || !rows[0].not_after(row) {
        0
    } else {
        1 + insertion_point(rows.subrange(1, rows.len() as int), row)
    }
}

proof fn lemma_insertion_point(rows: Seq<TranscriptRow>, row: TranscriptRow, n: int)
    requires
        0 <= n <= rows.len(),
        forall|i: int| 0 <= i < n ==> (#[trigger] rows[i]).not_after(row),
        n < rows.len() ==> !rows[n].not_after(row),
    ensures
        insertion_point(rows, row) == n,
    decreases rows.len(),
{
    if n > 0 {
        let rest = rows.subrange(1, rows.len() as int);
        assert(rows[0].not_after(row));
        assert forall|i: int| 0 <= i < n - 1 implies (#[trigger] rest[i]).not_after(row) by {
            assert(rest[i] == rows[i + 1]);
        }
        lemma_insertion_point(rest, row, n - 1);
    }
}

pub(crate) proof fn lemma_insertion_point_bounds(rows: Seq<TranscriptRow>, row: TranscriptRow)
    ensures
        0 <= insertion_point(rows, row) <= rows.len(),
        forall|i: int|
            0 <= i < insertion_point(rows, row) ==> (#[trigger] rows[i]).not_after(row),
        insertion_point(rows, row) < rows.len() ==> !rows[insertion_point(rows, row)].not_after(
            row,
        ),
    decreases rows.len(),
{
    if rows.len() > 0 && rows[0].not_after(row) {
        let rest = rows.subrange(1, rows.len() as int);
        lemma_insertion_point_bounds(rest, row);
        assert forall|i: int| 0 <= i < insertion_point(rows, row) implies (
        #[trigger] rows[i]).not_after(row) by {
            if i > 0 {
                assert(rows[i] == rest[i - 1]);
            }
        }
    }
}

/// The rows and the change report after `row` is put into `rows`.
pub open spec fn upserted(rows: Seq<TranscriptRow>, row: TranscriptRow) -> (
    Seq<TranscriptRow>,
    RowChange,
) {
    match row_with_id(rows, row.sequence_id) {
        Some(at) => if rows[at].same_place(row) {
            (rows.update(at, row), RowChange::ReplacedAt(at as usize))
        } else {
            let rest = rows.remove(at);
            let to = insertion_point(rest, row);
            (
                rest.insert(to, row),
                RowChange::Repositioned { removed_at: at as usize, inserted_at: to as usize },
            )
        },
        None => {
            let to = insertion_point(rows, row);
            (
                rows.insert(to, row),
                if to == rows.len() {
                    RowChange::Appended
                } else {
                    RowChange::InsertedAt(to as usize)
                },
            )
        },
    }
}

fn find_insertion_point(rows: &Vec<TranscriptRow>, row: &TranscriptRow) -> (r: usize)
    requires
        sorted_rows(rows@),
    ensures
        r <= rows@.len(),
        r == insertion_point(rows@, *row),
{
    let mut low: usize = 0;
    let mut high: usize = rows.len();
    while low < high
        invariant
            sorted_rows(rows@),
            low <= high <= rows@.len(),
            forall|i: int| 0 <= i < low ==> (#[trigger] rows@[i]).not_after(*row),
            forall|i: int| high <= i < rows@.len() ==> !(#[trigger] rows@[i]).not_after(*row),
        decreases high - low,
    {
        let mid: usize = low + (high - low) / 2;
        let here = &rows[mid];
        let before = here.audio_start_time < row.audio_start_time || (here.audio_start_time
            == row.audio_start_time && here.sequence_id <= row.sequence_id);
        if before {
            assert forall|i: int| 0 <= i < mid + 1 implies (#[trigger] rows@[i]).not_after(
                *row,
            ) by {
                if i < mid {
                    assert(rows@[i].not_after(rows@[mid as int]));
                }
            }
            low = mid + 1;
        } else {
            assert forall|i: int| mid <= i < rows@.len() implies !(#[trigger] rows@[i]).not_after(
                *row,
            ) by {
                if i > mid {
                    assert(rows@[mid as int].not_after(rows@[i]));
                }
            }
            high = mid;
        }
    }
    proof {
        lemma_insertion_point(rows@, *row, low as int);
    }
    low
}

/// Puts `row` into the sorted `rows`. A row with the same sequence id is
/// replaced where it stands if its place in the order is unchanged, else it is
/// removed and `row` goes in at its new place; with no such row, `row` goes in
/// directly.
pub fn upsert_row(rows: &mut Vec<TranscriptRow>, row: TranscriptRow) -> (change: RowChange)
    requires
        sorted_rows(old(rows)@),
    ensures
        (final(rows)@, change) == upserted(old(rows)@, row),
        sorted_rows(final(rows)@),
        final(rows)@.contains(row),
        distinct_ids(old(rows)@) ==> distinct_ids(final(rows)@),
{
    proof {
        upserting_keeps_order(rows@, row);
        upserting_keeps_ids_distinct(rows@, row);
        lemma_row_with_id(rows@, row.sequence_id);
    }
    let ghost before = rows@;
    let mut found: Option<usize> = None;
    let mut i: usize = 0;
    while i < rows.len() && found.is_none()
        invariant
            rows@ == before,
            i <= rows@.len(),
            match found {
                Some(at) => at < rows@.len() && rows@[at as int].sequence_id == row.sequence_id
                    && forall|j: int|
                    0 <= j < at ==> (#[trigger] rows@[j]).sequence_id != row.sequence_id,
                None => forall|j: int|
                    0 <= j < i ==> (#[trigger] rows@[j]).sequence_id != row.sequence_id,
            },
        decreases rows@.len() - i + (if found is None { 1int } else { 0int }),
    {
        if rows[i].sequence_id == row.sequence_id {
            found = Some(i);
        } else {
            i += 1;
        }
    }
    if let Some(at) = found {
        assert(row_with_id(before, row.sequence_id) == Some(at as int));
        if rows[at].audio_start_time == row.audio_start_time {
            rows.set(at, row);
            return RowChange::ReplacedAt(at);
        }
        let _ = rows.remove(at);
        proof {
            lemma_remove_keeps_order(before, at as int);
        }
        let to = find_insertion_point(rows, &row);
        rows.insert(to, row);
        return RowChange::Repositioned { removed_at: at, inserted_at: to };
    }
    assert(row_with_id(before, row.sequence_id) is None);
    let to = find_insertion_point(rows, &row);
    rows.insert(to, row);
    if to == rows.len() - 1 {
        RowChange::Appended
    } else {
        RowChange::InsertedAt(to)
    }
}

proof fn lemma_remove_keeps_order(rows: Seq<TranscriptRow>, at: int)
    requires
        sorted_rows(rows),
        0 <= at < rows.len(),
    ensures
        sorted_rows(rows.remove(at)),
{
    let rest = rows.remove(at);
    assert forall|i: int, j: int| 0 <= i < j < rest.len() implies #[trigger] rest[i].not_after(
        #[trigger] rest[j],
    ) by {
        let a = if i < at { i } else { i + 1 };
        let b = if j < at { j } else { j + 1 };
        assert(rest[i] == rows[a]);
        assert(rest[j] == rows[b]);
    }
}

proof fn lemma_insert_keeps_order(rows: Seq<TranscriptRow>, row: TranscriptRow)
    requires
        sorted_rows(rows),
    ensures
        sorted_rows(rows.insert(insertion_point(rows, row), row)),
{
    lemma_insertion_point_bounds(rows, row);
    let to = insertion_point(rows, row);
    let after = rows.insert(to, row);
    assert forall|i: int, j: int| 0 <= i < j < after.len() implies #[trigger] after[i].not_after(
        #[trigger] after[j],
    ) by {
        let a = if i < to { i } else { i - 1 };
        let b = if j < to { j } else { j - 1 };
        if i != to && j != to {
            assert(after[i] == rows[a]);
            assert(after[j] == rows[b]);
        } else if j == to {
            assert(after[i] == rows[i]);
        } else {
            assert(after[j] == rows[b]);
            assert(!rows[to].not_after(row));
            if b > to {
                assert(rows[to].not_after(rows[b]));
            }
        }
    }
}

/// Putting a row into sorted rows leaves them sorted, and the row is among
/// them.
pub proof fn upserting_keeps_order(rows: Seq<TranscriptRow>, row: TranscriptRow)
    requires
        sorted_rows(rows),
    ensures
        sorted_rows(upserted(rows, row).0),
        upserted(rows, row).0.contains(row),
{
    lemma_row_with_id(rows, row.sequence_id);
    match row_with_id(rows, row.sequence_id) {
        Some(at) => {
            if rows[at].same_place(row) {
                let after = rows.update(at, row);
                assert(after[at] == row);
                assert forall|i: int, j: int| 0 <= i < j < after.len() implies
                    #[trigger] after[i].not_after(#[trigger] after[j]) by {
                    assert(rows[i].not_after(rows[j]));
                }
            } else {
                let rest = rows.remove(at);
                lemma_remove_keeps_order(rows, at);
                lemma_insert_keeps_order(rest, row);
                lemma_insertion_point_bounds(rest, row);
                let to = insertion_point(rest, row);
                assert(rest.insert(to, row)[to] == row);
            }
        },
        None => {
            lemma_insert_keeps_order(rows, row);
            lemma_insertion_point_bounds(rows, row);
            let to = insertion_point(rows, row);
            assert(rows.insert(to, row)[to] == row);
        },
    }
}

/// Putting a row in never makes two rows with one sequence id out of rows
/// whose ids were distinct.
pub proof fn upserting_keeps_ids_distinct(rows: Seq<TranscriptRow>, row: TranscriptRow)
    ensures
        distinct_ids(rows) ==> distinct_ids(upserted(rows, row).0),
{
    if distinct_ids(rows) {
        lemma_row_with_id(rows, row.sequence_id);
        match row_with_id(rows, row.sequence_id) {
            Some(at) => {
                if rows[at].same_place(row) {
                    let after = rows.update(at, row);
                    assert forall|i: int, j: int| 0 <= i < j < after.len() implies (
                    #[trigger] after[i]).sequence_id != (#[trigger] after[j]).sequence_id by {
                        assert(rows[i].sequence_id != rows[j].sequence_id);
                    }
                } else {
                    let rest = rows.remove(at);
                    lemma_insertion_point_bounds(rest, row);
                    let to = insertion_point(rest, row);
                    assert forall|k: int| 0 <= k < rest.len() implies (
                    #[trigger] rest[k]).sequence_id != row.sequence_id by {
                        let b = if k < at { k } else { k + 1 };
                        assert(rest[k] == rows[b]);
                        if b < at {
                            assert(rows[b].sequence_id != rows[at].sequence_id);
                        } else {
                            assert(rows[at].sequence_id != rows[b].sequence_id);
                        }
                    }
                    assert forall|i: int, j: int| 0 <= i < j < rest.len() implies (
                    #[trigger] rest[i]).sequence_id != (#[trigger] rest[j]).sequence_id by {
                        let a = if i < at { i } else { i + 1 };
                        let b = if j < at { j } else { j + 1 };
                        assert(rest[i] == rows[a]);
                        assert(rest[j] == rows[b]);
                    }
                    lemma_insert_keeps_ids(rest, row, to);
                }
            },
            None => {
                lemma_insertion_point_bounds(rows, row);
                lemma_insert_keeps_ids(rows, row, insertion_point(rows, row));
            },
        }
    }
}

proof fn lemma_insert_keeps_ids(rows: Seq<TranscriptRow>, row: TranscriptRow, to: int)
    requires
        0 <= to <= rows.len(),
        distinct_ids(rows),
        forall|k: int| 0 <= k < rows.len() ==> (#[trigger] rows[k]).sequence_id
            != row.sequence_id,
    ensures
        distinct_ids(rows.insert(to, row)),
{
    let after = rows.insert(to, row);
    assert forall|i: int, j: int| 0 <= i < j < after.len() implies (
    #[trigger] after[i]).sequence_id != (#[trigger] after[j]).sequence_id by {
        let a = if i < to { i } else { i - 1 };
        let b = if j < to { j } else { j - 1 };
        if i != to {
            assert(after[i] == rows[a]);
        }
        if j != to {
            assert(after[j] == rows[b]);
        }
    }
}

/// Every row of another sequence id is kept as it was.
pub proof fn upserting_keeps_other_rows(
    rows: Seq<TranscriptRow>,
    row: TranscriptRow,
    other: TranscriptRow,
)
    requires
        other.sequence_id != row.sequence_id,
    ensures
        rows.contains(other) <==> upserted(rows, row).0.contains(other),
{
    lemma_row_with_id(rows, row.sequence_id);
    let after = upserted(rows, row).0;
    match row_with_id(rows, row.sequence_id) {
        Some(at) => {
            if rows[at].same_place(row) {
                if rows.contains(other) {
                    let k = choose|k: int| 0 <= k < rows.len() && rows[k] == other;
                    assert(after[k] == other);
                }
                if after.contains(other) {
                    let k = choose|k: int| 0 <= k < after.len() && after[k] == other;
                    assert(rows[k] == other);
                }
            } else {
                let rest = rows.remove(at);
                lemma_insertion_point_bounds(rest, row);
                let to = insertion_point(rest, row);
                if rows.contains(other) {
                    let k = choose|k: int| 0 <= k < rows.len() && rows[k] == other;
                    let b = if k < at { k } else { k - 1 };
                    assert(rest[b] == other);
                    assert(after[if b < to { b } else { b + 1 }] == other);
                }
                if after.contains(other) {
                    let k = choose|k: int| 0 <= k < after.len() && after[k] == other;
                    let b = if k < to { k } else { k - 1 };
                    assert(rest[b] == other);
                    assert(rows[if b < at { b } else { b + 1 }] == other);
                }
            }
        },
        None => {
            lemma_insertion_point_bounds(rows, row);
            let to = insertion_point(rows, row);
            if rows.contains(other) {
                let k = choose|k: int| 0 <= k < rows.len() && rows[k] == other;
                assert(after[if k < to { k } else { k + 1 }] == other);
            }
            if after.contains(other) {
                let k = choose|k: int| 0 <= k < after.len() && after[k] == other;
                assert(rows[if k < to { k } else { k - 1 }] == other);
            }
        },
    }
}

/// A change report names places that exist: in the rows before the change for
/// what was replaced or removed, in the rows after it for what went in.
pub proof fn change_names_real_places(rows: Seq<TranscriptRow>, row: TranscriptRow)
    requires
        rows.len() <= usize::MAX,
    ensures
        match upserted(rows, row).1 {
            RowChange::Appended => upserted(rows, row).0 == rows.push(row),
            RowChange::InsertedAt(i) => i < rows.len() && upserted(rows, row).0 == rows.insert(
                i as int,
                row,
            ),
            RowChange::ReplacedAt(i) => i < rows.len() && upserted(rows, row).0 == rows.update(
                i as int,
                row,
            ),
            RowChange::Repositioned { removed_at, inserted_at } => removed_at < rows.len()
                && inserted_at < rows.len() && upserted(rows, row).0 == rows.remove(
                removed_at as int,
            ).insert(inserted_at as int, row),
        },
{
    lemma_row_with_id(rows, row.sequence_id);
    match row_with_id(rows, row.sequence_id) {
        Some(at) => {
            lemma_insertion_point_bounds(rows.remove(at), row);
        },
        None => {
            lemma_insertion_point_bounds(rows, row);
            if insertion_point(rows, row) == rows.len() {
                assert(rows.insert(rows.len() as int, row) =~= rows.push(row));
            }
        },
    }
}

/// Putting the same row in twice changes nothing the second time.
pub proof fn upserting_twice_is_once(rows: Seq<TranscriptRow>, row: TranscriptRow)
    requires
        distinct_ids(rows),
    ensures
        upserted(upserted(rows, row).0, row).0 == upserted(rows, row).0,
        upserted(upserted(rows, row).0, row).1 is ReplacedAt,
{
    lemma_row_with_id(rows, row.sequence_id);
    upserting_keeps_ids_distinct(rows, row);
    let after = upserted(rows, row).0;
    lemma_row_with_id(after, row.sequence_id);
    let spot = match row_with_id(rows, row.sequence_id) {
        Some(at) => if rows[at].same_place(row) {
            at
        } else {
            insertion_point(rows.remove(at), row)
        },
        None => insertion_point(rows, row),
    };
    match row_with_id(rows, row.sequence_id) {
        Some(at) => {
            lemma_insertion_point_bounds(rows.remove(at), row);
        },
        None => {
            lemma_insertion_point_bounds(rows, row);
        },
    }
    assert(after[spot] == row);
    match row_with_id(after, row.sequence_id) {
        Some(k) => {
            if k < spot {
                assert(after[k].sequence_id != after[spot].sequence_id);
            }
            assert(k == spot);
            assert(after.update(spot, row) =~= after);
        },
        None => {},
    }
}

} // verus!
