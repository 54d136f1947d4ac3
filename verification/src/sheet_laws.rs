//! What holds of every plan: where matched rows go, how appended rows
//! follow one another, which column a range ends in, and that planning again
//! after the writes took effect addresses the same rows.

use vstd::prelude::*;
use crate::sheets::MAX_COLUMNS;
use crate::sheets::addressed_width;
use crate::sheets::end_column;
use crate::sheets::first_match;
use crate::sheets::holds_key;
use crate::sheets::is_first_match;
use crate::sheets::known_rows;
use crate::sheets::Rows;
use crate::sheets::lemma_first_match;
use crate::sheets::lemma_first_match_unique;
use crate::sheets::planned_row;
use crate::sheets::row_key;
use crate::sheets::target_row;
use crate::sheets::unmatched_before;

verus! {

/// A sheet of which nothing was fetched is planned for as one that was
/// fetched and holds no row: every row is appended, from the first row on.
pub proof fn lemma_absent_state_is_empty(
    fetched: Rows,
    rows: Seq<Seq<Seq<char>>>,
    j: int,
)
    requires
        fetched@.len() == 0,
        0 <= j < rows.len(),
    ensures
        known_rows(Some(fetched)) == known_rows(None),
        first_match(known_rows(None), row_key(rows[j])) is None,
        planned_row(known_rows(None), rows, j) == j + 1,
{
    assert(known_rows(Some(fetched)) =~= known_rows(None));
    lemma_all_unmatched(rows, j);
}

/// Against a sheet without rows, every row is unmatched.
proof fn lemma_all_unmatched(rows: Seq<Seq<Seq<char>>>, j: int)
    requires
        0 <= j <= rows.len(),
    ensures
        unmatched_before(Seq::empty(), rows, j) == j,
    decreases j,
{
    if j > 0 {
        lemma_all_unmatched(rows, j - 1);
    }
}

/// A new row whose key is the non-blank first cell of existing row `i`, and
/// of no row above it, is written to row `i + 1`, whatever the cursor.
pub proof fn lemma_match_targets_existing_index(
    existing: Seq<Seq<Seq<char>>>,
    new_row: Seq<Seq<char>>,
    cursor: nat,
    i: int,
)
    requires
        0 <= i < existing.len(),
        existing[i].len() > 0,
        existing[i][0].len() > 0,
        row_key(new_row) == Some(existing[i][0]),
        forall|j: int| 0 <= j < i ==> !holds_key(#[trigger] existing[j], row_key(new_row)),
    ensures
        target_row(existing, row_key(new_row), cursor) == i + 1,
{
    lemma_first_match_unique(existing, row_key(new_row), i);
}

/// Within a batch, a row whose key is the non-blank first cell of existing
/// row `i`, and of no row above it, is written to row `i + 1`.
pub proof fn lemma_matched_row_keeps_its_place(
    existing: Seq<Seq<Seq<char>>>,
    rows: Seq<Seq<Seq<char>>>,
    j: int,
    i: int,
)
    requires
        0 <= j < rows.len(),
        is_first_match(existing, row_key(rows[j]), i),
    ensures
        planned_row(existing, rows, j) == i + 1,
{
    lemma_first_match_unique(existing, row_key(rows[j]), i);
}

/// A row that finds no match is written below the existing rows, one row
/// further down for each unmatched row before it: matched rows in between
/// take up no row.
pub proof fn lemma_append_position(
    existing: Seq<Seq<Seq<char>>>,
    rows: Seq<Seq<Seq<char>>>,
    j: int,
)
    requires
        0 <= j < rows.len(),
        first_match(existing, row_key(rows[j])) is None,
    ensures
        planned_row(existing, rows, j) == existing.len() + unmatched_before(existing, rows, j) + 1,
{
}

/// The first row that finds no match is written to the row below the
/// existing rows.
pub proof fn lemma_first_append(
    existing: Seq<Seq<Seq<char>>>,
    rows: Seq<Seq<Seq<char>>>,
    j: int,
)
    requires
        0 <= j < rows.len(),
        first_match(existing, row_key(rows[j])) is None,
        forall|m: int| 0 <= m < j ==> first_match(existing, row_key(#[trigger] rows[m])) is Some,
    ensures
        planned_row(existing, rows, j) == existing.len() + 1,
{
    lemma_unmatched_between(existing, rows, 0, j);
}

/// Of two rows that find no match, with only matched rows between them, the
/// later is written to the row below the earlier.
pub proof fn lemma_append_monotonicity(
    existing: Seq<Seq<Seq<char>>>,
    rows: Seq<Seq<Seq<char>>>,
    j1: int,
    j2: int,
)
    requires
        0 <= j1 < j2 < rows.len(),
        first_match(existing, row_key(rows[j1])) is None,
        first_match(existing, row_key(rows[j2])) is None,
        forall|m: int| j1 < m < j2 ==> first_match(existing, row_key(#[trigger] rows[m])) is Some,
    ensures
        planned_row(existing, rows, j2) == planned_row(existing, rows, j1) + 1,
{
    lemma_unmatched_between(existing, rows, j1 + 1, j2);
}

/// A run of matched rows leaves the count of unmatched rows as it was.
proof fn lemma_unmatched_between(
    existing: Seq<Seq<Seq<char>>>,
    rows: Seq<Seq<Seq<char>>>,
    from: int,
    to: int,
)
    requires
        0 <= from <= to <= rows.len(),
        forall|m: int| from <= m < to ==> first_match(existing, row_key(#[trigger] rows[m])) is Some,
    ensures
        unmatched_before(existing, rows, to) == unmatched_before(existing, rows, from),
    decreases to - from,
{
    if from < to {
        assert(first_match(existing, row_key(rows[to - 1])) is Some);
        lemma_unmatched_between(existing, rows, from, to - 1);
    }
}

/// The count of unmatched rows never falls from one row of a batch to a
/// later one, and rises by no more than the rows between them.
pub proof fn lemma_unmatched_before_bounds(
    existing: Seq<Seq<Seq<char>>>,
    rows: Seq<Seq<Seq<char>>>,
    j1: int,
    j2: int,
)
    requires
        0 <= j1 <= j2,
    ensures
        unmatched_before(existing, rows, j1) <= unmatched_before(existing, rows, j2),
        unmatched_before(existing, rows, j2) <= unmatched_before(existing, rows, j1) + (j2 - j1),
    decreases j2 - j1,
{
    if j1 < j2 {
        lemma_unmatched_before_bounds(existing, rows, j1, j2 - 1);
    }
}

/// The end column of a row of `width` cells is the letter at offset
/// `max(width, 1) - 1` from 'A': 'A' for an empty row and for one cell, 'B'
/// for two, 'Z' for twenty-six.
pub proof fn lemma_column_addressing(width: nat)
    requires
        width <= MAX_COLUMNS,
    ensures
        end_column(width) as nat == 'A' as nat + addressed_width(width) - 1,
        addressed_width(width) == if width >= 1 { width } else { 1 },
        'A' <= end_column(width) <= 'Z',
        end_column(0) == 'A',
        end_column(1) == 'A',
        end_column(2) == 'B',
        end_column(26) == 'Z',
{
}

/// The key column entry a sheet shows for a row: its first cell, unless the
/// row has none or the cell is blank.
pub open spec fn key_cell(row: Seq<Seq<char>>) -> Option<Seq<char>> {
    if row.len() > 0 && row[0].len() > 0 {
        Some(row[0])
    } else {
        None
    }
}

/// What the key column of a sheet shows in the row that `row` was written
/// to: its first cell alone, or a blank row where it has none.
pub open spec fn key_row(row: Seq<Seq<char>>) -> Seq<Seq<char>> {
    if row.len() > 0 {
        seq![row[0]]
    } else {
        Seq::empty()
    }
}

/// The key column of a sheet after `row` was written to its row `target`,
/// counted from 1. A write below the last row leaves blank rows in between.
pub open spec fn write_row(
    sheet: Seq<Seq<Seq<char>>>,
    target: nat,
    row: Seq<Seq<char>>,
) -> Seq<Seq<Seq<char>>>
    recommends
        target >= 1,
{
    if target <= sheet.len() {
        sheet.update(target - 1, key_row(row))
    } else {
        sheet + Seq::new((target - 1 - sheet.len()) as nat, |i: int| Seq::<Seq<char>>::empty())
            + seq![key_row(row)]
    }
}

/// The key column of a sheet that held `existing`, after the first `n` writes
/// of the plan for `rows` took effect.
pub open spec fn sheet_after(
    existing: Seq<Seq<Seq<char>>>,
    rows: Seq<Seq<Seq<char>>>,
    n: int,
) -> Seq<Seq<Seq<char>>>
    decreases n,
{
    if n <= 0 {
        existing
    } else {
        write_row(
            sheet_after(existing, rows, n - 1),
            planned_row(existing, rows, n - 1),
            rows[n - 1],
        )
    }
}

/// Whether the plan for `rows` against `existing` can be repeated: each row
/// that finds no match has a key that is not blank, and no two of them share
/// a key.
pub open spec fn appends_are_keyed(
    existing: Seq<Seq<Seq<char>>>,
    rows: Seq<Seq<Seq<char>>>,
) -> bool {
    &&& forall|j: int|
        0 <= j < rows.len() && first_match(existing, row_key(#[trigger] rows[j])) is None
            ==> key_cell(rows[j]) is Some
    &&& forall|j1: int, j2: int|
        0 <= j1 < j2 < rows.len() && first_match(existing, row_key(#[trigger] rows[j1])) is None
            && first_match(existing, row_key(#[trigger] rows[j2])) is None ==> row_key(rows[j1])
            != row_key(rows[j2])
}

/// The index below the existing rows that the unmatched row `m` is written to.
spec fn append_index(existing: Seq<Seq<Seq<char>>>, rows: Seq<Seq<Seq<char>>>, m: int) -> int {
    (existing.len() + unmatched_before(existing, rows, m)) as int
}

/// Whether position `p` of `sheet` shows what the unmatched row `m` of the
/// batch left there.
spec fn shows_append(
    existing: Seq<Seq<Seq<char>>>,
    rows: Seq<Seq<Seq<char>>>,
    sheet: Seq<Seq<Seq<char>>>,
    p: int,
    m: int,
) -> bool {
    &&& 0 <= m < rows.len()
    &&& first_match(existing, row_key(rows[m])) is None
    &&& p == append_index(existing, rows, m)
    &&& existing.len() <= p < sheet.len()
    &&& sheet[p] == key_row(rows[m])
}

/// Whether position `p` of `sheet` shows what one of the first `n` rows of
/// the batch left there.
spec fn was_appended(
    existing: Seq<Seq<Seq<char>>>,
    rows: Seq<Seq<Seq<char>>>,
    sheet: Seq<Seq<Seq<char>>>,
    n: int,
    p: int,
) -> bool {
    exists|m: int| 0 <= m < n && #[trigger] shows_append(existing, rows, sheet, p, m)
}

/// The shape of the sheet after the first `n` writes: the existing rows still
/// stand for the keys they stood for, and below them stand the unmatched rows
/// among the first `n`, in their order.
spec fn written_shape(
    existing: Seq<Seq<Seq<char>>>,
    rows: Seq<Seq<Seq<char>>>,
    n: int,
) -> bool {
    let sheet = sheet_after(existing, rows, n);
    &&& sheet.len() == existing.len() + unmatched_before(existing, rows, n)
    &&& forall|i: int| 0 <= i < existing.len() ==> key_cell(#[trigger] sheet[i]) == key_cell(existing[i])
    &&& forall|m: int|
        0 <= m < n && first_match(existing, row_key(#[trigger] rows[m])) is None ==> shows_append(
            existing,
            rows,
            sheet,
            append_index(existing, rows, m),
            m,
        )
    &&& forall|p: int|
        existing.len() <= p < sheet.len() ==> #[trigger] was_appended(existing, rows, sheet, n, p)
}

proof fn lemma_written_shape(existing: Seq<Seq<Seq<char>>>, rows: Seq<Seq<Seq<char>>>, n: int)
    requires
        0 <= n <= rows.len(),
    ensures
        written_shape(existing, rows, n),
    decreases n,
{
    if n > 0 {
        lemma_written_shape(existing, rows, n - 1);
        let before = sheet_after(existing, rows, n - 1);
        let after = sheet_after(existing, rows, n);
        let row = rows[n - 1];
        let key = row_key(row);
        lemma_first_match(existing, key);
        lemma_unmatched_before_bounds(existing, rows, 0, n - 1);
        match first_match(existing, key) {
            Some(i) => {
                assert(planned_row(existing, rows, n - 1) == i + 1);
                assert(after == before.update(i, key_row(row)));
                assert(key_cell(key_row(row)) == key_cell(existing[i]));
                assert forall|m: int|
                    0 <= m < n && first_match(existing, row_key(#[trigger] rows[m]))
                        is None implies shows_append(
                    existing,
                    rows,
                    after,
                    append_index(existing, rows, m),
                    m,
                ) by {
                    assert(shows_append(
                        existing,
                        rows,
                        before,
                        append_index(existing, rows, m),
                        m,
                    ));
                }
                assert forall|p: int| existing.len() <= p < after.len() implies #[trigger] was_appended(
                    existing,
                    rows,
                    after,
                    n,
                    p,
                ) by {
                    assert(was_appended(existing, rows, before, n - 1, p));
                    let m = choose|m: int|
                        0 <= m < n - 1 && #[trigger] shows_append(existing, rows, before, p, m);
                    assert(shows_append(existing, rows, after, p, m));
                }
            },
            None => {
                let gap = Seq::new(0nat, |i: int| Seq::<Seq<char>>::empty());
                assert(planned_row(existing, rows, n - 1) == before.len() + 1);
                assert(after == before + gap + seq![key_row(row)]);
                assert(after =~= before.push(key_row(row)));
                assert forall|m: int|
                    0 <= m < n && first_match(existing, row_key(#[trigger] rows[m]))
                        is None implies shows_append(
                    existing,
                    rows,
                    after,
                    append_index(existing, rows, m),
                    m,
                ) by {
                    if m < n - 1 {
                        assert(shows_append(
                            existing,
                            rows,
                            before,
                            append_index(existing, rows, m),
                            m,
                        ));
                    }
                }
                assert forall|p: int| existing.len() <= p < after.len() implies #[trigger] was_appended(
                    existing,
                    rows,
                    after,
                    n,
                    p,
                ) by {
                    if p < before.len() {
                        assert(was_appended(existing, rows, before, n - 1, p));
                        let m = choose|m: int|
                            0 <= m < n - 1 && #[trigger] shows_append(
                                existing,
                                rows,
                                before,
                                p,
                                m,
                            );
                        assert(shows_append(existing, rows, after, p, m));
                    } else {
                        assert(shows_append(existing, rows, after, p, n - 1));
                    }
                }
            },
        }
    }
}

/// Planning the same rows again, against the sheet as the writes of the first
/// plan left it, addresses each row as the first plan did, and appends
/// nothing: every row now finds a match. This holds of a batch whose
/// unmatched rows have keys that are not blank and differ from one another.
pub proof fn lemma_rerun_is_idempotent(existing: Seq<Seq<Seq<char>>>, rows: Seq<Seq<Seq<char>>>)
    requires
        appends_are_keyed(existing, rows),
    ensures
        forall|j: int|
            0 <= j < rows.len() ==> #[trigger] planned_row(
                sheet_after(existing, rows, rows.len() as int),
                rows,
                j,
            ) == planned_row(existing, rows, j),
        forall|j: int|
            0 <= j < rows.len() ==> first_match(
                sheet_after(existing, rows, rows.len() as int),
                row_key(#[trigger] rows[j]),
            ) is Some,
{
    let updated = sheet_after(existing, rows, rows.len() as int);
    assert forall|j: int| 0 <= j < rows.len() implies #[trigger] planned_row(updated, rows, j)
        == planned_row(existing, rows, j) by {
        lemma_rerun_keeps_row(existing, rows, j);
    }
    assert forall|j: int| 0 <= j < rows.len() implies first_match(
        updated,
        row_key(#[trigger] rows[j]),
    ) is Some by {
        lemma_rerun_keeps_row(existing, rows, j);
    }
}

/// Row `j` of a batch that can be repeated is addressed by the second plan as
/// by the first, through a match.
proof fn lemma_rerun_keeps_row(
    existing: Seq<Seq<Seq<char>>>,
    rows: Seq<Seq<Seq<char>>>,
    j: int,
)
    requires
        appends_are_keyed(existing, rows),
        0 <= j < rows.len(),
    ensures
        planned_row(sheet_after(existing, rows, rows.len() as int), rows, j) == planned_row(
            existing,
            rows,
            j,
        ),
        first_match(sheet_after(existing, rows, rows.len() as int), row_key(rows[j])) is Some,
{
    let n = rows.len() as int;
    let updated = sheet_after(existing, rows, n);
    let key = row_key(rows[j]);
    lemma_written_shape(existing, rows, n);
    lemma_first_match(existing, key);
    match first_match(existing, key) {
        Some(i) => {
            assert(key_cell(updated[i]) == key_cell(existing[i]));
            assert forall|q: int| 0 <= q < i implies !holds_key(#[trigger] updated[q], key) by {
                assert(key_cell(updated[q]) == key_cell(existing[q]));
                assert(!holds_key(existing[q], key));
            }
            lemma_first_match_unique(updated, key, i);
        },
        None => {
            let p = append_index(existing, rows, j);
            assert(shows_append(existing, rows, updated, p, j));
            assert(key_cell(rows[j]) is Some);
            assert(holds_key(updated[p], key));
            assert forall|q: int| 0 <= q < p implies !holds_key(#[trigger] updated[q], key) by {
                if q < existing.len() {
                    assert(key_cell(updated[q]) == key_cell(existing[q]));
                    assert(!holds_key(existing[q], key));
                } else {
                    assert(was_appended(existing, rows, updated, n, q));
                    let m = choose|m: int|
                        0 <= m < n && #[trigger] shows_append(existing, rows, updated, q, m);
                    assert(shows_append(existing, rows, updated, q, m));
                    assert(m != j);
                    if m < j {
                        assert(row_key(rows[m]) != row_key(rows[j]));
                    } else {
                        assert(row_key(rows[j]) != row_key(rows[m]));
                    }
                }
            }
            lemma_first_match_unique(updated, key, p);
        },
    }
}

} // verus!
