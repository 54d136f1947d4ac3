//! Reconciles freshly computed rows with the identity keys a sheet already
//! holds, and addresses one single-row write for each of them.
//!
//! A row is a sequence of cells and its first cell is its identity key. A new
//! row whose key an existing row holds overwrites that row in place; every
//! other row goes below the rows known so far, in input order.

use vstd::prelude::*;
use crate::text::decimal;
use crate::text::push_decimal;

verus! {

/// The rows of one sheet, top to bottom, each a sequence of cells.
pub type Rows = Vec<Vec<String>>;

/// The number of columns that single-letter addressing reaches.
pub const MAX_COLUMNS: usize = 26;

/// One entry of a batch write, in the shape the spreadsheet service takes it.
#[derive(Clone, Debug, PartialEq, Eq)]
pub struct ValueRange {
    pub major_dimension: Option<String>,
    pub range: Option<String>,
    pub values: Option<Rows>,
}

/// The major dimension of every write: "ROWS".
pub open spec fn rows_dimension() -> Seq<char> {
    seq!['R', 'O', 'W', 'S']
}

/// The number of columns a row occupies when it is addressed: an empty row
/// still occupies column A.
pub open spec fn addressed_width(width: nat) -> nat {
    if width == 0 {
        1
    } else {
        width
    }
}

/// The letter of the last column of a row of `width` cells: the letter at
/// offset `addressed_width(width) - 1` from 'A'.
pub open spec fn end_column(width: nat) -> char
    recommends
        width <= MAX_COLUMNS,
{
    (('A' as nat) + addressed_width(width) - 1) as char
}

/// The A1 range of the single row `row`, from column A through the last
/// column of a row of `width` cells: `<sheet>!A<row>:<end column><row>`.
pub open spec fn range_text(sheet: Seq<char>, row: nat, width: nat) -> Seq<char>
    recommends
        width <= MAX_COLUMNS,
{
    sheet + seq!['!', 'A'] + decimal(row) + seq![':', end_column(width)] + decimal(row)
}

/// The letter of the last column of a row of `width` cells.
pub fn end_column_letter(width: usize) -> (letter: char)
    requires
        width <= MAX_COLUMNS,
    ensures
        letter == end_column(width as nat),
        'A' <= letter <= 'Z',
        letter as nat - 'A' as nat == addressed_width(width as nat) - 1,
{
    let columns: usize = if width == 0 {
        1
    } else {
        width
    };
    let offset: u8 = (columns - 1) as u8;
    (65u8 + offset) as char
}

/// Addresses row `target_row` of `sheet_name`, columns A through the last
/// column of a row of `row_width` cells.
pub fn range_for_row(sheet_name: &str, target_row: usize, row_width: usize) -> (range: String)
    requires
        row_width <= MAX_COLUMNS,
    ensures
        range@ == range_text(sheet_name@, target_row as nat, row_width as nat),
{
    let mut range = sheet_name.to_owned();
    range.push('!');
    range.push('A');
    push_decimal(&mut range, target_row);
    range.push(':');
    range.push(end_column_letter(row_width));
    push_decimal(&mut range, target_row);
    assert(range@ =~= range_text(sheet_name@, target_row as nat, row_width as nat));
    range
}

/// The A1 range that reads the identity keys of a sheet and nothing else:
/// column A from its first row down, `<sheet>!A1:A`.
pub open spec fn key_column_range_text(sheet: Seq<char>) -> Seq<char> {
    sheet + seq!['!', 'A', '1', ':', 'A']
}

/// The range that reads the identity keys of `sheet_name`, however wide the
/// sheet is.
pub fn key_column_range(sheet_name: &str) -> (range: String)
    ensures
        range@ == key_column_range_text(sheet_name@),
{
    let mut range = sheet_name.to_owned();
    range.push('!');
    range.push('A');
    range.push('1');
    range.push(':');
    range.push('A');
    assert(range@ =~= key_column_range_text(sheet_name@));
    range
}

/// The text of the cells of each row.
pub open spec fn rows_text(rows: Seq<Vec<String>>) -> Seq<Seq<Seq<char>>> {
    Seq::new(rows.len(), |i: int| rows[i].deep_view())
}

/// The rows a sheet is known to hold: none where nothing was fetched.
pub open spec fn known_rows(existing: Option<Rows>) -> Seq<Seq<Seq<char>>> {
    match existing {
        Some(rows) => rows_text(rows@),
        None => Seq::empty(),
    }
}

/// The identity key of a row: its first cell, where it has one.
pub open spec fn row_key(row: Seq<Seq<char>>) -> Option<Seq<char>> {
    if row.len() > 0 {
        Some(row[0])
    } else {
        None
    }
}

/// Whether an existing row stands for `key`: it has a first cell, that cell
/// is not blank, and the key is that cell. A blank row stands for no key.
pub open spec fn holds_key(existing_row: Seq<Seq<char>>, key: Option<Seq<char>>) -> bool {
    existing_row.len() > 0 && existing_row[0].len() > 0 && key == Some(existing_row[0])
}

/// Whether `i` is the first index of `existing` whose row stands for `key`.
pub open spec fn is_first_match(
    existing: Seq<Seq<Seq<char>>>,
    key: Option<Seq<char>>,
    i: int,
) -> bool {
    &&& 0 <= i < existing.len()
    &&& holds_key(existing[i], key)
    &&& forall|j: int| 0 <= j < i ==> !holds_key(#[trigger] existing[j], key)
}

/// The first index of `existing` whose row stands for `key`, if there is one.
pub open spec fn first_match(existing: Seq<Seq<Seq<char>>>, key: Option<Seq<char>>) -> Option<int>
    decreases existing.len(),
{
    if existing.len() == 0 {
        None
    } else {
        match first_match(existing.drop_last(), key) {
            Some(i) => Some(i),
            None => if holds_key(existing.last(), key) {
                Some(existing.len() - 1)
            } else {
                None
            },
        }
    }
}

/// `first_match` is the least index whose row stands for the key, and is
/// `None` exactly when no row does.
pub proof fn lemma_first_match(existing: Seq<Seq<Seq<char>>>, key: Option<Seq<char>>)
    ensures
        match first_match(existing, key) {
            Some(i) => is_first_match(existing, key, i),
            None => forall|j: int| 0 <= j < existing.len() ==> !holds_key(#[trigger] existing[j], key),
        },
    decreases existing.len(),
{
    if existing.len() > 0 {
        let front = existing.drop_last();
        lemma_first_match(front, key);
        assert(forall|j: int| 0 <= j < front.len() ==> front[j] == existing[j]);
        match first_match(front, key) {
            Some(i) => {
                assert(is_first_match(front, key, i));
                assert(forall|j: int| 0 <= j < i ==> !holds_key(#[trigger] existing[j], key)) by {
                    assert(forall|j: int| 0 <= j < i ==> !holds_key(#[trigger] front[j], key));
                }
            },
            None => {
                assert(forall|j: int|
                    0 <= j < front.len() ==> !holds_key(#[trigger] existing[j], key)) by {
                    assert(forall|j: int|
                        0 <= j < front.len() ==> !holds_key(#[trigger] front[j], key));
                }
            },
        }
    }
}

/// An index that is the first match is what `first_match` returns.
pub proof fn lemma_first_match_unique(
    existing: Seq<Seq<Seq<char>>>,
    key: Option<Seq<char>>,
    i: int,
)
    requires
        is_first_match(existing, key, i),
    ensures
        first_match(existing, key) == Some(i),
{
    lemma_first_match(existing, key);
    match first_match(existing, key) {
        Some(k) => {
            if k < i {
                assert(!holds_key(existing[k], key));
            } else if i < k {
                assert(!holds_key(existing[i], key));
            }
        },
        None => {
            assert(!holds_key(existing[i], key));
        },
    }
}

/// The row that a new row with `key` is written to, with `cursor` rows known
/// so far: the row of its first match, counted from 1, or else the row below
/// those known.
pub open spec fn target_row(
    existing: Seq<Seq<Seq<char>>>,
    key: Option<Seq<char>>,
    cursor: nat,
) -> nat {
    match first_match(existing, key) {
        Some(i) => (i + 1) as nat,
        None => cursor + 1,
    }
}

/// The number of rows known after a new row with `key` was placed: one more
/// where it found no match.
pub open spec fn next_cursor(
    existing: Seq<Seq<Seq<char>>>,
    key: Option<Seq<char>>,
    cursor: nat,
) -> nat {
    match first_match(existing, key) {
        Some(_) => cursor,
        None => cursor + 1,
    }
}

/// Whether `update` writes `row` to row `target` of `sheet`, and nothing else.
pub open spec fn is_update(
    update: ValueRange,
    sheet: Seq<char>,
    target: nat,
    row: Vec<String>,
) -> bool {
    &&& update.major_dimension matches Some(dimension) && dimension@ == rows_dimension()
    &&& update.range matches Some(range) && range@ == range_text(sheet, target, row@.len())
    &&& update.values matches Some(values) && values@ == seq![row]
}

/// Whether the existing row `existing_row` stands for the key of `new_row`.
fn row_holds_key(existing_row: &Vec<String>, new_row: &Vec<String>) -> (holds: bool)
    ensures
        holds == holds_key(existing_row.deep_view(), row_key(new_row.deep_view())),
{
    if existing_row.len() == 0 || new_row.len() == 0 {
        return false;
    }
    assert(existing_row.deep_view()[0] == existing_row@[0]@);
    assert(new_row.deep_view()[0] == new_row@[0]@);
    if existing_row[0].as_str().is_empty() {
        return false;
    }
    existing_row[0] == new_row[0]
}

/// Finds the first existing row that stands for the key of `new_row`.
pub fn find_row_index(existing_values: &Option<Rows>, new_row: &Vec<String>) -> (found: Option<
    usize,
>)
    ensures
        match found {
            Some(i) => first_match(known_rows(*existing_values), row_key(new_row.deep_view()))
                == Some(i as int),
            None => first_match(known_rows(*existing_values), row_key(new_row.deep_view()))
                is None,
        },
        found matches Some(i) ==> i < usize::MAX,
{
    let ghost known = known_rows(*existing_values);
    let ghost key = row_key(new_row.deep_view());
    match existing_values {
        None => {
            return None;
        },
        Some(rows) => {
            let mut i: usize = 0;
            while i < rows.len()
                invariant
                    i <= rows.len(),
                    known == rows_text(rows@),
                    known == known_rows(*existing_values),
                    key == row_key(new_row.deep_view()),
                    forall|j: int| 0 <= j < i ==> !holds_key(#[trigger] known[j], key),
                decreases rows.len() - i,
            {
                assert(known[i as int] == rows@[i as int].deep_view());
                if row_holds_key(&rows[i], new_row) {
                    proof {
                        lemma_first_match_unique(known, key, i as int);
                    }
                    return Some(i);
                }
                i += 1;
            }
            proof {
                lemma_first_match(known, key);
                if first_match(known, key) is Some {
                    let k = first_match(known, key)->0;
                    assert(holds_key(known[k], key));
                }
            }
            None
        },
    }
}

/// Plans the write of one new row. A row whose key an existing row holds is
/// written over the first such row; any other row is written below the
/// `last_row` rows known so far, and `last_row` then counts it.
pub fn create_update_range_from_row(
    sheet_name: &str,
    new_row: Vec<String>,
    existing_values: &Option<Rows>,
    last_row: &mut usize,
) -> (update: ValueRange)
    requires
        new_row.len() <= MAX_COLUMNS,
        *old(last_row) < usize::MAX,
    ensures
        *final(last_row) == next_cursor(
            known_rows(*existing_values),
            row_key(new_row.deep_view()),
            *old(last_row) as nat,
        ),
        is_update(
            update,
            sheet_name@,
            target_row(
                known_rows(*existing_values),
                row_key(new_row.deep_view()),
                *old(last_row) as nat,
            ),
            new_row,
        ),
{
    let found_row_index = find_row_index(existing_values, &new_row);
    let update_row_index: usize = match found_row_index {
        Some(found) => {
            proof {
                lemma_first_match(known_rows(*existing_values), row_key(new_row.deep_view()));
            }
            found + 1
        },
        None => {
            *last_row += 1;
            *last_row
        },
    };
    let range = range_for_row(sheet_name, update_row_index, new_row.len());
    let dimension = "ROWS".to_owned();
    proof {
        reveal_strlit("ROWS");
        assert(dimension@ =~= rows_dimension());
    }
    let mut values: Rows = Vec::new();
    values.push(new_row);
    ValueRange { major_dimension: Some(dimension), range: Some(range), values: Some(values) }
}

/// The number of rows before row `j` of `rows` that find no match in
/// `existing`.
pub open spec fn unmatched_before(
    existing: Seq<Seq<Seq<char>>>,
    rows: Seq<Seq<Seq<char>>>,
    j: int,
) -> nat
    decreases j,
{
    if j <= 0 {
        0
    } else {
        unmatched_before(existing, rows, j - 1) + if first_match(existing, row_key(rows[j - 1]))
            is None {
            1nat
        } else {
            0nat
        }
    }
}

/// The row that row `j` of a batch is written to: the row of its first match
/// in `existing`, or else the row below the existing rows and the unmatched
/// rows before it.
pub open spec fn planned_row(
    existing: Seq<Seq<Seq<char>>>,
    rows: Seq<Seq<Seq<char>>>,
    j: int,
) -> nat {
    target_row(existing, row_key(rows[j]), existing.len() + unmatched_before(existing, rows, j))
}

/// Whether a batch can be planned: no row is wider than single-letter
/// addressing reaches, and the rows below the existing ones can be counted.
pub open spec fn can_plan(existing: Option<Rows>, rows: Seq<Vec<String>>) -> bool {
    &&& forall|j: int| 0 <= j < rows.len() ==> (#[trigger] rows[j])@.len() <= MAX_COLUMNS
    &&& known_rows(existing).len() + rows.len() <= usize::MAX
}

/// Whether `updates` is the plan that brings `sheet` up to date with `rows`:
/// one write for each row, in their order, each to the row planned for it.
pub open spec fn is_sheet_plan(
    updates: Seq<ValueRange>,
    sheet: Seq<char>,
    existing: Option<Rows>,
    rows: Seq<Vec<String>>,
) -> bool {
    &&& updates.len() == rows.len()
    &&& forall|j: int|
        0 <= j < rows.len() ==> is_update(
            #[trigger] updates[j],
            sheet,
            planned_row(known_rows(existing), rows_text(rows), j),
            rows[j],
        )
}

/// Whether a batch can be planned.
pub fn rows_can_be_planned(existing_rows: &Option<Rows>, rows: &Rows) -> (fits: bool)
    ensures
        fits == can_plan(*existing_rows, rows@),
{
    let known: usize = match existing_rows {
        Some(existing) => existing.len(),
        None => 0,
    };
    if rows.len() > usize::MAX - known {
        return false;
    }
    let mut j: usize = 0;
    while j < rows.len()
        invariant
            j <= rows.len(),
            forall|k: int| 0 <= k < j ==> (#[trigger] rows@[k])@.len() <= MAX_COLUMNS,
        decreases rows.len() - j,
    {
        if rows[j].len() > MAX_COLUMNS {
            return false;
        }
        j += 1;
    }
    true
}

/// Plans the writes that bring a sheet up to date: one for each row of `rows`,
/// in their order. The rows known so far are those of `existing_rows`; each
/// row that finds no match goes below them, in input order.
pub fn create_bulk_updates_for_sheet(
    sheet_name: &str,
    existing_rows: &Option<Rows>,
    rows: Rows,
) -> (updates: Vec<ValueRange>)
    requires
        can_plan(*existing_rows, rows@),
    ensures
        is_sheet_plan(updates@, sheet_name@, *existing_rows, rows@),
{
    let ghost known = known_rows(*existing_rows);
    let ghost texts = rows_text(rows@);
    let ghost all = rows@;
    let mut last_row: usize = match existing_rows {
        Some(existing) => existing.len(),
        None => 0,
    };
    let mut updates: Vec<ValueRange> = Vec::new();
    for new_row in it: rows
        invariant
            it.seq() == all,
            known == known_rows(*existing_rows),
            texts == rows_text(all),
            forall|j: int| 0 <= j < all.len() ==> (#[trigger] all[j])@.len() <= MAX_COLUMNS,
            known.len() + all.len() <= usize::MAX,
            last_row == known.len() + unmatched_before(known, texts, it.index() as int),
            last_row <= known.len() + it.index(),
            updates@.len() == it.index(),
            forall|j: int|
                0 <= j < it.index() ==> is_update(
                    #[trigger] updates@[j],
                    sheet_name@,
                    planned_row(known, texts, j),
                    all[j],
                ),
    {
        let ghost k = it.index() as int;
        assert(new_row == all[k]);
        assert(texts[k] == new_row.deep_view());
        let update = create_update_range_from_row(sheet_name, new_row, existing_rows, &mut last_row);
        updates.push(update);
    }
    updates
}

} // verus!
