//! What holds of every decode, stated over the decoder's states and proved.

use crate::cell::{is_temporal, kind_of, CellView, Kind};
use crate::de::{next_named, AnyValueView, DecoderState};
use crate::error::{Cursor, ErrorView};
use crate::header::header_of;
use vstd::prelude::*;
use vstd::relations::injective_on;
use vstd::seq_lib::to_multiset_insert;
use vstd::set_lib::{lemma_int_range, lemma_map_size, lemma_subset_equality, set_int_range};

verus! {

/// The columns of the keys that a record yields when it is decoded from a row of
/// `limit` cells, searching from column `from` on, in the order in which they are
/// yielded.
pub open spec fn key_columns(header: Seq<Option<Seq<char>>>, limit: int, from: int) -> Seq<int>
    decreases limit - from,
{
    if from < 0 || from >= limit || from >= header.len() {
        Seq::empty()
    } else if header[from] is Some {
        seq![from] + key_columns(header, limit, from + 1)
    } else {
        key_columns(header, limit, from + 1)
    }
}

/// The fields of the record that a row decodes to: each key with the cell its
/// value is decoded from, in the order in which they are yielded.
pub open spec fn record_fields(header: Seq<Option<Seq<char>>>, row: Seq<CellView>) -> Seq<
    (Seq<char>, CellView),
> {
    key_columns(header, row.len() as int, 0).map_values(|j: int| (header[j]->0, row[j]))
}

/// The first named column at or after `from` is the least one: it has a name,
/// lies below `limit`, and no column between `from` and it has a name. Where
/// there is none, no column from `from` on that the row reaches has a name.
pub proof fn lemma_next_named_is_least(header: Seq<Option<Seq<char>>>, from: int, limit: int)
    requires
        0 <= from,
    ensures
        match next_named(header, from, limit) {
            Some(column) => {
                &&& from <= column < limit
                &&& column < header.len()
                &&& header[column] is Some
                &&& forall|k: int| from <= k < column ==> (#[trigger] header[k]) is None
            },
            None => forall|k: int|
                from <= k < limit && k < header.len() ==> (#[trigger] header[k]) is None,
        },
    decreases limit - from,
{
    if from < limit && from < header.len() && header[from] is None {
        lemma_next_named_is_least(header, from + 1, limit);
    }
}

/// The keys of a record are yielded one by one: the first is at the first named
/// column, and the rest are the keys from the column after it.
pub proof fn lemma_keys_follow_next_named(header: Seq<Option<Seq<char>>>, limit: int, from: int)
    requires
        0 <= from,
    ensures
        key_columns(header, limit, from) == match next_named(header, from, limit) {
            Some(column) => seq![column] + key_columns(header, limit, column + 1),
            None => Seq::empty(),
        },
    decreases limit - from,
{
    if from < limit && from < header.len() && header[from] is None {
        lemma_keys_follow_next_named(header, limit, from + 1);
    }
}

/// The columns of the keys that the row under the cursor has yet to yield.
pub open spec fn keys_left(state: DecoderState) -> Seq<int> {
    key_columns(state.header(), state.row().len() as int, state.next_column())
}

/// A request for the next key yields the first of the keys that are left and
/// leaves the rest for the requests that follow; it finds no key exactly when
/// none is left. On a row that has just been begun, the keys left are all the
/// keys of the record.
pub proof fn lemma_next_key_yields_keys_in_order(state: DecoderState)
    requires
        state.has_row(),
        state.row().len() <= usize::MAX,
    ensures
        match state.next_key() {
            Ok(Some(column)) => keys_left(state) == seq![column] + keys_left(
                state.at(Cursor { row: state.cursor.row, column: Some(column as usize) }),
            ),
            Ok(None) => keys_left(state) == Seq::<int>::empty(),
            Err(_) => false,
        },
        state.cursor.column is None ==> keys_left(state) == key_columns(
            state.header(),
            state.row().len() as int,
            0,
        ),
{
    let limit = state.row().len() as int;
    lemma_keys_follow_next_named(state.header(), limit, state.next_column());
    lemma_next_named_is_least(state.header(), state.next_column(), limit);
}

/// Every key of a record comes from a column that has a name and that the row
/// reaches, and the keys come in the order of the columns.
pub proof fn lemma_keys_are_named(header: Seq<Option<Seq<char>>>, limit: int, from: int)
    requires
        0 <= from,
    ensures
        forall|i: int|
            0 <= i < key_columns(header, limit, from).len() ==> {
                let column = #[trigger] key_columns(header, limit, from)[i];
                &&& from <= column < limit
                &&& column < header.len()
                &&& header[column] is Some
            },
    decreases limit - from,
{
    if from < limit && from < header.len() {
        lemma_keys_are_named(header, limit, from + 1);
    }
}

/// A column whose header cell has no text is never the column of a key,
/// whatever the grid holds in that column.
pub proof fn lemma_header_skip(grid: Seq<Seq<CellView>>, row: int, column: int)
    requires
        1 <= row < grid.len(),
        0 <= column < grid[0].len(),
        grid[0][column].formatted_value is None,
    ensures
        !key_columns(header_of(grid[0]), grid[row].len() as int, 0).contains(column),
        forall|from: int|
            0 <= from ==> next_named(header_of(grid[0]), from, grid[row].len() as int) != Some(
                column,
            ),
{
    let header = header_of(grid[0]);
    let limit = grid[row].len() as int;
    lemma_keys_are_named(header, limit, 0);
    assert forall|from: int| 0 <= from implies next_named(header, from, limit) != Some(
        column,
    ) by {
        lemma_next_named_is_least(header, from, limit);
    }
}

/// Decoded as an option, a row is no value iff every one of its cells is
/// unpopulated, and some value iff any of its cells is populated.
pub proof fn lemma_row_option_totality(state: DecoderState)
    requires
        state.has_row(),
        state.cursor.column is None,
    ensures
        state.option() == Ok::<bool, ErrorView>(false) <==> forall|j: int|
            0 <= j < state.row().len() ==> (#[trigger] state.row()[j]).raw_value is None,
        state.option() == Ok::<bool, ErrorView>(true) <==> exists|j: int|
            0 <= j < state.row().len() && (#[trigger] state.row()[j]).raw_value is Some,
{
}

/// A cell that holds a number and no boolean, under a format tagged `DATE`,
/// `TIME` or `DATE_TIME`, is read as its display text and never as a number.
pub proof fn lemma_temporal_number_is_text(state: DecoderState)
    requires
        state.has_row(),
        state.cell() is Some,
        state.cell()->0.raw_value is Some,
        state.cell()->0.raw_value->0.number is Some,
        state.cell()->0.raw_value->0.boolean is None,
        is_temporal(state.cell()->0.format_kind),
    ensures
        kind_of(state.cell()->0) == Kind::DisplayText,
        state.number() is Err,
        state.any() == match state.cell()->0.formatted_value {
            Some(text) => Ok::<AnyValueView, ErrorView>(AnyValueView::Text(text)),
            None => Err::<AnyValueView, ErrorView>(state.missing()),
        },
        state.text() == match state.cell()->0.formatted_value {
            Some(text) => Ok::<Seq<char>, ErrorView>(text),
            None => Err::<Seq<char>, ErrorView>(state.missing()),
        },
{
}

/// The state after `count` further elements of the sequence of rows: each is
/// begun and finished, and stops where no row is left.
pub open spec fn skip_elements(state: DecoderState, count: nat) -> DecoderState
    decreases count,
{
    if count == 0 {
        state
    } else {
        match state.next_element() {
            Some(begun) => skip_elements(begun.finish_element(), (count - 1) as nat),
            None => state,
        }
    }
}

/// Where an element's own decoding leaves the cursor's column, and whether a tag
/// is being read, has no bearing on the rows that the following elements are
/// decoded from.
pub proof fn lemma_elements_ignore_column(
    state: DecoderState,
    column: Option<usize>,
    parsing_tag: bool,
    count: nat,
)
    requires
        state.valid(),
        state.grid.len() <= usize::MAX,
    ensures
        ({
            let moved = state.at(Cursor { row: state.cursor.row, column }).tagging(parsing_tag);
            skip_elements(moved, count).cursor.row == skip_elements(state, count).cursor.row
        }),
{
    lemma_skip_elements(state, count);
    lemma_skip_elements(
        state.at(Cursor { row: state.cursor.row, column }).tagging(parsing_tag),
        count,
    );
}

/// A grid of a header row and `n` further rows decodes to a sequence of exactly
/// `n` elements: after fewer than `n` elements a next one is there, after `n`
/// the cursor stands past the last row, and every further request finds the end
/// of the sequence.
pub proof fn lemma_sequence_exhaustion(grid: Seq<Seq<CellView>>, count: nat)
    requires
        grid.len() >= 1,
        grid.len() <= usize::MAX,
    ensures
        ({
            let n = grid.len() - 1;
            let state = skip_elements(DecoderState::start(grid), count);
            &&& state.valid()
            &&& state.grid == grid
            &&& state.cursor.row == 1 + if count < n {
                count as int
            } else {
                n
            }
            &&& count < n ==> state.next_element() is Some
            &&& count >= n ==> state.next_element() is None
        }),
{
    lemma_skip_elements(DecoderState::start(grid), count);
}

/// From any valid state, `count` further elements move the cursor `count` rows
/// on, or to the end where fewer rows are left.
proof fn lemma_skip_elements(state: DecoderState, count: nat)
    requires
        state.valid(),
        state.grid.len() <= usize::MAX,
    ensures
        ({
            let left = state.grid.len() - state.cursor.row;
            let after = skip_elements(state, count);
            &&& after.valid()
            &&& after.grid == state.grid
            &&& after.cursor.row == state.cursor.row + if count < left {
                count as int
            } else {
                left
            }
        }),
    decreases count,
{
    if count > 0 && state.has_row() {
        lemma_skip_elements(state.next_element()->0.finish_element(), (count - 1) as nat);
    }
}

/// The cursor never goes back. A key is found at a column after the one the
/// cursor points at; an element begins on the row the cursor stands on; and
/// ending an element moves the cursor to a later row or leaves it at the end.
pub proof fn lemma_cursor_never_backtracks(state: DecoderState)
    requires
        state.valid(),
        state.grid.len() <= usize::MAX,
    ensures
        match state.next_key() {
            Ok(Some(column)) => match state.cursor.column {
                Some(before) => before < column,
                None => 0 <= column,
            },
            _ => true,
        },
        match state.next_element() {
            Some(begun) => begun.cursor.row == state.cursor.row,
            None => true,
        },
        state.cursor.row <= state.finish_element().cursor.row,
        state.finish_element().valid(),
{
    if state.has_row() {
        lemma_next_named_is_least(state.header(), state.next_column(), state.row().len() as int);
    }
}

/// Whether `order` is a reordering of `n` column positions: it names each
/// position below `n`, and none twice.
pub open spec fn is_reordering(order: Seq<int>, n: int) -> bool {
    &&& order.len() == n
    &&& forall|i: int| 0 <= i < n ==> 0 <= #[trigger] order[i] < n
    &&& forall|i: int, j: int| 0 <= i < j < n ==> #[trigger] order[i] != #[trigger] order[j]
}

/// The columns of `columns` in the order that `order` gives: position `i` holds
/// what stood at position `order[i]`.
pub open spec fn reorder<T>(columns: Seq<T>, order: Seq<int>) -> Seq<T> {
    Seq::new(order.len(), |i: int| columns[order[i]])
}

/// Reordering the columns of the header row and of a data row together leaves
/// the decoded record what it was: it has the same fields, each name with the
/// same cell, as often as before. Fields are matched by name, not by position.
pub proof fn lemma_field_order_independence(
    header: Seq<Option<Seq<char>>>,
    row: Seq<CellView>,
    order: Seq<int>,
)
    requires
        header.len() == row.len(),
        is_reordering(order, row.len() as int),
    ensures
        record_fields(reorder(header, order), reorder(row, order)).to_multiset() == record_fields(
            header,
            row,
        ).to_multiset(),
{
    let header2 = reorder(header, order);
    let row2 = reorder(row, order);
    let n = row.len() as int;
    lemma_reordering_is_onto(order, n);
    assert forall|field: (Seq<char>, CellView)|
        record_fields(header2, row2).to_multiset().count(field) == record_fields(
            header,
            row,
        ).to_multiset().count(field) by {
        lemma_count_fields(header2, row2, 0, field);
        lemma_count_fields(header, row, 0, field);
        let there = columns_holding(header2, row2, 0, field);
        let here = columns_holding(header, row, 0, field);
        let moved = |i: int| order[i];
        assert forall|j: int| here.contains(j) implies there.map(moved).contains(j) by {
            assert(reaches(order, n, j));
            let i = choose|i: int| 0 <= i < n && #[trigger] order[i] == j;
            assert(there.contains(i) && moved(i) == j);
        }
        assert(there.map(moved) =~= here);
        lemma_map_size(there, here, moved);
    }
}

/// The columns from `from` on that hold the field: that have its name in the
/// header and its cell in the row.
spec fn columns_holding(
    header: Seq<Option<Seq<char>>>,
    row: Seq<CellView>,
    from: int,
    field: (Seq<char>, CellView),
) -> Set<int> {
    Set::new(
        |j: int|
            from <= j < row.len() && j < header.len() && header[j] == Some(field.0) && row[j]
                == field.1,
    )
}

/// The fields that a row yields from column `from` on.
spec fn fields_from(header: Seq<Option<Seq<char>>>, row: Seq<CellView>, from: int) -> Seq<
    (Seq<char>, CellView),
> {
    key_columns(header, row.len() as int, from).map_values(|j: int| (header[j]->0, row[j]))
}

/// A field is yielded as often as there are columns that hold it.
proof fn lemma_count_fields(
    header: Seq<Option<Seq<char>>>,
    row: Seq<CellView>,
    from: int,
    field: (Seq<char>, CellView),
)
    requires
        0 <= from,
    ensures
        columns_holding(header, row, from, field).finite(),
        fields_from(header, row, from).to_multiset().count(field) == columns_holding(
            header,
            row,
            from,
            field,
        ).len(),
    decreases row.len() - from,
{
    broadcast use vstd::multiset::group_multiset_axioms;

    let holding = columns_holding(header, row, from, field);
    let fields = fields_from(header, row, from);
    if from >= row.len() || from >= header.len() {
        assert(holding =~= Set::empty());
        assert(fields =~= Seq::empty());
        fields.to_multiset_ensures();
    } else {
        lemma_count_fields(header, row, from + 1, field);
        let rest = columns_holding(header, row, from + 1, field);
        let later = fields_from(header, row, from + 1);
        if header[from] is Some {
            let first = (header[from]->0, row[from]);
            assert(fields =~= later.insert(0, first));
            to_multiset_insert(later, 0, first);
            if first == field {
                assert(holding =~= rest.insert(from));
            } else {
                assert(holding =~= rest);
            }
        } else {
            assert(holding =~= rest);
        }
    }
}

/// Whether some position below `n` is moved to `column`.
spec fn reaches(order: Seq<int>, n: int, column: int) -> bool {
    exists|i: int| 0 <= i < n && #[trigger] order[i] == column
}

/// A reordering of `n` positions reaches every position below `n`.
proof fn lemma_reordering_is_onto(order: Seq<int>, n: int)
    requires
        is_reordering(order, n),
    ensures
        forall|j: int| 0 <= j < n ==> #[trigger] reaches(order, n, j),
{
    let positions = set_int_range(0, n);
    let moved = |i: int| order[i];
    let reached = positions.map(moved);
    lemma_int_range(0, n);
    lemma_map_size(positions, reached, moved);
    lemma_subset_equality(reached, positions);
    assert forall|j: int| 0 <= j < n implies #[trigger] reaches(order, n, j) by {
        assert(reached.contains(j));
        let i = choose|i: int| positions.contains(i) && moved(i) == j;
        assert(0 <= i < n && order[i] == j);
    }
}

} // verus!
