//! The header index: which field each column position stands for.

use crate::cell::CellView;
use crate::grid::Row;
use vstd::prelude::*;

verus! {

/// `smallmap::Map`, a map kept in pages of 256 slots. The verifier sees nothing
/// inside it: what it holds is spoken of through [`column_names`] and
/// [`occupied`].
#[verifier::external_type_specification]
#[verifier::external_body]
#[verifier::reject_recursive_types(TKey)]
#[verifier::reject_recursive_types(TValue)]
pub struct ExSmallMap<TKey, TValue>(smallmap::Map<TKey, TValue>);

/// What a map from column positions to field names holds: under each key, the
/// value that a lookup of the key finds.
pub uninterp spec fn column_names(names: smallmap::Map<usize, Option<&str>>) -> Map<
    usize,
    Option<Seq<char>>,
>;

/// The number of slots of the map's pages that hold an entry.
pub uninterp spec fn occupied(names: smallmap::Map<usize, Option<&str>>) -> nat;

/// The characters of an optional string slice.
pub open spec fn name_view(name: Option<&str>) -> Option<Seq<char>> {
    match name {
        Some(s) => Some(s@),
        None => None,
    }
}

/// `smallmap::Map::new`: the map it creates has one page, with every slot
/// empty, so that no lookup finds anything.
#[verifier::external_body]
fn names_new<'a>() -> (names: smallmap::Map<usize, Option<&'a str>>)
    ensures
        column_names(names).dom() == Set::<usize>::empty(),
        occupied(names) == 0,
{
    smallmap::Map::new()
}

/// `smallmap::Map::insert`: afterwards a lookup of `column` finds `name`, and a
/// lookup of any other key finds what it found before. Where no lookup found
/// `column` before, the entry went into a slot that was empty.
#[verifier::external_body]
fn names_insert<'a>(
    names: &mut smallmap::Map<usize, Option<&'a str>>,
    column: usize,
    name: Option<&'a str>,
)
    ensures
        column_names(*final(names)) == column_names(*old(names)).insert(column, name_view(name)),
        !column_names(*old(names)).dom().contains(column) ==> occupied(*final(names)) == occupied(
            *old(names),
        ) + 1,
{
    names.insert(column, name);
}

/// `smallmap::Map::get`: the value that the lookup of `column` finds, copied
/// out of the map, or `None` where it finds no entry.
#[verifier::external_body]
fn names_get<'a>(names: &smallmap::Map<usize, Option<&'a str>>, column: usize) -> (entry: Option<
    Option<&'a str>,
>)
    ensures
        match entry {
            Some(name) => column_names(*names).dom().contains(column) && column_names(
                *names,
            )[column] == name_view(name),
            None => !column_names(*names).dom().contains(column),
        },
{
    names.get(&column).copied()
}

/// `smallmap::Map::len`: the count of the slots, over all pages, that hold an
/// entry.
#[verifier::external_body]
fn names_len(names: &smallmap::Map<usize, Option<&str>>) -> (n: usize)
    ensures
        n == occupied(*names),
{
    names.len()
}

/// The field names that a header row gives, by column position: the display text
/// of each header cell, `None` for a cell without display text.
pub open spec fn header_of(row: Seq<CellView>) -> Seq<Option<Seq<char>>> {
    row.map_values(|cell: CellView| cell.formatted_value)
}

/// Maps each column position of the header row to its field name, or to `None`
/// where the column has no name. A nameless column keeps its position.
pub struct HeaderIndex<'a> {
    names: smallmap::Map<usize, Option<&'a str>>,
}

impl<'a> HeaderIndex<'a> {
    /// The index holds exactly the column positions below some count, each in
    /// a slot of its own.
    #[verifier::type_invariant]
    closed spec fn wf(self) -> bool {
        &&& column_names(self.names).dom().finite()
        &&& occupied(self.names) == column_names(self.names).dom().len()
        &&& forall|column: usize|
            column_names(self.names).dom().contains(column) <==> column < column_names(
                self.names,
            ).dom().len()
    }

    /// The index as a sequence: entry `i` is the name of column `i`.
    pub closed spec fn view(&self) -> Seq<Option<Seq<char>>> {
        Seq::new(
            column_names(self.names).dom().len(),
            |i: int| column_names(self.names)[i as usize],
        )
    }

    /// Builds the index from the header row, in one pass.
    pub fn new(header: &'a Row) -> (index: HeaderIndex<'a>)
        ensures
            index@ == header_of(header@),
    {
        let mut names = names_new();
        let mut column: usize = 0;
        while column < header.cells.len()
            invariant
                column <= header.cells.len(),
                column_names(names).dom().finite(),
                column_names(names).dom().len() == column,
                occupied(names) == column,
                forall|k: usize| column_names(names).dom().contains(k) <==> k < column,
                forall|k: usize|
                    k < column ==> #[trigger] column_names(names)[k] == header@[k as int].formatted_value,
            decreases header.cells.len() - column,
        {
            let name = match &header.cells[column].formatted_value {
                Some(text) => Some(text.as_str()),
                None => None,
            };
            names_insert(&mut names, column, name);
            column += 1;
        }
        let index = HeaderIndex { names };
        index
    }

    /// The number of columns the header row has.
    pub fn len(&self) -> (n: usize)
        ensures
            n == self@.len(),
    {
        proof {
            use_type_invariant(self);
        }
        names_len(&self.names)
    }

    /// The entry at `column`: `None` past the last header column, else the
    /// column's name or the marker that it has none.
    pub fn get(&self, column: usize) -> (entry: Option<Option<&'a str>>)
        ensures
            column >= self@.len() ==> entry is None,
            column < self@.len() ==> entry is Some && name_view(entry->0) == self@[column as int],
    {
        proof {
            use_type_invariant(self);
        }
        names_get(&self.names, column)
    }
}

} // verus!
