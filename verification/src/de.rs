//! The structured decoder: a cursor over the grid that answers decode requests.

use crate::cell::{kind_of, Cell, CellView, Kind, RawValueView};
use crate::error::{Cursor, Error, ErrorView};
use crate::grid::{is_blank, Grid, Row};
use crate::header::{header_of, HeaderIndex};
use vstd::prelude::*;

verus! {

/// What the decoder is, to its contracts: the grid it reads, where it stands, and
/// whether it is reading the tag of a tagged union.
pub struct DecoderState {
    pub grid: Seq<Seq<CellView>>,
    pub cursor: Cursor,
    pub parsing_tag: bool,
}

impl DecoderState {
    /// The state a decode starts in: at the first row after the header, on the
    /// row as a whole.
    pub open spec fn start(grid: Seq<Seq<CellView>>) -> DecoderState {
        DecoderState { grid, cursor: Cursor { row: 1, column: None }, parsing_tag: false }
    }

    /// The grid has a header row, and the cursor stands on a row after it or
    /// just past the last row.
    pub open spec fn valid(self) -> bool {
        1 <= self.cursor.row <= self.grid.len()
    }

    /// The field names, by column position.
    pub open spec fn header(self) -> Seq<Option<Seq<char>>> {
        header_of(self.grid[0])
    }

    /// Whether the cursor stands on a row.
    pub open spec fn has_row(self) -> bool {
        self.cursor.row < self.grid.len()
    }

    /// The row the cursor stands on.
    pub open spec fn row(self) -> Seq<CellView>
        recommends
            self.has_row(),
    {
        self.grid[self.cursor.row as int]
    }

    /// The cell the cursor points at: none while the row as a whole is being
    /// decoded, and none where the row does not reach the column.
    pub open spec fn cell(self) -> Option<CellView>
        recommends
            self.has_row(),
    {
        match self.cursor.column {
            Some(column) if column < self.row().len() => Some(self.row()[column as int]),
            _ => None,
        }
    }

    /// The raw value under the cursor, if the cursor points at a populated cell.
    pub open spec fn raw_value(self) -> Option<RawValueView> {
        match self.cell() {
            Some(cell) => cell.raw_value,
            None => None,
        }
    }

    /// The failure of a read that found no value under the cursor.
    pub open spec fn missing(self) -> ErrorView {
        ErrorView::MissingValue { at: self.cursor }
    }

    /// The same state with the cursor moved to `cursor`.
    pub open spec fn at(self, cursor: Cursor) -> DecoderState {
        DecoderState { cursor, ..self }
    }

    /// The cell that a read of one field aims at. While the row as a whole is
    /// being decoded there is none. A column past the last row is the failure
    /// `ZeroRows`.
    pub open spec fn target(self) -> Result<Option<CellView>, ErrorView> {
        if self.cursor.column is Some && !self.has_row() {
            Err(ErrorView::ZeroRows)
        } else {
            Ok(self.cell())
        }
    }

    /// A read of a boolean: the cell's boolean value, where the cell is read as
    /// a boolean. `MissingValue` where the cursor points at no populated cell,
    /// `NotBoolean` where the cell is read as anything else.
    pub open spec fn boolean(self) -> Result<bool, ErrorView> {
        match self.target() {
            Err(e) => Err(e),
            Ok(None) => Err(self.missing()),
            Ok(Some(cell)) => match cell.raw_value {
                None => Err(self.missing()),
                Some(raw) => if kind_of(cell) == Kind::Boolean {
                    Ok(raw.boolean->0)
                } else {
                    Err(ErrorView::NotBoolean)
                },
            },
        }
    }

    /// A read of a number: the bit pattern of the cell's numeric value, where the
    /// cell is read as a number. `MissingValue` where the cursor points at no
    /// populated cell, `NotNumber` where the cell is read as anything else.
    pub open spec fn number(self) -> Result<u64, ErrorView> {
        match self.target() {
            Err(e) => Err(e),
            Ok(None) => Err(self.missing()),
            Ok(Some(cell)) => match cell.raw_value {
                None => Err(self.missing()),
                Some(raw) => if kind_of(cell) == Kind::Number {
                    Ok(raw.number->0)
                } else {
                    Err(ErrorView::NotNumber { at: self.cursor, found: raw.text })
                },
            },
        }
    }

    /// A read of text: the cell's display text, whatever its raw value.
    /// `MissingValue` where the cursor points at no cell or the cell has no
    /// display text.
    pub open spec fn text(self) -> Result<Seq<char>, ErrorView> {
        match self.target() {
            Err(e) => Err(e),
            Ok(None) => Err(self.missing()),
            Ok(Some(cell)) => match cell.formatted_value {
                Some(text) => Ok(text),
                None => Err(self.missing()),
            },
        }
    }

    /// Whether there is a value at the cursor. For a row as a whole: whether any
    /// of its cells is populated. For one field: whether its cell is populated.
    pub open spec fn option(self) -> Result<bool, ErrorView> {
        if !self.has_row() {
            Err(ErrorView::ZeroRows)
        } else if self.cursor.column is None {
            Ok(!is_blank(self.row()))
        } else {
            Ok(self.raw_value() is Some)
        }
    }

    /// A read with no kind asked for. For a row as a whole it says only whether
    /// the row holds anything. For one field it is the cell read by the
    /// interpreter's precedence.
    pub open spec fn any(self) -> Result<AnyValueView, ErrorView> {
        if !self.has_row() {
            Err(ErrorView::ZeroRows)
        } else if self.cursor.column is None {
            if is_blank(self.row()) {
                Ok(AnyValueView::Nothing)
            } else {
                Ok(AnyValueView::Something)
            }
        } else {
            match self.cell() {
                None => Ok(AnyValueView::Nothing),
                Some(cell) => match kind_of(cell) {
                    Kind::Missing => Ok(AnyValueView::Nothing),
                    Kind::Boolean => Ok(AnyValueView::Boolean(cell.raw_value->0.boolean->0)),
                    Kind::DisplayText => match cell.formatted_value {
                        Some(text) => Ok(AnyValueView::Text(text)),
                        None => Err(self.missing()),
                    },
                    Kind::Number => Ok(AnyValueView::Number(cell.raw_value->0.number->0)),
                    Kind::Text => Ok(AnyValueView::Text(cell.raw_value->0.text->0)),
                },
            }
        }
    }

    /// A read of the unit value, which stands for nothing at all: it succeeds on
    /// a blank row, and on a field whose cell is not populated, and is `ZeroRows`
    /// where something is there.
    pub open spec fn unit(self) -> Result<(), ErrorView> {
        if self.cursor.column is None {
            if self.has_row() && !is_blank(self.row()) {
                Err(ErrorView::ZeroRows)
            } else {
                Ok(())
            }
        } else if !self.has_row() || self.raw_value() is Some {
            Err(ErrorView::ZeroRows)
        } else {
            Ok(())
        }
    }

    /// The name of the field the cursor points at.
    pub open spec fn field_name(self) -> Option<Seq<char>> {
        match self.cursor.column {
            Some(column) if column < self.header().len() => self.header()[column as int],
            _ => None,
        }
    }

    /// The column at which the search for the next key starts.
    pub open spec fn next_column(self) -> int {
        match self.cursor.column {
            Some(column) => column + 1,
            None => 0,
        }
    }

    /// The column of the next key of the row under the cursor: the next column
    /// that has a name and that the row reaches. `Ok(None)` where there is none.
    pub open spec fn next_key(self) -> Result<Option<int>, ErrorView> {
        if !self.has_row() {
            Err(ErrorView::ZeroRows)
        } else {
            Ok(next_named(self.header(), self.next_column(), self.row().len() as int))
        }
    }

    /// The state in which the next element of the sequence of rows is decoded:
    /// on the current row as a whole. `None` where no row is left.
    pub open spec fn next_element(self) -> Option<DecoderState> {
        if self.has_row() {
            Some(self.at(Cursor { row: self.cursor.row, column: None }))
        } else {
            None
        }
    }

    /// The state after an element: one row further, and never past the end.
    pub open spec fn finish_element(self) -> DecoderState {
        if self.has_row() {
            self.at(Cursor { row: (self.cursor.row + 1) as usize, column: self.cursor.column })
        } else {
            self
        }
    }

    /// The same state, reading a tag or not.
    pub open spec fn tagging(self, parsing_tag: bool) -> DecoderState {
        DecoderState { parsing_tag, ..self }
    }

    /// A read of an identifier: the cell's display text while a tag is being
    /// read, else the name of the current field.
    pub open spec fn identifier(self) -> Result<Seq<char>, ErrorView> {
        if self.parsing_tag {
            self.text()
        } else {
            match self.field_name() {
                Some(name) => Ok(name),
                None => Err(self.missing()),
            }
        }
    }
}

/// The first column at or after `from` and below `limit` that has a name.
pub open spec fn next_named(header: Seq<Option<Seq<char>>>, from: int, limit: int) -> Option<int>
    decreases limit - from,
{
    if from < 0 || from >= limit || from >= header.len() {
        None
    } else if header[from] is Some {
        Some(from)
    } else {
        next_named(header, from + 1, limit)
    }
}

/// The payload shapes a variant of a tagged union can have.
#[derive(Clone, Copy, Debug, PartialEq, Eq)]
pub enum VariantShape {
    /// The tag alone.
    Unit,
    /// The tag and one value.
    Newtype,
    /// The tag and several values by position.
    Tuple,
    /// The tag and several values by name.
    Struct,
}

/// The scalar kinds that no cell can be decoded to.
#[derive(Clone, Copy, Debug, PartialEq, Eq)]
pub enum Unsupported {
    Char,
    Bytes,
    ByteBuf,
}

/// The message with which a request for an unsupported scalar kind is refused.
pub open spec fn unsupported_message(kind: Unsupported) -> Seq<char> {
    match kind {
        Unsupported::Char => "Char type not supported"@,
        Unsupported::Bytes => "Bytes type not supported"@,
        Unsupported::ByteBuf => "Byte buf type not supported"@,
    }
}

/// Refuses a scalar kind that no cell can be decoded to.
pub fn unsupported(kind: Unsupported) -> (e: Error)
    ensures
        e@ == ErrorView::Custom(unsupported_message(kind)),
{
    match kind {
        Unsupported::Char => Error::Custom(String::from_str("Char type not supported")),
        Unsupported::Bytes => Error::Custom(String::from_str("Bytes type not supported")),
        Unsupported::ByteBuf => Error::Custom(String::from_str("Byte buf type not supported")),
    }
}

/// Decides on the payload of a variant: only the tag alone can be decoded, and
/// every shape with associated data is `UnsupportedVariant`.
pub fn variant_payload(shape: VariantShape) -> (r: Result<(), Error>)
    ensures
        shape is Unit ==> r is Ok,
        !(shape is Unit) ==> r is Err && r->Err_0@ == ErrorView::UnsupportedVariant,
{
    match shape {
        VariantShape::Unit => Ok(()),
        _ => Err(Error::UnsupportedVariant),
    }
}

/// What a read with no kind asked for hands to the consumer.
#[derive(Clone, Copy, Debug, PartialEq)]
pub enum AnyValue<'a> {
    /// No value.
    Nothing,
    /// The row holds a value; the consumer decodes it from the same row.
    Something,
    Boolean(bool),
    /// The bit pattern of an IEEE 754 double.
    Number(u64),
    Text(&'a str),
}

/// The mathematical value of an [`AnyValue`].
pub enum AnyValueView {
    Nothing,
    Something,
    Boolean(bool),
    Number(u64),
    Text(Seq<char>),
}

impl<'a> View for AnyValue<'a> {
    type V = AnyValueView;

    open spec fn view(&self) -> AnyValueView {
        match *self {
            AnyValue::Nothing => AnyValueView::Nothing,
            AnyValue::Something => AnyValueView::Something,
            AnyValue::Boolean(b) => AnyValueView::Boolean(b),
            AnyValue::Number(bits) => AnyValueView::Number(bits),
            AnyValue::Text(text) => AnyValueView::Text(text@),
        }
    }
}

/// Whether a result is the expected one: the same value, or the same error.
pub open spec fn agrees<T: View>(r: Result<T, Error>, expected: Result<T::V, ErrorView>) -> bool {
    match r {
        Ok(value) => expected == Ok::<T::V, ErrorView>(value@),
        Err(e) => expected == Err::<T::V, ErrorView>(e@),
    }
}

/// The decoder. It borrows the grid for as long as it lives and hands out
/// references into it.
pub struct Deserializer<'de> {
    grid: &'de Grid,
    types: HeaderIndex<'de>,
    cursor: Cursor,
    parsing_enum: bool,
}

impl<'de> View for Deserializer<'de> {
    type V = DecoderState;

    closed spec fn view(&self) -> DecoderState {
        DecoderState { grid: self.grid@, cursor: self.cursor, parsing_tag: self.parsing_enum }
    }
}

/// Starts a decode of `grid_data`: builds the header index from the first row and
/// puts the cursor on the row after it. Fails with `ZeroRows` iff the grid has no
/// row at all.
pub fn from_grid_data<'de>(grid_data: &'de Grid) -> (r: Result<Deserializer<'de>, Error>)
    ensures
        grid_data@.len() == 0 ==> r is Err && r->Err_0@ == ErrorView::ZeroRows,
        grid_data@.len() > 0 ==> r is Ok && r->Ok_0@ == DecoderState::start(grid_data@),
{
    if grid_data.rows.len() == 0 {
        return Err(Error::ZeroRows);
    }
    let types = HeaderIndex::new(&grid_data.rows[0]);
    Ok(
        Deserializer {
            grid: grid_data,
            types,
            cursor: Cursor { row: 1, column: None },
            parsing_enum: false,
        },
    )
}

impl<'de> Deserializer<'de> {
    #[verifier::type_invariant]
    closed spec fn wf(self) -> bool {
        &&& self@.valid()
        &&& self.types@ == header_of(self.grid@[0])
    }

    /// Where the decoder stands.
    pub fn cursor(&self) -> (cursor: Cursor)
        ensures
            cursor == self@.cursor,
            self@.valid(),
    {
        proof {
            use_type_invariant(self);
        }
        self.cursor
    }

    /// The row the cursor stands on, if any.
    fn get_cur_row_data(&self) -> (row: Option<&'de Row>)
        ensures
            self@.valid(),
            self@.has_row() ==> row is Some && row->0@ == self@.row(),
            !self@.has_row() ==> row is None,
    {
        proof {
            use_type_invariant(self);
        }
        if self.cursor.row < self.grid.rows.len() {
            Some(&self.grid.rows[self.cursor.row])
        } else {
            None
        }
    }

    /// The cell that a read of one field aims at.
    fn get_cur_cell_data(&self) -> (r: Result<Option<&'de Cell>, Error>)
        ensures
            match r {
                Ok(Some(cell)) => self@.target() == Ok::<Option<CellView>, ErrorView>(Some(cell@)),
                Ok(None) => self@.target() == Ok::<Option<CellView>, ErrorView>(None),
                Err(e) => self@.target() == Err::<Option<CellView>, ErrorView>(e@),
            },
    {
        match self.cursor.column {
            None => Ok(None),
            Some(column) => match self.get_cur_row_data() {
                None => Err(Error::ZeroRows),
                Some(row) => Ok(row.get(column)),
            },
        }
    }

    /// The failure of a read that found no value under the cursor.
    fn missing_value(&self) -> (e: Error)
        ensures
            e@ == self@.missing(),
    {
        Error::MissingValue { at: self.cursor }
    }

    /// Reads a number: the bit pattern of the numeric value of the cell under the
    /// cursor.
    pub fn deserialize_number(&self) -> (r: Result<u64, Error>)
        ensures
            agrees(r, self@.number()),
    {
        let cell = match self.get_cur_cell_data()? {
            Some(cell) => cell,
            None => return Err(self.missing_value()),
        };
        match &cell.raw_value {
            None => Err(self.missing_value()),
            Some(raw) => match cell.kind() {
                Kind::Number => Ok(raw.number.unwrap()),
                _ => {
                    let found = match &raw.text {
                        Some(text) => Some(text.clone()),
                        None => None,
                    };
                    Err(Error::NotNumber { at: self.cursor, found })
                },
            },
        }
    }

    /// Reads a boolean from the cell under the cursor.
    pub fn deserialize_bool(&self) -> (r: Result<bool, Error>)
        ensures
            agrees(r, self@.boolean()),
    {
        let cell = match self.get_cur_cell_data()? {
            Some(cell) => cell,
            None => return Err(self.missing_value()),
        };
        match &cell.raw_value {
            None => Err(self.missing_value()),
            Some(raw) => match cell.kind() {
                Kind::Boolean => Ok(raw.boolean.unwrap()),
                _ => Err(Error::NotBoolean),
            },
        }
    }

    /// Reads the display text of the cell under the cursor.
    pub fn deserialize_formatted_value(&self) -> (r: Result<&'de str, Error>)
        ensures
            agrees(r, self@.text()),
    {
        let cell = match self.get_cur_cell_data()? {
            Some(cell) => cell,
            None => return Err(self.missing_value()),
        };
        match &cell.formatted_value {
            Some(text) => Ok(text.as_str()),
            None => Err(self.missing_value()),
        }
    }

    /// Reads text: the display text of the cell under the cursor.
    pub fn deserialize_str(&self) -> (r: Result<&'de str, Error>)
        ensures
            agrees(r, self@.text()),
    {
        self.deserialize_formatted_value()
    }

    /// Says whether there is a value at the cursor: `false` for a row none of
    /// whose cells is populated, and for a field whose cell is not.
    pub fn deserialize_option(&self) -> (r: Result<bool, Error>)
        ensures
            agrees(r, self@.option()),
    {
        let row = match self.get_cur_row_data() {
            Some(row) => row,
            None => return Err(Error::ZeroRows),
        };
        match self.cursor.column {
            None => Ok(!row.is_blank()),
            Some(column) => match row.get(column) {
                Some(cell) => Ok(cell.is_populated()),
                None => Ok(false),
            },
        }
    }

    /// Reads whatever is at the cursor, by the interpreter's precedence.
    pub fn deserialize_any(&self) -> (r: Result<AnyValue<'de>, Error>)
        ensures
            agrees(r, self@.any()),
    {
        let row = match self.get_cur_row_data() {
            Some(row) => row,
            None => return Err(Error::ZeroRows),
        };
        let column = match self.cursor.column {
            Some(column) => column,
            None => {
                if row.is_blank() {
                    return Ok(AnyValue::Nothing);
                } else {
                    return Ok(AnyValue::Something);
                }
            },
        };
        let cell = match row.get(column) {
            Some(cell) => cell,
            None => return Ok(AnyValue::Nothing),
        };
        let raw = match &cell.raw_value {
            Some(raw) => raw,
            None => return Ok(AnyValue::Nothing),
        };
        match cell.kind() {
            Kind::Missing => Ok(AnyValue::Nothing),
            Kind::Boolean => Ok(AnyValue::Boolean(raw.boolean.unwrap())),
            Kind::DisplayText => match &cell.formatted_value {
                Some(text) => Ok(AnyValue::Text(text.as_str())),
                None => Err(self.missing_value()),
            },
            Kind::Number => Ok(AnyValue::Number(raw.number.unwrap())),
            Kind::Text => match &raw.text {
                Some(text) => Ok(AnyValue::Text(text.as_str())),
                None => Ok(AnyValue::Nothing),
            },
        }
    }

    /// Reads the unit value: succeeds where there is nothing at the cursor.
    pub fn deserialize_unit(&self) -> (r: Result<(), Error>)
        ensures
            agrees(r, self@.unit()),
    {
        match self.cursor.column {
            None => match self.get_cur_row_data() {
                Some(row) => if row.is_blank() {
                    Ok(())
                } else {
                    Err(Error::ZeroRows)
                },
                None => Ok(()),
            },
            Some(column) => match self.get_cur_row_data() {
                None => Err(Error::ZeroRows),
                Some(row) => match row.get(column) {
                    Some(cell) => if cell.is_populated() {
                        Err(Error::ZeroRows)
                    } else {
                        Ok(())
                    },
                    None => Ok(()),
                },
            },
        }
    }

    /// Reads an identifier: while the tag of a tagged union is being read, the
    /// display text of the cell under the cursor; else the name of the field the
    /// cursor points at.
    pub fn deserialize_identifier(&self) -> (r: Result<&'de str, Error>)
        ensures
            agrees(r, self@.identifier()),
    {
        if self.parsing_enum {
            return self.deserialize_formatted_value();
        }
        proof {
            use_type_invariant(self);
        }
        let name = match self.cursor.column {
            Some(column) => match self.types.get(column) {
                Some(name) => name,
                None => None,
            },
            None => None,
        };
        match name {
            Some(name) => Ok(name),
            None => Err(self.missing_value()),
        }
    }

    /// Moves to the next key of the record in the current row: the next column
    /// that has a name, nameless columns skipped. Returns the name, or `None`
    /// and leaves the cursor where it is when the row has no further key.
    pub fn next_key(&mut self) -> (r: Result<Option<&'de str>, Error>)
        ensures
            final(self)@.valid(),
            match old(self)@.next_key() {
                Err(e) => r is Err && r->Err_0@ == e && final(self)@ == old(self)@,
                Ok(None) => r is Ok && r->Ok_0 is None && final(self)@ == old(self)@,
                Ok(Some(column)) => {
                    &&& r is Ok && r->Ok_0 is Some
                    &&& Some(r->Ok_0->0@) == old(self)@.header()[column]
                    &&& final(self)@ == old(self)@.at(
                        Cursor { row: old(self)@.cursor.row, column: Some(column as usize) },
                    )
                },
            },
    {
        let row = match self.get_cur_row_data() {
            Some(row) => row,
            None => return Err(Error::ZeroRows),
        };
        let limit: usize = row.len();
        let start: usize = match self.cursor.column {
            Some(column) => {
                if column >= limit {
                    return Ok(None);
                }
                column + 1
            },
            None => 0,
        };
        let ghost header = self@.header();
        let mut new_idx: usize = start;
        while new_idx < limit
            invariant
                *self == *old(self),
                self@.has_row(),
                header == self@.header(),
                limit == self@.row().len(),
                start == self@.next_column(),
                start <= new_idx,
                next_named(header, new_idx as int, limit as int) == next_named(
                    header,
                    start as int,
                    limit as int,
                ),
            decreases limit - new_idx,
        {
            proof {
                use_type_invariant(&*self);
            }
            match self.types.get(new_idx) {
                None => {
                    return Ok(None);
                },
                Some(None) => {
                    new_idx += 1;
                },
                Some(Some(name)) => {
                    self.cursor = Cursor { row: self.cursor.row, column: Some(new_idx) };
                    return Ok(Some(name));
                },
            }
        }
        Ok(None)
    }

    /// Begins the next element of the sequence of rows: the current row, decoded
    /// as a whole. Returns `false`, and changes nothing, when no row is left.
    pub fn next_element(&mut self) -> (more: bool)
        ensures
            final(self)@.valid(),
            match old(self)@.next_element() {
                Some(state) => more && final(self)@ == state,
                None => !more && final(self)@ == old(self)@,
            },
    {
        proof {
            use_type_invariant(&*self);
        }
        if self.cursor.row < self.grid.rows.len() {
            self.cursor = Cursor { row: self.cursor.row, column: None };
            true
        } else {
            false
        }
    }

    /// Ends an element: moves the cursor to the next row.
    pub fn finish_element(&mut self)
        ensures
            final(self)@.valid(),
            final(self)@ == old(self)@.finish_element(),
    {
        proof {
            use_type_invariant(&*self);
        }
        if self.cursor.row < self.grid.rows.len() {
            self.cursor = Cursor { row: self.cursor.row + 1, column: self.cursor.column };
        }
    }

    /// The number of columns that the header row has.
    pub fn size_hint(&self) -> (hint: Option<usize>)
        ensures
            hint == Some(self@.header().len() as usize),
            self@.header().len() <= usize::MAX,
    {
        proof {
            use_type_invariant(self);
        }
        Some(self.types.len())
    }

    /// Begins the read of the tag of a tagged union: until `end_variant`, an
    /// identifier is the display text of the cell under the cursor.
    pub fn begin_variant(&mut self)
        ensures
            final(self)@.valid(),
            final(self)@ == old(self)@.tagging(true),
    {
        proof {
            use_type_invariant(&*self);
        }
        self.parsing_enum = true;
    }

    /// Ends the read of a tag: an identifier is the name of a field again.
    pub fn end_variant(&mut self)
        ensures
            final(self)@.valid(),
            final(self)@ == old(self)@.tagging(false),
    {
        proof {
            use_type_invariant(&*self);
        }
        self.parsing_enum = false;
    }
}

} // verus!
