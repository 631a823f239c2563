//! The cell model and the cell interpreter.

use vstd::prelude::*;

verus! {

/// What a populated cell carries. A spreadsheet cell may carry several of these
/// at once; [`kind_of`] decides which of them the cell is read as.
#[derive(Clone, Debug, PartialEq, Eq)]
pub struct RawValue {
    /// The boolean value, if the cell holds one.
    pub boolean: Option<bool>,
    /// Whether the cell holds an error marker.
    pub error: bool,
    /// Whether the cell holds a formula marker.
    pub formula: bool,
    /// The numeric value, as the bit pattern of an IEEE 754 double. The decoder
    /// carries the pattern through and never computes with it.
    pub number: Option<u64>,
    /// The textual value, if the cell holds one.
    pub text: Option<String>,
}

/// One grid position: the raw value, the text the cell is displayed as, and the
/// tag of its number format (`DATE`, `TIME`, `DATE_TIME`, ...).
#[derive(Clone, Debug, PartialEq, Eq)]
pub struct Cell {
    /// `None` for a cell that is not populated.
    pub raw_value: Option<RawValue>,
    pub formatted_value: Option<String>,
    pub format_kind: Option<String>,
}

/// The mathematical value of a [`RawValue`].
pub struct RawValueView {
    pub boolean: Option<bool>,
    pub error: bool,
    pub formula: bool,
    pub number: Option<u64>,
    pub text: Option<Seq<char>>,
}

/// The mathematical value of a [`Cell`].
pub struct CellView {
    pub raw_value: Option<RawValueView>,
    pub formatted_value: Option<Seq<char>>,
    pub format_kind: Option<Seq<char>>,
}

/// The characters of an optional string.
pub open spec fn text_view(text: Option<String>) -> Option<Seq<char>> {
    match text {
        Some(s) => Some(s@),
        None => None,
    }
}

impl View for RawValue {
    type V = RawValueView;

    open spec fn view(&self) -> RawValueView {
        RawValueView {
            boolean: self.boolean,
            error: self.error,
            formula: self.formula,
            number: self.number,
            text: text_view(self.text),
        }
    }
}

impl View for Cell {
    type V = CellView;

    open spec fn view(&self) -> CellView {
        CellView {
            raw_value: match self.raw_value {
                Some(raw) => Some(raw@),
                None => None,
            },
            formatted_value: text_view(self.formatted_value),
            format_kind: text_view(self.format_kind),
        }
    }
}

/// The scalar kind a cell is read as.
#[derive(Clone, Copy, Debug, PartialEq, Eq, Structural)]
pub enum Kind {
    /// Nothing to read: the cell is not populated, or carries none of the known fields.
    Missing,
    /// The boolean value.
    Boolean,
    /// The display text: an error marker, a formula marker, or a number formatted
    /// as a date or time.
    DisplayText,
    /// The numeric value.
    Number,
    /// The textual value.
    Text,
}

/// Whether a format tag marks a date or a time.
pub open spec fn is_temporal(format_kind: Option<Seq<char>>) -> bool {
    format_kind == Some("DATE"@) || format_kind == Some("TIME"@) || format_kind == Some(
        "DATE_TIME"@,
    )
}

/// The precedence by which a cell is read: boolean, then error and formula
/// markers, then number (as display text under a date or time format), then text.
pub open spec fn kind_of(cell: CellView) -> Kind {
    match cell.raw_value {
        None => Kind::Missing,
        Some(raw) => if raw.boolean is Some {
            Kind::Boolean
        } else if raw.error || raw.formula {
            Kind::DisplayText
        } else if raw.number is Some {
            if is_temporal(cell.format_kind) {
                Kind::DisplayText
            } else {
                Kind::Number
            }
        } else if raw.text is Some {
            Kind::Text
        } else {
            Kind::Missing
        },
    }
}

/// Whether the tag is one of `DATE`, `TIME`, `DATE_TIME`.
fn temporal_tag(format_kind: &Option<String>) -> (r: bool)
    ensures
        r == is_temporal(text_view(*format_kind)),
{
    match format_kind {
        None => false,
        Some(tag) => {
            let date = String::from_str("DATE");
            let time = String::from_str("TIME");
            let date_time = String::from_str("DATE_TIME");
            *tag == date || *tag == time || *tag == date_time
        },
    }
}

impl Cell {
    /// A cell is populated iff it has a raw value.
    pub fn is_populated(&self) -> (r: bool)
        ensures
            r == (self@.raw_value is Some),
    {
        self.raw_value.is_some()
    }

    /// The cell interpreter: which scalar kind the cell is read as.
    pub fn kind(&self) -> (k: Kind)
        ensures
            k == kind_of(self@),
    {
        match &self.raw_value {
            None => Kind::Missing,
            Some(raw) => {
                if raw.boolean.is_some() {
                    Kind::Boolean
                } else if raw.error || raw.formula {
                    Kind::DisplayText
                } else if raw.number.is_some() {
                    if temporal_tag(&self.format_kind) {
                        Kind::DisplayText
                    } else {
                        Kind::Number
                    }
                } else if raw.text.is_some() {
                    Kind::Text
                } else {
                    Kind::Missing
                }
            },
        }
    }
}

impl Default for Cell {
    /// The unpopulated cell: no raw value, no display text, no format tag.
    fn default() -> (cell: Cell)
        ensures
            cell@ == (CellView { raw_value: None, formatted_value: None, format_kind: None }),
    {
        Cell { raw_value: None, formatted_value: None, format_kind: None }
    }
}

/// A cell that holds the text `s` and is displayed as `s`.
pub fn string_cell(s: &str) -> (cell: Cell)
    ensures
        cell@ == (CellView {
            raw_value: Some(
                RawValueView {
                    boolean: None,
                    error: false,
                    formula: false,
                    number: None,
                    text: Some(s@),
                },
            ),
            formatted_value: Some(s@),
            format_kind: None,
        }),
{
    Cell {
        raw_value: Some(
            RawValue {
                boolean: None,
                error: false,
                formula: false,
                number: None,
                text: Some(String::from_str(s)),
            },
        ),
        formatted_value: Some(String::from_str(s)),
        format_kind: None,
    }
}

} // verus!
