//! The errors a decode can end in. Every one of them ends the decode.

use crate::cell::text_view;
use vstd::prelude::*;

verus! {

/// A read position in the grid.
#[derive(Clone, Copy, Debug, PartialEq, Eq)]
pub struct Cursor {
    /// The row, counted from the header row, which is row 0.
    pub row: usize,
    /// The column of the field being decoded; `None` while the row as a whole is
    /// being decoded.
    pub column: Option<usize>,
}

/// Why a decode failed.
#[derive(Debug, PartialEq, Eq)]
pub enum Error {
    /// The grid could not be fetched.
    UpstreamFailure(String),
    /// The grid has no rows, or a row was needed past the last one.
    ZeroRows,
    /// A value was needed where the cursor points at none.
    MissingValue { at: Cursor },
    /// A number was asked for where the cell is read as something else; `found` is
    /// the text the cell holds, if any.
    NotNumber { at: Cursor, found: Option<String> },
    /// A boolean was asked for where the cell is read as something else.
    NotBoolean,
    /// A tagged-union variant with associated data was asked for.
    UnsupportedVariant,
    /// A failure raised by the decode protocol itself.
    Custom(String),
}

/// The mathematical value of an [`Error`].
pub enum ErrorView {
    UpstreamFailure(Seq<char>),
    ZeroRows,
    MissingValue { at: Cursor },
    NotNumber { at: Cursor, found: Option<Seq<char>> },
    NotBoolean,
    UnsupportedVariant,
    Custom(Seq<char>),
}

impl View for Error {
    type V = ErrorView;

    open spec fn view(&self) -> ErrorView {
        match *self {
            Error::UpstreamFailure(message) => ErrorView::UpstreamFailure(message@),
            Error::ZeroRows => ErrorView::ZeroRows,
            Error::MissingValue { at } => ErrorView::MissingValue { at },
            Error::NotNumber { at, found } => ErrorView::NotNumber { at, found: text_view(found) },
            Error::NotBoolean => ErrorView::NotBoolean,
            Error::UnsupportedVariant => ErrorView::UnsupportedVariant,
            Error::Custom(message) => ErrorView::Custom(message@),
        }
    }
}

/// The character of a decimal digit.
pub open spec fn digit(d: int) -> char {
    if d == 0 {
        '0'
    } else if d == 1 {
        '1'
    } else if d == 2 {
        '2'
    } else if d == 3 {
        '3'
    } else if d == 4 {
        '4'
    } else if d == 5 {
        '5'
    } else if d == 6 {
        '6'
    } else if d == 7 {
        '7'
    } else if d == 8 {
        '8'
    } else {
        '9'
    }
}

/// A number in decimal, without leading zeros.
pub open spec fn decimal(n: nat) -> Seq<char>
    decreases n,
{
    if n < 10 {
        seq![digit(n as int)]
    } else {
        decimal(n / 10).push(digit((n % 10) as int))
    }
}

/// A position as it stands in a message.
pub open spec fn cursor_text(at: Cursor) -> Seq<char> {
    "Key idx: "@ + match at.column {
        Some(column) => "Some("@ + decimal(column as nat) + ")"@,
        None => "None"@,
    } + ", Row idx "@ + decimal(at.row as nat)
}

/// The text found in place of a number, as it stands in a message.
pub open spec fn found_text(found: Option<Seq<char>>) -> Seq<char> {
    match found {
        Some(text) => "\""@ + text + "\""@,
        None => "no text"@,
    }
}

/// The message of an error.
pub open spec fn message_text(e: ErrorView) -> Seq<char> {
    match e {
        ErrorView::UpstreamFailure(message) => "google_sheets error: "@ + message,
        ErrorView::ZeroRows => "zero rows in sheet"@,
        ErrorView::MissingValue { at } => "expected value but it wasn't present, ctx: "@
            + cursor_text(at),
        ErrorView::NotNumber { at, found } => "expected number value, found "@ + found_text(found)
            + ", ctx: "@ + cursor_text(at),
        ErrorView::NotBoolean => "expected bool value"@,
        ErrorView::UnsupportedVariant => "variant with associated data not supported"@,
        ErrorView::Custom(message) => message,
    }
}

/// The text of one decimal digit.
fn digit_text(d: usize) -> (text: &'static str)
    requires
        d < 10,
    ensures
        text@ == seq![digit(d as int)],
{
    proof {
        reveal_strlit("0");
        reveal_strlit("1");
        reveal_strlit("2");
        reveal_strlit("3");
        reveal_strlit("4");
        reveal_strlit("5");
        reveal_strlit("6");
        reveal_strlit("7");
        reveal_strlit("8");
        reveal_strlit("9");
    }
    let text = if d == 0 {
        "0"
    } else if d == 1 {
        "1"
    } else if d == 2 {
        "2"
    } else if d == 3 {
        "3"
    } else if d == 4 {
        "4"
    } else if d == 5 {
        "5"
    } else if d == 6 {
        "6"
    } else if d == 7 {
        "7"
    } else if d == 8 {
        "8"
    } else {
        "9"
    };
    assert(text@ =~= seq![digit(d as int)]);
    text
}

/// Appends `n` in decimal.
fn append_decimal(out: &mut String, n: usize)
    ensures
        final(out)@ == old(out)@ + decimal(n as nat),
    decreases n,
{
    if n < 10 {
        out.append(digit_text(n));
    } else {
        append_decimal(out, n / 10);
        out.append(digit_text(n % 10));
    }
}

/// Appends a position as it stands in a message.
fn append_cursor(out: &mut String, at: Cursor)
    ensures
        final(out)@ == old(out)@ + cursor_text(at),
{
    out.append("Key idx: ");
    match at.column {
        Some(column) => {
            out.append("Some(");
            append_decimal(out, column);
            out.append(")");
        },
        None => {
            out.append("None");
        },
    }
    out.append(", Row idx ");
    append_decimal(out, at.row);
}

impl Error {
    /// The failure that the decode protocol raises with `message`.
    pub fn custom(message: String) -> (e: Error)
        ensures
            e@ == ErrorView::Custom(message@),
    {
        Error::Custom(message)
    }

    /// The message of the error, for a reader.
    pub fn message(&self) -> (text: String)
        ensures
            text@ == message_text(self@),
    {
        match self {
            Error::UpstreamFailure(message) => {
                let mut out = String::from_str("google_sheets error: ");
                out.append(message.as_str());
                out
            },
            Error::ZeroRows => String::from_str("zero rows in sheet"),
            Error::MissingValue { at } => {
                let mut out = String::from_str("expected value but it wasn't present, ctx: ");
                append_cursor(&mut out, *at);
                out
            },
            Error::NotNumber { at, found } => {
                let mut out = String::from_str("expected number value, found ");
                match found {
                    Some(text) => {
                        out.append("\"");
                        out.append(text.as_str());
                        out.append("\"");
                    },
                    None => {
                        out.append("no text");
                    },
                }
                out.append(", ctx: ");
                append_cursor(&mut out, *at);
                out
            },
            Error::NotBoolean => String::from_str("expected bool value"),
            Error::UnsupportedVariant => String::from_str(
                "variant with associated data not supported",
            ),
            Error::Custom(message) => message.clone(),
        }
    }
}

} // verus!
