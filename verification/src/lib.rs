//! Decoding of a spreadsheet grid into typed values.
//!
//! A grid is a sequence of rows of format-tagged cells. Its first row names the
//! fields; every later row is one record. The [`Deserializer`] walks the grid with
//! a cursor and answers the requests of a structured decode protocol: a scalar, an
//! option, the next element of a sequence, the next key of a record, the tag of a
//! tagged union. Every answer is stated by a contract over the grid's view.

pub mod cell;
pub mod de;
pub mod error;
pub mod grid;
pub mod header;
pub mod laws;

pub use cell::{string_cell, Cell, CellView, Kind, RawValue, RawValueView};
pub use de::{
    from_grid_data, unsupported, variant_payload, AnyValue, AnyValueView, DecoderState, Deserializer,
    Unsupported, VariantShape,
};
pub use error::{Cursor, Error, ErrorView};
pub use grid::{grid_data, Grid, Row};
pub use header::HeaderIndex;
