//! Vocabulary tables into flashcards.
//!
//! A table of vocabulary, as a markup reader hands it over, is decoded row
//! by row against a schema into expressions; each expression is projected
//! onto a flashcard whose sound marker names the audio file of the
//! expression. Reading files, fetching audio and writing the export are
//! left to the caller.
//!
//! - [`cell`]: what a table cell may hold, and the typed cells.
//! - [`schema`]: which kind of cell each position of a row must hold.
//! - [`row`]: decoding one row against a schema.
//! - [`expression`]: the vocabulary entry that a decoded row stands for.
//! - [`table`]: decoding a whole table, all or nothing.
//! - [`audio`]: the file name behind an audio reference.
//! - [`flashcard`]: the card of an expression.
//! - [`export`]: cleaning markup, and where the output goes.
//! - [`outcome`] and [`text`]: what the other modules share.

pub mod audio;
pub mod cell;
pub mod export;
pub mod expression;
pub mod flashcard;
pub mod outcome;
pub mod row;
pub mod schema;
pub mod table;
pub mod text;

pub use audio::{sound_file_name, sound_marker, InvalidAudioReferenceError, ParsedReference};
pub use cell::{
    Audio, AudioCell, Cell, CellKind, MalformedCellError, OptionalTextCell, RawCell, TextCell,
};
pub use export::{clean_content, get_csv_output_path, get_media_output_path};
pub use expression::{Expression, PROPER_NAME};
pub use flashcard::{DisplayMode, Flashcard, ProjectionError};
pub use row::{DataCells, Row, RowDecodeError, RowFault};
pub use schema::Schema;
pub use table::{DecodeError, MissingRowDataError, Table};
