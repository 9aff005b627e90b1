//! What stands around the decoding of a table: the cleaning that markup
//! needs before it can be read, and the places where the output goes.

use crate::text::{remove_all, without};
use vstd::prelude::*;

verus! {

/// The directory that holds the tables to convert.
pub const INPUT_DIRECTORY: &'static str = "data/input/";

/// The directory that receives one export file for each table.
pub const OUTPUT_DIRECTORY: &'static str = "data/output/";

/// The directory that receives the audio files.
pub const MEDIA_DIRECTORY: &'static str = "data/output/media/";

/// The entity for a no-break space, which the markup reader cannot read.
pub const NO_BREAK_SPACE: &'static str = "&nbsp;";

/// The path of the export file for the table whose file has the stem
/// `stem`.
pub open spec fn csv_output_path(stem: Seq<char>) -> Seq<char> {
    OUTPUT_DIRECTORY@ + stem + ".csv"@
}

/// The path of the audio file with the name `name`.
pub open spec fn media_output_path(name: Seq<char>) -> Seq<char> {
    MEDIA_DIRECTORY@ + name
}

/// Cleans markup for the reader: removes every [`NO_BREAK_SPACE`] entity.
pub fn clean_content(content: &str) -> (cleaned: String)
    ensures
        cleaned@ == without(content@, NO_BREAK_SPACE@),
{
    remove_all(content, NO_BREAK_SPACE)
}

/// The path of the export file for the table whose file has the stem
/// `file_stem`: `data/output/<stem>.csv`.
pub fn get_csv_output_path(file_stem: &str) -> (path: String)
    ensures
        path@ == csv_output_path(file_stem@),
{
    let mut path = OUTPUT_DIRECTORY.to_owned();
    path.append(file_stem);
    path.append(".csv");
    path
}

/// The path at which the audio file with the name `file_name` is stored:
/// `data/output/media/<name>`.
pub fn get_media_output_path(file_name: &str) -> (path: String)
    ensures
        path@ == media_output_path(file_name@),
{
    let mut path = MEDIA_DIRECTORY.to_owned();
    path.append(file_name);
    path
}

} // verus!
