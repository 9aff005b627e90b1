//! The expression: one vocabulary entry, as the rest of the library sees it.

use crate::cell::{AudioCellView, CellView};
use crate::row::{cell_text, is_expression_row, DataCells};
use crate::schema::{HEADWORD, INFLECTION, PREFIX, TRANSCRIPTION, TRANSLATION};
use vstd::prelude::*;

verus! {

/// The translation that stands for "this headword is a proper name": a
/// row that holds it is translated by its own headword.
pub const PROPER_NAME: &'static str = "proper name";

/// One vocabulary entry: a headword with its grammatical notes, its
/// translation and a reference to its audio.
#[derive(Debug, Clone, PartialEq, Eq)]
pub struct Expression {
    /// What goes before the headword, such as an article.
    pub prefix: Option<String>,
    /// The headword.
    pub word: String,
    /// The phonetic transcription of the headword.
    pub transcription: Option<String>,
    /// The inflected forms of the headword.
    pub inflection: Option<String>,
    /// The translation of the headword.
    pub translation: String,
    /// The reference to the audio of the headword: an absolute URL or a
    /// relative reference.
    pub audio: String,
}

/// The view of an [`Expression`]: its fields by their characters.
pub struct ExpressionView {
    pub prefix: Option<Seq<char>>,
    pub word: Seq<char>,
    pub transcription: Option<Seq<char>>,
    pub inflection: Option<Seq<char>>,
    pub translation: Seq<char>,
    pub audio: Seq<char>,
}

impl View for Expression {
    type V = ExpressionView;

    open spec fn view(&self) -> ExpressionView {
        ExpressionView {
            prefix: self.prefix.deep_view(),
            word: self.word@,
            transcription: self.transcription.deep_view(),
            inflection: self.inflection.deep_view(),
            translation: self.translation@,
            audio: self.audio@,
        }
    }
}

impl DeepView for Expression {
    type V = ExpressionView;

    open spec fn deep_view(&self) -> ExpressionView {
        self@
    }
}

impl ExpressionView {
    /// Whether the required fields are populated and no optional field
    /// holds an empty text. Every decoded expression is populated.
    pub open spec fn populated(self) -> bool {
        &&& self.word.len() > 0
        &&& self.translation.len() > 0
        &&& self.audio.len() > 0
        &&& self.prefix matches Some(text) ==> text.len() > 0
        &&& self.transcription matches Some(text) ==> text.len() > 0
        &&& self.inflection matches Some(text) ==> text.len() > 0
    }
}

/// The audio source and the label of a typed cell; both empty for a cell
/// that is no audio cell.
pub open spec fn cell_audio(cell: CellView) -> AudioCellView {
    match cell {
        CellView::Audio(audio) => audio,
        _ => AudioCellView { src: Seq::empty(), label: Seq::empty() },
    }
}

/// The translation of a headword, given the text of the translation cell:
/// the headword itself when the text is [`PROPER_NAME`], else the text as
/// it stands.
pub open spec fn translation_of(word: Seq<char>, text: Seq<char>) -> Seq<char> {
    if text == PROPER_NAME@ {
        word
    } else {
        text
    }
}

/// The expression that the typed cells of a row stand for.
///
/// The prefix, the transcription and the inflection are the texts at
/// their positions. The word is the label of the audio cell, the audio is
/// its source. The last position is not read.
pub open spec fn expression_of(cells: Seq<CellView>) -> ExpressionView {
    let headword = cell_audio(cells[HEADWORD as int]);
    ExpressionView {
        prefix: cell_text(cells[PREFIX as int]),
        word: headword.label,
        transcription: cell_text(cells[TRANSCRIPTION as int]),
        inflection: cell_text(cells[INFLECTION as int]),
        translation: translation_of(
            headword.label,
            cell_text(cells[TRANSLATION as int]).unwrap_or(Seq::empty()),
        ),
        audio: headword.src,
    }
}

/// The expression of a decoded row is populated.
pub proof fn lemma_expression_is_populated(cells: Seq<CellView>)
    requires
        is_expression_row(cells),
    ensures
        expression_of(cells).populated(),
{
}

/// An owned copy of an optional text.
fn owned(text: Option<&str>) -> (copy: Option<String>)
    ensures
        copy.deep_view() == text.deep_view(),
{
    match text {
        Some(text) => Some(text.to_owned()),
        None => None,
    }
}

impl Expression {
    /// Maps the typed cells of a row onto an expression.
    pub fn from(data_cells: DataCells) -> (expression: Expression)
        ensures
            expression@ == expression_of(data_cells@),
            expression@.populated(),
    {
        let headword = data_cells.headword();
        let word = headword.label().to_owned();
        let text = data_cells.translation().to_owned();
        let translation = if text == PROPER_NAME.to_owned() {
            word.clone()
        } else {
            text
        };
        proof {
            lemma_expression_is_populated(data_cells@);
        }
        Expression {
            prefix: owned(data_cells.prefix()),
            word,
            transcription: owned(data_cells.transcription()),
            inflection: owned(data_cells.inflection()),
            translation,
            audio: headword.audio().src().to_owned(),
        }
    }
}

} // verus!
