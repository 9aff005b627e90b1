//! The schema of a row: which kind of cell each position is expected to
//! hold.
//!
//! A row has six positions. What each of them means is fixed; whether the
//! texts among them are required is what a schema decides.

use crate::cell::CellKind;
use vstd::prelude::*;

verus! {

/// The position of the prefix.
pub const PREFIX: usize = 0;

/// The position of the headword: its audio and, as the label, the word.
pub const HEADWORD: usize = 1;

/// The position of the transcription.
pub const TRANSCRIPTION: usize = 2;

/// The position of the inflection.
pub const INFLECTION: usize = 3;

/// The position of the translation.
pub const TRANSLATION: usize = 4;

/// The last position, which is reserved: a row must have it, and nothing
/// reads it.
pub const TRAILING: usize = 5;

/// The number of positions in a row.
pub const POSITIONS: usize = 6;

/// Whether a list of kinds can be mapped onto an expression: six
/// positions, audio at the headword, a required text at the translation,
/// and texts, required or not, for prefix, transcription and inflection.
pub open spec fn is_expression_layout(kinds: Seq<CellKind>) -> bool {
    &&& kinds.len() == POSITIONS
    &&& kinds[PREFIX as int] != CellKind::Audio
    &&& kinds[HEADWORD as int] == CellKind::Audio
    &&& kinds[TRANSCRIPTION as int] != CellKind::Audio
    &&& kinds[INFLECTION as int] != CellKind::Audio
    &&& kinds[TRANSLATION as int] == CellKind::RequiredText
}

/// The layout in which every text but the translation is optional.
pub open spec fn standard_layout() -> Seq<CellKind> {
    seq![
        CellKind::OptionalText,
        CellKind::Audio,
        CellKind::OptionalText,
        CellKind::OptionalText,
        CellKind::RequiredText,
        CellKind::OptionalText,
    ]
}

/// The layout in which the transcription is required too.
pub open spec fn strict_layout() -> Seq<CellKind> {
    seq![
        CellKind::OptionalText,
        CellKind::Audio,
        CellKind::RequiredText,
        CellKind::OptionalText,
        CellKind::RequiredText,
        CellKind::OptionalText,
    ]
}

/// A schema: the kinds expected at the six positions of a row.
#[derive(Debug, PartialEq, Eq)]
pub struct Schema {
    kinds: Vec<CellKind>,
}

impl View for Schema {
    type V = Seq<CellKind>;

    closed spec fn view(&self) -> Seq<CellKind> {
        self.kinds@
    }
}

impl Schema {
    #[verifier::type_invariant]
    spec fn maps_to_expression(self) -> bool {
        is_expression_layout(self.kinds@)
    }

    /// Makes a schema of `kinds`, if they can be mapped onto an
    /// expression.
    pub fn new(kinds: Vec<CellKind>) -> (schema: Option<Schema>)
        ensures
            schema is Some <==> is_expression_layout(kinds@),
            schema matches Some(schema) ==> schema@ == kinds@,
    {
        if kinds.len() == POSITIONS && kinds[PREFIX] != CellKind::Audio && kinds[HEADWORD]
            == CellKind::Audio && kinds[TRANSCRIPTION] != CellKind::Audio && kinds[INFLECTION]
            != CellKind::Audio && kinds[TRANSLATION] == CellKind::RequiredText {
            Some(Schema { kinds })
        } else {
            None
        }
    }

    /// The schema in which every text but the translation is optional.
    pub fn standard() -> (schema: Schema)
        ensures
            schema@ == standard_layout(),
    {
        let mut kinds: Vec<CellKind> = Vec::new();
        kinds.push(CellKind::OptionalText);
        kinds.push(CellKind::Audio);
        kinds.push(CellKind::OptionalText);
        kinds.push(CellKind::OptionalText);
        kinds.push(CellKind::RequiredText);
        kinds.push(CellKind::OptionalText);
        Schema { kinds }
    }

    /// The schema in which the transcription is required as well.
    pub fn strict() -> (schema: Schema)
        ensures
            schema@ == strict_layout(),
    {
        let mut kinds: Vec<CellKind> = Vec::new();
        kinds.push(CellKind::OptionalText);
        kinds.push(CellKind::Audio);
        kinds.push(CellKind::RequiredText);
        kinds.push(CellKind::OptionalText);
        kinds.push(CellKind::RequiredText);
        kinds.push(CellKind::OptionalText);
        Schema { kinds }
    }

    /// The kinds of this schema, by position.
    pub fn kinds(&self) -> (kinds: &Vec<CellKind>)
        ensures
            kinds@ == self@,
            is_expression_layout(self@),
    {
        proof {
            use_type_invariant(self);
        }
        &self.kinds
    }
}

} // verus!
