//! The row decoder: checking the raw cells of one row against a schema.
//!
//! A row either gives a typed cell at every position of the schema, or the
//! decoding fails: no cell is dropped and none is made up.

use crate::cell::{parse_cell, Cell, CellKind, CellView, MalformedCellError, RawCell, RawCellView};
use crate::cell::{lemma_parsed_cell_is_well_formed, AudioCell};
use crate::outcome::{
    all_or_first_error, lemma_all_ok, lemma_error_has_source, lemma_next_error, lemma_next_ok,
};
use crate::schema::{
    is_expression_layout, Schema, HEADWORD, INFLECTION, PREFIX, TRANSCRIPTION, TRANSLATION,
};
use vstd::prelude::*;

verus! {

/// One row of a table: the raw cells that the markup reader found in it.
/// A row that is only there for the layout has none.
#[derive(Debug, Clone, PartialEq, Eq)]
pub struct Row {
    pub data_cells: Vec<RawCell>,
}

impl View for Row {
    type V = Seq<RawCellView>;

    open spec fn view(&self) -> Seq<RawCellView> {
        self.data_cells.deep_view()
    }
}

impl DeepView for Row {
    type V = Seq<RawCellView>;

    open spec fn deep_view(&self) -> Seq<RawCellView> {
        self@
    }
}

/// What is wrong with a row.
#[derive(Debug, Clone, Copy, PartialEq, Eq)]
pub enum RowFault {
    /// The row has fewer or more cells than the schema has positions.
    CellCount { expected: usize, found: usize },
    /// A cell falls short of the kind expected at its position.
    Cell(MalformedCellError),
}

/// A row that does not match the schema.
#[derive(Debug, Clone, Copy, PartialEq, Eq)]
pub struct RowDecodeError {
    /// The index of the row in its table; the header has index 0.
    pub row: usize,
    /// The position at which the row stops matching the schema: that of
    /// the malformed cell, or the first position that the row lacks or has
    /// in excess.
    pub position: usize,
    /// What is wrong there.
    pub fault: RowFault,
}

/// What the cell at `position` gives: the typed cell, or the error of the
/// row when the cell is malformed.
pub open spec fn cell_outcome(
    cells: Seq<RawCellView>,
    kinds: Seq<CellKind>,
    row: usize,
    position: int,
) -> Result<CellView, RowDecodeError> {
    match parse_cell(cells[position], kinds[position]) {
        Ok(cell) => Ok(cell),
        Err(error) => Err(
            RowDecodeError { row, position: position as usize, fault: RowFault::Cell(error) },
        ),
    }
}

/// What each cell of a row gives, by position.
pub open spec fn cell_outcomes(cells: Seq<RawCellView>, kinds: Seq<CellKind>, row: usize) -> Seq<
    Result<CellView, RowDecodeError>,
> {
    Seq::new(kinds.len(), |position: int| cell_outcome(cells, kinds, row, position))
}

/// The typed cells of a row, or why the row does not match the schema.
///
/// A row whose number of cells differs from that of the schema fails
/// whatever its cells hold. Otherwise the first malformed cell decides.
pub open spec fn decode_row(cells: Seq<RawCellView>, kinds: Seq<CellKind>, row: usize) -> Result<
    Seq<CellView>,
    RowDecodeError,
> {
    if cells.len() != kinds.len() {
        Err(
            RowDecodeError {
                row,
                position: if cells.len() < kinds.len() {
                    cells.len() as usize
                } else {
                    kinds.len() as usize
                },
                fault: RowFault::CellCount {
                    expected: kinds.len() as usize,
                    found: cells.len() as usize,
                },
            },
        )
    } else {
        all_or_first_error(cell_outcomes(cells, kinds, row))
    }
}

/// The kinds of a list of typed cells.
pub open spec fn kinds_of(cells: Seq<CellView>) -> Seq<CellKind> {
    Seq::new(cells.len(), |position: int| cells[position].kind())
}

/// Whether a list of typed cells can be mapped onto an expression: its
/// kinds make an expression layout, and no cell holds an empty text.
pub open spec fn is_expression_row(cells: Seq<CellView>) -> bool {
    &&& is_expression_layout(kinds_of(cells))
    &&& forall|position: int|
        0 <= position < cells.len() ==> (#[trigger] cells[position]).well_formed()
}

/// The text of a typed cell, if it is a text cell with a text.
pub open spec fn cell_text(cell: CellView) -> Option<Seq<char>> {
    match cell {
        CellView::RequiredText(body) => Some(body),
        CellView::OptionalText(body) => body,
        CellView::Audio(_) => None,
    }
}

/// A decoded row has, at every position, the cell that the raw cell there
/// gives for the kind the schema expects; so it has the kinds of the
/// schema.
pub proof fn lemma_decoded_row(cells: Seq<RawCellView>, kinds: Seq<CellKind>, row: usize)
    requires
        decode_row(cells, kinds, row) is Ok,
    ensures
        cells.len() == kinds.len(),
        decode_row(cells, kinds, row)->Ok_0.len() == kinds.len(),
        forall|position: int|
            0 <= position < kinds.len() ==> parse_cell(cells[position], kinds[position]) == Ok::<
                CellView,
                MalformedCellError,
            >(#[trigger] decode_row(cells, kinds, row)->Ok_0[position]),
        kinds_of(decode_row(cells, kinds, row)->Ok_0) == kinds,
        is_expression_layout(kinds) ==> is_expression_row(decode_row(cells, kinds, row)->Ok_0),
{
    let decoded = decode_row(cells, kinds, row)->Ok_0;
    lemma_all_ok(cell_outcomes(cells, kinds, row));
    assert forall|position: int| 0 <= position < kinds.len() implies {
        &&& parse_cell(cells[position], kinds[position]) == Ok::<CellView, MalformedCellError>(
            #[trigger] decoded[position],
        )
        &&& decoded[position].kind() == kinds[position]
        &&& decoded[position].well_formed()
    } by {
        lemma_parsed_cell_is_well_formed(cells[position], kinds[position]);
    }
}

/// The error of a row names that row. When the row has as many cells as
/// the schema has positions, the error names the first position whose
/// cell is malformed, and says how.
pub proof fn lemma_row_error(cells: Seq<RawCellView>, kinds: Seq<CellKind>, row: usize)
    requires
        decode_row(cells, kinds, row) is Err,
    ensures
        decode_row(cells, kinds, row)->Err_0.row == row,
        cells.len() == kinds.len() <= usize::MAX ==> {
            let error = decode_row(cells, kinds, row)->Err_0;
            &&& error.position < kinds.len()
            &&& parse_cell(cells[error.position as int], kinds[error.position as int]) is Err
            &&& error.fault == RowFault::Cell(
                parse_cell(cells[error.position as int], kinds[error.position as int])->Err_0,
            )
            &&& forall|earlier: int|
                0 <= earlier < error.position ==> parse_cell(
                    cells[earlier],
                    kinds[earlier],
                ) is Ok
        },
{
    if cells.len() == kinds.len() {
        let outcomes = cell_outcomes(cells, kinds, row);
        let first = lemma_error_has_source(outcomes);
        assert forall|earlier: int| 0 <= earlier < first implies parse_cell(
            cells[earlier],
            kinds[earlier],
        ) is Ok by {
            assert(outcomes[earlier] is Ok);
        }
    }
}

/// The typed cells of one row, in the order of the schema that the row
/// was decoded with.
#[derive(Debug, PartialEq, Eq)]
pub struct DataCells {
    cells: Vec<Cell>,
}

impl View for DataCells {
    type V = Seq<CellView>;

    closed spec fn view(&self) -> Seq<CellView> {
        self.cells.deep_view()
    }
}

/// The view of a decoding result.
pub open spec fn row_result<E>(result: Result<DataCells, E>) -> Result<Seq<CellView>, E> {
    match result {
        Ok(cells) => Ok(cells@),
        Err(error) => Err(error),
    }
}

/// The text of a typed cell, if it is a text cell with a text.
fn text_of(cell: &Cell) -> (text: Option<&str>)
    ensures
        text.deep_view() == cell_text(cell@),
{
    match cell {
        Cell::RequiredText(cell) => Some(cell.body()),
        Cell::OptionalText(cell) => cell.body(),
        Cell::Audio(_) => None,
    }
}

impl DataCells {
    #[verifier::type_invariant]
    spec fn maps_to_expression(self) -> bool {
        is_expression_row(self.cells.deep_view())
    }

    /// The prefix, if the row has one.
    pub fn prefix(&self) -> (text: Option<&str>)
        ensures
            is_expression_row(self@),
            text.deep_view() == cell_text(self@[PREFIX as int]),
    {
        proof {
            use_type_invariant(self);
        }
        text_of(&self.cells[PREFIX])
    }

    /// The cell of the headword: its audio and, as the label, the word.
    pub fn headword(&self) -> (cell: &AudioCell)
        ensures
            is_expression_row(self@),
            self@[HEADWORD as int] == CellView::Audio(cell@),
    {
        proof {
            use_type_invariant(self);
        }
        match &self.cells[HEADWORD] {
            Cell::Audio(cell) => cell,
            _ => vstd::pervasive::unreached(),
        }
    }

    /// The transcription, if the row has one.
    pub fn transcription(&self) -> (text: Option<&str>)
        ensures
            is_expression_row(self@),
            text.deep_view() == cell_text(self@[TRANSCRIPTION as int]),
    {
        proof {
            use_type_invariant(self);
        }
        text_of(&self.cells[TRANSCRIPTION])
    }

    /// The inflection, if the row has one.
    pub fn inflection(&self) -> (text: Option<&str>)
        ensures
            is_expression_row(self@),
            text.deep_view() == cell_text(self@[INFLECTION as int]),
    {
        proof {
            use_type_invariant(self);
        }
        text_of(&self.cells[INFLECTION])
    }

    /// The text of the translation cell, as it stands in the row.
    pub fn translation(&self) -> (text: &str)
        ensures
            is_expression_row(self@),
            self@[TRANSLATION as int] == CellView::RequiredText(text@),
    {
        proof {
            use_type_invariant(self);
        }
        match &self.cells[TRANSLATION] {
            Cell::RequiredText(cell) => cell.body(),
            _ => vstd::pervasive::unreached(),
        }
    }
}

impl Row {
    /// Decodes this row against `schema`. `index` is the index of the row
    /// in its table and goes into the error.
    ///
    /// The row decodes exactly when it has as many cells as the schema has
    /// positions and every cell matches the kind expected of it. A row
    /// without cells is no exception: it fails on its cell count.
    pub fn decode(&self, schema: &Schema, index: usize) -> (decoded: Result<
        DataCells,
        RowDecodeError,
    >)
        ensures
            row_result(decoded) == decode_row(self@, schema@, index),
            decoded matches Ok(cells) ==> is_expression_row(cells@),
    {
        let kinds = schema.kinds();
        let raw = &self.data_cells;
        if raw.len() != kinds.len() {
            let position = if raw.len() < kinds.len() {
                raw.len()
            } else {
                kinds.len()
            };
            return Err(
                RowDecodeError {
                    row: index,
                    position,
                    fault: RowFault::CellCount { expected: kinds.len(), found: raw.len() },
                },
            );
        }
        let ghost outcomes = cell_outcomes(self@, schema@, index);
        let mut cells: Vec<Cell> = Vec::new();
        let mut position: usize = 0;
        assert(cells.deep_view() =~= Seq::<CellView>::empty());
        while position < kinds.len()
            invariant
                kinds@ == schema@,
                raw == &self.data_cells,
                raw.len() == kinds.len(),
                position <= kinds.len(),
                outcomes == cell_outcomes(self@, schema@, index),
                all_or_first_error(outcomes.take(position as int)) == Ok::<
                    Seq<CellView>,
                    RowDecodeError,
                >(cells.deep_view()),
            decreases kinds.len() - position,
        {
            let ghost done = cells.deep_view();
            match Cell::parse(&raw[position], kinds[position]) {
                Ok(cell) => {
                    proof {
                        lemma_next_ok(outcomes, position as int);
                    }
                    cells.push(cell);
                    assert(cells.deep_view() =~= done.push(cell@));
                },
                Err(error) => {
                    proof {
                        lemma_next_error(outcomes, position as int);
                    }
                    return Err(
                        RowDecodeError { row: index, position, fault: RowFault::Cell(error) },
                    );
                },
            }
            position = position + 1;
        }
        proof {
            assert(outcomes.take(position as int) =~= outcomes);
            lemma_decoded_row(self@, schema@, index);
        }
        Ok(DataCells { cells })
    }
}

} // verus!
