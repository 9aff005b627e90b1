//! The table decoder: from the rows of a table to its expressions.
//!
//! The first row of a table is its header and is never decoded. Every
//! other row gives one expression, in the order of the rows. One bad row
//! fails the whole table: no part of a table is ever returned.

use crate::cell::{parse_cell, CellKind, CellView, MalformedCellError, RawCellView};
use crate::expression::{expression_of, Expression, ExpressionView, PROPER_NAME};
use crate::outcome::{
    all_or_first_error, lemma_all_ok, lemma_error_has_source, lemma_first_error, lemma_next_error,
    lemma_next_ok,
};
use crate::row::{decode_row, lemma_decoded_row, lemma_row_error, Row, RowDecodeError};
use crate::schema::{is_expression_layout, Schema, HEADWORD, POSITIONS, TRANSLATION};
use vstd::prelude::*;

verus! {

/// One table: its rows in order, the header first.
#[derive(Debug, Clone, PartialEq, Eq)]
pub struct Table {
    pub rows: Vec<Row>,
}

impl View for Table {
    type V = Seq<Seq<RawCellView>>;

    open spec fn view(&self) -> Seq<Seq<RawCellView>> {
        self.rows.deep_view()
    }
}

/// A row that holds no cells where an expression was expected.
#[derive(Debug, Clone, Copy, PartialEq, Eq)]
pub struct MissingRowDataError {
    /// The index of the row in its table; the header has index 0.
    pub row: usize,
}

/// Why a table does not decode.
#[derive(Debug, Clone, Copy, PartialEq, Eq)]
pub enum DecodeError {
    /// A row after the header holds no cells.
    MissingRowData(MissingRowDataError),
    /// A row after the header does not match the schema.
    Row(RowDecodeError),
}

/// The expression of one row, or why the row has none. `row` is the index
/// of the row in its table.
pub open spec fn row_expression(
    cells: Seq<RawCellView>,
    kinds: Seq<CellKind>,
    row: usize,
) -> Result<ExpressionView, DecodeError> {
    if cells.len() == 0 {
        Err(DecodeError::MissingRowData(MissingRowDataError { row }))
    } else {
        match decode_row(cells, kinds, row) {
            Ok(cells) => Ok(expression_of(cells)),
            Err(error) => Err(DecodeError::Row(error)),
        }
    }
}

/// What each row after the header gives, in order: the entry at `i` is
/// for the row with index `i + 1`.
pub open spec fn row_outcomes(rows: Seq<Seq<RawCellView>>, kinds: Seq<CellKind>) -> Seq<
    Result<ExpressionView, DecodeError>,
> {
    Seq::new(
        if rows.len() == 0 {
            0
        } else {
            (rows.len() - 1) as nat
        },
        |i: int| row_expression(rows[i + 1], kinds, (i + 1) as usize),
    )
}

/// The expressions of a table, or the error of its first bad row.
pub open spec fn decode_table(rows: Seq<Seq<RawCellView>>, kinds: Seq<CellKind>) -> Result<
    Seq<ExpressionView>,
    DecodeError,
> {
    all_or_first_error(row_outcomes(rows, kinds))
}

/// The view of a decoding result.
pub open spec fn table_result<E>(result: Result<Vec<Expression>, E>) -> Result<
    Seq<ExpressionView>,
    E,
> {
    match result {
        Ok(expressions) => Ok(expressions.deep_view()),
        Err(error) => Err(error),
    }
}

/// Decoding drops exactly the header and keeps the order of the rows: a
/// table that decodes has one expression for each row after the header,
/// and the expression at `i` is that of the row with index `i + 1`.
pub proof fn lemma_decode_keeps_order(rows: Seq<Seq<RawCellView>>, kinds: Seq<CellKind>)
    requires
        decode_table(rows, kinds) is Ok,
    ensures
        rows.len() > 0 ==> decode_table(rows, kinds)->Ok_0.len() == rows.len() - 1,
        rows.len() == 0 ==> decode_table(rows, kinds)->Ok_0.len() == 0,
        forall|i: int|
            0 <= i < decode_table(rows, kinds)->Ok_0.len() ==> row_expression(
                rows[i + 1],
                kinds,
                (i + 1) as usize,
            ) == Ok::<ExpressionView, DecodeError>(#[trigger] decode_table(rows, kinds)->Ok_0[i]),
{
    lemma_all_ok(row_outcomes(rows, kinds));
}

/// A row after the header that holds no cells fails the table: it is
/// never skipped.
pub proof fn lemma_row_without_cells_fails(
    rows: Seq<Seq<RawCellView>>,
    kinds: Seq<CellKind>,
    row: int,
)
    requires
        1 <= row < rows.len(),
        rows[row].len() == 0,
    ensures
        decode_table(rows, kinds) is Err,
{
    let outcomes = row_outcomes(rows, kinds);
    if decode_table(rows, kinds) is Ok {
        lemma_all_ok(outcomes);
        assert(outcomes[row - 1] == Ok::<ExpressionView, DecodeError>(
            decode_table(rows, kinds)->Ok_0[row - 1],
        ));
    }
}

/// The first row after the header that has no expression decides: the
/// table fails with the error of that row, whatever the rows after it
/// hold.
pub proof fn lemma_first_bad_row_decides(
    rows: Seq<Seq<RawCellView>>,
    kinds: Seq<CellKind>,
    row: int,
)
    requires
        1 <= row < rows.len(),
        row_expression(rows[row], kinds, row as usize) is Err,
        forall|earlier: int|
            1 <= earlier < row ==> row_expression(rows[earlier], kinds, earlier as usize) is Ok,
    ensures
        decode_table(rows, kinds) == Err::<Seq<ExpressionView>, DecodeError>(
            row_expression(rows[row], kinds, row as usize)->Err_0,
        ),
{
    lemma_first_error(row_outcomes(rows, kinds), row - 1);
}

/// The index of the row that an error speaks of.
pub open spec fn error_row(error: DecodeError) -> usize {
    match error {
        DecodeError::MissingRowData(error) => error.row,
        DecodeError::Row(error) => error.row,
    }
}

/// The error of a table names a row after the header, that row has no
/// expression, and every row between the header and it has one.
pub proof fn lemma_error_names_first_bad_row(rows: Seq<Seq<RawCellView>>, kinds: Seq<CellKind>)
    requires
        rows.len() <= usize::MAX,
        decode_table(rows, kinds) is Err,
    ensures
        1 <= error_row(decode_table(rows, kinds)->Err_0) < rows.len(),
        row_expression(
            rows[error_row(decode_table(rows, kinds)->Err_0) as int],
            kinds,
            error_row(decode_table(rows, kinds)->Err_0),
        ) == Err::<ExpressionView, DecodeError>(decode_table(rows, kinds)->Err_0),
        forall|earlier: int|
            1 <= earlier < error_row(decode_table(rows, kinds)->Err_0) ==> row_expression(
                rows[earlier],
                kinds,
                earlier as usize,
            ) is Ok,
{
    let outcomes = row_outcomes(rows, kinds);
    let first = lemma_error_has_source(outcomes);
    let row = first + 1;
    if rows[row].len() > 0 {
        lemma_row_error(rows[row], kinds, row as usize);
    }
    assert forall|earlier: int| 1 <= earlier < row implies row_expression(
        rows[earlier],
        kinds,
        earlier as usize,
    ) is Ok by {
        assert(outcomes[earlier - 1] is Ok);
    }
}

/// The translation rule: the expression of a row has the label of the
/// audio cell as its word; its translation is that word when the text of
/// the translation cell is [`PROPER_NAME`], and otherwise the text of the
/// translation cell, character for character.
pub proof fn lemma_translation_rule(cells: Seq<RawCellView>, kinds: Seq<CellKind>, row: usize)
    requires
        is_expression_layout(kinds),
        row_expression(cells, kinds, row) is Ok,
    ensures
        cells.len() == POSITIONS,
        cells[HEADWORD as int].text is Some,
        cells[TRANSLATION as int].text is Some,
        row_expression(cells, kinds, row)->Ok_0.word == cells[HEADWORD as int].text->Some_0,
        cells[TRANSLATION as int].text->Some_0 == PROPER_NAME@ ==> row_expression(
            cells,
            kinds,
            row,
        )->Ok_0.translation == row_expression(cells, kinds, row)->Ok_0.word,
        cells[TRANSLATION as int].text->Some_0 != PROPER_NAME@ ==> row_expression(
            cells,
            kinds,
            row,
        )->Ok_0.translation == cells[TRANSLATION as int].text->Some_0,
{
    lemma_decoded_row(cells, kinds, row);
}

impl Row {
    /// Decodes this row into an expression. `index` is the index of the
    /// row in its table and goes into the error.
    pub fn to_expression(&self, schema: &Schema, index: usize) -> (expression: Result<
        Expression,
        DecodeError,
    >)
        ensures
            match expression {
                Ok(expression) => row_expression(self@, schema@, index) == Ok::<
                    ExpressionView,
                    DecodeError,
                >(expression@) && expression@.populated(),
                Err(error) => row_expression(self@, schema@, index) == Err::<
                    ExpressionView,
                    DecodeError,
                >(error),
            },
    {
        if self.data_cells.len() == 0 {
            return Err(DecodeError::MissingRowData(MissingRowDataError { row: index }));
        }
        match self.decode(schema, index) {
            Ok(cells) => Ok(Expression::from(cells)),
            Err(error) => Err(DecodeError::Row(error)),
        }
    }
}

impl Table {
    /// Decodes this table into its expressions.
    ///
    /// The header is dropped; the expression at `i` is that of the row
    /// with index `i + 1`. The table decodes exactly when every row after
    /// the header has cells and matches the schema; otherwise the error is
    /// that of the first row which does not.
    pub fn decode(&self, schema: &Schema) -> (expressions: Result<Vec<Expression>, DecodeError>)
        ensures
            table_result(expressions) == decode_table(self@, schema@),
            expressions matches Ok(expressions) ==> forall|i: int|
                0 <= i < expressions.len() ==> (#[trigger] expressions[i])@.populated(),
    {
        let mut expressions: Vec<Expression> = Vec::new();
        let ghost outcomes = row_outcomes(self@, schema@);
        assert(expressions.deep_view() =~= Seq::<ExpressionView>::empty());
        if self.rows.len() == 0 {
            return Ok(expressions);
        }
        let mut index: usize = 1;
        while index < self.rows.len()
            invariant
                1 <= index <= self.rows.len(),
                outcomes == row_outcomes(self@, schema@),
                all_or_first_error(outcomes.take(index - 1)) == Ok::<
                    Seq<ExpressionView>,
                    DecodeError,
                >(expressions.deep_view()),
                forall|i: int|
                    0 <= i < expressions.len() ==> (#[trigger] expressions[i])@.populated(),
            decreases self.rows.len() - index,
        {
            let ghost done = expressions.deep_view();
            match self.rows[index].to_expression(schema, index) {
                Ok(expression) => {
                    proof {
                        lemma_next_ok(outcomes, index - 1);
                    }
                    expressions.push(expression);
                    assert(expressions.deep_view() =~= done.push(expression@));
                },
                Err(error) => {
                    proof {
                        lemma_next_error(outcomes, index - 1);
                    }
                    return Err(error);
                },
            }
            index = index + 1;
        }
        assert(outcomes.take(index - 1) =~= outcomes);
        Ok(expressions)
    }
}

} // verus!
