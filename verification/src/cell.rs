//! The cell model: what a table cell may hold, and the typed cells that a
//! raw cell is checked into.
//!
//! A text counts as present when it is there and not empty. White space is
//! content: nothing is trimmed.

use vstd::prelude::*;

verus! {

/// What the markup reader found in one cell of a row.
#[derive(Debug, Clone, PartialEq, Eq)]
pub struct RawCell {
    /// The text of the cell; for a cell with audio, the label.
    pub text: Option<String>,
    /// The source of the audio embedded in the cell.
    pub audio: Option<String>,
}

/// The view of a [`RawCell`].
pub struct RawCellView {
    pub text: Option<Seq<char>>,
    pub audio: Option<Seq<char>>,
}

impl View for RawCell {
    type V = RawCellView;

    open spec fn view(&self) -> RawCellView {
        RawCellView { text: self.text.deep_view(), audio: self.audio.deep_view() }
    }
}

impl DeepView for RawCell {
    type V = RawCellView;

    open spec fn deep_view(&self) -> RawCellView {
        self@
    }
}

impl RawCell {
    /// A cell that holds nothing.
    pub fn empty() -> (cell: RawCell)
        ensures
            cell@ == (RawCellView { text: None, audio: None }),
    {
        RawCell { text: None, audio: None }
    }

    /// A cell that holds a text and no audio.
    pub fn with_text(text: &str) -> (cell: RawCell)
        ensures
            cell@ == (RawCellView { text: Some(text@), audio: None }),
    {
        RawCell { text: Some(text.to_owned()), audio: None }
    }

    /// A cell that holds an audio with the source `src` and the label
    /// `label`.
    pub fn with_audio(src: &str, label: &str) -> (cell: RawCell)
        ensures
            cell@ == (RawCellView { text: Some(label@), audio: Some(src@) }),
    {
        RawCell { text: Some(label.to_owned()), audio: Some(src.to_owned()) }
    }
}

/// The kind of cell that a position of a row is expected to hold.
#[derive(Debug, Clone, Copy, PartialEq, Eq, Structural)]
pub enum CellKind {
    /// A text that must be present.
    RequiredText,
    /// A text that may be absent.
    OptionalText,
    /// An audio source together with its label.
    Audio,
}

impl CellKind {
    /// Whether a cell of this kind must hold something: only an optional
    /// text may be empty.
    pub open spec fn is_required(self) -> bool {
        self != CellKind::OptionalText
    }

    /// Whether a cell of this kind must hold something.
    pub fn required(self) -> (required: bool)
        ensures
            required == self.is_required(),
    {
        self != CellKind::OptionalText
    }
}

/// How a raw cell falls short of the kind expected of it.
#[derive(Debug, Clone, Copy, PartialEq, Eq)]
pub enum MalformedCellError {
    /// A required text is absent or empty.
    MissingText,
    /// An audio cell has no audio source.
    MissingAudio,
    /// An audio cell has no label.
    MissingLabel,
}

/// A cell whose text is present.
#[derive(Debug, PartialEq, Eq)]
pub struct TextCell {
    body: String,
}

/// A cell whose text may be absent.
#[derive(Debug, PartialEq, Eq)]
pub struct OptionalTextCell {
    body: Option<String>,
}

/// The audio embedded in a cell.
#[derive(Debug, PartialEq, Eq)]
pub struct Audio {
    src: String,
}

/// A cell that holds an audio and the label of that audio.
#[derive(Debug, PartialEq, Eq)]
pub struct AudioCell {
    audio: Audio,
    a: String,
}

/// A typed cell: a raw cell checked against the kind expected of it.
#[derive(Debug, PartialEq, Eq)]
pub enum Cell {
    RequiredText(TextCell),
    OptionalText(OptionalTextCell),
    Audio(AudioCell),
}

/// The view of an [`AudioCell`].
pub struct AudioCellView {
    pub src: Seq<char>,
    pub label: Seq<char>,
}

/// The view of a [`Cell`].
pub enum CellView {
    RequiredText(Seq<char>),
    OptionalText(Option<Seq<char>>),
    Audio(AudioCellView),
}

impl CellView {
    /// The kind of this cell.
    pub open spec fn kind(self) -> CellKind {
        match self {
            CellView::RequiredText(_) => CellKind::RequiredText,
            CellView::OptionalText(_) => CellKind::OptionalText,
            CellView::Audio(_) => CellKind::Audio,
        }
    }

    /// Whether every text that this cell holds is non-empty.
    pub open spec fn well_formed(self) -> bool {
        match self {
            CellView::RequiredText(body) => body.len() > 0,
            CellView::OptionalText(body) => body matches Some(text) ==> text.len() > 0,
            CellView::Audio(cell) => cell.src.len() > 0 && cell.label.len() > 0,
        }
    }
}

/// The text of a cell when it is present: there and not empty.
pub open spec fn present(text: Option<Seq<char>>) -> Option<Seq<char>> {
    match text {
        Some(text) => if text.len() > 0 {
            Some(text)
        } else {
            None
        },
        None => None,
    }
}

/// The typed cell that a raw cell gives for the kind expected of it, or
/// the way in which the raw cell falls short.
///
/// An optional text never fails. For an audio cell the source is looked at
/// before the label.
pub open spec fn parse_cell(raw: RawCellView, kind: CellKind) -> Result<
    CellView,
    MalformedCellError,
> {
    match kind {
        CellKind::RequiredText => match present(raw.text) {
            Some(body) => Ok(CellView::RequiredText(body)),
            None => Err(MalformedCellError::MissingText),
        },
        CellKind::OptionalText => Ok(CellView::OptionalText(present(raw.text))),
        CellKind::Audio => match present(raw.audio) {
            Some(src) => match present(raw.text) {
                Some(label) => Ok(CellView::Audio(AudioCellView { src, label })),
                None => Err(MalformedCellError::MissingLabel),
            },
            None => Err(MalformedCellError::MissingAudio),
        },
    }
}

/// A typed cell has the kind that was expected, and holds no empty text.
pub proof fn lemma_parsed_cell_is_well_formed(raw: RawCellView, kind: CellKind)
    ensures
        parse_cell(raw, kind) matches Ok(cell) ==> cell.kind() == kind && cell.well_formed(),
{
}

/// Only a cell of a required kind can be malformed, and an empty cell of
/// a required kind always is.
pub proof fn lemma_required_cells_fail_when_empty(raw: RawCellView, kind: CellKind)
    ensures
        parse_cell(raw, kind) is Err ==> kind.is_required(),
        kind.is_required() && present(raw.text) is None ==> parse_cell(raw, kind) is Err,
{
}

/// A copy of the text of a cell when it is present.
fn present_text(text: &Option<String>) -> (found: Option<String>)
    ensures
        found.deep_view() == present(text.deep_view()),
{
    match text {
        Some(text) => if text.as_str().is_empty() {
            None
        } else {
            Some(text.clone())
        },
        None => None,
    }
}

impl View for TextCell {
    type V = Seq<char>;

    closed spec fn view(&self) -> Seq<char> {
        self.body@
    }
}

impl TextCell {
    #[verifier::type_invariant]
    spec fn populated(self) -> bool {
        self.body@.len() > 0
    }

    /// Checks a raw cell into a required text; fails when the text is
    /// absent or empty.
    pub fn new(raw: &RawCell) -> (cell: Result<TextCell, MalformedCellError>)
        ensures
            match cell {
                Ok(cell) => parse_cell(raw@, CellKind::RequiredText) == Ok::<
                    CellView,
                    MalformedCellError,
                >(CellView::RequiredText(cell@)),
                Err(error) => parse_cell(raw@, CellKind::RequiredText) == Err::<
                    CellView,
                    MalformedCellError,
                >(error),
            },
    {
        match present_text(&raw.text) {
            Some(body) => Ok(TextCell { body }),
            None => Err(MalformedCellError::MissingText),
        }
    }

    /// The text of the cell, which is never empty.
    pub fn body(&self) -> (body: &str)
        ensures
            body@ == self@,
            body@.len() > 0,
    {
        proof {
            use_type_invariant(self);
        }
        self.body.as_str()
    }
}

impl View for OptionalTextCell {
    type V = Option<Seq<char>>;

    closed spec fn view(&self) -> Option<Seq<char>> {
        self.body.deep_view()
    }
}

impl OptionalTextCell {
    #[verifier::type_invariant]
    spec fn populated(self) -> bool {
        self.body matches Some(text) ==> text@.len() > 0
    }

    /// Checks a raw cell into an optional text. This never fails: a text
    /// that is absent or empty gives a cell without text.
    pub fn new(raw: &RawCell) -> (cell: OptionalTextCell)
        ensures
            parse_cell(raw@, CellKind::OptionalText) == Ok::<CellView, MalformedCellError>(
                CellView::OptionalText(cell@),
            ),
    {
        OptionalTextCell { body: present_text(&raw.text) }
    }

    /// The text of the cell; when there is one, it is not empty.
    pub fn body(&self) -> (body: Option<&str>)
        ensures
            body.deep_view() == self@,
            self@ matches Some(text) ==> text.len() > 0,
    {
        proof {
            use_type_invariant(self);
        }
        match &self.body {
            Some(text) => Some(text.as_str()),
            None => None,
        }
    }
}

impl View for Audio {
    type V = Seq<char>;

    closed spec fn view(&self) -> Seq<char> {
        self.src@
    }
}

impl Audio {
    #[verifier::type_invariant]
    spec fn populated(self) -> bool {
        self.src@.len() > 0
    }

    /// The source of the audio, which is never empty.
    pub fn src(&self) -> (src: &str)
        ensures
            src@ == self@,
            src@.len() > 0,
    {
        proof {
            use_type_invariant(self);
        }
        self.src.as_str()
    }
}

impl View for AudioCell {
    type V = AudioCellView;

    closed spec fn view(&self) -> AudioCellView {
        AudioCellView { src: self.audio@, label: self.a@ }
    }
}

impl AudioCell {
    #[verifier::type_invariant]
    spec fn populated(self) -> bool {
        self.a@.len() > 0
    }

    /// Checks a raw cell into an audio cell; fails when the audio source
    /// or the label is absent or empty.
    pub fn new(raw: &RawCell) -> (cell: Result<AudioCell, MalformedCellError>)
        ensures
            match cell {
                Ok(cell) => parse_cell(raw@, CellKind::Audio) == Ok::<CellView, MalformedCellError>(
                    CellView::Audio(cell@),
                ),
                Err(error) => parse_cell(raw@, CellKind::Audio) == Err::<
                    CellView,
                    MalformedCellError,
                >(error),
            },
    {
        match present_text(&raw.audio) {
            Some(src) => match present_text(&raw.text) {
                Some(a) => Ok(AudioCell { audio: Audio { src }, a }),
                None => Err(MalformedCellError::MissingLabel),
            },
            None => Err(MalformedCellError::MissingAudio),
        }
    }

    /// The audio of the cell.
    pub fn audio(&self) -> (audio: &Audio)
        ensures
            audio@ == self@.src,
    {
        &self.audio
    }

    /// The label of the audio, which is never empty.
    pub fn label(&self) -> (label: &str)
        ensures
            label@ == self@.label,
            label@.len() > 0,
    {
        proof {
            use_type_invariant(self);
        }
        self.a.as_str()
    }
}

impl View for Cell {
    type V = CellView;

    open spec fn view(&self) -> CellView {
        match self {
            Cell::RequiredText(cell) => CellView::RequiredText(cell@),
            Cell::OptionalText(cell) => CellView::OptionalText(cell@),
            Cell::Audio(cell) => CellView::Audio(cell@),
        }
    }
}

impl DeepView for Cell {
    type V = CellView;

    open spec fn deep_view(&self) -> CellView {
        self@
    }
}

/// The view of a cell result.
pub open spec fn cell_result<E>(result: Result<Cell, E>) -> Result<CellView, E> {
    match result {
        Ok(cell) => Ok(cell@),
        Err(error) => Err(error),
    }
}

impl Cell {
    /// Checks a raw cell into the kind of cell that is expected.
    pub fn parse(raw: &RawCell, kind: CellKind) -> (cell: Result<Cell, MalformedCellError>)
        ensures
            cell_result(cell) == parse_cell(raw@, kind),
    {
        match kind {
            CellKind::RequiredText => match TextCell::new(raw) {
                Ok(cell) => Ok(Cell::RequiredText(cell)),
                Err(error) => Err(error),
            },
            CellKind::OptionalText => Ok(Cell::OptionalText(OptionalTextCell::new(raw))),
            CellKind::Audio => match AudioCell::new(raw) {
                Ok(cell) => Ok(Cell::Audio(cell)),
                Err(error) => Err(error),
            },
        }
    }
}

} // verus!
