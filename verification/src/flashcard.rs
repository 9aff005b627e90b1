//! Flashcards: the projection of an expression onto the front and back of
//! a learning card, and the fields of the card in an export record.

use crate::audio::{
    file_name, file_name_from, marker, parse_reference, sound_marker, url_parse,
    InvalidAudioReferenceError, ParsedReference, ParsedReferenceView,
};
use crate::expression::{Expression, ExpressionView};
use crate::outcome::{all_or_first_error, lemma_next_error, lemma_next_ok};
use vstd::prelude::*;

verus! {

/// How the back of a card is laid out.
#[derive(Debug, Clone, Copy, PartialEq, Eq)]
pub enum DisplayMode {
    /// The three parts of the back are separated by `<br>`; the sound
    /// marker is a field of its own in the export record.
    LineBreak,
    /// Each part of the back is a `<p>` block; the sound marker follows the
    /// back in the same field of the export record.
    HtmlBlock,
}

/// A card ready for export.
#[derive(Debug, Clone, PartialEq, Eq)]
pub struct Flashcard {
    /// The question: the translation of the expression.
    pub front: String,
    /// The answer: headword with prefix, transcription and inflection.
    pub back: String,
    /// The reference that plays the audio: `[sound:<file name>]`.
    pub sound_marker: String,
}

/// The view of a [`Flashcard`]: its fields by their characters.
pub struct FlashcardView {
    pub front: Seq<char>,
    pub back: Seq<char>,
    pub sound_marker: Seq<char>,
}

impl View for Flashcard {
    type V = FlashcardView;

    open spec fn view(&self) -> FlashcardView {
        FlashcardView { front: self.front@, back: self.back@, sound_marker: self.sound_marker@ }
    }
}

impl DeepView for Flashcard {
    type V = FlashcardView;

    open spec fn deep_view(&self) -> FlashcardView {
        self@
    }
}

/// The text of an optional field: nothing when the field is absent.
pub open spec fn optional_text(field: Option<Seq<char>>) -> Seq<char> {
    match field {
        Some(text) => text,
        None => Seq::<char>::empty(),
    }
}

/// The headword with its prefix: the prefix, when there is one, is
/// followed by one space.
pub open spec fn headline(expression: ExpressionView) -> Seq<char> {
    match expression.prefix {
        Some(prefix) => prefix + " "@ + expression.word,
        None => expression.word,
    }
}

/// The back of the card of an expression. An absent optional field leaves
/// its part empty; the part itself is always there.
pub open spec fn back_text(expression: ExpressionView, mode: DisplayMode) -> Seq<char> {
    match mode {
        DisplayMode::LineBreak => headline(expression) + "<br>"@ + optional_text(
            expression.transcription,
        ) + "<br>"@ + optional_text(expression.inflection),
        DisplayMode::HtmlBlock => "<p>"@ + headline(expression) + "</p><p>"@ + optional_text(
            expression.transcription,
        ) + "</p><p>"@ + optional_text(expression.inflection) + "</p>"@,
    }
}

/// The card of an expression, given what the URL parser made of its audio
/// reference; the error when the reference names no file.
pub open spec fn flashcard(
    expression: ExpressionView,
    mode: DisplayMode,
    parsed: ParsedReferenceView,
) -> Result<FlashcardView, InvalidAudioReferenceError> {
    match file_name(expression.audio, parsed) {
        Ok(name) => Ok(
            FlashcardView {
                front: expression.translation,
                back: back_text(expression, mode),
                sound_marker: marker(name),
            },
        ),
        Err(error) => Err(error),
    }
}

/// The card of an expression: [`flashcard`] with the outcome of the URL
/// parser on the audio reference of the expression.
pub open spec fn project(expression: ExpressionView, mode: DisplayMode) -> Result<
    FlashcardView,
    InvalidAudioReferenceError,
> {
    flashcard(expression, mode, url_parse(expression.audio))
}

/// The fields of a card in an export record, in order.
pub open spec fn record_fields(card: FlashcardView, mode: DisplayMode) -> Seq<Seq<char>> {
    match mode {
        DisplayMode::LineBreak => seq![card.front, card.back, card.sound_marker],
        DisplayMode::HtmlBlock => seq![card.front, card.back + card.sound_marker],
    }
}

/// The view of a projection result.
pub open spec fn card_result<E>(result: Result<Flashcard, E>) -> Result<FlashcardView, E> {
    match result {
        Ok(card) => Ok(card@),
        Err(error) => Err(error),
    }
}

/// Writes the back of the card of `expression`.
fn compose_back(expression: &Expression, mode: DisplayMode) -> (back: String)
    ensures
        back@ == back_text(expression@, mode),
{
    let mut back = String::new();
    match mode {
        DisplayMode::LineBreak => {},
        DisplayMode::HtmlBlock => back.append("<p>"),
    }
    match &expression.prefix {
        Some(prefix) => {
            back.append(prefix.as_str());
            back.append(" ");
        },
        None => {},
    }
    back.append(expression.word.as_str());
    match mode {
        DisplayMode::LineBreak => back.append("<br>"),
        DisplayMode::HtmlBlock => back.append("</p><p>"),
    }
    match &expression.transcription {
        Some(transcription) => back.append(transcription.as_str()),
        None => {},
    }
    match mode {
        DisplayMode::LineBreak => back.append("<br>"),
        DisplayMode::HtmlBlock => back.append("</p><p>"),
    }
    match &expression.inflection {
        Some(inflection) => back.append(inflection.as_str()),
        None => {},
    }
    match mode {
        DisplayMode::LineBreak => {},
        DisplayMode::HtmlBlock => back.append("</p>"),
    }
    back
}

/// An expression that has no card.
#[derive(Debug, Clone, Copy, PartialEq, Eq)]
pub struct ProjectionError {
    /// The index of the expression in the list that was projected.
    pub index: usize,
    /// Why its audio reference names no file.
    pub cause: InvalidAudioReferenceError,
}

/// What the expression at `index` gives when a list is projected.
pub open spec fn card_outcome(
    expressions: Seq<ExpressionView>,
    mode: DisplayMode,
    index: int,
) -> Result<FlashcardView, ProjectionError> {
    match project(expressions[index], mode) {
        Ok(card) => Ok(card),
        Err(cause) => Err(ProjectionError { index: index as usize, cause }),
    }
}

/// What each expression of a list gives, in order.
pub open spec fn card_outcomes(expressions: Seq<ExpressionView>, mode: DisplayMode) -> Seq<
    Result<FlashcardView, ProjectionError>,
> {
    Seq::new(expressions.len(), |index: int| card_outcome(expressions, mode, index))
}

/// The cards of a list of expressions, in order, or the error of the first
/// expression that has none.
pub open spec fn project_all(expressions: Seq<ExpressionView>, mode: DisplayMode) -> Result<
    Seq<FlashcardView>,
    ProjectionError,
> {
    all_or_first_error(card_outcomes(expressions, mode))
}

/// The view of the result of projecting a list.
pub open spec fn cards_result<E>(result: Result<Vec<Flashcard>, E>) -> Result<
    Seq<FlashcardView>,
    E,
> {
    match result {
        Ok(cards) => Ok(cards.deep_view()),
        Err(error) => Err(error),
    }
}

/// Projection looks at nothing but the fields of the expression and the
/// mode: expressions that agree field by field, character by character,
/// have the same card, or fail with the same error.
pub proof fn lemma_projection_is_deterministic(
    first: Expression,
    second: Expression,
    mode: DisplayMode,
)
    requires
        first@ == second@,
    ensures
        project(first@, mode) == project(second@, mode),
{
}

impl Flashcard {
    /// Projects an expression onto a card, once the URL parser has looked
    /// at the audio reference of the expression and returned `parsed`.
    ///
    /// The projection fails exactly when the reference names no file.
    pub fn from_parsed(
        expression: &Expression,
        mode: DisplayMode,
        parsed: &ParsedReference,
    ) -> (card: Result<Flashcard, InvalidAudioReferenceError>)
        ensures
            card_result(card) == flashcard(expression@, mode, parsed@),
    {
        match file_name_from(expression.audio.as_str(), parsed) {
            Ok(name) => {
                let back = compose_back(expression, mode);
                let sound_marker = sound_marker(name.as_str());
                Ok(Flashcard { front: expression.translation.clone(), back, sound_marker })
            },
            Err(error) => Err(error),
        }
    }

    /// Projects an expression onto a card.
    ///
    /// The audio reference is handed to the URL parser; the card, or the
    /// error, is then what [`flashcard`] says for the outcome.
    pub fn try_from(expression: Expression, mode: DisplayMode) -> (card: Result<
        Flashcard,
        InvalidAudioReferenceError,
    >)
        ensures
            card_result(card) == project(expression@, mode),
    {
        let parsed = parse_reference(expression.audio.as_str());
        Flashcard::from_parsed(&expression, mode, &parsed)
    }

    /// Projects a list of expressions onto their cards, in order. One
    /// expression without a card fails the whole list.
    pub fn try_from_all(expressions: &Vec<Expression>, mode: DisplayMode) -> (cards: Result<
        Vec<Flashcard>,
        ProjectionError,
    >)
        ensures
            cards_result(cards) == project_all(expressions.deep_view(), mode),
    {
        let ghost outcomes = card_outcomes(expressions.deep_view(), mode);
        let mut cards: Vec<Flashcard> = Vec::new();
        let mut index: usize = 0;
        assert(cards.deep_view() =~= Seq::<FlashcardView>::empty());
        while index < expressions.len()
            invariant
                index <= expressions.len(),
                outcomes == card_outcomes(expressions.deep_view(), mode),
                all_or_first_error(outcomes.take(index as int)) == Ok::<
                    Seq<FlashcardView>,
                    ProjectionError,
                >(cards.deep_view()),
            decreases expressions.len() - index,
        {
            let ghost done = cards.deep_view();
            let expression = &expressions[index];
            let parsed = parse_reference(expression.audio.as_str());
            match Flashcard::from_parsed(expression, mode, &parsed) {
                Ok(card) => {
                    proof {
                        lemma_next_ok(outcomes, index as int);
                    }
                    cards.push(card);
                    assert(cards.deep_view() =~= done.push(card@));
                },
                Err(cause) => {
                    proof {
                        lemma_next_error(outcomes, index as int);
                    }
                    return Err(ProjectionError { index, cause });
                },
            }
            index = index + 1;
        }
        assert(outcomes.take(index as int) =~= outcomes);
        Ok(cards)
    }

    /// The fields of this card in an export record, in order: front, back
    /// and sound marker, the last two in one field in HTML-block mode.
    pub fn record(&self, mode: DisplayMode) -> (fields: Vec<String>)
        ensures
            fields.deep_view() == record_fields(self@, mode),
    {
        let mut fields: Vec<String> = Vec::new();
        fields.push(self.front.clone());
        match mode {
            DisplayMode::LineBreak => {
                fields.push(self.back.clone());
                fields.push(self.sound_marker.clone());
            },
            DisplayMode::HtmlBlock => {
                let mut back = self.back.clone();
                back.append(self.sound_marker.as_str());
                fields.push(back);
            },
        }
        fields
    }
}

} // verus!
