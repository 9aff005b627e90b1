use vocab_cards::cell::{CellKind, MalformedCellError, RawCell};
use vocab_cards::expression::Expression;
use vocab_cards::row::{Row, RowDecodeError, RowFault};
use vocab_cards::schema::Schema;

fn gato() -> Vec<RawCell> {
    vec![
        RawCell::with_text("el"),
        RawCell::with_audio("x.mp3", "gato"),
        RawCell::with_text("ˈɡato"),
        RawCell::with_text(""),
        RawCell::with_text("cat"),
        RawCell::with_text(""),
    ]
}

#[test]
fn standard_schema_layout() {
    assert_eq!(
        Schema::standard().kinds(),
        &vec![
            CellKind::OptionalText,
            CellKind::Audio,
            CellKind::OptionalText,
            CellKind::OptionalText,
            CellKind::RequiredText,
            CellKind::OptionalText,
        ]
    );
    assert_eq!(Schema::strict().kinds()[2], CellKind::RequiredText);
}

#[test]
fn schema_must_map_to_expression() {
    let kinds = Schema::standard().kinds().clone();
    assert_eq!(Schema::new(kinds.clone()), Some(Schema::standard()));

    let mut short = kinds.clone();
    short.pop();
    assert_eq!(Schema::new(short), None);

    let mut long = kinds.clone();
    long.push(CellKind::OptionalText);
    assert_eq!(Schema::new(long), None);

    let mut no_audio = kinds.clone();
    no_audio[1] = CellKind::RequiredText;
    assert_eq!(Schema::new(no_audio), None);

    let mut optional_translation = kinds.clone();
    optional_translation[4] = CellKind::OptionalText;
    assert_eq!(Schema::new(optional_translation), None);

    let mut audio_prefix = kinds.clone();
    audio_prefix[0] = CellKind::Audio;
    assert_eq!(Schema::new(audio_prefix), None);

    let mut required_prefix = kinds.clone();
    required_prefix[0] = CellKind::RequiredText;
    required_prefix[5] = CellKind::Audio;
    assert!(Schema::new(required_prefix).is_some());

    assert_eq!(Schema::new(Vec::new()), None);
}

#[test]
fn row_decodes_into_typed_cells() {
    let row = Row { data_cells: gato() };
    let cells = row.decode(&Schema::standard(), 1).unwrap();
    assert_eq!(cells.prefix(), Some("el"));
    assert_eq!(cells.headword().label(), "gato");
    assert_eq!(cells.headword().audio().src(), "x.mp3");
    assert_eq!(cells.transcription(), Some("ˈɡato"));
    assert_eq!(cells.inflection(), None);
    assert_eq!(cells.translation(), "cat");
}

#[test]
fn expression_from_typed_cells() {
    let row = Row { data_cells: gato() };
    let cells = row.decode(&Schema::standard(), 1).unwrap();
    assert_eq!(
        Expression::from(cells),
        Expression {
            prefix: Some(String::from("el")),
            word: String::from("gato"),
            transcription: Some(String::from("ˈɡato")),
            inflection: None,
            translation: String::from("cat"),
            audio: String::from("x.mp3"),
        }
    );
}

#[test]
fn too_few_cells_fail() {
    let mut cells = gato();
    cells.pop();
    let row = Row { data_cells: cells };
    assert_eq!(
        row.decode(&Schema::standard(), 3),
        Err(RowDecodeError {
            row: 3,
            position: 5,
            fault: RowFault::CellCount { expected: 6, found: 5 },
        })
    );
}

#[test]
fn too_many_cells_fail() {
    let mut cells = gato();
    cells.push(RawCell::empty());
    let row = Row { data_cells: cells };
    assert_eq!(
        row.decode(&Schema::standard(), 2),
        Err(RowDecodeError {
            row: 2,
            position: 6,
            fault: RowFault::CellCount { expected: 6, found: 7 },
        })
    );
}

#[test]
fn row_without_cells_fails_on_its_count() {
    let row = Row { data_cells: Vec::new() };
    assert_eq!(
        row.decode(&Schema::standard(), 4),
        Err(RowDecodeError {
            row: 4,
            position: 0,
            fault: RowFault::CellCount { expected: 6, found: 0 },
        })
    );
}

#[test]
fn cell_count_is_checked_before_the_cells() {
    let row = Row { data_cells: vec![RawCell::empty(), RawCell::empty()] };
    assert_eq!(
        row.decode(&Schema::standard(), 1),
        Err(RowDecodeError {
            row: 1,
            position: 2,
            fault: RowFault::CellCount { expected: 6, found: 2 },
        })
    );
}

#[test]
fn first_malformed_cell_decides() {
    let mut cells = gato();
    cells[1] = RawCell::with_text("gato");
    cells[4] = RawCell::empty();
    let row = Row { data_cells: cells };
    assert_eq!(
        row.decode(&Schema::standard(), 7),
        Err(RowDecodeError {
            row: 7,
            position: 1,
            fault: RowFault::Cell(MalformedCellError::MissingAudio),
        })
    );
}

#[test]
fn missing_translation_fails() {
    let mut cells = gato();
    cells[4] = RawCell::with_text("");
    let row = Row { data_cells: cells };
    assert_eq!(
        row.decode(&Schema::standard(), 1),
        Err(RowDecodeError {
            row: 1,
            position: 4,
            fault: RowFault::Cell(MalformedCellError::MissingText),
        })
    );
}

#[test]
fn missing_label_fails() {
    let mut cells = gato();
    cells[1] = RawCell { text: None, audio: Some(String::from("x.mp3")) };
    let row = Row { data_cells: cells };
    assert_eq!(
        row.decode(&Schema::standard(), 1),
        Err(RowDecodeError {
            row: 1,
            position: 1,
            fault: RowFault::Cell(MalformedCellError::MissingLabel),
        })
    );
}

#[test]
fn strict_schema_requires_transcription() {
    let mut cells = gato();
    cells[2] = RawCell::empty();
    let row = Row { data_cells: cells };
    assert!(row.decode(&Schema::standard(), 1).is_ok());
    assert_eq!(
        row.decode(&Schema::strict(), 1),
        Err(RowDecodeError {
            row: 1,
            position: 2,
            fault: RowFault::Cell(MalformedCellError::MissingText),
        })
    );
    let cells = Row { data_cells: gato() }.decode(&Schema::strict(), 1).unwrap();
    assert_eq!(cells.transcription(), Some("ˈɡato"));
}

#[test]
fn trailing_cell_is_not_read() {
    let mut cells = gato();
    cells[5] = RawCell::with_audio("other.mp3", "other");
    let with_trailing = Row { data_cells: cells }.decode(&Schema::standard(), 1).unwrap();
    let without = Row { data_cells: gato() }.decode(&Schema::standard(), 1).unwrap();
    assert_eq!(Expression::from(with_trailing), Expression::from(without));
}
