use vocab_cards::cell::{MalformedCellError, RawCell};
use vocab_cards::expression::{Expression, PROPER_NAME};
use vocab_cards::flashcard::{DisplayMode, Flashcard};
use vocab_cards::row::{Row, RowDecodeError, RowFault};
use vocab_cards::schema::Schema;
use vocab_cards::table::{DecodeError, MissingRowDataError, Table};

fn header() -> Row {
    Row {
        data_cells: vec![
            RawCell::with_text("Prefix"),
            RawCell::with_text("Word"),
            RawCell::with_text("Transcription"),
        ],
    }
}

fn entry(prefix: &str, audio: &str, word: &str, translation: &str) -> Row {
    Row {
        data_cells: vec![
            RawCell::with_text(prefix),
            RawCell::with_audio(audio, word),
            RawCell::with_text("ˈɡato"),
            RawCell::with_text(""),
            RawCell::with_text(translation),
            RawCell::with_text(""),
        ],
    }
}

#[test]
fn end_to_end() {
    let second = Row {
        data_cells: vec![
            RawCell::with_text("la"),
            RawCell::with_audio("https://example.com/media/casa.mp3", "casa"),
            RawCell::with_text("ˈkasa"),
            RawCell::empty(),
            RawCell::with_text("house"),
            RawCell::empty(),
        ],
    };
    let table = Table { rows: vec![header(), entry("el", "x.mp3", "gato", "cat"), second] };
    let expressions = table.decode(&Schema::standard()).unwrap();
    assert_eq!(expressions.len(), 2);
    assert_eq!(expressions[0].word, "gato");
    assert_eq!(expressions[0].prefix, Some(String::from("el")));
    assert_eq!(expressions[1].word, "casa");
    assert_eq!(expressions[1].inflection, None);

    let cards = Flashcard::try_from_all(&expressions, DisplayMode::LineBreak).unwrap();
    assert_eq!(cards[0].front, "cat");
    assert_eq!(cards[0].back, "el gato<br>ˈɡato<br>");
    assert_eq!(cards[0].sound_marker, "[sound:x.mp3]");
    assert_eq!(cards[1].front, "house");
    assert_eq!(cards[1].back, "la casa<br>ˈkasa<br>");
    assert_eq!(cards[1].sound_marker, "[sound:casa.mp3]");
}

#[test]
fn header_is_dropped_and_order_is_kept() {
    let table = Table {
        rows: vec![
            entry("", "0.mp3", "header", "never read"),
            entry("", "1.mp3", "uno", "one"),
            entry("", "2.mp3", "dos", "two"),
            entry("", "3.mp3", "tres", "three"),
        ],
    };
    let expressions = table.decode(&Schema::standard()).unwrap();
    let words: Vec<&str> = expressions.iter().map(|e| e.word.as_str()).collect();
    assert_eq!(words, vec!["uno", "dos", "tres"]);
    for (i, expression) in expressions.iter().enumerate() {
        assert_eq!(
            table.rows[i + 1].to_expression(&Schema::standard(), i + 1),
            Ok(expression.clone())
        );
    }
}

#[test]
fn header_is_never_decoded() {
    let table = Table { rows: vec![Row { data_cells: Vec::new() }] };
    assert_eq!(table.decode(&Schema::standard()), Ok(Vec::new()));
    let table = Table { rows: vec![header()] };
    assert_eq!(table.decode(&Schema::standard()), Ok(Vec::new()));
}

#[test]
fn table_without_rows_has_no_expressions() {
    let table = Table { rows: Vec::new() };
    assert_eq!(table.decode(&Schema::standard()), Ok(Vec::new()));
}

#[test]
fn row_without_cells_fails_the_table() {
    let table = Table {
        rows: vec![
            header(),
            entry("el", "x.mp3", "gato", "cat"),
            Row { data_cells: Vec::new() },
            entry("la", "y.mp3", "casa", "house"),
        ],
    };
    assert_eq!(
        table.decode(&Schema::standard()),
        Err(DecodeError::MissingRowData(MissingRowDataError { row: 2 }))
    );
}

#[test]
fn malformed_row_fails_the_table() {
    let mut short = entry("la", "y.mp3", "casa", "house");
    short.data_cells.pop();
    let table = Table {
        rows: vec![header(), entry("el", "x.mp3", "gato", "cat"), short],
    };
    assert_eq!(
        table.decode(&Schema::standard()),
        Err(DecodeError::Row(RowDecodeError {
            row: 2,
            position: 5,
            fault: RowFault::CellCount { expected: 6, found: 5 },
        }))
    );
}

#[test]
fn first_bad_row_decides() {
    let table = Table {
        rows: vec![
            header(),
            entry("el", "", "gato", "cat"),
            Row { data_cells: Vec::new() },
        ],
    };
    assert_eq!(
        table.decode(&Schema::standard()),
        Err(DecodeError::Row(RowDecodeError {
            row: 1,
            position: 1,
            fault: RowFault::Cell(MalformedCellError::MissingAudio),
        }))
    );
}

#[test]
fn proper_name_is_translated_by_the_headword() {
    assert_eq!(PROPER_NAME, "proper name");
    let table = Table {
        rows: vec![header(), entry("", "madrid.mp3", "Madrid", "proper name")],
    };
    let expressions = table.decode(&Schema::standard()).unwrap();
    assert_eq!(expressions[0].translation, "Madrid");
    assert_eq!(expressions[0].word, "Madrid");
}

#[test]
fn other_translations_are_kept_verbatim() {
    for text in ["proper name ", "Proper name", " proper name", "proper  name", "cat"] {
        let table = Table {
            rows: vec![header(), entry("", "madrid.mp3", "Madrid", text)],
        };
        let expressions = table.decode(&Schema::standard()).unwrap();
        assert_eq!(expressions[0].translation, text);
    }
}

#[test]
fn row_to_expression() {
    assert_eq!(
        entry("el", "x.mp3", "gato", "cat").to_expression(&Schema::standard(), 9),
        Ok(Expression {
            prefix: Some(String::from("el")),
            word: String::from("gato"),
            transcription: Some(String::from("ˈɡato")),
            inflection: None,
            translation: String::from("cat"),
            audio: String::from("x.mp3"),
        })
    );
    assert_eq!(
        Row { data_cells: Vec::new() }.to_expression(&Schema::standard(), 9),
        Err(DecodeError::MissingRowData(MissingRowDataError { row: 9 }))
    );
}
