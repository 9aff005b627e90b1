use vocab_cards::audio::{InvalidAudioReferenceError, ParsedReference};
use vocab_cards::expression::Expression;
use vocab_cards::flashcard::{DisplayMode, Flashcard, ProjectionError};

fn gato() -> Expression {
    Expression {
        prefix: Some(String::from("el")),
        word: String::from("gato"),
        transcription: Some(String::from("ˈɡato")),
        inflection: Some(String::from("gatos")),
        translation: String::from("cat"),
        audio: String::from("https://example.com/media/abc123.mp3"),
    }
}

fn madrid() -> Expression {
    Expression {
        prefix: None,
        word: String::from("Madrid"),
        transcription: None,
        inflection: None,
        translation: String::from("Madrid"),
        audio: String::from("madrid.mp3"),
    }
}

#[test]
fn line_break_card() {
    assert_eq!(
        Flashcard::try_from(gato(), DisplayMode::LineBreak),
        Ok(Flashcard {
            front: String::from("cat"),
            back: String::from("el gato<br>ˈɡato<br>gatos"),
            sound_marker: String::from("[sound:abc123.mp3]"),
        })
    );
}

#[test]
fn html_block_card() {
    assert_eq!(
        Flashcard::try_from(gato(), DisplayMode::HtmlBlock),
        Ok(Flashcard {
            front: String::from("cat"),
            back: String::from("<p>el gato</p><p>ˈɡato</p><p>gatos</p>"),
            sound_marker: String::from("[sound:abc123.mp3]"),
        })
    );
}

#[test]
fn absent_fields_leave_empty_parts() {
    assert_eq!(
        Flashcard::try_from(madrid(), DisplayMode::LineBreak),
        Ok(Flashcard {
            front: String::from("Madrid"),
            back: String::from("Madrid<br><br>"),
            sound_marker: String::from("[sound:madrid.mp3]"),
        })
    );
    assert_eq!(
        Flashcard::try_from(madrid(), DisplayMode::HtmlBlock),
        Ok(Flashcard {
            front: String::from("Madrid"),
            back: String::from("<p>Madrid</p><p></p><p></p>"),
            sound_marker: String::from("[sound:madrid.mp3]"),
        })
    );
}

#[test]
fn reference_without_file_fails_projection() {
    let mut expression = gato();
    expression.audio = String::from("https://example.com");
    assert_eq!(
        Flashcard::try_from(expression.clone(), DisplayMode::LineBreak),
        Err(InvalidAudioReferenceError::NoFileName)
    );
    assert_eq!(
        Flashcard::try_from(expression, DisplayMode::HtmlBlock),
        Err(InvalidAudioReferenceError::NoFileName)
    );
}

#[test]
fn projection_is_repeatable() {
    for mode in [DisplayMode::LineBreak, DisplayMode::HtmlBlock] {
        let first = Flashcard::try_from(gato(), mode);
        let second = Flashcard::try_from(gato(), mode);
        assert_eq!(first, second);
        assert_eq!(first.unwrap().record(mode), second.unwrap().record(mode));
    }
}

#[test]
fn card_from_parsed_reference() {
    let parsed = ParsedReference::Absolute(String::from("/media/other.mp3"));
    let card = Flashcard::from_parsed(&gato(), DisplayMode::LineBreak, &parsed).unwrap();
    assert_eq!(card.sound_marker, "[sound:other.mp3]");
    assert_eq!(
        Flashcard::from_parsed(&gato(), DisplayMode::LineBreak, &ParsedReference::Malformed),
        Err(InvalidAudioReferenceError::NotAUrl)
    );
}

#[test]
fn record_fields_by_mode() {
    let card = Flashcard::try_from(gato(), DisplayMode::LineBreak).unwrap();
    assert_eq!(
        card.record(DisplayMode::LineBreak),
        vec!["cat", "el gato<br>ˈɡato<br>gatos", "[sound:abc123.mp3]"]
    );
    let card = Flashcard::try_from(gato(), DisplayMode::HtmlBlock).unwrap();
    assert_eq!(
        card.record(DisplayMode::HtmlBlock),
        vec!["cat", "<p>el gato</p><p>ˈɡato</p><p>gatos</p>[sound:abc123.mp3]"]
    );
}

#[test]
fn list_is_projected_in_order() {
    let cards = Flashcard::try_from_all(&vec![gato(), madrid()], DisplayMode::LineBreak).unwrap();
    assert_eq!(cards.len(), 2);
    assert_eq!(cards[0].front, "cat");
    assert_eq!(cards[1].front, "Madrid");
    assert_eq!(
        Flashcard::try_from_all(&Vec::new(), DisplayMode::LineBreak),
        Ok(Vec::new())
    );
}

#[test]
fn one_bad_reference_fails_the_list() {
    let mut second = madrid();
    second.audio = String::from("mailto:someone@example.com");
    let mut third = madrid();
    third.audio = String::from("https://example.com");
    assert_eq!(
        Flashcard::try_from_all(&vec![gato(), second, third], DisplayMode::HtmlBlock),
        Err(ProjectionError { index: 1, cause: InvalidAudioReferenceError::NoPathSegments })
    );
}
