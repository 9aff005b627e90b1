use vocab_cards::audio::{
    file_name_from, sound_file_name, sound_marker, InvalidAudioReferenceError, ParsedReference,
};

#[test]
fn file_name_of_absolute_url() {
    assert_eq!(
        sound_file_name("https://example.com/media/abc123.mp3"),
        Ok(String::from("abc123.mp3"))
    );
}

#[test]
fn bare_host_has_no_file_name() {
    assert_eq!(
        sound_file_name("https://example.com"),
        Err(InvalidAudioReferenceError::NoFileName)
    );
    assert_eq!(
        sound_file_name("https://example.com/"),
        Err(InvalidAudioReferenceError::NoFileName)
    );
}

#[test]
fn query_and_fragment_are_no_part_of_the_file_name() {
    assert_eq!(
        sound_file_name("https://example.com/a/b.ogg?size=1#start"),
        Ok(String::from("b.ogg"))
    );
}

#[test]
fn path_of_absolute_url_is_percent_encoded() {
    assert_eq!(
        sound_file_name("https://example.com/media/el gato.mp3"),
        Ok(String::from("el%20gato.mp3"))
    );
    assert_eq!(sound_file_name("media/el gato.mp3"), Ok(String::from("el gato.mp3")));
}

#[test]
fn trailing_slashes_are_skipped() {
    assert_eq!(
        sound_file_name("https://example.com/media/clips//"),
        Ok(String::from("clips"))
    );
}

#[test]
fn url_without_path_segments_is_rejected() {
    assert_eq!(
        sound_file_name("mailto:someone@example.com"),
        Err(InvalidAudioReferenceError::NoPathSegments)
    );
    assert_eq!(
        sound_file_name("data:audio/mp3;base64,AAAA"),
        Err(InvalidAudioReferenceError::NoPathSegments)
    );
}

#[test]
fn malformed_url_is_rejected() {
    assert_eq!(
        sound_file_name("https://"),
        Err(InvalidAudioReferenceError::NotAUrl)
    );
    assert_eq!(
        sound_file_name("https://example.com:port/x.mp3"),
        Err(InvalidAudioReferenceError::NotAUrl)
    );
}

#[test]
fn file_name_of_relative_reference() {
    assert_eq!(sound_file_name("x.mp3"), Ok(String::from("x.mp3")));
    assert_eq!(sound_file_name("media/x.mp3?v=2#t"), Ok(String::from("x.mp3")));
    assert_eq!(sound_file_name("/media/y.mp3#t?x"), Ok(String::from("y.mp3")));
}

#[test]
fn relative_reference_without_path_has_no_file_name() {
    assert_eq!(sound_file_name(""), Err(InvalidAudioReferenceError::NoFileName));
    assert_eq!(sound_file_name("?x.mp3"), Err(InvalidAudioReferenceError::NoFileName));
    assert_eq!(sound_file_name("///"), Err(InvalidAudioReferenceError::NoFileName));
}

#[test]
fn file_name_from_parsed_path() {
    let parsed = ParsedReference::Absolute(String::from("/a/b//"));
    assert_eq!(file_name_from("ignored", &parsed), Ok(String::from("b")));
    let parsed = ParsedReference::Absolute(String::from("/"));
    assert_eq!(
        file_name_from("ignored", &parsed),
        Err(InvalidAudioReferenceError::NoFileName)
    );
    let parsed = ParsedReference::Absolute(String::from("a/b"));
    assert_eq!(
        file_name_from("ignored", &parsed),
        Err(InvalidAudioReferenceError::NoPathSegments)
    );
    let parsed = ParsedReference::Absolute(String::new());
    assert_eq!(
        file_name_from("ignored", &parsed),
        Err(InvalidAudioReferenceError::NoPathSegments)
    );
}

#[test]
fn file_name_from_relative_and_malformed() {
    assert_eq!(
        file_name_from("dir/ɡato.mp3?x", &ParsedReference::Relative),
        Ok(String::from("ɡato.mp3"))
    );
    assert_eq!(
        file_name_from("dir/x.mp3", &ParsedReference::Malformed),
        Err(InvalidAudioReferenceError::NotAUrl)
    );
}

#[test]
fn marker_wraps_file_name() {
    assert_eq!(sound_marker("x.mp3"), "[sound:x.mp3]");
    assert_eq!(sound_marker(""), "[sound:]");
}
