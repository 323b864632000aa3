use taskwarden::error::Error;
use taskwarden::error::ErrorKind;

#[test]
fn render_with_message() {
    let e = Error::new(ErrorKind::Db, "failed to insert task".to_string());
    assert_eq!(e.render(), "database error: failed to insert task");
    assert!(matches!(e.kind(), ErrorKind::Db));
    assert!(e.source.is_none());
}

#[test]
fn render_without_message() {
    let e = Error::new(ErrorKind::Io, String::new());
    assert_eq!(e.render(), "io error");
}

#[test]
fn every_kind_has_a_description() {
    let cases = vec![
        (ErrorKind::DirUnknown, "app dir error"),
        (ErrorKind::Db, "database error"),
        (ErrorKind::Io, "io error"),
        (ErrorKind::TomlDer, "toml deserializing error"),
        (ErrorKind::TomlSer, "toml serializing error"),
    ];
    for (kind, text) in cases {
        assert_eq!(Error::new(kind, String::new()).render(), text);
    }
}

#[test]
fn with_source_keeps_the_underlying_text() {
    let e = Error::with_source(
        ErrorKind::Io,
        "failed to run task program".to_string(),
        "No such file or directory".to_string(),
    );
    assert_eq!(e.render(), "io error: failed to run task program");
    assert_eq!(e.source.as_deref(), Some("No such file or directory"));
}
