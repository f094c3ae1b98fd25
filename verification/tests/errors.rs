use stitchy_mobile::{boundary_reply, Error, Logger};

#[test]
fn success_is_the_empty_reply() {
    assert_eq!(boundary_reply(Ok(())), "");
}

#[test]
fn jni_failure_is_prefixed() {
    assert_eq!(Error::Jni("JavaException".to_owned()).message(), "JNI error: JavaException");
}

#[test]
fn io_failure_is_prefixed() {
    assert_eq!(boundary_reply(Err(Error::Io("disk full".to_owned()))), "IO error: disk full");
}

#[test]
fn image_failure_is_prefixed() {
    assert_eq!(Error::Image("bad".to_owned()).message(), "Image error: bad");
}

#[test]
fn json_failure_is_prefixed() {
    assert_eq!(
        boundary_reply(Err(Error::Json("missing field".to_owned()))),
        "JSON error: missing field"
    );
}

#[test]
fn unknown_failure_is_its_own_text() {
    assert_eq!(
        boundary_reply(Err(Error::Unknown("Could not determine output format".to_owned()))),
        "Could not determine output format"
    );
}

#[test]
fn classified_failure_with_empty_text_is_still_visible() {
    assert_eq!(boundary_reply(Err(Error::Io(String::new()))), "IO error: ");
}

#[test]
fn internal_failure_is_worded() {
    match Error::internal("NullPtr") {
        Error::Unknown(m) => assert_eq!(m, "Internal error: NullPtr"),
        other => panic!("unexpected {:?}", other),
    }
}

#[test]
fn logger_starts_empty_under_its_tag() {
    let logger = Logger::new();
    assert_eq!(logger.tag, "StitchyMobile");
    assert!(logger.lines.is_empty());
}

#[test]
fn logger_keeps_lines_in_order() {
    let mut logger = Logger::new();
    logger.log_message("first");
    logger.log_message("second");
    logger.log_message("first");
    assert_eq!(logger.lines, vec!["first".to_owned(), "second".to_owned(), "first".to_owned()]);
    assert_eq!(logger.tag, "StitchyMobile");
}

#[test]
fn bare_description_is_an_unknown_failure() {
    match Error::from("Path is not a file".to_owned()) {
        Error::Unknown(m) => assert_eq!(m, "Path is not a file"),
        other => panic!("unexpected {:?}", other),
    }
}
