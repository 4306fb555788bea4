use rfs::error::{error_with, trace_error, Context, Er, Error, StrError};

#[test]
fn trace_numbers_the_causes() {
    let sources = vec!["io failure".to_owned(), "disk gone".to_owned()];
    assert_eq!(
        trace_error("request failed", "top error", &sources),
        "request failed\n0) top error\n1) io failure\n2) disk gone"
    );
}

#[test]
fn trace_without_causes() {
    assert_eq!(trace_error("job failed", "boom", &Vec::new()), "job failed\n0) boom");
}

#[test]
fn trace_with_many_causes() {
    let sources: Vec<String> = (1..=11).map(|i| format!("e{i}")).collect();
    let t = trace_error("p", "e0", &sources);
    assert!(t.ends_with("\n10) e10\n11) e11"));
}

#[test]
fn new_error_display() {
    let e = Error::new();
    assert_eq!(e.to_display_string(), "Error");
}

#[test]
fn context_and_source() {
    let e = Error::new().context("loading config").source("file missing");
    assert_eq!(e.cxt.as_deref(), Some("loading config"));
    assert_eq!(e.src.as_deref(), Some("file missing"));
    assert_eq!(e.to_display_string(), "Error\ncxt: loading config\nerr: file missing");
    let e = e.context("again");
    assert_eq!(e.cxt.as_deref(), Some("again"));
    assert_eq!(e.src.as_deref(), Some("file missing"));
}

#[test]
fn message_and_kind() {
    let e = Error::from_message("bad input");
    assert_eq!(e.to_display_string(), "Error\ncxt: bad input");
    let e = e.kind("Invalid");
    assert_eq!(e.to_display_string(), "Invalid\ncxt: bad input");
}

#[test]
fn default_error() {
    let e: Er<StrError> = Default::default();
    assert_eq!(e.inner.0, "Error");
    assert!(e.cxt.is_none() && e.src.is_none());
}

#[test]
fn error_with_parts() {
    let e = error_with("ctx".to_owned(), Some("cause".to_owned()));
    assert_eq!(e.to_display_string(), "Error\ncxt: ctx\nerr: cause");
}

#[test]
fn option_context_and_kind() {
    let some: Option<u8> = Some(3);
    assert!(matches!(some.context("missing"), Ok(3)));
    let none: Option<u8> = None;
    let e = none.context("missing value").err().unwrap();
    assert_eq!(e.to_display_string(), "Error\ncxt: missing value");
    let none: Option<u8> = None;
    let e = none.kind("NotFound").err().unwrap();
    assert_eq!(e.to_display_string(), "NotFound");
}

#[test]
fn result_context_and_kind() {
    let ok: Result<u8, String> = Ok(1);
    assert!(matches!(ok.context("x"), Ok(1)));
    let bad: Result<u8, String> = Err("io".to_owned());
    let e = bad.context("reading").err().unwrap();
    assert_eq!(e.to_display_string(), "Error\ncxt: reading\nerr: \"io\"");
    let bad: Result<u8, String> = Err("io".to_owned());
    let e = bad.kind("Io").err().unwrap();
    assert_eq!(e.to_display_string(), "Io\nerr: \"io\"");
}

#[test]
fn text_causes_are_shown_in_debug_form() {
    let bad: Result<u8, String> = Err("line \"one\"\nline two".to_owned());
    let e = bad.context("reading").err().unwrap();
    assert_eq!(e.src.as_deref(), Some(format!("{:?}", "line \"one\"\nline two").as_str()));
    assert_eq!(e.src.as_deref(), Some("\"line \\\"one\\\"\\nline two\""));
}
