use std::error::Error;
use std::fmt;
use std::io;

use api_error::{CauseChain, DetailedError, Fields, Level, ToResponse};
use serde_json::Value;

const PUBLIC_MESSAGE: &str = "An unexpected server error occurred, please try again in 5 seconds.";

#[derive(Debug)]
enum PublicError {
    UnexpectedServerError,
}

impl fmt::Display for PublicError {
    fn fmt(&self, f: &mut fmt::Formatter<'_>) -> fmt::Result {
        match self {
            PublicError::UnexpectedServerError => f.write_str(PUBLIC_MESSAGE),
        }
    }
}

impl ToResponse for PublicError {
    type Response = Value;

    fn to_response(&self) -> Value {
        let mut object = serde_json::Map::new();
        object.insert("category".to_string(), Value::String(format!("{:?}", self)));
        object.insert("msg".to_string(), Value::String(format!("{}", self)));
        Value::Object(object)
    }
}

/// An error with a fixed text and, maybe, an error below it.
#[derive(Debug)]
struct Layered {
    text: &'static str,
    below: Option<Box<Layered>>,
}

impl Layered {
    fn stack(texts: &[&'static str]) -> Layered {
        let mut layer: Option<Box<Layered>> = None;
        for text in texts.iter().rev() {
            layer = Some(Box::new(Layered { text, below: layer }));
        }
        *layer.expect("at least one text")
    }
}

impl fmt::Display for Layered {
    fn fmt(&self, f: &mut fmt::Formatter<'_>) -> fmt::Result {
        f.write_str(self.text)
    }
}

impl Error for Layered {
    fn source(&self) -> Option<&(dyn Error + 'static)> {
        match &self.below {
            Some(below) => Some(&**below),
            None => None,
        }
    }
}

fn file_not_found() -> io::Error {
    io::Error::new(io::ErrorKind::NotFound, "file not found")
}

fn strings(texts: &[&str]) -> Vec<String> {
    texts.iter().map(|text| text.to_string()).collect()
}

fn build<Chain: CauseChain>(
    private: Chain,
    context: Option<&str>,
    level: Level,
    fields: Fields,
) -> (DetailedError<PublicError, Chain>, api_error::Record) {
    DetailedError::new_with_tracing(
        private,
        PublicError::UnexpectedServerError,
        context.map(|text| text.to_string()),
        level,
        "src/files.rs".to_string(),
        48,
        "app::files".to_string(),
        fields,
    )
}

#[test]
fn error_without_context_or_fields() {
    let (error, record) = DetailedError::new(
        anyhow::Error::new(file_not_found()),
        PublicError::UnexpectedServerError,
        None,
        Level::Error,
        "src/files.rs".to_string(),
        48,
        "app::files".to_string(),
    );

    let response = error.to_response();
    assert_eq!(response["category"].as_str().unwrap(), "UnexpectedServerError");
    assert_eq!(response["msg"].as_str().unwrap(), PUBLIC_MESSAGE);

    assert_eq!(record.level, Level::Error);
    assert_eq!(record.message, "file not found");
    assert_eq!(record.errors, Vec::<String>::new());
    assert!(record.additional_context.is_none());
    assert_eq!(record.public_error, "UnexpectedServerError");
    assert_eq!(record.file, "src/files.rs");
    assert_eq!(record.line, 48i64);
    assert_eq!(record.module, "app::files");
    assert!(error.has_logged());
}

#[test]
fn context_becomes_the_outermost_cause() {
    let (error, record) = DetailedError::new(
        anyhow::Error::new(file_not_found()),
        PublicError::UnexpectedServerError,
        Some("failed to read my amazing file".to_string()),
        Level::Error,
        "src/files.rs".to_string(),
        48,
        "app::files".to_string(),
    );
    assert_eq!(record.message, "failed to read my amazing file");
    assert_eq!(record.errors, strings(&["file not found"]));
    assert!(record.additional_context.is_none());
    assert_eq!(error.message(), "failed to read my amazing file");
    assert_eq!(
        error.private().messages(),
        strings(&["failed to read my amazing file", "file not found"])
    );
    assert_eq!(error.private().chain().next().unwrap().to_string(), "failed to read my amazing file");
}

#[test]
fn context_becomes_the_outermost_cause_of_a_report() {
    let (error, record) = build(
        eyre::Report::new(file_not_found()),
        Some("failed to read my amazing file"),
        Level::Error,
        Fields::new(),
    );
    assert_eq!(record.message, "failed to read my amazing file");
    assert_eq!(record.errors, strings(&["file not found"]));
    assert!(record.additional_context.is_none());
    assert_eq!(error.message(), "failed to read my amazing file");
    assert_eq!(
        error.private().messages(),
        strings(&["failed to read my amazing file", "file not found"])
    );
}

#[test]
fn report_without_context() {
    let (error, record) =
        build(eyre::Report::new(file_not_found()), None, Level::Trace, Fields::new());
    assert_eq!(record.message, "file not found");
    assert_eq!(record.errors, Vec::<String>::new());
    assert_eq!(record.level, Level::Trace);
    assert_eq!(error.message(), "file not found");
    assert_eq!(error.private().messages(), strings(&["file not found"]));
}

#[test]
fn fields_travel_as_additional_context() {
    let mut fields = Fields::new();
    fields.insert("user_id".to_string(), "42".to_string());
    let (_error, record) =
        build(anyhow::Error::new(file_not_found()), None, Level::Error, fields);
    let context = record.additional_context.expect("fields were given");
    assert_eq!(context.len(), 1);
    assert_eq!(context.get("user_id"), Some(&"42".to_string()));
    assert_eq!(context.pairs(), &vec![("user_id".to_string(), "42".to_string())]);
}

#[test]
fn several_fields_all_arrive() {
    let fields = Fields::from_pairs(vec![
        ("user_id".to_string(), "42".to_string()),
        ("request".to_string(), "GET /files".to_string()),
        ("attempt".to_string(), "3".to_string()),
    ]);
    let (_error, record) = build(
        anyhow::Error::new(file_not_found()),
        Some("failed to read my amazing file"),
        Level::Warn,
        fields,
    );
    let context = record.additional_context.expect("fields were given");
    assert_eq!(context.len(), 3);
    assert_eq!(context.get("user_id"), Some(&"42".to_string()));
    assert_eq!(context.get("request"), Some(&"GET /files".to_string()));
    assert_eq!(context.get("attempt"), Some(&"3".to_string()));
    assert_eq!(context.get("missing"), None);
    assert_eq!(record.level, Level::Warn);
}

#[test]
fn empty_fields_leave_additional_context_out() {
    let (_error, record) = build(
        anyhow::Error::new(file_not_found()),
        Some("failed to read my amazing file"),
        Level::Error,
        Fields::new(),
    );
    assert!(record.additional_context.is_none());
    let (_error, record) = build(
        anyhow::Error::new(file_not_found()),
        None,
        Level::Error,
        Fields::from_pairs(Vec::new()),
    );
    assert!(record.additional_context.is_none());
}

#[test]
fn errors_list_every_cause_but_the_first() {
    let private = Layered::stack(&["request failed", "lookup failed", "disk offline"]);
    let (_error, record) =
        build(anyhow::Error::new(private), None, Level::Error, Fields::new());
    assert_eq!(record.message, "request failed");
    assert_eq!(record.errors, strings(&["lookup failed", "disk offline"]));

    let private = Layered::stack(&["request failed", "lookup failed", "disk offline"]);
    let (_error, record) = build(
        anyhow::Error::new(private),
        Some("while serving /files"),
        Level::Error,
        Fields::new(),
    );
    assert_eq!(record.message, "while serving /files");
    assert_eq!(record.errors, strings(&["request failed", "lookup failed", "disk offline"]));

    let private = Layered::stack(&["request failed", "lookup failed", "disk offline"]);
    let (_error, record) = build(
        eyre::Report::new(private),
        Some("while serving /files"),
        Level::Error,
        Fields::new(),
    );
    assert_eq!(record.message, "while serving /files");
    assert_eq!(record.errors, strings(&["request failed", "lookup failed", "disk offline"]));
}

#[test]
fn a_cause_that_repeats_the_message_is_still_listed() {
    let private = Layered::stack(&["failed", "failed"]);
    let (_error, record) =
        build(anyhow::Error::new(private), None, Level::Error, Fields::new());
    assert_eq!(record.message, "failed");
    assert_eq!(record.errors, strings(&["failed"]));
}

#[test]
fn second_log_is_a_no_op() {
    let (mut error, _record) =
        build(anyhow::Error::new(file_not_found()), None, Level::Info, Fields::new());
    let mut emitted = 1;
    assert!(error.has_logged());
    if error.log().is_some() {
        emitted += 1;
    }
    if error.log().is_some() {
        emitted += 1;
    }
    assert_eq!(emitted, 1);
    assert!(error.has_logged());
    assert_eq!(error.message(), "file not found");
    assert_eq!(error.to_response()["category"].as_str().unwrap(), "UnexpectedServerError");
}

#[test]
fn to_response_gives_the_same_twice() {
    let (error, _record) =
        build(anyhow::Error::new(file_not_found()), None, Level::Error, Fields::new());
    let first = error.to_response();
    let second = error.to_response();
    assert_eq!(first, second);
    assert_eq!(first, error.public().to_response());
}

#[test]
fn into_inner_keeps_the_root_cause() {
    let (error, _record) = build(
        anyhow::Error::new(file_not_found()),
        Some("failed to read my amazing file"),
        Level::Debug,
        Fields::new(),
    );
    let (chain, public) = error.into_inner();
    assert_eq!(chain.root_cause().to_string(), "file not found");
    assert_eq!(chain.chain().count(), 2);
    assert!(chain.downcast_ref::<io::Error>().is_some());
    assert!(matches!(public, PublicError::UnexpectedServerError));
}

#[test]
fn into_inner_without_context_gives_the_error_back() {
    let (error, _record) =
        build(anyhow::Error::new(file_not_found()), None, Level::Debug, Fields::new());
    let (chain, _public) = error.into_inner();
    assert_eq!(chain.to_string(), "file not found");
    assert_eq!(chain.chain().count(), 1);
    assert_eq!(chain.downcast_ref::<io::Error>().unwrap().kind(), io::ErrorKind::NotFound);

    let (error, _record) =
        build(eyre::Report::new(file_not_found()), None, Level::Debug, Fields::new());
    let (chain, _public) = error.into_inner();
    assert_eq!(chain.root_cause().to_string(), "file not found");
    assert_eq!(chain.chain().count(), 1);
}

#[test]
fn every_level_reaches_the_record() {
    let levels = [Level::Error, Level::Warn, Level::Info, Level::Debug, Level::Trace];
    for level in levels {
        let (_error, record) =
            build(anyhow::Error::new(file_not_found()), None, level, Fields::new());
        assert_eq!(record.level, level);
    }
}

#[test]
fn line_is_widened_without_loss() {
    let (_error, record) = DetailedError::new(
        anyhow::Error::new(file_not_found()),
        PublicError::UnexpectedServerError,
        None,
        Level::Error,
        "src/files.rs".to_string(),
        u32::MAX,
        "app::files".to_string(),
    );
    assert_eq!(record.line, 4_294_967_295i64);
    let (_error, record) = DetailedError::new(
        anyhow::Error::new(file_not_found()),
        PublicError::UnexpectedServerError,
        None,
        Level::Error,
        "src/files.rs".to_string(),
        0,
        "app::files".to_string(),
    );
    assert_eq!(record.line, 0i64);
}

#[test]
fn response_does_not_depend_on_the_private_side() {
    let mut fields = Fields::new();
    fields.insert("user_id".to_string(), "42".to_string());
    let (plain, _record) =
        build(anyhow::Error::new(file_not_found()), None, Level::Error, Fields::new());
    let (rich, _record) = build(
        anyhow::Error::new(Layered::stack(&["request failed", "disk offline"])),
        Some("while serving /files"),
        Level::Trace,
        fields,
    );
    assert_eq!(plain.to_response(), rich.to_response());
    let shown = plain.to_response().to_string();
    assert!(!shown.contains("file not found"));
    assert!(!shown.contains("src/files.rs"));
    assert!(!shown.contains("app::files"));
}
