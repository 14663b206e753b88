use api_error::{Fields, Level, Meta};

fn strings(texts: &[&str]) -> Vec<String> {
    texts.iter().map(|text| text.to_string()).collect()
}

fn meta_with(fields: Fields, level: Level) -> Meta {
    Meta::new(fields, "src/files.rs".to_string(), "app::files".to_string(), 48, level)
}

#[test]
fn new_meta_is_not_logged() {
    let meta = meta_with(Fields::new(), Level::Error);
    assert!(!meta.has_logged());
}

#[test]
fn record_of_a_single_cause() {
    let meta = meta_with(Fields::new(), Level::Error);
    let record = meta.record(strings(&["file not found"]), "UnexpectedServerError".to_string());
    assert_eq!(record.level, Level::Error);
    assert_eq!(record.message, "file not found");
    assert_eq!(record.errors, Vec::<String>::new());
    assert_eq!(record.public_error, "UnexpectedServerError");
    assert!(record.additional_context.is_none());
    assert_eq!(record.file, "src/files.rs");
    assert_eq!(record.line, 48i64);
    assert_eq!(record.module, "app::files");
    assert!(!meta.has_logged());
}

#[test]
fn record_splits_the_message_from_the_errors() {
    let meta = meta_with(Fields::new(), Level::Debug);
    let record = meta.record(
        strings(&["failed to read my amazing file", "request failed", "file not found"]),
        "UnexpectedServerError".to_string(),
    );
    assert_eq!(record.message, "failed to read my amazing file");
    assert_eq!(record.errors, strings(&["request failed", "file not found"]));
    assert_eq!(record.level, Level::Debug);
}

#[test]
fn record_carries_the_fields() {
    let mut fields = Fields::new();
    fields.insert("user_id".to_string(), "42".to_string());
    let meta = meta_with(fields, Level::Info);
    let record = meta.record(strings(&["file not found"]), "Public".to_string());
    let context = record.additional_context.expect("fields were given");
    assert_eq!(context.len(), 1);
    assert_eq!(context.get("user_id"), Some(&"42".to_string()));
}

#[test]
fn log_gives_the_record_once() {
    let mut fields = Fields::new();
    fields.insert("user_id".to_string(), "42".to_string());
    let mut meta = meta_with(fields, Level::Warn);

    let first = meta.log(strings(&["outer", "inner"]), "Public".to_string());
    let record = first.expect("the first call gives out the record");
    assert_eq!(record.level, Level::Warn);
    assert_eq!(record.message, "outer");
    assert_eq!(record.errors, strings(&["inner"]));
    assert_eq!(record.public_error, "Public");
    assert_eq!(record.additional_context.unwrap().get("user_id"), Some(&"42".to_string()));
    assert!(meta.has_logged());

    assert!(meta.log(strings(&["outer", "inner"]), "Public".to_string()).is_none());
    assert!(meta.log(strings(&["something else"]), "Other".to_string()).is_none());
    assert!(meta.has_logged());
}

#[test]
fn record_does_not_mark_as_logged() {
    let mut meta = meta_with(Fields::new(), Level::Trace);
    let _ = meta.record(strings(&["a"]), "P".to_string());
    assert!(!meta.has_logged());
    assert!(meta.log(strings(&["a"]), "P".to_string()).is_some());
    assert!(meta.has_logged());
}
