use task_store::error::{Error, ErrorKind};

#[test]
fn database_error_renders_context_and_cause() {
    let e = Error::database("while saving a task", "disk full".to_string());
    assert_eq!(e.kind, ErrorKind::Database);
    assert_eq!(e.to_message(), "A database error occurred while saving a task. (disk full.)");
}

#[test]
fn cause_that_ends_a_sentence_gets_no_second_stop() {
    let e = Error::refusal(
        "while deleting a time segment",
        "If you remove the last time segment, when should I schedule things?".to_string(),
    );
    assert_eq!(
        e.to_message(),
        "The operation was refused while deleting a time segment. (If you remove the last time segment, when should I schedule things?)"
    );
}

#[test]
fn empty_cause_leaves_only_the_primary_message() {
    let e = Error::scheduling(String::new());
    assert_eq!(e.to_message(), "Scheduling failed.");
}

#[test]
fn serialisation_and_configuration_errors_render() {
    let e = Error::serialisation("while deserialising a task", "expected an object".to_string());
    assert_eq!(
        e.to_message(),
        "A document could not be read or written while deserialising a task. (expected an object.)"
    );
    let c = Error::configuration_failure(&e);
    assert_eq!(
        c,
        Error::configuration("A document could not be read or written while deserialising a task. (expected an object.)".to_string())
    );
    assert_eq!(c.duplicate(), c);
}
