use termnote::report::{rejection, Operation, Outcome, Record};
use termnote::{CRUDProcessor, CatalogError, LoadAttempt, ObjectDB};

#[test]
fn an_accepted_and_written_change_is_saved() {
    assert_eq!(Outcome::settle(Ok(()), Ok(())), Outcome::Saved);
    assert!(Outcome::Saved.committed());
}

#[test]
fn an_accepted_change_that_was_not_written_stays_committed() {
    let outcome = Outcome::settle(Ok(()), Err("disk full".to_string()));
    assert_eq!(outcome, Outcome::Unsaved("disk full".to_string()));
    assert!(outcome.committed());
}

#[test]
fn a_rejected_request_ignores_the_write_result() {
    let outcome = Outcome::settle(Err(CatalogError::DuplicateTitle), Ok(()));
    assert_eq!(outcome, Outcome::Rejected(CatalogError::DuplicateTitle));
    assert!(!outcome.committed());
    let outcome = Outcome::settle(Err(CatalogError::NotFound), Err("x".to_string()));
    assert_eq!(outcome, Outcome::Rejected(CatalogError::NotFound));
}

#[test]
fn success_lines_name_the_operation_and_the_record() {
    assert_eq!(Outcome::Saved.message(Operation::Add, Record::Topic), "Success: Added topic");
    assert_eq!(Outcome::Saved.message(Operation::Add, Record::Link), "Success: Added link");
    assert_eq!(Outcome::Saved.message(Operation::Update, Record::Topic), "Success: Updated topic");
    assert_eq!(Outcome::Saved.message(Operation::Update, Record::Link), "Success: Updated link");
    assert_eq!(Outcome::Saved.message(Operation::Remove, Record::Topic), "Success: Removed topic");
    assert_eq!(Outcome::Saved.message(Operation::Remove, Record::Link), "Success: Removed link");
}

#[test]
fn an_unsaved_addition_tells_the_cause() {
    let outcome = Outcome::Unsaved("permission denied".to_string());
    assert_eq!(
        outcome.message(Operation::Add, Record::Topic),
        "Error: Could not save to database cause: permission denied"
    );
    assert_eq!(
        outcome.message(Operation::Add, Record::Link),
        "Error: Could not save to database cause: permission denied"
    );
    assert_eq!(
        outcome.message(Operation::Update, Record::Topic),
        "Error: Could not update the database"
    );
    assert_eq!(
        outcome.message(Operation::Remove, Record::Link),
        "Error: Could not update the database"
    );
}

#[test]
fn each_rejection_has_its_line() {
    assert_eq!(
        rejection(CatalogError::DuplicateTitle, Record::Topic),
        "Error: Command topic with that title already exists"
    );
    assert_eq!(
        rejection(CatalogError::DuplicateTitle, Record::Link),
        "Error: Link with that title already exists"
    );
    assert_eq!(rejection(CatalogError::IndexOutOfRange, Record::Topic), "Error: Could not find topic");
    assert_eq!(rejection(CatalogError::IndexOutOfRange, Record::Link), "Error: Could not find link");
    assert_eq!(rejection(CatalogError::NotFound, Record::Topic), "Error: Could not find topic");
    assert_eq!(rejection(CatalogError::NotFound, Record::Link), "Error: Could not find link");
    assert_eq!(rejection(CatalogError::NoFieldsProvided, Record::Topic), "Error: No fields to update");
    assert_eq!(rejection(CatalogError::InvalidIndex, Record::Link), "Invalid index number");
}

#[test]
fn a_failed_write_keeps_the_change_in_memory() {
    let mut catalog = CRUDProcessor::init(ObjectDB::init(LoadAttempt::Unopenable).unwrap());
    let applied = catalog.add("Build".to_string(), "".to_string(), "make".to_string(), "".to_string());
    let outcome = Outcome::settle(applied, Err("read-only file system".to_string()));
    assert!(outcome.committed());
    assert_eq!(catalog.database.library.topics.len(), 1);
    assert_eq!(
        outcome.message(Operation::Add, Record::Topic),
        "Error: Could not save to database cause: read-only file system"
    );
}

#[test]
fn a_rejected_request_is_reported_with_its_reason() {
    let mut catalog = CRUDProcessor::init(ObjectDB::init(LoadAttempt::Unopenable).unwrap());
    let applied = catalog.update(0, None, None, None);
    let outcome = Outcome::settle(applied, Ok(()));
    assert_eq!(outcome.message(Operation::Update, Record::Topic), "Error: Could not find topic");
}
