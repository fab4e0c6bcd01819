//! What became of a request to change the notebook, and the line that tells
//! the user about it.
//!
//! A change that the catalog accepted is followed by an attempt to write the
//! document. Where that fails the change stays in memory, and the user is
//! told that it could not be written.

use crate::catalog::CatalogError;
use vstd::prelude::*;
use vstd::string::StringExecFns;

verus! {

/// The kind of record that a request is about.
#[derive(Clone, Copy, Debug, PartialEq, Eq, Structural)]
pub enum Record {
    Topic,
    Link,
}

/// The kind of change that was asked for.
#[derive(Clone, Copy, Debug, PartialEq, Eq, Structural)]
pub enum Operation {
    Add,
    Update,
    Remove,
}

/// What became of a request to change the notebook.
#[derive(Debug, PartialEq, Eq)]
pub enum Outcome {
    /// The change was made and the document was written.
    Saved,
    /// The change was made in memory, but the document could not be
    /// written; the text says why.
    Unsaved(String),
    /// The request was turned down and nothing changed.
    Rejected(CatalogError),
}

/// The outcome of a request, from the catalog's answer and, where the
/// catalog accepted, from the result of writing the document.
pub open spec fn outcome_of(
    applied: Result<(), CatalogError>,
    saved: Result<(), String>,
) -> Outcome {
    match applied {
        Err(e) => Outcome::Rejected(e),
        Ok(_) => match saved {
            Ok(_) => Outcome::Saved,
            Err(cause) => Outcome::Unsaved(cause),
        },
    }
}

/// The line for a change that was made and written.
pub open spec fn success_text(operation: Operation, record: Record) -> Seq<char> {
    match (operation, record) {
        (Operation::Add, Record::Topic) => "Success: Added topic"@,
        (Operation::Add, Record::Link) => "Success: Added link"@,
        (Operation::Update, Record::Topic) => "Success: Updated topic"@,
        (Operation::Update, Record::Link) => "Success: Updated link"@,
        (Operation::Remove, Record::Topic) => "Success: Removed topic"@,
        (Operation::Remove, Record::Link) => "Success: Removed link"@,
    }
}

/// The line for a change that was made but not written.
pub open spec fn unsaved_text(operation: Operation, cause: Seq<char>) -> Seq<char> {
    match operation {
        Operation::Add => "Error: Could not save to database cause: "@ + cause,
        _ => "Error: Could not update the database"@,
    }
}

/// The line for a request that was turned down.
pub open spec fn rejection_text(error: CatalogError, record: Record) -> Seq<char> {
    match error {
        CatalogError::DuplicateTitle => match record {
            Record::Topic => "Error: Command topic with that title already exists"@,
            Record::Link => "Error: Link with that title already exists"@,
        },
        CatalogError::NotFound | CatalogError::IndexOutOfRange => match record {
            Record::Topic => "Error: Could not find topic"@,
            Record::Link => "Error: Could not find link"@,
        },
        CatalogError::NoFieldsProvided => "Error: No fields to update"@,
        CatalogError::InvalidIndex => "Invalid index number"@,
    }
}

/// The line that tells the user what became of a request.
pub open spec fn message_text(outcome: Outcome, operation: Operation, record: Record) -> Seq<char> {
    match outcome {
        Outcome::Saved => success_text(operation, record),
        Outcome::Unsaved(cause) => unsaved_text(operation, cause@),
        Outcome::Rejected(error) => rejection_text(error, record),
    }
}

/// The line for a request that was turned down.
pub fn rejection(error: CatalogError, record: Record) -> (r: String)
    ensures
        r@ == rejection_text(error, record),
{
    match error {
        CatalogError::DuplicateTitle => match record {
            Record::Topic => String::from_str(
                "Error: Command topic with that title already exists",
            ),
            Record::Link => String::from_str("Error: Link with that title already exists"),
        },
        CatalogError::NotFound | CatalogError::IndexOutOfRange => match record {
            Record::Topic => String::from_str("Error: Could not find topic"),
            Record::Link => String::from_str("Error: Could not find link"),
        },
        CatalogError::NoFieldsProvided => String::from_str("Error: No fields to update"),
        CatalogError::InvalidIndex => String::from_str("Invalid index number"),
    }
}

impl Outcome {
    /// Puts the catalog's answer and the result of writing the document
    /// together. Where the catalog turned the request down nothing was
    /// written, and `saved` is not looked at.
    pub fn settle(applied: Result<(), CatalogError>, saved: Result<(), String>) -> (r: Outcome)
        ensures
            r == outcome_of(applied, saved),
    {
        match applied {
            Err(e) => Outcome::Rejected(e),
            Ok(_) => match saved {
                Ok(_) => Outcome::Saved,
                Err(cause) => Outcome::Unsaved(cause),
            },
        }
    }

    /// Whether the change is in the notebook in memory, written or not.
    pub fn committed(&self) -> (r: bool)
        ensures
            r == !(*self is Rejected),
    {
        match self {
            Outcome::Rejected(_) => false,
            _ => true,
        }
    }

    /// The line that tells the user what became of the request.
    pub fn message(&self, operation: Operation, record: Record) -> (r: String)
        ensures
            r@ == message_text(*self, operation, record),
    {
        match self {
            Outcome::Saved => match (operation, record) {
                (Operation::Add, Record::Topic) => String::from_str("Success: Added topic"),
                (Operation::Add, Record::Link) => String::from_str("Success: Added link"),
                (Operation::Update, Record::Topic) => String::from_str("Success: Updated topic"),
                (Operation::Update, Record::Link) => String::from_str("Success: Updated link"),
                (Operation::Remove, Record::Topic) => String::from_str("Success: Removed topic"),
                (Operation::Remove, Record::Link) => String::from_str("Success: Removed link"),
            },
            Outcome::Unsaved(cause) => match operation {
                Operation::Add => String::from_str(
                    "Error: Could not save to database cause: ",
                ).concat(cause.as_str()),
                _ => String::from_str("Error: Could not update the database"),
            },
            Outcome::Rejected(error) => rejection(*error, record),
        }
    }
}

} // verus!
