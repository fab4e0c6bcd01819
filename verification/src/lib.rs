//! A personal notebook of shell commands and bookmarked links.
//!
//! The crate holds the data model of the notebook, the catalog operations that
//! keep it consistent, and the navigation state machine of the list browser.
//! Everything here works on plain values: reading the document, drawing the
//! list and waiting for keys are left to the program around the library.

pub mod browser;
pub mod catalog;
pub mod columns;
pub mod listing;
pub mod lookup;
pub mod model;
pub mod position;
pub mod report;
pub mod selection;
pub mod store;
pub mod table;
pub mod text;

pub use browser::{InputEvent, KeyCode, MenuEvent, Request, TerminalUI, TerminalUrlUI};
pub use catalog::{CRUDProcessor, CatalogError};
pub use columns::{calc_link_len_constraint, calc_topic_len_constraint};
pub use model::{Library, Link, Topic};
pub use selection::SelectableList;
pub use store::{Bootstrap, FatalConfig, LoadAttempt, ObjectDB};
