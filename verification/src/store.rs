//! The notebook as the process holds it, and the decisions taken when it is
//! brought up from its document.
//!
//! The document lives at a fixed place below the user's home directory. The
//! library never touches the file system: the caller tries to read the
//! document, says what happened, and is told how to go on.

use crate::model::{Library, LibraryView};
use vstd::prelude::*;
use vstd::string::StringExecFns;

verus! {

/// The notebook that a process works on.
pub struct ObjectDB {
    pub library: Library,
}

impl View for ObjectDB {
    type V = LibraryView;

    open spec fn view(&self) -> LibraryView {
        self.library@
    }
}

/// What the attempt to read the document gave.
pub enum LoadAttempt {
    /// The document was opened and understood.
    Parsed(Library),
    /// The document was opened, but its content is not a notebook.
    Corrupt,
    /// The document could not be opened at all.
    Unopenable,
}

/// A failure that ends the process: going on would put the user's data at risk.
#[derive(Clone, Copy, Debug, PartialEq, Eq, Structural)]
pub enum FatalConfig {
    /// The home directory of the user is not known.
    HomeUnresolved,
    /// The document exists and can be opened, but cannot be understood.
    CorruptDocument,
}

/// What is left to do on disk before a fresh notebook can be used.
#[derive(Clone, Copy, Debug, PartialEq, Eq, Structural)]
pub struct Bootstrap {
    /// The configuration directory has to be created.
    pub create_dir: bool,
    /// An empty notebook has to be written as the document.
    pub write_empty: bool,
}

/// The directory below the home directory that holds the document.
pub open spec fn config_dir_of(home: Seq<char>) -> Seq<char> {
    home + "/.termnote"@
}

/// The place of the document below the home directory.
pub open spec fn document_path_of(home: Seq<char>) -> Seq<char> {
    home + "/.termnote/db.json"@
}

/// The configuration directory for the given home directory.
pub fn config_dir(home: &str) -> (r: String)
    ensures
        r@ == config_dir_of(home@),
{
    String::from_str(home).concat("/.termnote")
}

/// The path of the document for the given home directory.
pub fn document_path(home: &str) -> (r: String)
    ensures
        r@ == document_path_of(home@),
{
    String::from_str(home).concat("/.termnote/db.json")
}

impl ObjectDB {
    /// Brings the notebook up from what the attempt to read the document gave.
    ///
    /// A document that was understood becomes the notebook. A document that
    /// could not be opened leaves an empty notebook, and [`ObjectDB::bootstrap`]
    /// says what to create. A document that was opened but not understood is
    /// fatal: it is never replaced by an empty one.
    pub fn init(attempt: LoadAttempt) -> (r: Result<ObjectDB, FatalConfig>)
        ensures
            match attempt {
                LoadAttempt::Parsed(library) => r is Ok && r->Ok_0.library == library,
                LoadAttempt::Unopenable => r is Ok && r->Ok_0@.topics.len() == 0
                    && r->Ok_0@.links.len() == 0,
                LoadAttempt::Corrupt => r == Err::<ObjectDB, FatalConfig>(
                    FatalConfig::CorruptDocument,
                ),
            },
    {
        match attempt {
            LoadAttempt::Parsed(library) => Ok(ObjectDB { library }),
            LoadAttempt::Unopenable => Ok(ObjectDB { library: Library::new() }),
            LoadAttempt::Corrupt => Err(FatalConfig::CorruptDocument),
        }
    }

    /// Says what has to be created after the document could not be opened:
    /// the directory if it is absent, and an empty document if none exists.
    /// A document that exists is left as it is.
    pub fn bootstrap(dir_exists: bool, file_exists: bool) -> (r: Bootstrap)
        ensures
            r.create_dir == !dir_exists,
            r.write_empty == !file_exists,
    {
        Bootstrap { create_dir: !dir_exists, write_empty: !file_exists }
    }
}

} // verus!
