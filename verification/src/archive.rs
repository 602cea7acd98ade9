//! The archive extractor's decisions: what is done with each entry of an
//! uploaded archive, and when the archive is turned away.

use vstd::prelude::*;
use vstd::string::{StrSliceExecFns, StringExecFns};

verus! {

/// What the extractor reads of one entry of an archive.
#[derive(Debug, Clone, PartialEq, Eq)]
pub struct ArchiveEntry {
    /// The name of the entry as the archive has it.
    pub name: String,
    /// The size of the entry's content, uncompressed, in bytes.
    pub size: u64,
    /// The entry's name as a path that stays inside the target directory,
    /// or `None` where it would leave it.
    pub enclosed_name: Option<String>,
}

/// What is done with one entry.
#[derive(Debug, Clone, PartialEq, Eq)]
pub enum EntryPlan {
    /// A directory is made at `path`.
    Directory { path: String },
    /// The entry's content is written to the file at `path`.
    File { path: String },
}

/// Why an archive is turned away.
#[derive(Debug, Clone, PartialEq, Eq)]
pub enum ArchiveError {
    /// There is nothing at the archive's path.
    Missing,
    /// The archive's path is not a file.
    NotAFile,
    /// The archive has no entry.
    Empty,
    /// The entry `name` has no content.
    Corrupted { name: String },
    /// The name of the entry `name` leads out of the target directory.
    UnsafePath { name: String },
}

/// Whether `name` is that of a directory entry: it ends in a slash.
pub open spec fn names_directory(name: Seq<char>) -> bool {
    name.len() > 0 && name.last() == '/'
}

/// The mathematical form of an `EntryPlan`.
pub enum EntryPlanView {
    Directory { path: Seq<char> },
    File { path: Seq<char> },
}

impl View for EntryPlan {
    type V = EntryPlanView;

    open spec fn view(&self) -> EntryPlanView {
        match self {
            EntryPlan::Directory { path } => EntryPlanView::Directory { path: path@ },
            EntryPlan::File { path } => EntryPlanView::File { path: path@ },
        }
    }
}

/// What is planned for an entry named `name` whose enclosed path is `path`:
/// a directory where the name ends in a slash, else a file.
pub open spec fn plan_of(name: Seq<char>, path: Seq<char>) -> EntryPlanView {
    if names_directory(name) {
        EntryPlanView::Directory { path }
    } else {
        EntryPlanView::File { path }
    }
}

impl ArchiveError {
    /// The message of this error, as text.
    pub open spec fn message_spec(&self) -> Seq<char> {
        match self {
            ArchiveError::Missing => "File does not exist"@,
            ArchiveError::NotAFile => "Path is not a file"@,
            ArchiveError::Empty => "ZIP archive is empty"@,
            ArchiveError::Corrupted { name } => "File "@ + name@ + " is corrupted"@,
            ArchiveError::UnsafePath { name } => "File "@ + name@ + " has an unsafe path"@,
        }
    }

    /// The message of this error.
    pub fn message(&self) -> (m: String)
        ensures
            m@ == self.message_spec(),
    {
        match self {
            ArchiveError::Missing => String::from_str("File does not exist"),
            ArchiveError::NotAFile => String::from_str("Path is not a file"),
            ArchiveError::Empty => String::from_str("ZIP archive is empty"),
            ArchiveError::Corrupted { name } => {
                let mut m = String::from_str("File ");
                m.append(name.as_str());
                m.append(" is corrupted");
                m
            },
            ArchiveError::UnsafePath { name } => {
                let mut m = String::from_str("File ");
                m.append(name.as_str());
                m.append(" has an unsafe path");
                m
            },
        }
    }
}

/// Turns away an archive without entries.
pub fn check_entry_count(entries: usize) -> (r: Result<(), ArchiveError>)
    ensures
        r is Err <==> entries == 0,
        r is Err ==> r == Err::<(), ArchiveError>(ArchiveError::Empty),
{
    if entries == 0 {
        Err(ArchiveError::Empty)
    } else {
        Ok(())
    }
}

/// Whether `name` ends in a slash.
pub fn is_directory_name(name: &str) -> (b: bool)
    ensures
        b == names_directory(name@),
{
    let n = name.unicode_len();
    n > 0 && name.get_char(n - 1) == '/'
}

/// Decides what is done with one entry. An entry without content fails the
/// archive, whatever its name; so does an entry whose name leads out of the
/// target directory. Of the others, a name that ends in a slash makes a
/// directory and any other name a file, at the entry's enclosed path.
pub fn plan_entry(entry: ArchiveEntry) -> (r: Result<EntryPlan, ArchiveError>)
    ensures
        match r {
            Ok(plan) => {
                &&& entry.size != 0
                &&& entry.enclosed_name matches Some(path)
                &&& plan@ == plan_of(entry.name@, path@)
            },
            Err(error) => if entry.size == 0 {
                error == (ArchiveError::Corrupted { name: entry.name })
            } else {
                &&& entry.enclosed_name is None
                &&& error == (ArchiveError::UnsafePath { name: entry.name })
            },
        },
{
    if entry.size == 0 {
        return Err(ArchiveError::Corrupted { name: entry.name });
    }
    match entry.enclosed_name {
        None => Err(ArchiveError::UnsafePath { name: entry.name }),
        Some(path) => if is_directory_name(entry.name.as_str()) {
            Ok(EntryPlan::Directory { path })
        } else {
            Ok(EntryPlan::File { path })
        },
    }
}

} // verus!
