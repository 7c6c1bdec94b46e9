//! One entry of a directory listing, and what is shown of it.
//!
//! An entry knows its path and whether it is a directory. Everything else
//! about it lives on disk: the caller reads it there and hands it in, and
//! the functions here say what becomes of it.

use crate::permissions::{permission_text, permissions_to_string};
use crate::text::{decimal, decimal_text};
use vstd::prelude::*;

verus! {

/// One entry of a listing.
#[derive(Debug, PartialEq, Eq)]
pub struct FileListing {
    pub path: String,
    pub is_directory: bool,
}

/// What a `FileListing` stands for.
pub struct FileListingView {
    pub path: Seq<char>,
    pub is_directory: bool,
}

impl View for FileListing {
    type V = FileListingView;

    open spec fn view(&self) -> FileListingView {
        FileListingView { path: self.path@, is_directory: self.is_directory }
    }
}

/// What the file system tells of an entry. A time that it does not record
/// is absent; one that it does comes in the form in which it is to be shown.
#[derive(Debug)]
pub struct EntryMetadata {
    pub is_directory: bool,
    pub len: u64,
    pub modified: Option<String>,
    pub accessed: Option<String>,
    pub mode: u32,
}

/// What an `EntryMetadata` stands for.
pub struct EntryMetadataView {
    pub is_directory: bool,
    pub len: nat,
    pub modified: Option<Seq<char>>,
    pub accessed: Option<Seq<char>>,
    pub mode: u32,
}

impl View for EntryMetadata {
    type V = EntryMetadataView;

    open spec fn view(&self) -> EntryMetadataView {
        EntryMetadataView {
            is_directory: self.is_directory,
            len: self.len as nat,
            modified: match self.modified {
                Some(t) => Some(t@),
                None => None,
            },
            accessed: match self.accessed {
                Some(t) => Some(t@),
                None => None,
            },
            mode: self.mode,
        }
    }
}

/// The last component of a path as `std::path::Path::file_name` finds it,
/// where the path has one.
pub uninterp spec fn final_component(path: Seq<char>) -> Option<Seq<char>>;

/// A path as `std::path::Path` writes it for debugging: in quotes, with
/// what needs escaping escaped.
pub uninterp spec fn quoted_path(path: Seq<char>) -> Seq<char>;

/// `std::path::Path::file_name` on the path that `path` spells. The name
/// comes back as text; it is part of `path`, so it always can.
#[verifier::external_body]
fn path_file_name(path: &str) -> (name: Option<String>)
    ensures
        match name {
            Some(n) => final_component(path@) == Some(n@),
            None => final_component(path@).is_none(),
        },
{
    std::path::Path::new(path).file_name().and_then(|n| n.to_str()).map(|n| n.to_string())
}

/// The `Debug` form of the `std::path::Path` that `path` spells.
#[verifier::external_body]
fn path_debug(path: &str) -> (quoted: String)
    ensures
        quoted@ == quoted_path(path@),
{
    format!("{:?}", std::path::Path::new(path))
}

/// The name under which an entry is listed. The entry at origin 0 is the
/// listed directory itself and shows as `.`; the one at origin 1 is its
/// parent and shows as `..`; every other entry shows under the last
/// component of its path, if it has one.
pub open spec fn label_text(origin: nat, name: Option<Seq<char>>) -> Option<Seq<char>> {
    if origin == 0 {
        Some("."@)
    } else if origin == 1 {
        Some(".."@)
    } else {
        name
    }
}

/// How a time shows: as it came, or as `never` where none is recorded.
pub open spec fn time_text(time: Option<Seq<char>>) -> Seq<char> {
    match time {
        Some(t) => t,
        None => "never"@,
    }
}

/// The word for the kind of an entry.
pub open spec fn kind_text(is_directory: bool) -> Seq<char> {
    if is_directory {
        "directory"@
    } else {
        "regular file"@
    }
}

/// The low sixteen bits of a mode as the file system reports it. The nine
/// permission bits are among them.
pub open spec fn mode_bits(mode: u32) -> u16 {
    (mode & 0xffff) as u16
}

/// The summary of an entry: its path, its kind, its size, when it was last
/// modified and last accessed, and its permissions, on five lines.
pub open spec fn summary_text(quoted: Seq<char>, metadata: EntryMetadataView) -> Seq<char> {
    "Path "@ + quoted + " is a "@ + kind_text(metadata.is_directory) + ".\nSize: "@ + decimal_text(
        metadata.len,
    ) + " bytes\nLast modified: "@ + time_text(metadata.modified) + "\nLast accessed: "@
        + time_text(metadata.accessed) + "\nPermissions: "@ + permission_text(
        mode_bits(metadata.mode),
    )
}

/// The name under which an entry at `origin` is listed, given the last
/// component of its path.
pub fn label(origin: usize, name: Option<String>) -> (shown: Option<String>)
    ensures
        match shown {
            Some(s) => label_text(
                origin as nat,
                match name {
                    Some(n) => Some(n@),
                    None => None,
                },
            ) == Some(s@),
            None => origin >= 2 && name.is_none(),
        },
{
    if origin == 0 {
        Some(String::from_str("."))
    } else if origin == 1 {
        Some(String::from_str(".."))
    } else {
        name
    }
}

/// The text of a time, or `never`.
fn time_or_never(time: &Option<String>) -> (shown: &str)
    ensures
        shown@ == time_text(
            match *time {
                Some(t) => Some(t@),
                None => None,
            },
        ),
{
    match time {
        Some(t) => t.as_str(),
        None => "never",
    }
}

/// Writes the summary of an entry from its path in quotes and what the
/// file system told of it.
pub fn summary(quoted: &str, metadata: &EntryMetadata) -> (text: String)
    ensures
        text@ == summary_text(quoted@, metadata@),
{
    let kind = if metadata.is_directory {
        "directory"
    } else {
        "regular file"
    };
    let mode: u32 = metadata.mode;
    assert(mode & 0xffff <= 0xffff) by (bit_vector);
    let permissions = permissions_to_string((mode & 0xffff) as u16);
    let size = decimal(metadata.len);
    let mut text = String::from_str("Path ");
    text.append(quoted);
    text.append(" is a ");
    text.append(kind);
    text.append(".\nSize: ");
    text.append(size.as_str());
    text.append(" bytes\nLast modified: ");
    text.append(time_or_never(&metadata.modified));
    text.append("\nLast accessed: ");
    text.append(time_or_never(&metadata.accessed));
    text.append("\nPermissions: ");
    text.append(permissions.as_str());
    text
}

impl FileListing {
    /// An entry at `path`, a directory or not.
    pub fn new(path: String, is_directory: bool) -> (entry: Self)
        ensures
            entry@ == (FileListingView { path: path@, is_directory }),
    {
        Self { path, is_directory }
    }

    /// The contents of the entry, given what reading its path gave. A
    /// directory has none, whatever reading gave; a file has what was read,
    /// and fails as the reading failed.
    pub fn contents<E>(&self, read: Result<String, E>) -> (contents: Result<Option<String>, E>)
        ensures
            self@.is_directory ==> contents == Ok::<Option<String>, E>(None),
            !self@.is_directory ==> contents == match read {
                Ok(text) => Ok(Some(text)),
                Err(e) => Err(e),
            },
    {
        if self.is_directory {
            Ok(None)
        } else {
            match read {
                Ok(text) => Ok(Some(text)),
                Err(e) => Err(e),
            }
        }
    }

    /// The last component of the entry's path, where it has one.
    pub fn file_name(&self) -> (name: Option<String>)
        ensures
            match name {
                Some(n) => final_component(self@.path) == Some(n@),
                None => final_component(self@.path).is_none(),
            },
    {
        path_file_name(self.path.as_str())
    }

    /// The name under which the entry is listed when it stands at `origin`:
    /// `.` at origin 0, `..` at origin 1, the last component of its path
    /// elsewhere. Elsewhere an entry whose path has no last component has
    /// no name.
    pub fn display_name(&self, origin: usize) -> (shown: Option<String>)
        ensures
            match shown {
                Some(s) => label_text(origin as nat, final_component(self@.path)) == Some(s@),
                None => label_text(origin as nat, final_component(self@.path)).is_none(),
            },
    {
        label(origin, self.file_name())
    }

    /// Whether the entry is listed with the mark of a directory: a
    /// directory is, unless it stands for the listed directory or its
    /// parent.
    pub fn shows_directory_mark(&self, origin: usize) -> (marked: bool)
        ensures
            marked == (origin >= 2 && self@.is_directory),
    {
        origin >= 2 && self.is_directory
    }

    /// The summary of the entry, given what asking the file system for its
    /// metadata gave. It fails as the asking failed.
    pub fn detail_string<E>(&self, metadata: Result<EntryMetadata, E>) -> (text: Result<String, E>)
        ensures
            match metadata {
                Ok(m) => match text {
                    Ok(t) => t@ == summary_text(quoted_path(self@.path), m@),
                    Err(_) => false,
                },
                Err(e) => text == Err::<String, E>(e),
            },
    {
        match metadata {
            Ok(m) => {
                let quoted = path_debug(self.path.as_str());
                Ok(summary(quoted.as_str(), &m))
            },
            Err(e) => Err(e),
        }
    }
}

} // verus!
