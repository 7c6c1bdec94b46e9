//! The listing of a directory.
//!
//! A listing starts with two entries that are always there: the directory
//! itself and its parent. The children of the directory follow in the order
//! in which they were found. Each entry carries its place of origin, and the
//! place of origin of an entry is its position in the listing.

use crate::entry::{FileListing, FileListingView};
use crate::stateful_list::StatefulList;
use vstd::prelude::*;

verus! {

/// What one look at a directory found: its canonical path and its children
/// in the order in which the file system gave them.
#[derive(Debug)]
pub struct DirectoryScan {
    pub canonical: String,
    pub children: Vec<FileListing>,
}

/// What a `DirectoryScan` stands for.
pub struct DirectoryScanView {
    pub canonical: Seq<char>,
    pub children: Seq<FileListingView>,
}

/// What each of `entries` stands for, in order.
pub open spec fn listings_view(entries: Seq<FileListing>) -> Seq<FileListingView> {
    Seq::new(entries.len(), |i: int| entries[i]@)
}

/// What each entry of a listing stands for, with its place of origin.
pub open spec fn entries_view(entries: Seq<(FileListing, usize)>) -> Seq<(FileListingView, usize)> {
    Seq::new(entries.len(), |i: int| (entries[i].0@, entries[i].1))
}

impl View for DirectoryScan {
    type V = DirectoryScanView;

    open spec fn view(&self) -> DirectoryScanView {
        DirectoryScanView { canonical: self.canonical@, children: listings_view(self.children@) }
    }
}

/// What looking at a path found, where nothing is found at a path that is
/// no directory.
pub open spec fn scan_view(scan: Option<DirectoryScan>) -> Option<DirectoryScanView> {
    match scan {
        Some(s) => Some(s@),
        None => None,
    }
}

/// Whether a listing of what was found can number its entries: the two
/// that head it and every child need a place of origin.
pub open spec fn scan_fits(scan: Option<DirectoryScan>) -> bool {
    scan matches Some(s) ==> s.children@.len() + 2 <= usize::MAX
}

/// The parent of a path as `std::path::Path::parent` finds it: the path
/// without its last component. A root has none, nor has the empty path.
pub uninterp spec fn parent_path(path: Seq<char>) -> Option<Seq<char>>;

/// `std::path::Path::parent` on the path that `path` spells. The parent
/// comes back as text; it is part of `path`, so it always can.
#[verifier::external_body]
fn path_parent(path: &str) -> (parent: Option<String>)
    ensures
        match parent {
            Some(p) => parent_path(path@) == Some(p@),
            None => parent_path(path@).is_none(),
        },
{
    std::path::Path::new(path).parent().and_then(|p| p.to_str()).map(|p| p.to_string())
}

/// The parent of a path, or the path itself where it has none.
pub open spec fn parent_or_self(path: Seq<char>) -> Seq<char> {
    match parent_path(path) {
        Some(parent) => parent,
        None => path,
    }
}

/// The entries of the listing of a directory at `canonical` whose parent is
/// `parent` and whose children are `children`: the directory, its parent,
/// then the children, each with its position as its place of origin.
pub open spec fn listing_entries(
    canonical: Seq<char>,
    parent: Seq<char>,
    children: Seq<FileListingView>,
) -> Seq<(FileListingView, usize)> {
    Seq::new(
        children.len() + 2,
        |i: int|
            if i == 0 {
                (FileListingView { path: canonical, is_directory: true }, 0usize)
            } else if i == 1 {
                (FileListingView { path: parent, is_directory: true }, 1usize)
            } else {
                (children[i - 2], i as usize)
            },
    )
}

/// The entries of the listing of what was found at a path: none where the
/// path is no directory.
pub open spec fn listing_of(scan: Option<DirectoryScanView>) -> Seq<(FileListingView, usize)> {
    match scan {
        Some(s) => listing_entries(s.canonical, parent_or_self(s.canonical), s.children),
        None => Seq::empty(),
    }
}

/// Whether `entries` are numbered as a listing numbers them: each by its
/// position.
pub open spec fn numbered_in_order(entries: Seq<(FileListingView, usize)>) -> bool {
    forall|i: int| 0 <= i < entries.len() ==> (#[trigger] entries[i]).1 == i
}

/// Whether `entries` have the shape of a listing: none at all, or the
/// directory and its parent, both directories, and whatever follows; and
/// each entry numbered by its position.
pub open spec fn well_listed(entries: Seq<(FileListingView, usize)>) -> bool {
    &&& numbered_in_order(entries)
    &&& entries.len() == 0 || (entries.len() >= 2 && entries[0].0.is_directory
        && entries[1].0.is_directory)
}

/// Builds the listing of a directory from its canonical path, the path of
/// its parent and its children. Nothing is selected in it.
pub fn listing(canonical: String, parent: String, children: Vec<FileListing>) -> (list:
    StatefulList<(FileListing, usize)>)
    requires
        children@.len() + 2 <= usize::MAX,
    ensures
        list.selection().is_none(),
        entries_view(list.items_view()) == listing_entries(
            canonical@,
            parent@,
            listings_view(children@),
        ),
{
    let ghost found = listings_view(children@);
    let ghost head = canonical@;
    let ghost above = parent@;
    let ghost wanted = listing_entries(head, above, found);
    let mut entries: Vec<(FileListing, usize)> = Vec::new();
    entries.push((FileListing::new(canonical, true), 0));
    entries.push((FileListing::new(parent, true), 1));
    for child in remaining: children.into_iter()
        invariant
            found.len() + 2 <= usize::MAX,
            wanted == listing_entries(head, above, found),
            remaining.seq().len() == found.len(),
            forall|k: int| 0 <= k < found.len() ==> (#[trigger] remaining.seq()[k])@ == found[k],
            entries@.len() == remaining.index() + 2,
            forall|k: int|
                0 <= k < entries@.len() ==> entries_view(entries@)[k] == #[trigger] wanted[k],
    {
        let origin = entries.len();
        entries.push((child, origin));
    }
    assert(entries_view(entries@) =~= wanted);
    StatefulList::with_items(entries)
}

/// Builds the listing of what was found at a path. Where the path is no
/// directory the listing is empty. Nothing is selected in it.
pub fn list_of_dir(scan: Option<DirectoryScan>) -> (list: StatefulList<(FileListing, usize)>)
    requires
        scan_fits(scan),
    ensures
        list.selection().is_none(),
        entries_view(list.items_view()) == listing_of(scan_view(scan)),
{
    match scan {
        Some(found) => {
            let parent = match path_parent(found.canonical.as_str()) {
                Some(parent) => parent,
                None => found.canonical.clone(),
            };
            listing(found.canonical, parent, found.children)
        },
        None => {
            let list = StatefulList::with_items(Vec::new());
            assert(entries_view(list.items_view()) =~= listing_of(None));
            list
        },
    }
}

/// A listing is empty, or it starts with the directory and its parent, both
/// directories, and goes on with the children, one entry each; and every
/// entry stands at its place of origin.
pub proof fn lemma_listing_shape(scan: Option<DirectoryScanView>)
    requires
        scan matches Some(s) ==> s.children.len() + 2 <= usize::MAX,
    ensures
        numbered_in_order(listing_of(scan)),
        well_listed(listing_of(scan)),
        scan.is_none() ==> listing_of(scan).len() == 0,
        scan matches Some(s) ==> {
            &&& listing_of(scan).len() == s.children.len() + 2
            &&& listing_of(scan)[0].0 == (FileListingView { path: s.canonical, is_directory: true })
            &&& listing_of(scan)[1].0 == (FileListingView {
                path: parent_or_self(s.canonical),
                is_directory: true,
            })
            &&& forall|i: int|
                0 <= i < s.children.len() ==> (#[trigger] listing_of(scan)[i + 2]).0
                    == s.children[i]
        },
{
}

} // verus!
