//! What a walk of a directory tree saw.
//!
//! The caller walks the file system and hands the library one `Entry` for
//! each path it met, in the order in which it met them.

use vstd::prelude::*;

verus! {

/// One path met during a walk.
pub struct Entry {
    /// The path as the walk reports it.
    pub path: String,
    /// Whether the path is a directory.
    pub is_dir: bool,
}

/// An `Entry` with its path as a sequence of characters.
pub struct EntryView {
    pub path: Seq<char>,
    pub is_dir: bool,
}

impl View for Entry {
    type V = EntryView;

    open spec fn view(&self) -> EntryView {
        EntryView { path: self.path@, is_dir: self.is_dir }
    }
}

impl Entry {
    /// A regular file at `path`.
    pub fn file(path: &str) -> (e: Entry)
        ensures
            e@ == (EntryView { path: path@, is_dir: false }),
    {
        Entry { path: path.to_owned(), is_dir: false }
    }

    /// A directory at `path`.
    pub fn dir(path: &str) -> (e: Entry)
        ensures
            e@ == (EntryView { path: path@, is_dir: true }),
    {
        Entry { path: path.to_owned(), is_dir: true }
    }
}

/// The entries of a listing, each by its view.
pub open spec fn views(entries: Seq<Entry>) -> Seq<EntryView> {
    entries.map_values(|e: Entry| e@)
}

} // verus!
