//! The accumulator: the stage that collects the paths of the result.

use crate::listing::{collect_data_paths, data_paths, DirEntry, EntryView};
use vstd::prelude::*;

verus! {

/// What the file system says of a path that reached the accumulator.
#[derive(Clone, Debug)]
pub enum PathKind {
    /// The path is not a directory.
    File,
    /// The path is a directory with these entries.
    Directory {
        /// The entries that could be read.
        entries: Vec<DirEntry>,
    },
    /// The path is a directory that could not be read.
    UnreadableDirectory,
}

/// The mathematical content of a [`PathKind`].
pub enum KindView {
    /// See [`PathKind::File`].
    File,
    /// See [`PathKind::Directory`].
    Directory { entries: Seq<EntryView> },
    /// See [`PathKind::UnreadableDirectory`].
    UnreadableDirectory,
}

impl View for PathKind {
    type V = KindView;

    open spec fn view(&self) -> KindView {
        match self {
            PathKind::File => KindView::File,
            PathKind::Directory { entries } => KindView::Directory { entries: entries.deep_view() },
            PathKind::UnreadableDirectory => KindView::UnreadableDirectory,
        }
    }
}

/// The paths that one arrival adds to the result: a file adds itself, a
/// directory adds its data files and nothing else, an unreadable directory
/// adds nothing.
pub open spec fn contribution(path: Seq<char>, kind: KindView) -> Seq<Seq<char>> {
    match kind {
        KindView::File => seq![path],
        KindView::Directory { entries } => data_paths(path, entries),
        KindView::UnreadableDirectory => Seq::empty(),
    }
}

/// The paths collected so far, in order of arrival.
#[derive(Debug)]
pub struct Accumulator {
    paths: Vec<String>,
}

impl View for Accumulator {
    type V = Seq<Seq<char>>;

    closed spec fn view(&self) -> Seq<Seq<char>> {
        self.paths.deep_view()
    }
}

impl Accumulator {
    /// An accumulator that has collected nothing.
    pub fn new() -> (acc: Accumulator)
        ensures
            acc@ == Seq::<Seq<char>>::empty(),
    {
        Accumulator { paths: Vec::new() }
    }

    /// Takes in one path that is ready, given what the file system says of
    /// it.
    pub fn accept(&mut self, path: String, kind: PathKind)
        ensures
            final(self)@ == old(self)@ + contribution(path@, kind@),
    {
        match kind {
            PathKind::File => {
                self.paths.push(path);
            },
            PathKind::Directory { entries } => {
                let mut found: Vec<String> = collect_data_paths(path.as_str(), &entries);
                self.paths.append(&mut found);
            },
            PathKind::UnreadableDirectory => {},
        }
    }

    /// The number of paths collected so far.
    pub fn len(&self) -> (count: usize)
        ensures
            count == self@.len(),
    {
        self.paths.len()
    }

    /// The collected paths, in order of arrival.
    pub fn into_paths(self) -> (paths: Vec<String>)
        ensures
            paths.deep_view() == self@,
    {
        self.paths
    }
}

} // verus!
