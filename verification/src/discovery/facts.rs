//! What the caller found on disk, as plain values: the kind of what lies at
//! a path, and what a walk of a directory tree met.

use crate::text::{same_text, text_of};
use vstd::prelude::*;

verus! {

/// What lies at a path.
#[derive(Debug, Clone, Copy, PartialEq, Eq, Structural)]
pub enum PathKind {
    /// Nothing.
    Missing,
    /// A regular file.
    File,
    /// A directory.
    Directory,
    /// Something else.
    Other,
}

/// What was found at one path.
#[derive(Debug, Clone)]
pub struct PathFact {
    pub path: String,
    pub kind: PathKind,
    /// The canonical form of the path, where the system gave one.
    pub canonical: Option<String>,
}

/// One entry that a walk met.
#[derive(Debug, Clone)]
pub struct WalkEntry {
    pub path: String,
    pub is_file: bool,
    /// The canonical form of the path, where the system gave one.
    pub canonical: Option<String>,
}

/// The failure that ended a walk.
#[derive(Debug, Clone)]
pub struct WalkFailure {
    /// The path at which the walk failed, where it is known.
    pub path: Option<String>,
    /// The cause, as the system words it.
    pub cause: String,
}

/// The walk of the directory tree under `root`: to any depth where
/// `recurse` holds, else of the root and what lies directly in it.
#[derive(Debug)]
pub struct WalkFact {
    pub root: String,
    pub recurse: bool,
    /// The entries met, in the order of the walk, or the failure that ended
    /// it.
    pub outcome: Result<Vec<WalkEntry>, WalkFailure>,
}

/// What the caller found on disk. A path or a walk that has no fact here
/// counts as a path at which nothing lies, and as a walk that met nothing.
#[derive(Debug)]
pub struct FsFacts {
    pub paths: Vec<PathFact>,
    pub walks: Vec<WalkFact>,
}

/// What was found at one path, with its texts as sequences of characters.
pub struct PathFactView {
    pub path: Seq<char>,
    pub kind: PathKind,
    pub canonical: Option<Seq<char>>,
}

/// An entry of a walk, with its texts as sequences of characters.
pub struct WalkEntryView {
    pub path: Seq<char>,
    pub is_file: bool,
    pub canonical: Option<Seq<char>>,
}

/// The failure of a walk, with its texts as sequences of characters.
pub struct WalkFailureView {
    pub path: Option<Seq<char>>,
    pub cause: Seq<char>,
}

/// A walk, with its texts as sequences of characters.
pub struct WalkFactView {
    pub root: Seq<char>,
    pub recurse: bool,
    pub outcome: Result<Seq<WalkEntryView>, WalkFailureView>,
}

/// What was found on disk, with its texts as sequences of characters.
pub struct FsFactsView {
    pub paths: Seq<PathFactView>,
    pub walks: Seq<WalkFactView>,
}

impl View for PathFact {
    type V = PathFactView;

    open spec fn view(&self) -> PathFactView {
        PathFactView { path: self.path@, kind: self.kind, canonical: text_of(self.canonical) }
    }
}

impl View for WalkEntry {
    type V = WalkEntryView;

    open spec fn view(&self) -> WalkEntryView {
        WalkEntryView {
            path: self.path@,
            is_file: self.is_file,
            canonical: text_of(self.canonical),
        }
    }
}

impl View for WalkFailure {
    type V = WalkFailureView;

    open spec fn view(&self) -> WalkFailureView {
        WalkFailureView { path: text_of(self.path), cause: self.cause@ }
    }
}

/// The entries of a walk by their views.
pub open spec fn entry_views(entries: Seq<WalkEntry>) -> Seq<WalkEntryView> {
    Seq::new(entries.len(), |i: int| entries[i]@)
}

impl View for WalkFact {
    type V = WalkFactView;

    open spec fn view(&self) -> WalkFactView {
        WalkFactView {
            root: self.root@,
            recurse: self.recurse,
            outcome: match self.outcome {
                Ok(entries) => Ok(entry_views(entries@)),
                Err(failure) => Err(failure@),
            },
        }
    }
}

impl View for FsFacts {
    type V = FsFactsView;

    open spec fn view(&self) -> FsFactsView {
        FsFactsView {
            paths: Seq::new(self.paths@.len(), |i: int| self.paths@[i]@),
            walks: Seq::new(self.walks@.len(), |i: int| self.walks@[i]@),
        }
    }
}

/// The first fact about `path` at or after position `from`.
pub open spec fn find_path(paths: Seq<PathFactView>, path: Seq<char>, from: int) -> Option<
    PathFactView,
>
    decreases paths.len() - from,
{
    if from < 0 || from >= paths.len() {
        None
    } else if paths[from].path == path {
        Some(paths[from])
    } else {
        find_path(paths, path, from + 1)
    }
}

/// The first walk of `root` with the depth that `recurse` says, at or after
/// position `from`.
pub open spec fn find_walk(walks: Seq<WalkFactView>, root: Seq<char>, recurse: bool, from: int) -> Option<
    WalkFactView,
>
    decreases walks.len() - from,
{
    if from < 0 || from >= walks.len() {
        None
    } else if walks[from].root == root && walks[from].recurse == recurse {
        Some(walks[from])
    } else {
        find_walk(walks, root, recurse, from + 1)
    }
}

impl FsFactsView {
    /// What lies at `path`.
    pub open spec fn kind_of(self, path: Seq<char>) -> PathKind {
        match find_path(self.paths, path, 0) {
            Some(fact) => fact.kind,
            None => PathKind::Missing,
        }
    }

    /// The canonical form of `path`, where one is known.
    pub open spec fn canonical_of(self, path: Seq<char>) -> Option<Seq<char>> {
        match find_path(self.paths, path, 0) {
            Some(fact) => fact.canonical,
            None => None,
        }
    }

    /// What the walk of `root` met.
    pub open spec fn walk_of(self, root: Seq<char>, recurse: bool) -> Result<
        Seq<WalkEntryView>,
        WalkFailureView,
    > {
        match find_walk(self.walks, root, recurse, 0) {
            Some(fact) => fact.outcome,
            None => Ok(Seq::empty()),
        }
    }
}

impl FsFacts {
    /// The first fact about `path`.
    pub fn path_fact(&self, path: &str) -> (found: Option<&PathFact>)
        ensures
            match found {
                Some(fact) => find_path(self@.paths, path@, 0) == Some(fact@),
                None => find_path(self@.paths, path@, 0) is None,
            },
    {
        let mut i: usize = 0;
        while i < self.paths.len()
            invariant
                i <= self.paths.len(),
                find_path(self@.paths, path@, 0) == find_path(self@.paths, path@, i as int),
            decreases self.paths.len() - i,
        {
            if same_text(self.paths[i].path.as_str(), path) {
                return Some(&self.paths[i]);
            }
            i += 1;
        }
        None
    }

    /// The first walk of `root` with the depth that `recurse` says.
    pub fn walk_fact(&self, root: &str, recurse: bool) -> (found: Option<&WalkFact>)
        ensures
            match found {
                Some(fact) => find_walk(self@.walks, root@, recurse, 0) == Some(fact@),
                None => find_walk(self@.walks, root@, recurse, 0) is None,
            },
    {
        let mut i: usize = 0;
        while i < self.walks.len()
            invariant
                i <= self.walks.len(),
                find_walk(self@.walks, root@, recurse, 0) == find_walk(
                    self@.walks,
                    root@,
                    recurse,
                    i as int,
                ),
            decreases self.walks.len() - i,
        {
            if self.walks[i].recurse == recurse && same_text(self.walks[i].root.as_str(), root) {
                return Some(&self.walks[i]);
            }
            i += 1;
        }
        None
    }

    /// What lies at `path`.
    pub fn kind(&self, path: &str) -> (kind: PathKind)
        ensures
            kind == self@.kind_of(path@),
    {
        match self.path_fact(path) {
            Some(fact) => fact.kind,
            None => PathKind::Missing,
        }
    }
}

} // verus!
