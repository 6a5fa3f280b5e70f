//! File-system paths as lists of components.
//!
//! The library compares and extends paths; it never touches the file system.
//! Its caller makes a path canonical where that matters, splits it into
//! components, and joins them again with the separator of its platform.

use vstd::prelude::*;
use crate::text::{clone_strings, names_view};

verus! {

/// A path, held as its components from the first down.
#[derive(Debug)]
pub struct FilePath {
    pub components: Vec<String>,
}

impl View for FilePath {
    type V = Seq<Seq<char>>;

    open spec fn view(&self) -> Seq<Seq<char>> {
        names_view(self.components@)
    }
}

/// The views of a list of paths.
pub open spec fn paths_view(paths: Seq<FilePath>) -> Seq<Seq<Seq<char>>> {
    paths.map_values(|p: FilePath| p@)
}

/// Whether `path` lies at or below `base`: the components of `base` are the
/// first components of `path`.
pub open spec fn is_path_prefix(base: Seq<Seq<char>>, path: Seq<Seq<char>>) -> bool {
    base.len() <= path.len() && path.take(base.len() as int) == base
}

impl FilePath {
    /// A path made of the given components.
    pub fn new(components: Vec<String>) -> (p: FilePath)
        ensures
            p@ == names_view(components@),
    {
        FilePath { components }
    }

    /// A path of one component.
    pub fn single(name: &str) -> (p: FilePath)
        ensures
            p@ == seq![name@],
    {
        let mut components: Vec<String> = Vec::new();
        components.push(name.to_owned());
        let p = FilePath { components };
        assert(p@ =~= seq![name@]);
        p
    }

    /// A copy of this path.
    pub fn clone_path(&self) -> (p: FilePath)
        ensures
            p@ == self@,
    {
        FilePath { components: clone_strings(&self.components) }
    }

    /// The path of `name` below this path.
    pub fn join(&self, name: &str) -> (p: FilePath)
        ensures
            p@ == self@.push(name@),
    {
        let mut components = clone_strings(&self.components);
        components.push(name.to_owned());
        let p = FilePath { components };
        assert(p@ =~= self@.push(name@));
        p
    }

    /// The path of `other` below this path.
    pub fn join_path(&self, other: &FilePath) -> (p: FilePath)
        ensures
            p@ == self@ + other@,
    {
        let mut components = clone_strings(&self.components);
        let mut i: usize = 0;
        while i < other.components.len()
            invariant
                i <= other.components.len(),
                names_view(components@) == self@ + other@.take(i as int),
            decreases other.components.len() - i,
        {
            let ghost before = names_view(components@);
            components.push(other.components[i].clone());
            assert(names_view(components@) =~= before.push(other@[i as int]));
            i += 1;
            assert(names_view(components@) =~= self@ + other@.take(i as int));
        }
        assert(other@.take(other@.len() as int) =~= other@);
        FilePath { components }
    }

    /// Whether this path lies at or below `base`.
    pub fn starts_with(&self, base: &FilePath) -> (r: bool)
        ensures
            r == is_path_prefix(base@, self@),
    {
        if base.components.len() > self.components.len() {
            return false;
        }
        let mut i: usize = 0;
        while i < base.components.len()
            invariant
                i <= base.components.len() <= self.components.len(),
                forall|j: int| 0 <= j < i ==> self@[j] == base@[j],
            decreases base.components.len() - i,
        {
            if !(base.components[i] == self.components[i]) {
                assert(self@.take(base@.len() as int)[i as int] != base@[i as int]);
                return false;
            }
            i += 1;
        }
        assert(self@.take(base@.len() as int) =~= base@);
        true
    }
}

} // verus!
