//! Locations in the local file system, held as a root and the names below it.
//!
//! The library only composes and compares locations; touching the file system
//! is left to the caller, who turns a `LocalPath` into a native path by
//! pushing each name onto the root in order.

use vstd::prelude::*;

verus! {

/// The views of a sequence of strings.
pub open spec fn text_views(items: Seq<String>) -> Seq<Seq<char>> {
    Seq::new(items.len(), |i: int| items[i]@)
}

/// The views of a sequence of locations.
pub open spec fn path_views(items: Seq<LocalPath>) -> Seq<Seq<Seq<char>>> {
    Seq::new(items.len(), |i: int| items[i]@)
}

/// A location: a root (an absolute directory or a drive) and the names that
/// lead from it to the file or directory meant.
#[derive(Debug, Clone)]
pub struct LocalPath {
    pub root: String,
    pub parts: Vec<String>,
}

impl View for LocalPath {
    type V = Seq<Seq<char>>;

    /// The root followed by the names below it.
    open spec fn view(&self) -> Seq<Seq<char>> {
        seq![self.root@] + text_views(self.parts@)
    }
}

impl LocalPath {
    /// The location that is `root` itself.
    pub fn new(root: &str) -> (res: LocalPath)
        ensures
            res@ == seq![root@],
    {
        let res = LocalPath { root: root.to_owned(), parts: Vec::new() };
        assert(res@ =~= seq![root@]);
        res
    }

    /// The entry called `part` inside this location.
    pub fn join(&self, part: &str) -> (res: LocalPath)
        ensures
            res@ == self@.push(part@),
    {
        let mut parts: Vec<String> = Vec::new();
        let mut i: usize = 0;
        while i < self.parts.len()
            invariant
                i <= self.parts.len(),
                parts.len() == i,
                forall|k: int| 0 <= k < i ==> parts[k]@ == self.parts[k]@,
            decreases self.parts.len() - i,
        {
            parts.push(self.parts[i].clone());
            i = i + 1;
        }
        parts.push(part.to_owned());
        let res = LocalPath { root: self.root.clone(), parts };
        assert(res@ =~= self@.push(part@));
        res
    }

    /// A copy of this location.
    pub fn duplicate(&self) -> (res: LocalPath)
        ensures
            res@ == self@,
    {
        let mut parts: Vec<String> = Vec::new();
        let mut i: usize = 0;
        while i < self.parts.len()
            invariant
                i <= self.parts.len(),
                parts.len() == i,
                forall|k: int| 0 <= k < i ==> parts[k]@ == self.parts[k]@,
            decreases self.parts.len() - i,
        {
            parts.push(self.parts[i].clone());
            i = i + 1;
        }
        let res = LocalPath { root: self.root.clone(), parts };
        assert(res@ =~= self@);
        res
    }

    /// The last name of the location; the bare root has none.
    pub fn file_name(&self) -> (res: Option<String>)
        ensures
            res is Some <==> self@.len() > 1,
            res is Some ==> res->0@ == self@.last(),
    {
        let n = self.parts.len();
        if n == 0 {
            None
        } else {
            Some(self.parts[n - 1].clone())
        }
    }

    /// The location that holds this one; the bare root has none.
    pub fn parent(&self) -> (res: Option<LocalPath>)
        ensures
            res is Some <==> self@.len() > 1,
            res is Some ==> res->0@ == self@.drop_last(),
    {
        let n = self.parts.len();
        if n == 0 {
            return None;
        }
        let mut parts: Vec<String> = Vec::new();
        let mut i: usize = 0;
        while i < n - 1
            invariant
                n == self.parts.len(),
                n > 0,
                i <= n - 1,
                parts.len() == i,
                forall|k: int| 0 <= k < i ==> parts[k]@ == self.parts[k]@,
            decreases n - 1 - i,
        {
            parts.push(self.parts[i].clone());
            i = i + 1;
        }
        let res = LocalPath { root: self.root.clone(), parts };
        assert(res@ =~= self@.drop_last());
        Some(res)
    }

    /// Whether two locations have the same root and the same names.
    pub fn same_as(&self, other: &LocalPath) -> (res: bool)
        ensures
            res == (self@ == other@),
    {
        if self.root != other.root {
            assert(self@[0] != other@[0]);
            return false;
        }
        if self.parts.len() != other.parts.len() {
            assert(self@.len() != other@.len());
            return false;
        }
        let mut i: usize = 0;
        while i < self.parts.len()
            invariant
                i <= self.parts.len(),
                self.parts.len() == other.parts.len(),
                forall|k: int| 0 <= k < i ==> self.parts[k]@ == other.parts[k]@,
            decreases self.parts.len() - i,
        {
            if self.parts[i] != other.parts[i] {
                assert(self@[i + 1] != other@[i + 1]);
                return false;
            }
            i = i + 1;
        }
        assert(self@ =~= other@);
        true
    }
}

} // verus!
