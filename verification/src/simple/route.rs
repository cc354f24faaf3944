//! Routes: the entries of the menu.

use vstd::prelude::*;
use vstd::string::StrSliceExecFns;

verus! {

/// Route entry for [`SimpleSelect`].
///
/// These are provided to [`SimpleSelect`] in the form of an array. A route entry holds the
/// routine of the route, which the library hands on and never looks into, and a
/// human-readable name for the route that is displayed in the selector's menu.
///
/// [`SimpleSelect`]: crate::simple::SimpleSelect
#[derive(Debug, PartialEq, Eq)]
pub struct Route<F> {
    pub name: &'static str,
    pub callback: F,
}

impl<F: Copy> Clone for Route<F> {
    /// Copies the route: the same name and the same routine.
    fn clone(&self) -> (route: Self)
        ensures
            route == *self,
    {
        Route { name: self.name, callback: self.callback }
    }
}

/// Whether the path separator `::` stands at position `i` of `path`.
pub open spec fn separator_at(path: Seq<char>, i: int) -> bool {
    &&& 0 <= i
    &&& i + 1 < path.len()
    &&& path[i] == ':'
    &&& path[i + 1] == ':'
}

/// Where the last segment begins in the first `n` characters of `path`: behind the last
/// separator that ends within them, or at the start where there is none.
pub open spec fn segment_start(path: Seq<char>, n: int) -> int
    decreases n,
{
    if n < 2 {
        0
    } else if separator_at(path, n - 2) {
        n
    } else {
        segment_start(path, n - 1)
    }
}

/// The last segment of a path: what follows its last separator, or all of it where it
/// has none.
pub open spec fn last_segment(path: Seq<char>) -> Seq<char> {
    path.subrange(segment_start(path, path.len() as int), path.len() as int)
}

/// `segment_start` lies within the characters it looks at, stands behind a separator
/// unless it is 0, and no separator ends beyond it.
pub proof fn lemma_segment_start(path: Seq<char>, n: int)
    requires
        0 <= n <= path.len(),
    ensures
        0 <= segment_start(path, n) <= n,
        segment_start(path, n) != 0 ==> separator_at(path, segment_start(path, n) - 2),
        forall|i: int| #[trigger]
            separator_at(path, i) && i + 2 <= n ==> i + 2 <= segment_start(path, n),
    decreases n,
{
    if n >= 2 && !separator_at(path, n - 2) {
        lemma_segment_start(path, n - 1);
    }
}

/// The last segment is the end of the path, holds no separator, and is the whole path or
/// stands right behind a separator.
pub proof fn lemma_last_segment(path: Seq<char>)
    ensures
        last_segment(path).len() <= path.len(),
        last_segment(path) == path.subrange(
            path.len() - last_segment(path).len(),
            path.len() as int,
        ),
        forall|i: int| !separator_at(last_segment(path), i),
        last_segment(path).len() == path.len() || separator_at(
            path,
            path.len() - last_segment(path).len() - 2,
        ),
        (forall|i: int| !separator_at(path, i)) ==> last_segment(path) == path,
{
    let n = path.len() as int;
    let start = segment_start(path, n);
    lemma_segment_start(path, n);
    assert forall|i: int| !separator_at(last_segment(path), i) by {
        if separator_at(last_segment(path), i) {
            assert(separator_at(path, start + i));
        }
    }
    if forall|i: int| !separator_at(path, i) {
        assert(start == 0);
        assert(last_segment(path) =~= path);
    }
}

/// The last segment of `path`: the name of a function without the path that leads to it.
pub fn label_of(path: &'static str) -> (label: &'static str)
    ensures
        label@ == last_segment(path@),
{
    let len: usize = path.unicode_len();
    let mut start: usize = 0;
    let mut n: usize = if len < 1 {
        0
    } else {
        1
    };
    while n < len
        invariant
            len == path@.len(),
            n <= len,
            len >= 1 ==> n >= 1,
            start == segment_start(path@, n as int),
            start <= n,
        decreases len - n,
    {
        if path.get_char(n - 1) == ':' && path.get_char(n) == ':' {
            start = n + 1;
        }
        n = n + 1;
    }
    path.substring_char(start, len)
}

impl<F> Route<F> {
    /// Creates a route from its name and its routine.
    pub fn new(name: &'static str, callback: F) -> (route: Self)
        ensures
            route.name == name,
            route.callback == callback,
    {
        Route { name, callback }
    }

    /// Creates a route from its name and its routine.
    pub fn test(name: &'static str, callback: F) -> (route: Self)
        ensures
            route.name == name,
            route.callback == callback,
    {
        Route { name, callback }
    }

    /// Creates a route that is named after its routine: `path` is the path by which the
    /// program refers to the routine, and the name is the last segment of it.
    pub fn from_path(path: &'static str, callback: F) -> (route: Self)
        ensures
            route.name@ == last_segment(path@),
            route.callback == callback,
    {
        Route { name: label_of(path), callback }
    }
}

} // verus!
