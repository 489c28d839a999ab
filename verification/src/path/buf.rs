//! The owned, growable counterpart of the borrowed path view.

use vstd::prelude::*;

verus! {

use crate::path::NodePath;
use vstd::slice::slice_to_vec;

/// An owned, mutable node path (akin to `String`).
///
/// The buffer owns its array of text references, not the text they point to.
/// Append is the only mutating operation; the read operations of the borrowed
/// view are available by delegation over the buffer's own storage.
#[derive(Debug)]
pub struct NodePathBuf<'s> {
    paths: Vec<&'s str>,
}

impl<'s> NodePathBuf<'s> {
    /// The borrowed text segments, in order.
    pub closed spec fn segments(&self) -> Seq<&'s str> {
        self.paths@
    }

    /// The text of each segment, in order.
    pub open spec fn texts(&self) -> Seq<Seq<char>> {
        self.segments().map_values(|s: &'s str| s@)
    }

    /// Allocates an empty `NodePathBuf`.
    pub fn new() -> (b: Self)
        ensures
            b.segments() == Seq::<&'s str>::empty(),
    {
        NodePathBuf { paths: Vec::new() }
    }

    /// Creates a new `NodePathBuf` holding copies of the given segment
    /// references, preserving order.
    pub fn from_slice(s: &[&'s str]) -> (b: Self)
        ensures
            b.segments() == s@,
    {
        NodePathBuf { paths: slice_to_vec(s) }
    }

    /// Creates a new empty `NodePathBuf` whose internal vector is pre-sized
    /// to hold at least `capacity` segments without reallocating.
    pub fn with_capacity(capacity: usize) -> (b: Self)
        ensures
            b.segments() == Seq::<&'s str>::empty(),
    {
        NodePathBuf { paths: Vec::with_capacity(capacity) }
    }

    /// Extends `self` with every segment of `node_path`, in order; segments
    /// are never reordered or deduplicated.
    pub fn push(&mut self, node_path: NodePath<'s>)
        ensures
            final(self).segments() == old(self).segments() + node_path.segments(),
    {
        let s = node_path.as_slice();
        let mut i: usize = 0;
        while i < s.len()
            invariant
                i <= s@.len(),
                s@ == node_path.segments(),
                self.paths@ == old(self).paths@ + s@.subrange(0, i as int),
            decreases s@.len() - i,
        {
            self.paths.push(s[i]);
            proof {
                assert(s@.subrange(0, i + 1) =~= s@.subrange(0, i as int).push(s@[i as int]));
            }
            i += 1;
        }
        proof {
            assert(s@.subrange(0, s@.len() as int) =~= s@);
        }
    }

    /// Invokes `capacity` on the underlying vector; an observability aid, not
    /// part of the functional contract.
    pub fn capacity(&self) -> (c: usize)
        ensures
            c >= self.segments().len(),
    {
        vec_capacity(&self.paths)
    }

    /// A borrowed path view over this buffer's own storage.
    pub fn as_view(&'s self) -> (p: NodePath<'s>)
        ensures
            p.segments() == self.segments(),
    {
        NodePath::from_slice(self.paths.as_slice())
    }

    /// Yields the underlying string slices (read access delegated from the
    /// borrowed view).
    pub fn as_slice(&'s self) -> (r: &'s [&'s str])
        ensures
            r@ == self.segments(),
    {
        self.paths.as_slice()
    }
}

impl<'s> Default for NodePathBuf<'s> {
    /// The empty buffer.
    fn default() -> (b: Self)
        ensures
            b.segments() == Seq::<&'s str>::empty(),
    {
        NodePathBuf::new()
    }
}

/// Relies on `Vec::capacity`: a vector's capacity is at least its length.
#[verifier::external_body]
fn vec_capacity<'s>(v: &Vec<&'s str>) -> (c: usize)
    ensures
        c >= v@.len(),
{
    v.capacity()
}

} // verus!
