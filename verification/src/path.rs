//! String-segment node paths: a borrowed zero-copy view and an owned buffer.

pub mod buf;

pub use buf::NodePathBuf;

use vstd::prelude::*;

verus! {

/// A borrowed, read-only view of a node path: an ordered sequence of
/// borrowed text segments. Construction is zero-copy; the view neither
/// allocates nor duplicates the referenced text.
#[derive(Clone, Copy, Debug)]
pub struct NodePath<'s> {
    paths: &'s [&'s str],
}

impl<'s> NodePath<'s> {
    /// The borrowed text segments, in order.
    pub closed spec fn segments(&self) -> Seq<&'s str> {
        self.paths@
    }

    /// The text of each segment, in order.
    pub open spec fn texts(&self) -> Seq<Seq<char>> {
        self.segments().map_values(|s: &'s str| s@)
    }

    /// Directly wraps a sequence of string slices as a path view.
    ///
    /// This is a cost-free conversion.
    pub fn from_slice(s: &'s [&'s str]) -> (p: Self)
        ensures
            p.segments() == s@,
    {
        NodePath { paths: s }
    }

    /// Converts this view to an owned [`NodePathBuf`] holding copies of the
    /// same text references, in the same order.
    pub fn to_node_path_buf(&self) -> (b: NodePathBuf<'s>)
        ensures
            b.segments() == self.segments(),
    {
        NodePathBuf::from_slice(self.paths)
    }

    /// Yields the underlying string slices.
    pub fn as_slice(&self) -> (r: &'s [&'s str])
        ensures
            r@ == self.segments(),
    {
        self.paths
    }
}

impl<'s> PartialEq for NodePath<'s> {
    /// Views are equal exactly when they have the same length and
    /// elementwise-equal text.
    fn eq(&self, other: &Self) -> (r: bool) {
        if self.paths.len() != other.paths.len() {
            return false;
        }
        let mut i: usize = 0;
        while i < self.paths.len()
            invariant
                i <= self.paths@.len(),
                self.paths@.len() == other.paths@.len(),
                forall|j: int| 0 <= j < i ==> self.paths@[j]@ == other.paths@[j]@,
            decreases self.paths@.len() - i,
        {
            if !str_eq(self.paths[i], other.paths[i]) {
                proof {
                    assert(self.texts()[i as int] != other.texts()[i as int]);
                }
                return false;
            }
            i += 1;
        }
        proof {
            assert(self.texts() =~= other.texts());
        }
        true
    }
}

impl<'s> vstd::std_specs::cmp::PartialEqSpecImpl for NodePath<'s> {
    open spec fn obeys_eq_spec() -> bool {
        true
    }

    open spec fn eq_spec(&self, other: &Self) -> bool {
        self.texts() == other.texts()
    }
}

/// Relies on `str`'s `PartialEq`: two string slices compare equal exactly
/// when their character sequences are equal.
#[verifier::external_body]
fn str_eq(a: &str, b: &str) -> (r: bool)
    ensures
        r == (a@ == b@),
{
    a == b
}

} // verus!
