//! Typed node paths: immutable sequences of structural node-kind segments.

use vstd::prelude::*;

verus! {

use vstd::slice::slice_to_vec;

/// The kind of node one step of a typed path descends into.
#[derive(Clone, Copy, Debug, PartialEq, Eq, Hash, Structural)]
pub enum ConfigurationValueType {
    List,
    Mapping,
    Null,
    Scalar,
}

/// Errors related to node path operations.
#[derive(Clone, Copy, Debug, PartialEq, Eq, Structural)]
pub enum NodePathError {
    /// The requested index does not address an existing segment; carries the
    /// requested index and the path's length at the time of the call.
    IndexOutOfBounds { value: usize, size: usize },
}

/// Create a node path holding the given segments in order.
pub fn of(path: Vec<ConfigurationValueType>) -> (p: NodePathImpl)
    ensures
        p.path_seq() == path@,
{
    NodePathImpl::of(path)
}

/// Get an empty node path. This refers to the root node.
pub fn empty() -> (p: NodePathImpl)
    ensures
        p.path_seq() == Seq::<ConfigurationValueType>::empty(),
{
    NodePathImpl::empty()
}

/// Represents the path to a given node.
pub trait NodePath: Sized {
    /// The segments of the path, in order from the root.
    spec fn path_seq(&self) -> Seq<ConfigurationValueType>;

    /// Gets a specific element from the path, or `None` when `index` is past
    /// the end; never fails.
    fn get(&self, index: usize) -> (r: Option<ConfigurationValueType>)
        ensures
            index < self.path_seq().len() ==> r == Some(self.path_seq()[index as int]),
            index >= self.path_seq().len() ==> r is None,
    ;

    /// Gets the length of the path.
    fn size(&self) -> (n: usize)
        ensures
            n == self.path_seq().len(),
    ;

    /// Returns an independent copy of the path's segments, in order.
    fn to_vec(&self) -> (v: Vec<ConfigurationValueType>)
        ensures
            v@ == self.path_seq(),
    ;

    /// Creates a new path equal to `self` followed by `child_key`; `self` is
    /// left unchanged.
    fn with_appended_child(&self, child_key: ConfigurationValueType) -> (r: Self)
        ensures
            r.path_seq() == self.path_seq().push(child_key),
    ;

    /// Creates a new path with the segment at `index` replaced by `value`.
    /// Replacing requires the position to already exist, so every
    /// `index >= size()` (including `index == size()`) is rejected with
    /// `IndexOutOfBounds`.
    fn with(&self, index: usize, value: ConfigurationValueType) -> (r: Result<
        Self,
        NodePathError,
    >)
        ensures
            index < self.path_seq().len() ==> (r matches Ok(p) && p.path_seq()
                == self.path_seq().update(index as int, value)),
            index >= self.path_seq().len() ==> r == Err::<Self, NodePathError>(
                NodePathError::IndexOutOfBounds {
                    value: index,
                    size: self.path_seq().len() as usize,
                },
            ),
    ;
}

/// The concrete, vector-backed typed path. Every transforming operation
/// returns a new instance; an existing path is never mutated.
#[derive(Clone, Debug, Eq, Hash)]
pub struct NodePathImpl {
    vec: Vec<ConfigurationValueType>,
}

impl NodePathImpl {
    /// The empty path, denoting the tree root.
    pub fn empty() -> (p: Self)
        ensures
            p.path_seq() == Seq::<ConfigurationValueType>::empty(),
    {
        NodePathImpl { vec: Vec::new() }
    }

    /// A path holding exactly the given segments in order.
    pub fn of(path: Vec<ConfigurationValueType>) -> (p: Self)
        ensures
            p.path_seq() == path@,
    {
        NodePathImpl { vec: path }
    }

    /// Direct indexed access, the trusted-index operation: an out-of-range
    /// index is a caller programming defect, so the precondition excludes it;
    /// callers that cannot guarantee validity use `get` instead.
    pub fn index(&self, index: usize) -> (r: ConfigurationValueType)
        requires
            index < self.path_seq().len(),
        ensures
            r == self.path_seq()[index as int],
    {
        self.vec[index]
    }

    /// Borrowing access to the segments in path order; iterating the returned
    /// slice restarts from the first element every time.
    pub fn segments(&self) -> (s: &[ConfigurationValueType])
        ensures
            s@ == self.path_seq(),
    {
        self.vec.as_slice()
    }

    /// Concatenation: a new path holding `self`'s segments followed by
    /// `rhs`'s. Concatenating with an empty path on either side returns the
    /// non-empty side unchanged.
    pub fn concat<Rhs: NodePath>(self, rhs: Rhs) -> (r: Self)
        ensures
            r.path_seq() == self.path_seq() + rhs.path_seq(),
    {
        if self.vec.len() == 0 {
            let r = NodePathImpl { vec: rhs.to_vec() };
            proof {
                assert(self.path_seq() + rhs.path_seq() =~= rhs.path_seq());
            }
            return r;
        }
        if rhs.size() == 0 {
            proof {
                assert(self.path_seq() + rhs.path_seq() =~= self.path_seq());
            }
            return self;
        }
        let mut result = slice_to_vec(self.vec.as_slice());
        let mut other_vec = rhs.to_vec();
        result.append(&mut other_vec);
        NodePathImpl { vec: result }
    }
}

/// Law: appending a child grows a path's segment sequence by exactly one and
/// puts the child at the old length.
pub proof fn lemma_appended_child(p: Seq<ConfigurationValueType>, s: ConfigurationValueType)
    ensures
        p.push(s).len() == p.len() + 1,
        p.push(s)[p.len() as int] == s,
{
}

/// Law: replacing the segment at a valid index keeps the length, sets that
/// position to the new value, and leaves every other position unchanged.
pub proof fn lemma_replaced_segment(
    p: Seq<ConfigurationValueType>,
    i: int,
    v: ConfigurationValueType,
)
    requires
        0 <= i < p.len(),
    ensures
        p.update(i, v).len() == p.len(),
        p.update(i, v)[i] == v,
        forall|j: int| 0 <= j < p.len() && j != i ==> p.update(i, v)[j] == p[j],
{
}

/// Law: the empty segment sequence is a left and right identity of
/// concatenation.
pub proof fn lemma_concat_identity(p: Seq<ConfigurationValueType>)
    ensures
        Seq::<ConfigurationValueType>::empty() + p == p,
        p + Seq::<ConfigurationValueType>::empty() == p,
{
    assert(Seq::<ConfigurationValueType>::empty() + p =~= p);
    assert(p + Seq::<ConfigurationValueType>::empty() =~= p);
}

/// Law: concatenation of segment sequences is associative.
pub proof fn lemma_concat_associative(
    p: Seq<ConfigurationValueType>,
    q: Seq<ConfigurationValueType>,
    r: Seq<ConfigurationValueType>,
)
    ensures
        (p + q) + r == p + (q + r),
{
    assert((p + q) + r =~= p + (q + r));
}

impl PartialEq for NodePathImpl {
    /// Paths are equal exactly when their segment sequences are equal
    /// elementwise.
    fn eq(&self, other: &Self) -> (r: bool) {
        if self.vec.len() != other.vec.len() {
            return false;
        }
        let mut i: usize = 0;
        while i < self.vec.len()
            invariant
                i <= self.vec@.len(),
                self.vec@.len() == other.vec@.len(),
                forall|j: int| 0 <= j < i ==> self.vec@[j] == other.vec@[j],
            decreases self.vec@.len() - i,
        {
            if self.vec[i] != other.vec[i] {
                return false;
            }
            i += 1;
        }
        proof {
            assert(self.vec@ =~= other.vec@);
        }
        true
    }
}

impl vstd::std_specs::cmp::PartialEqSpecImpl for NodePathImpl {
    open spec fn obeys_eq_spec() -> bool {
        true
    }

    open spec fn eq_spec(&self, other: &Self) -> bool {
        self.path_seq() == other.path_seq()
    }
}

impl NodePath for NodePathImpl {
    closed spec fn path_seq(&self) -> Seq<ConfigurationValueType> {
        self.vec@
    }

    fn get(&self, index: usize) -> (r: Option<ConfigurationValueType>) {
        if index < self.vec.len() {
            Some(self.vec[index])
        } else {
            None
        }
    }

    fn size(&self) -> (n: usize) {
        self.vec.len()
    }

    fn to_vec(&self) -> (v: Vec<ConfigurationValueType>) {
        slice_to_vec(self.vec.as_slice())
    }

    fn with_appended_child(&self, child_key: ConfigurationValueType) -> (r: Self) {
        if self.vec.len() == 0 {
            let mut single: Vec<ConfigurationValueType> = Vec::new();
            single.push(child_key);
            proof {
                assert(self.vec@ =~= Seq::<ConfigurationValueType>::empty());
            }
            return NodePathImpl { vec: single };
        }
        let mut child_path = slice_to_vec(self.vec.as_slice());
        child_path.push(child_key);
        NodePathImpl { vec: child_path }
    }

    fn with(&self, index: usize, value: ConfigurationValueType) -> (r: Result<
        Self,
        NodePathError,
    >) {
        if index >= self.vec.len() {
            return Err(
                NodePathError::IndexOutOfBounds { value: index, size: self.vec.len() },
            );
        }
        let mut new_path = slice_to_vec(self.vec.as_slice());
        new_path[index] = value;
        Ok(NodePathImpl { vec: new_path })
    }
}

} // verus!
