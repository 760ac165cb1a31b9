//! The node's view of the application data the overlay keeps in sync.
//!
//! A node holds zero or more libraries (datasets).  Each library records the
//! change operations already applied to it; the model of that record is a
//! set, so applying an operation is idempotent by construction, and the
//! executable code is proved to maintain exactly that set.

use vstd::prelude::*;

use crate::proto::{Operation, OperationView, copy_bytes};

verus! {

/// The operations a sequence of records stands for.
pub open spec fn ops_as_set(ops: Seq<Operation>) -> Set<OperationView> {
    Set::new(|ov: OperationView| exists|i: int| 0 <= i < ops.len() && ops[i]@ == ov)
}

/// One library (dataset) held by this node: its identifier, an opaque
/// description owned by the data layer, and the operations already applied.
pub struct LibraryState {
    pub id: u128,
    pub info: Vec<u8>,
    pub applied: Vec<Operation>,
}

/// Mathematical model of one library.
pub struct LibraryStateView {
    pub id: u128,
    pub info: Seq<u8>,
    pub applied: Set<OperationView>,
}

impl View for LibraryState {
    type V = LibraryStateView;

    open spec fn view(&self) -> LibraryStateView {
        LibraryStateView { id: self.id, info: self.info@, applied: ops_as_set(self.applied@) }
    }
}

/// What applying one operation does to one library: a library records an
/// operation of its own dataset and silently discards every other.
pub open spec fn spec_apply_lib(lib: LibraryStateView, op: OperationView) -> LibraryStateView {
    if lib.id == op.library {
        LibraryStateView { id: lib.id, info: lib.info, applied: lib.applied.insert(op) }
    } else {
        lib
    }
}

impl LibraryState {
    /// A fresh library with nothing applied yet.
    pub fn empty(id: u128, info: Vec<u8>) -> (l: LibraryState)
        ensures
            l@.id == id,
            l@.info == info@,
            l@.applied == Set::<OperationView>::empty(),
    {
        let l = LibraryState { id, info, applied: Vec::new() };
        proof {
            assert(l@.applied =~= Set::<OperationView>::empty());
        }
        l
    }

    /// Whether this operation has been applied to this library already.
    pub fn contains_op(&self, op: &Operation) -> (r: bool)
        ensures
            r == self@.applied.contains(op@),
    {
        let mut i: usize = 0;
        let mut found = false;
        while i < self.applied.len()
            invariant
                i <= self.applied.len(),
                found ==> exists|j: int| 0 <= j < i && self.applied@[j]@ == op@,
                !found ==> forall|j: int| 0 <= j < i ==> self.applied@[j]@ != op@,
            decreases self.applied.len() - i,
        {
            if self.applied[i].same_as(op) {
                found = true;
            }
            i = i + 1;
        }
        found
    }

    /// Apply one operation: record it if it belongs to this library and was
    /// not applied before; leave the library unchanged otherwise.
    pub fn apply(&mut self, op: &Operation) -> (newly: bool)
        ensures
            final(self)@ == spec_apply_lib(old(self)@, op@),
            newly == (old(self)@.id == op@.library && !old(self)@.applied.contains(op@)),
    {
        if self.id != op.library {
            return false;
        }
        if self.contains_op(op) {
            proof {
                assert(old(self)@.applied.insert(op@) =~= old(self)@.applied);
            }
            return false;
        }
        self.applied.push(op.duplicate());
        proof {
            let olds = old(self).applied@;
            let news = self.applied@;
            assert forall|ov: OperationView| ops_as_set(news).contains(ov) implies old(
                self,
            )@.applied.insert(op@).contains(ov) by {
                let i = choose|i: int| 0 <= i < news.len() && news[i]@ == ov;
                if i < olds.len() {
                    assert(olds[i]@ == ov);
                } else {
                    assert(news[i]@ == op@);
                }
            };
            assert forall|ov: OperationView|
                old(self)@.applied.insert(op@).contains(ov) implies ops_as_set(news).contains(
                ov,
            ) by {
                if ov == op@ {
                    assert(news[olds.len() as int]@ == ov);
                } else {
                    let i = choose|i: int| 0 <= i < olds.len() && olds[i]@ == ov;
                    assert(news[i]@ == ov);
                }
            };
            assert(ops_as_set(news) =~= old(self)@.applied.insert(op@));
        }
        true
    }

    /// An independent copy of the library's descriptive data.
    pub fn info_copy(&self) -> (r: Vec<u8>)
        ensures
            r@ == self@.info,
    {
        copy_bytes(&self.info)
    }
}

/// The whole data layer as the overlay sees it: the libraries this node
/// holds, in the order the application registered them.
pub struct SyncTarget {
    pub libraries: Vec<LibraryState>,
}

impl View for SyncTarget {
    type V = Seq<LibraryStateView>;

    open spec fn view(&self) -> Seq<LibraryStateView> {
        Seq::new(self.libraries@.len(), |i: int| self.libraries@[i]@)
    }
}

/// What applying one operation does to the node: every library of the
/// operation's dataset records it, every other library is untouched.
pub open spec fn spec_apply(t: Seq<LibraryStateView>, op: OperationView) -> Seq<LibraryStateView> {
    Seq::new(t.len(), |i: int| spec_apply_lib(t[i], op))
}

impl SyncTarget {
    /// A node that holds no libraries yet.
    pub fn new() -> (t: SyncTarget)
        ensures
            t@ == Seq::<LibraryStateView>::empty(),
    {
        let t = SyncTarget { libraries: Vec::new() };
        proof {
            assert(t@ =~= Seq::<LibraryStateView>::empty());
        }
        t
    }

    /// Register one more library.
    pub fn add_library(&mut self, lib: LibraryState)
        ensures
            final(self)@ == old(self)@.push(lib@),
    {
        self.libraries.push(lib);
        proof {
            assert(self@ =~= old(self)@.push(self.libraries@.last()@));
        }
    }

    /// Apply one operation to every library it belongs to.
    pub fn apply(&mut self, op: &Operation)
        ensures
            final(self)@ == spec_apply(old(self)@, op@),
    {
        let n = self.libraries.len();
        let mut i: usize = 0;
        while i < n
            invariant
                i <= n,
                n == old(self).libraries@.len(),
                self.libraries@.len() == n,
                forall|j: int| 0 <= j < i ==> self.libraries@[j]@ == spec_apply_lib(
                    old(self).libraries@[j]@,
                    op@,
                ),
                forall|j: int| i <= j < n ==> self.libraries@[j] == old(self).libraries@[j],
            decreases n - i,
        {
            let mut taken = LibraryState { id: 0, info: Vec::new(), applied: Vec::new() };
            self.libraries.set_and_swap(i, &mut taken);
            taken.apply(op);
            self.libraries.set_and_swap(i, &mut taken);
            i = i + 1;
        }
        proof {
            assert(self@ =~= spec_apply(old(self)@, op@));
        }
    }
}

/// The first library with this identifier, if the node holds one.
pub open spec fn spec_find_library(t: Seq<LibraryStateView>, id: u128) -> Option<LibraryStateView>
    decreases t.len(),
{
    if t.len() == 0 {
        None
    } else if t[0].id == id {
        Some(t[0])
    } else {
        spec_find_library(t.subrange(1, t.len() as int), id)
    }
}

impl SyncTarget {
    /// Where the first library with this identifier stands, if anywhere.
    pub fn find_library(&self, id: u128) -> (r: Option<usize>)
        ensures
            match r {
                Some(idx) => idx < self.libraries@.len() && spec_find_library(self@, id) == Some(
                    self@[idx as int],
                ) && self@[idx as int].id == id,
                None => spec_find_library(self@, id) is None,
            },
    {
        let n = self.libraries.len();
        proof {
            assert(self@.subrange(0, n as int) =~= self@);
        }
        let mut i: usize = 0;
        while i < n
            invariant
                i <= n,
                n == self.libraries@.len(),
                spec_find_library(self@, id) == spec_find_library(
                    self@.subrange(i as int, n as int),
                    id,
                ),
            decreases n - i,
        {
            proof {
                assert(self@.subrange(i as int, n as int)[0] == self@[i as int]);
            }
            if self.libraries[i].id == id {
                proof {
                    assert(self@[i as int].id == id);
                }
                return Some(i);
            }
            proof {
                assert(self@.subrange(i as int, n as int).subrange(
                    1,
                    (n - i) as int,
                ) =~= self@.subrange(i as int + 1, n as int));
            }
            i = i + 1;
        }
        proof {
            assert(self@.subrange(n as int, n as int) =~= Seq::<LibraryStateView>::empty());
        }
        None
    }
}

/// Law: applying the same operation to a node twice leaves exactly the
/// state that applying it once leaves.
pub proof fn lemma_apply_idempotent(t: Seq<LibraryStateView>, op: OperationView)
    ensures
        spec_apply(spec_apply(t, op), op) == spec_apply(t, op),
{
    let once = spec_apply(t, op);
    let twice = spec_apply(once, op);
    assert forall|i: int| 0 <= i < t.len() implies twice[i] == once[i] by {
        if t[i].id == op.library {
            assert(t[i].applied.insert(op).insert(op) =~= t[i].applied.insert(op));
        }
    };
    assert(twice =~= once);
}

/// Law: two operations can be applied in either order and leave the same
/// state, so peers that observe the overlay's operations interleaved
/// differently still converge.
pub proof fn lemma_apply_commutes(t: Seq<LibraryStateView>, op1: OperationView, op2: OperationView)
    ensures
        spec_apply(spec_apply(t, op1), op2) == spec_apply(spec_apply(t, op2), op1),
{
    let left = spec_apply(spec_apply(t, op1), op2);
    let right = spec_apply(spec_apply(t, op2), op1);
    assert forall|i: int| 0 <= i < t.len() implies left[i] == right[i] by {
        if t[i].id == op1.library && t[i].id == op2.library {
            assert(t[i].applied.insert(op1).insert(op2) =~= t[i].applied.insert(op2).insert(
                op1,
            ));
        }
    };
    assert(left =~= right);
}

/// Law: once applied, an operation is recorded in every library of its
/// dataset, and no other library changes.
pub proof fn lemma_apply_records(t: Seq<LibraryStateView>, op: OperationView, i: int)
    requires
        0 <= i < t.len(),
    ensures
        t[i].id == op.library ==> spec_apply(t, op)[i].applied.contains(op),
        t[i].id != op.library ==> spec_apply(t, op)[i] == t[i],
{
}

} // verus!
