//! RAII-style COM-pointer wrapper over an explicit refcount ledger.
//!
//! A native COM object manages its own lifetime through manual
//! increment/decrement reference counting.  `ComRuntime` stands in for
//! that native layer: it records, per object, how many references are
//! currently live, so that the balance of adoptions, clones and
//! releases can be stated and proved.  `ComPtr` is the handle that owns
//! exactly one such reference.
//!
//! Releasing is explicit: a handle is consumed by [`ComPtr::release`],
//! which stands for the decrement a destructor performs, so every exit
//! path of a caller must account for its handles — the ledger makes an
//! unbalanced path visible as a wrong count.

use vstd::prelude::*;

verus! {

/// The refcounted-object ledger: object `p` (a nonzero identity,
/// standing for the native pointer) is live while `count(p) > 0`.
///
/// Identities are handed out densely starting from 1, so an identity is
/// never reused and 0 can stand for "null".
pub struct ComRuntime {
    counts: Vec<u64>,
}

impl ComRuntime {
    /// The per-object reference counts, indexed by identity minus one.
    pub closed spec fn objects(&self) -> Seq<u64> {
        self.counts@
    }

    /// True if `ptr` is the identity of an object this runtime has created.
    pub open spec fn is_object(&self, ptr: usize) -> bool {
        1 <= ptr <= self.objects().len()
    }

    /// The number of live references to object `ptr`.
    pub open spec fn count(&self, ptr: usize) -> u64
        recommends
            self.is_object(ptr),
    {
        self.objects()[ptr - 1]
    }

    /// An empty runtime with no objects.
    pub fn new() -> (rt: ComRuntime)
        ensures
            rt.objects() == Seq::<u64>::empty(),
    {
        ComRuntime { counts: Vec::new() }
    }

    /// Create a fresh native object carrying exactly one reference, and
    /// return its identity.  This models a native creation call that
    /// hands the caller a new, otherwise-unreferenced object.
    pub fn register(&mut self) -> (ptr: usize)
        requires
            old(self).objects().len() < usize::MAX,
        ensures
            ptr == old(self).objects().len() + 1,
            ptr != 0,
            final(self).objects() == old(self).objects().push(1u64),
            final(self).is_object(ptr),
            final(self).count(ptr) == 1u64,
    {
        self.counts.push(1u64);
        self.counts.len()
    }

    /// Record an increment of object `ptr`'s reference count.
    pub fn add_ref(&mut self, ptr: usize)
        requires
            old(self).is_object(ptr),
            old(self).count(ptr) >= 1,
            old(self).count(ptr) < u64::MAX,
        ensures
            final(self).objects() == old(self).objects().update(
                ptr - 1,
                (old(self).count(ptr) + 1) as u64,
            ),
    {
        let i = ptr - 1;
        let slot = vstd::std_specs::vec::vec_index_mut(&mut self.counts, i);
        *slot = *slot + 1;
    }

    /// Record a decrement of object `ptr`'s reference count.  The count
    /// reaching zero models destruction of the native object.
    pub fn release(&mut self, ptr: usize)
        requires
            old(self).is_object(ptr),
            old(self).count(ptr) >= 1,
        ensures
            final(self).objects() == old(self).objects().update(
                ptr - 1,
                (old(self).count(ptr) - 1) as u64,
            ),
    {
        let i = ptr - 1;
        let slot = vstd::std_specs::vec::vec_index_mut(&mut self.counts, i);
        *slot = *slot - 1;
    }

    /// Read back the live reference count of object `ptr`.
    pub fn live_count(&self, ptr: usize) -> (n: u64)
        requires
            self.is_object(ptr),
        ensures
            n == self.count(ptr),
    {
        self.counts[ptr - 1]
    }

    /// The number of objects this runtime has ever created.
    pub fn num_objects(&self) -> (n: usize)
        ensures
            n == self.objects().len(),
    {
        self.counts.len()
    }
}

/// Exclusive-ownership wrapper around one reference to a refcounted
/// native object.  Equality compares by pointer identity.
#[derive(PartialEq, Eq, Structural, Debug)]
pub struct ComPtr {
    ptr: usize,
}

impl ComPtr {
    /// The identity of the wrapped object.
    pub closed spec fn id_spec(&self) -> usize {
        self.ptr
    }

    /// A handle is well formed when its identity is nonzero: handles
    /// never wrap a null pointer.
    pub open spec fn wf(&self) -> bool {
        self.id_spec() != 0
    }

    /// Adopt `ptr`, gaining exclusive ownership of one existing
    /// reference to it.  The caller asserts that `ptr` is the nonzero
    /// identity of a reference it currently holds and will not use
    /// again directly; no reference count is touched, since the
    /// reference being adopted already exists.
    pub fn new(ptr: usize) -> (handle: ComPtr)
        requires
            ptr != 0,
        ensures
            handle.id_spec() == ptr,
            handle.wf(),
    {
        ComPtr { ptr }
    }

    /// Return the underlying identity, for handing to native calls that
    /// read through the pointer.
    pub fn as_ptr(&self) -> (ptr: usize)
        ensures
            ptr == self.id_spec(),
    {
        self.ptr
    }

    /// Return the underlying identity, for handing to native calls that
    /// write through the pointer.
    pub fn as_mut_ptr(&self) -> (ptr: usize)
        ensures
            ptr == self.id_spec(),
    {
        self.ptr
    }

    /// Duplicate the handle: increment the object's reference count and
    /// return a second handle aliasing the same object.
    pub fn clone_handle(&self, rt: &mut ComRuntime) -> (handle: ComPtr)
        requires
            old(rt).is_object(self.id_spec()),
            old(rt).count(self.id_spec()) >= 1,
            old(rt).count(self.id_spec()) < u64::MAX,
        ensures
            handle.id_spec() == self.id_spec(),
            handle.wf(),
            final(rt).objects() == old(rt).objects().update(
                self.id_spec() - 1,
                (old(rt).count(self.id_spec()) + 1) as u64,
            ),
    {
        rt.add_ref(self.ptr);
        ComPtr { ptr: self.ptr }
    }

    /// Give the handle up, decrementing the object's reference count.
    /// Releasing the last handle brings the count to zero, destroying
    /// the native object.
    pub fn release(self, rt: &mut ComRuntime)
        requires
            old(rt).is_object(self.id_spec()),
            old(rt).count(self.id_spec()) >= 1,
        ensures
            final(rt).objects() == old(rt).objects().update(
                self.id_spec() - 1,
                (old(rt).count(self.id_spec()) - 1) as u64,
            ),
    {
        rt.release(self.ptr);
    }
}

/// Refcount balance: for any number `n` of clones, adopting one
/// freshly created reference, cloning the handle `n` times and then
/// releasing all `n + 1` handles leaves the object's reference count at
/// zero — a net delta of `1 + n - (n + 1) = 0` — and every other
/// object untouched.
pub fn refcount_balance(rt: &mut ComRuntime, n: usize) -> (ptr: usize)
    requires
        old(rt).objects().len() < usize::MAX,
        n < u64::MAX,
    ensures
        ptr == old(rt).objects().len() + 1,
        final(rt).objects() == old(rt).objects().push(0u64),
{
    let ghost base = rt.objects();
    let ptr = rt.register();
    let first = ComPtr::new(ptr);
    assert(rt.objects() =~= base.push(1u64));

    let mut clones: Vec<ComPtr> = Vec::new();
    let mut i: usize = 0;
    while i < n
        invariant
            i <= n,
            n < u64::MAX,
            clones@.len() == i,
            ptr == base.len() + 1,
            ptr != 0,
            first.id_spec() == ptr,
            forall|j: int| 0 <= j < clones@.len() ==> clones@[j].id_spec() == ptr,
            rt.objects() == base.push((1 + i) as u64),
        decreases n - i,
    {
        assert(rt.count(ptr) == 1 + i);
        let handle = first.clone_handle(rt);
        assert(rt.objects() =~= base.push((1 + i + 1) as u64));
        clones.push(handle);
        i = i + 1;
    }
    while clones.len() > 0
        invariant
            ptr == base.len() + 1,
            ptr != 0,
            first.id_spec() == ptr,
            forall|j: int| 0 <= j < clones@.len() ==> clones@[j].id_spec() == ptr,
            clones@.len() < u64::MAX,
            rt.objects() == base.push((1 + clones@.len()) as u64),
        decreases clones@.len(),
    {
        let handle = clones.pop().unwrap();
        let ghost remaining = clones@.len();
        assert(rt.count(ptr) == 1 + remaining + 1);
        handle.release(rt);
        assert(rt.objects() =~= base.push((1 + remaining) as u64));
    }
    assert(rt.count(ptr) == 1);
    first.release(rt);
    assert(rt.objects() =~= base.push(0u64));
    ptr
}

} // verus!
