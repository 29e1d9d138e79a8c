//! The resource capability model.
//!
//! A raw GPU resource is opaque; what a caller may legally do with it
//! is decided by the capabilities its typed wrapper carries.  The base
//! capability (`Resource`) grants access to the underlying raw handle;
//! `Buffer` adds a queryable byte size together with exactly one access
//! model out of GPU-only, upload and readback; `Placed` orthogonally
//! declares that the backing memory is a sub-allocation at a fixed
//! offset inside an externally supplied heap.

use vstd::prelude::*;

use crate::comptr::ComPtr;
use crate::comptr::ComRuntime;

verus! {

/// An opaque handle to a GPU resource allocation, owned through a
/// reference-counted handle.  Each typed buffer owns exactly one
/// `RawResource`; raw resources are never shared between buffers.
#[derive(PartialEq, Eq, Structural, Debug)]
pub struct RawResource {
    ptr: ComPtr,
}

impl RawResource {
    /// The identity of the underlying native object.
    pub closed spec fn id_spec(&self) -> usize {
        self.ptr.id_spec()
    }

    /// A raw resource is well formed when its handle is: the identity
    /// is nonzero.
    pub open spec fn wf(&self) -> bool {
        self.id_spec() != 0
    }

    /// Take ownership of the reference held by `ptr`.
    pub fn new(ptr: ComPtr) -> (raw: RawResource)
        requires
            ptr.wf(),
        ensures
            raw.id_spec() == ptr.id_spec(),
            raw.wf(),
    {
        RawResource { ptr }
    }

    /// The identity of the underlying native object, for handing to
    /// native calls.
    pub fn as_ptr(&self) -> (ptr: usize)
        ensures
            ptr == self.id_spec(),
    {
        self.ptr.as_ptr()
    }

    /// Give the resource up, releasing the one reference it owns
    /// against the ledger.
    pub fn destroy(self, rt: &mut ComRuntime)
        requires
            old(rt).is_object(self.id_spec()),
            old(rt).count(self.id_spec()) >= 1,
        ensures
            final(rt).objects() == old(rt).objects().update(
                self.id_spec() - 1,
                (old(rt).count(self.id_spec()) - 1) as u64,
            ),
    {
        self.ptr.release(rt);
    }
}

/// The access model a buffer declares: which side, CPU or GPU, may
/// touch its memory and how.  Every buffer carries exactly one of the
/// three.
#[derive(Clone, Copy, PartialEq, Eq, Structural, Debug)]
pub enum AccessModel {
    /// No CPU mapping is permitted; the buffer lives in GPU-local
    /// memory.
    GpuOnly,
    /// CPU-write mapping is permitted; the buffer lives in upload
    /// memory.
    Upload,
    /// CPU-read mapping is permitted; the buffer lives in readback
    /// memory.
    Readback,
}

/// The base capability: read and write access to the underlying raw
/// resource.
pub trait Resource: Sized {
    /// The raw resource this wrapper currently owns.
    spec fn raw_spec(&self) -> RawResource;

    /// The wrapper with its raw resource replaced and everything else
    /// unchanged; it ties the final value of a mutable borrow of the
    /// raw resource back to the wrapper.
    spec fn with_raw(&self, raw: RawResource) -> Self;

    /// Borrow the owned raw resource.
    fn as_raw(&self) -> (raw: &RawResource)
        ensures
            *raw == self.raw_spec(),
    ;

    /// Borrow the owned raw resource mutably.
    fn as_raw_mut(&mut self) -> (raw: &mut RawResource)
        ensures
            *raw == old(self).raw_spec(),
            *final(self) == old(self).with_raw(*final(raw)),
    ;
}

/// A resource with a queryable byte size and a declared access model.
pub trait Buffer: Resource {
    /// The size in bytes the buffer was constructed with; fixed for the
    /// buffer's lifetime.
    spec fn size_spec(&self) -> u64;

    /// The one access model this buffer type declares.  Being a total
    /// function into [`AccessModel`], it attaches exactly one of
    /// GPU-only, upload and readback to every buffer.
    spec fn access_model(&self) -> AccessModel;

    /// The buffer's size in bytes.
    fn get_size(&self) -> (size: u64)
        ensures
            size == self.size_spec(),
    ;

    /// The buffer's declared access model.
    fn access(&self) -> (model: AccessModel)
        ensures
            model == self.access_model(),
    ;
}

/// Marker capability: the buffer's memory is GPU-only, never mapped by
/// the CPU.  A type carries this marker only if its access model really
/// is [`AccessModel::GpuOnly`], which the required proof obliges.
pub trait GpuOnly: Buffer {
    /// Every value of the implementing type declares the GPU-only
    /// access model.
    proof fn access_is_gpu_only(&self)
        ensures
            self.access_model() == AccessModel::GpuOnly,
    ;
}

/// Marker capability: the buffer's memory may be mapped for CPU writes.
pub trait Upload: Buffer {
    /// Every value of the implementing type declares the upload access
    /// model.
    proof fn access_is_upload(&self)
        ensures
            self.access_model() == AccessModel::Upload,
    ;
}

/// Marker capability: the buffer's memory may be mapped for CPU reads.
pub trait Readback: Buffer {
    /// Every value of the implementing type declares the readback
    /// access model.
    proof fn access_is_readback(&self)
        ensures
            self.access_model() == AccessModel::Readback,
    ;
}

/// An object a placed resource can be carved out of.  The heap must
/// outlive the placed buffer, which the buffer arranges by owning or
/// sharing the heap handle.
pub trait Heap: Sized {
}

/// Capability of a resource whose backing store is a sub-allocation at
/// a byte offset within an externally supplied heap, as opposed to an
/// implicitly committed allocation.
pub trait Placed: Resource {
    /// The heap type backing this resource.
    type PlacedHeap;

    /// The owned heap handle.
    spec fn heap_spec(&self) -> Self::PlacedHeap;

    /// The wrapper with its heap handle replaced and everything else,
    /// the offset included, unchanged.
    spec fn with_heap(&self, heap: Self::PlacedHeap) -> Self;

    /// The byte offset of the sub-allocation from the heap start;
    /// fixed for the resource's lifetime.
    spec fn offset_spec(&self) -> u64;

    /// Borrow the owning heap mutably, so sub-allocations can
    /// coordinate with heap-level operations.
    fn get_placed_heap(&mut self) -> (heap: &mut Self::PlacedHeap)
        ensures
            *heap == old(self).heap_spec(),
            *final(self) == old(self).with_heap(*final(heap)),
    ;

    /// The fixed byte offset into the owning heap.
    fn get_heap_offset(&self) -> (offset: u64)
        ensures
            offset == self.offset_spec(),
    ;
}

/// Exactly one of the three access capabilities holds of any buffer:
/// the access model is always one of GPU-only, upload and readback, and
/// never two of them at once.
pub proof fn lemma_access_exclusive<B: Buffer>(b: &B)
    ensures
        b.access_model() == AccessModel::GpuOnly || b.access_model() == AccessModel::Upload
            || b.access_model() == AccessModel::Readback,
        !(b.access_model() == AccessModel::GpuOnly && b.access_model() == AccessModel::Upload),
        !(b.access_model() == AccessModel::GpuOnly && b.access_model() == AccessModel::Readback),
        !(b.access_model() == AccessModel::Upload && b.access_model() == AccessModel::Readback),
{
}

} // verus!
