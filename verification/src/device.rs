//! The device collaborator: the boundary through which raw GPU
//! resources are created.
//!
//! A real device is driver-owned and opaque; what this layer's
//! contracts depend on is only *which arguments* each creation call
//! receives and *whether* it hands back a fresh, singly-referenced
//! object or an error.  `Device` therefore records every creation
//! request it serves and allocates objects in a [`ComRuntime`], so both
//! facts are stated exactly and can be checked by callers and tests.

use vstd::prelude::*;

use crate::comptr::ComPtr;
use crate::comptr::ComRuntime;
use crate::error::WinError;
use crate::resource::RawResource;

verus! {

/// Which memory domain backs a resource: GPU-local only, CPU-write
/// visible upload memory, or CPU-read visible readback memory.
#[derive(Clone, Copy, PartialEq, Eq, Structural, Debug)]
pub enum HeapType {
    /// GPU-local memory with no CPU access.
    Default,
    /// CPU-write visible memory for uploading to the GPU.
    Upload,
    /// CPU-read visible memory for reading results back.
    Readback,
}

/// The pipeline-visible usage mode a resource is created in.
#[derive(Clone, Copy, PartialEq, Eq, Structural, Debug)]
pub enum ResourceState {
    /// The generic-read state, the default initial state for committed
    /// buffers.
    GenericRead,
    /// The copy-destination state, the only state a readback-heap
    /// resource may be created in.
    CopyDest,
}

/// Properties of the heap a committed resource is allocated in.
#[derive(Clone, Copy, PartialEq, Eq, Structural, Debug)]
pub struct HeapProperties {
    pub heap_type: HeapType,
}

impl HeapProperties {
    /// Heap properties for the given memory domain.
    pub fn new(heap_type: HeapType) -> (p: HeapProperties)
        ensures
            p.heap_type == heap_type,
    {
        HeapProperties { heap_type }
    }
}

/// Description of a resource to create.
#[derive(Clone, Copy, PartialEq, Eq, Structural, Debug)]
pub struct ResourceDesc {
    /// Width of the resource in bytes.
    pub width: u64,
    /// Usage flags; zero asks for the default usage.
    pub flags: u32,
}

impl ResourceDesc {
    /// The description of a linear buffer of `size` bytes.
    pub fn buffer(size: u64, flags: u32) -> (d: ResourceDesc)
        ensures
            d.width == size,
            d.flags == flags,
    {
        ResourceDesc { width: size, flags }
    }
}

/// How the backing memory of a requested resource is obtained.
#[derive(Clone, Copy, PartialEq, Eq, Structural, Debug)]
pub enum RequestKind {
    /// A dedicated allocation on a heap of the given type, requested
    /// with the given heap flags.
    Committed { heap_type: HeapType, heap_flags: u32 },
    /// A sub-allocation at the given byte offset of a caller-supplied
    /// heap, whose own properties decide the memory domain.
    Placed { offset: u64 },
}

/// One recorded resource-creation request: the arguments a caller
/// handed to the device, captured whether or not the call succeeded.
#[derive(Clone, Copy, PartialEq, Eq, Structural, Debug)]
pub struct CreateRequest {
    /// Where the backing memory comes from.
    pub kind: RequestKind,
    /// The requested width in bytes.
    pub width: u64,
    /// The usage flags of the resource description.
    pub flags: u32,
    /// The initial resource state requested.
    pub initial_state: ResourceState,
}

/// The recording device collaborator.
///
/// While a failure is configured every creation call returns that
/// error, touches no reference count, and creates nothing; otherwise
/// every creation call registers exactly one fresh object carrying one
/// reference.  Each call appends its captured arguments to `requests`.
pub struct Device {
    rt: ComRuntime,
    fail_error: Option<WinError>,
    requests: Vec<CreateRequest>,
}

impl Device {
    /// The refcount ledger of the objects this device has created.
    pub closed spec fn runtime_spec(&self) -> ComRuntime {
        self.rt
    }

    /// All creation requests served so far, oldest first.
    pub closed spec fn requests_spec(&self) -> Seq<CreateRequest> {
        self.requests@
    }

    /// The configured failure, if the device is set to fail.
    pub closed spec fn failure_spec(&self) -> Option<WinError> {
        self.fail_error
    }

    /// True while the device is configured to fail creation calls.
    pub open spec fn fails(&self) -> bool {
        self.failure_spec() is Some
    }

    /// A fresh device that has created nothing and succeeds.
    pub fn new() -> (d: Device)
        ensures
            d.runtime_spec().objects() == Seq::<u64>::empty(),
            d.requests_spec() == Seq::<CreateRequest>::empty(),
            !d.fails(),
    {
        Device { rt: ComRuntime::new(), fail_error: None, requests: Vec::new() }
    }

    /// Configure the device to fail every creation call with the given
    /// error, or to succeed again when `None`.
    pub fn set_failure(&mut self, error: Option<WinError>)
        ensures
            final(self).failure_spec() == error,
            final(self).runtime_spec() == old(self).runtime_spec(),
            final(self).requests_spec() == old(self).requests_spec(),
    {
        self.fail_error = error;
    }

    /// Borrow the refcount ledger.
    pub fn runtime(&self) -> (rt: &ComRuntime)
        ensures
            *rt == self.runtime_spec(),
    {
        &self.rt
    }

    /// Borrow the refcount ledger mutably, e.g. to release handles
    /// against it.
    pub fn runtime_mut(&mut self) -> (rt: &mut ComRuntime)
        ensures
            *rt == old(self).runtime_spec(),
            final(self).runtime_spec() == *final(rt),
            final(self).requests_spec() == old(self).requests_spec(),
            final(self).failure_spec() == old(self).failure_spec(),
    {
        &mut self.rt
    }

    /// Borrow the recorded creation requests.
    pub fn requests(&self) -> (r: &Vec<CreateRequest>)
        ensures
            r@ == self.requests_spec(),
    {
        &self.requests
    }

    /// Create a committed resource: one with its own dedicated backing
    /// allocation, in the given heap and initial state.  Succeeds if
    /// and only if no failure is configured; on success the returned
    /// resource wraps a fresh object carrying exactly one reference,
    /// and on failure nothing is created and no count changes.
    pub fn create_committed_resource(
        &mut self,
        heap_properties: &HeapProperties,
        heap_flags: u32,
        desc: &ResourceDesc,
        initial_state: ResourceState,
    ) -> (result: Result<RawResource, WinError>)
        requires
            old(self).runtime_spec().objects().len() < usize::MAX,
            old(self).requests_spec().len() < usize::MAX,
        ensures
            final(self).requests_spec() == old(self).requests_spec().push(
                (CreateRequest {
                    kind: RequestKind::Committed {
                        heap_type: heap_properties.heap_type,
                        heap_flags,
                    },
                    width: desc.width,
                    flags: desc.flags,
                    initial_state,
                }),
            ),
            final(self).failure_spec() == old(self).failure_spec(),
            result is Ok <==> !old(self).fails(),
            result matches Ok(raw) ==> {
                &&& raw.id_spec() == old(self).runtime_spec().objects().len() + 1
                &&& raw.wf()
                &&& final(self).runtime_spec().objects() == old(
                    self,
                ).runtime_spec().objects().push(1u64)
            },
            result matches Err(e) ==> {
                &&& old(self).failure_spec() == Some(e)
                &&& final(self).runtime_spec() == old(self).runtime_spec()
            },
    {
        let request = CreateRequest {
            kind: RequestKind::Committed { heap_type: heap_properties.heap_type, heap_flags },
            width: desc.width,
            flags: desc.flags,
            initial_state,
        };
        self.requests.push(request);
        match self.fail_error {
            Some(e) => Err(e),
            None => {
                let ptr = self.rt.register();
                Ok(RawResource::new(ComPtr::new(ptr)))
            },
        }
    }

    /// Create a placed resource: one occupying a byte-offset sub-range
    /// of the caller's heap.  Succeeds if and only if no failure is
    /// configured, with the same guarantees as a committed creation;
    /// the captured request records the offset.
    pub fn create_placed_resource<H: crate::resource::Heap>(
        &mut self,
        heap: &H,
        offset: u64,
        desc: &ResourceDesc,
        initial_state: ResourceState,
    ) -> (result: Result<RawResource, WinError>)
        requires
            old(self).runtime_spec().objects().len() < usize::MAX,
            old(self).requests_spec().len() < usize::MAX,
        ensures
            final(self).requests_spec() == old(self).requests_spec().push(
                (CreateRequest {
                    kind: RequestKind::Placed { offset },
                    width: desc.width,
                    flags: desc.flags,
                    initial_state,
                }),
            ),
            final(self).failure_spec() == old(self).failure_spec(),
            result is Ok <==> !old(self).fails(),
            result matches Ok(raw) ==> {
                &&& raw.id_spec() == old(self).runtime_spec().objects().len() + 1
                &&& raw.wf()
                &&& final(self).runtime_spec().objects() == old(
                    self,
                ).runtime_spec().objects().push(1u64)
            },
            result matches Err(e) ==> {
                &&& old(self).failure_spec() == Some(e)
                &&& final(self).runtime_spec() == old(self).runtime_spec()
            },
    {
        // The recording device reads nothing from the heap; a real
        // device carves the allocation out of it.
        let _ = heap;
        let request = CreateRequest {
            kind: RequestKind::Placed { offset },
            width: desc.width,
            flags: desc.flags,
            initial_state,
        };
        self.requests.push(request);
        match self.fail_error {
            Some(e) => Err(e),
            None => {
                let ptr = self.rt.register();
                Ok(RawResource::new(ComPtr::new(ptr)))
            },
        }
    }
}

} // verus!
