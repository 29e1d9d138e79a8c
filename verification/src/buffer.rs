//! Typed buffer variants built atop the capability model and the
//! device's resource-creation calls.
//!
//! Each committed variant asks the device for a linear buffer of the
//! requested size, built with default usage flags, in the heap and
//! initial state its access model demands:
//!
//! * [`DefaultBuffer`]: GPU-only, default heap, generic-read state;
//! * [`UploadBuffer`]: CPU-write, upload heap, generic-read state;
//! * [`ReadbackBuffer`]: CPU-read, readback heap, copy-destination
//!   state — the only state a readback heap may be created in.
//!
//! Size is fixed at construction; a creation failure propagates as the
//! device's error with no partially constructed buffer and no reference
//! left behind.  [`PlacedBuffer`] instead wraps a caller-supplied raw
//! resource carved out of a heap at a fixed offset.

use vstd::prelude::*;

use crate::comptr::ComRuntime;
use crate::device::CreateRequest;
use crate::device::Device;
use crate::device::HeapProperties;
use crate::device::HeapType;
use crate::device::RequestKind;
use crate::device::ResourceDesc;
use crate::device::ResourceState;
use crate::error::WinError;
use crate::resource::AccessModel;
use crate::resource::Buffer;
use crate::resource::GpuOnly;
use crate::resource::Heap;
use crate::resource::Placed;
use crate::resource::RawResource;
use crate::resource::Readback;
use crate::resource::Resource;
use crate::resource::Upload;

verus! {

/// The creation request a committed buffer of the given category and
/// size sends to the device: a linear buffer of `size` bytes with
/// default usage flags, on the category's heap, in its required initial
/// state.
pub open spec fn committed_request(heap_type: HeapType, size: u64) -> CreateRequest {
    CreateRequest {
        kind: RequestKind::Committed { heap_type, heap_flags: 0u32 },
        width: size,
        flags: 0u32,
        initial_state: if heap_type == HeapType::Readback {
            ResourceState::CopyDest
        } else {
            ResourceState::GenericRead
        },
    }
}

/// What every committed-buffer constructor guarantees, given the buffer
/// category's heap type: the request it sent, success exactly when the
/// device is not configured to fail, a fresh singly-referenced object
/// behind the buffer on success, and an untouched ledger on failure.
pub open spec fn committed_new_ensures(
    old_device: Device,
    new_device: Device,
    heap_type: HeapType,
    size: u64,
    raw_id: Option<usize>,
    err: Option<WinError>,
) -> bool {
    &&& new_device.requests_spec() == old_device.requests_spec().push(
        committed_request(heap_type, size),
    )
    &&& new_device.failure_spec() == old_device.failure_spec()
    &&& raw_id is Some <==> !old_device.fails()
    &&& raw_id matches Some(id) ==> {
        &&& id == old_device.runtime_spec().objects().len() + 1
        &&& new_device.runtime_spec().objects() == old_device.runtime_spec().objects().push(1u64)
    }
    &&& err matches Some(e) ==> {
        &&& old_device.failure_spec() == Some(e)
        &&& new_device.runtime_spec() == old_device.runtime_spec()
    }
}

/// A committed buffer with GPU-only access.
#[derive(Debug)]
pub struct DefaultBuffer {
    raw: RawResource,
    size: u64,
}

impl DefaultBuffer {
    /// Request a committed GPU-only buffer of `size` bytes from the
    /// device, on the default heap in the generic-read initial state.
    /// Returns the typed buffer on success, or the device's error, with
    /// nothing constructed and no reference taken, on failure.
    pub fn new(device: &mut Device, size: u64) -> (result: Result<DefaultBuffer, WinError>)
        requires
            old(device).runtime_spec().objects().len() < usize::MAX,
            old(device).requests_spec().len() < usize::MAX,
        ensures
            committed_new_ensures(
                *old(device),
                *final(device),
                HeapType::Default,
                size,
                (match result {
                    Ok(b) => Some(b.raw_spec().id_spec()),
                    Err(_) => None,
                }),
                result.err(),
            ),
            result matches Ok(b) ==> b.size_spec() == size && b.raw_spec().wf(),
    {
        let raw = device.create_committed_resource(
            &HeapProperties::new(HeapType::Default),
            0u32,
            &ResourceDesc::buffer(size, 0u32),
            ResourceState::GenericRead,
        )?;
        Ok(DefaultBuffer { raw, size })
    }

    /// Give the buffer up, releasing the one reference its raw resource
    /// owns against the ledger.
    pub fn destroy(self, rt: &mut ComRuntime)
        requires
            old(rt).is_object(self.raw_spec().id_spec()),
            old(rt).count(self.raw_spec().id_spec()) >= 1,
        ensures
            final(rt).objects() == old(rt).objects().update(
                self.raw_spec().id_spec() - 1,
                (old(rt).count(self.raw_spec().id_spec()) - 1) as u64,
            ),
    {
        self.raw.destroy(rt);
    }
}

impl Resource for DefaultBuffer {
    closed spec fn raw_spec(&self) -> RawResource {
        self.raw
    }

    closed spec fn with_raw(&self, raw: RawResource) -> DefaultBuffer {
        DefaultBuffer { raw, size: self.size }
    }

    fn as_raw(&self) -> (raw: &RawResource) {
        &self.raw
    }

    fn as_raw_mut(&mut self) -> (raw: &mut RawResource) {
        &mut self.raw
    }
}

impl Buffer for DefaultBuffer {
    closed spec fn size_spec(&self) -> u64 {
        self.size
    }

    open spec fn access_model(&self) -> AccessModel {
        AccessModel::GpuOnly
    }

    fn get_size(&self) -> (size: u64) {
        self.size
    }

    fn access(&self) -> (model: AccessModel) {
        AccessModel::GpuOnly
    }
}

impl GpuOnly for DefaultBuffer {
    proof fn access_is_gpu_only(&self) {
    }
}

/// A committed buffer with CPU-write access.
#[derive(Debug)]
pub struct UploadBuffer {
    raw: RawResource,
    size: u64,
}

impl UploadBuffer {
    /// Request a committed CPU-write buffer of `size` bytes from the
    /// device, on the upload heap in the generic-read initial state.
    /// Returns the typed buffer on success, or the device's error, with
    /// nothing constructed and no reference taken, on failure.
    pub fn new(device: &mut Device, size: u64) -> (result: Result<UploadBuffer, WinError>)
        requires
            old(device).runtime_spec().objects().len() < usize::MAX,
            old(device).requests_spec().len() < usize::MAX,
        ensures
            committed_new_ensures(
                *old(device),
                *final(device),
                HeapType::Upload,
                size,
                (match result {
                    Ok(b) => Some(b.raw_spec().id_spec()),
                    Err(_) => None,
                }),
                result.err(),
            ),
            result matches Ok(b) ==> b.size_spec() == size && b.raw_spec().wf(),
    {
        let raw = device.create_committed_resource(
            &HeapProperties::new(HeapType::Upload),
            0u32,
            &ResourceDesc::buffer(size, 0u32),
            ResourceState::GenericRead,
        )?;
        Ok(UploadBuffer { raw, size })
    }

    /// Give the buffer up, releasing the one reference its raw resource
    /// owns against the ledger.
    pub fn destroy(self, rt: &mut ComRuntime)
        requires
            old(rt).is_object(self.raw_spec().id_spec()),
            old(rt).count(self.raw_spec().id_spec()) >= 1,
        ensures
            final(rt).objects() == old(rt).objects().update(
                self.raw_spec().id_spec() - 1,
                (old(rt).count(self.raw_spec().id_spec()) - 1) as u64,
            ),
    {
        self.raw.destroy(rt);
    }
}

impl Resource for UploadBuffer {
    closed spec fn raw_spec(&self) -> RawResource {
        self.raw
    }

    closed spec fn with_raw(&self, raw: RawResource) -> UploadBuffer {
        UploadBuffer { raw, size: self.size }
    }

    fn as_raw(&self) -> (raw: &RawResource) {
        &self.raw
    }

    fn as_raw_mut(&mut self) -> (raw: &mut RawResource) {
        &mut self.raw
    }
}

impl Buffer for UploadBuffer {
    closed spec fn size_spec(&self) -> u64 {
        self.size
    }

    open spec fn access_model(&self) -> AccessModel {
        AccessModel::Upload
    }

    fn get_size(&self) -> (size: u64) {
        self.size
    }

    fn access(&self) -> (model: AccessModel) {
        AccessModel::Upload
    }
}

impl Upload for UploadBuffer {
    proof fn access_is_upload(&self) {
    }
}

/// A committed buffer with CPU-read access.
#[derive(Debug)]
pub struct ReadbackBuffer {
    raw: RawResource,
    size: u64,
}

impl ReadbackBuffer {
    /// Request a committed CPU-read buffer of `size` bytes from the
    /// device, on the readback heap in the copy-destination initial
    /// state — the only state a readback-heap resource may be created
    /// in.  Returns the typed buffer on success, or the device's error,
    /// with nothing constructed and no reference taken, on failure.
    pub fn new(device: &mut Device, size: u64) -> (result: Result<ReadbackBuffer, WinError>)
        requires
            old(device).runtime_spec().objects().len() < usize::MAX,
            old(device).requests_spec().len() < usize::MAX,
        ensures
            committed_new_ensures(
                *old(device),
                *final(device),
                HeapType::Readback,
                size,
                (match result {
                    Ok(b) => Some(b.raw_spec().id_spec()),
                    Err(_) => None,
                }),
                result.err(),
            ),
            result matches Ok(b) ==> b.size_spec() == size && b.raw_spec().wf(),
    {
        let raw = device.create_committed_resource(
            &HeapProperties::new(HeapType::Readback),
            0u32,
            &ResourceDesc::buffer(size, 0u32),
            ResourceState::CopyDest,
        )?;
        Ok(ReadbackBuffer { raw, size })
    }

    /// Give the buffer up, releasing the one reference its raw resource
    /// owns against the ledger.
    pub fn destroy(self, rt: &mut ComRuntime)
        requires
            old(rt).is_object(self.raw_spec().id_spec()),
            old(rt).count(self.raw_spec().id_spec()) >= 1,
        ensures
            final(rt).objects() == old(rt).objects().update(
                self.raw_spec().id_spec() - 1,
                (old(rt).count(self.raw_spec().id_spec()) - 1) as u64,
            ),
    {
        self.raw.destroy(rt);
    }
}

impl Resource for ReadbackBuffer {
    closed spec fn raw_spec(&self) -> RawResource {
        self.raw
    }

    closed spec fn with_raw(&self, raw: RawResource) -> ReadbackBuffer {
        ReadbackBuffer { raw, size: self.size }
    }

    fn as_raw(&self) -> (raw: &RawResource) {
        &self.raw
    }

    fn as_raw_mut(&mut self) -> (raw: &mut RawResource) {
        &mut self.raw
    }
}

impl Buffer for ReadbackBuffer {
    closed spec fn size_spec(&self) -> u64 {
        self.size
    }

    open spec fn access_model(&self) -> AccessModel {
        AccessModel::Readback
    }

    fn get_size(&self) -> (size: u64) {
        self.size
    }

    fn access(&self) -> (model: AccessModel) {
        AccessModel::Readback
    }
}

impl Readback for ReadbackBuffer {
    proof fn access_is_readback(&self) {
    }
}

/// A buffer whose backing store is a sub-allocation at a byte offset
/// within an explicitly managed heap, rather than a dedicated committed
/// allocation.  The heap handle and the offset are fixed at
/// construction.
#[derive(Debug)]
pub struct PlacedBuffer<H> {
    raw: RawResource,
    heap: H,
    offset: u64,
}

impl<H: Heap> PlacedBuffer<H> {
    /// Attach the placed capability to a caller-supplied raw resource
    /// carved out of `heap` at `offset` bytes from the heap start.
    pub fn new(raw: RawResource, heap: H, offset: u64) -> (b: PlacedBuffer<H>)
        requires
            raw.wf(),
        ensures
            b.raw_spec() == raw,
            b.heap_spec() == heap,
            b.offset_spec() == offset,
    {
        PlacedBuffer { raw, heap, offset }
    }

    /// Give the buffer up: release the one reference its raw resource
    /// owns against the ledger, and hand the heap back to the caller.
    pub fn destroy(self, rt: &mut ComRuntime) -> (heap: H)
        requires
            old(rt).is_object(self.raw_spec().id_spec()),
            old(rt).count(self.raw_spec().id_spec()) >= 1,
        ensures
            final(rt).objects() == old(rt).objects().update(
                self.raw_spec().id_spec() - 1,
                (old(rt).count(self.raw_spec().id_spec()) - 1) as u64,
            ),
            heap == self.heap_spec(),
    {
        let PlacedBuffer { raw, heap, offset: _ } = self;
        raw.destroy(rt);
        heap
    }
}

impl<H: Heap> Resource for PlacedBuffer<H> {
    closed spec fn raw_spec(&self) -> RawResource {
        self.raw
    }

    closed spec fn with_raw(&self, raw: RawResource) -> PlacedBuffer<H> {
        PlacedBuffer { raw, heap: self.heap, offset: self.offset }
    }

    fn as_raw(&self) -> (raw: &RawResource) {
        &self.raw
    }

    fn as_raw_mut(&mut self) -> (raw: &mut RawResource) {
        &mut self.raw
    }
}

impl<H: Heap> Placed for PlacedBuffer<H> {
    type PlacedHeap = H;

    closed spec fn heap_spec(&self) -> H {
        self.heap
    }

    closed spec fn with_heap(&self, heap: H) -> PlacedBuffer<H> {
        PlacedBuffer { raw: self.raw, heap, offset: self.offset }
    }

    closed spec fn offset_spec(&self) -> u64 {
        self.offset
    }

    fn get_placed_heap(&mut self) -> (heap: &mut H) {
        &mut self.heap
    }

    fn get_heap_offset(&self) -> (offset: u64) {
        self.offset
    }
}

} // verus!
