use dxsafe::AccessModel;
use dxsafe::Buffer;
use dxsafe::DefaultBuffer;
use dxsafe::Device;
use dxsafe::Heap;
use dxsafe::HeapProperties;
use dxsafe::HeapType;
use dxsafe::Placed;
use dxsafe::PlacedBuffer;
use dxsafe::ReadbackBuffer;
use dxsafe::RequestKind;
use dxsafe::Resource;
use dxsafe::ResourceDesc;
use dxsafe::ResourceState;
use dxsafe::UploadBuffer;
use dxsafe::WinError;

struct TestHeap {
    capacity: u64,
}

impl Heap for TestHeap {}

#[test]
fn upload_buffer_scenario() {
    let mut device = Device::new();
    let buffer = UploadBuffer::new(&mut device, 4096).unwrap();
    assert_eq!(buffer.get_size(), 4096);
    assert_eq!(device.runtime().num_objects(), 1);
    let ptr = buffer.as_raw().as_ptr();
    assert_eq!(device.runtime().live_count(ptr), 1);
    let rt = device.runtime_mut();
    buffer.destroy(rt);
    assert_eq!(rt.live_count(ptr), 0);
}

#[test]
fn readback_buffer_requests_copy_dest() {
    let mut device = Device::new();
    let _buffer = ReadbackBuffer::new(&mut device, 1024).unwrap();
    let requests = device.requests();
    assert_eq!(requests.len(), 1);
    assert_eq!(
        requests[0].kind,
        RequestKind::Committed { heap_type: HeapType::Readback, heap_flags: 0 }
    );
    assert_eq!(requests[0].initial_state, ResourceState::CopyDest);
    assert_eq!(requests[0].width, 1024);
}

#[test]
fn readback_buffer_failure_releases_nothing() {
    let mut device = Device::new();
    device.set_failure(Some(WinError::new(-2005270523)));
    let err = ReadbackBuffer::new(&mut device, 1024).unwrap_err();
    assert_eq!(err.hresult(), -2005270523);
    assert_eq!(device.requests()[0].initial_state, ResourceState::CopyDest);
    assert_eq!(device.runtime().num_objects(), 0);
}

#[test]
fn default_and_upload_request_generic_read() {
    let mut device = Device::new();
    let _d = DefaultBuffer::new(&mut device, 64).unwrap();
    let _u = UploadBuffer::new(&mut device, 128).unwrap();
    let requests = device.requests();
    assert_eq!(
        requests[0].kind,
        RequestKind::Committed { heap_type: HeapType::Default, heap_flags: 0 }
    );
    assert_eq!(requests[0].initial_state, ResourceState::GenericRead);
    assert_eq!(
        requests[1].kind,
        RequestKind::Committed { heap_type: HeapType::Upload, heap_flags: 0 }
    );
    assert_eq!(requests[1].initial_state, ResourceState::GenericRead);
}

#[test]
fn requests_carry_default_usage_flags() {
    let mut device = Device::new();
    let _d = DefaultBuffer::new(&mut device, 64).unwrap();
    let request = device.requests()[0];
    assert_eq!(
        request.kind,
        RequestKind::Committed { heap_type: HeapType::Default, heap_flags: 0 }
    );
    assert_eq!(request.flags, 0);
}

#[test]
fn get_size_returns_the_requested_size() {
    let mut device = Device::new();
    for size in [0u64, 1, 16, 4096, 1 << 40] {
        let d = DefaultBuffer::new(&mut device, size).unwrap();
        let u = UploadBuffer::new(&mut device, size).unwrap();
        let r = ReadbackBuffer::new(&mut device, size).unwrap();
        assert_eq!(d.get_size(), size);
        assert_eq!(u.get_size(), size);
        assert_eq!(r.get_size(), size);
        let rt = device.runtime_mut();
        d.destroy(rt);
        u.destroy(rt);
        r.destroy(rt);
    }
}

#[test]
fn failure_propagates_for_every_category() {
    let mut device = Device::new();
    device.set_failure(Some(WinError::new(-1)));
    assert_eq!(DefaultBuffer::new(&mut device, 32).unwrap_err().hresult(), -1);
    assert_eq!(UploadBuffer::new(&mut device, 32).unwrap_err().hresult(), -1);
    assert_eq!(ReadbackBuffer::new(&mut device, 32).unwrap_err().hresult(), -1);
    assert_eq!(device.runtime().num_objects(), 0);
    assert_eq!(device.requests().len(), 3);
    device.set_failure(None);
    let buffer = DefaultBuffer::new(&mut device, 32).unwrap();
    assert_eq!(device.runtime().num_objects(), 1);
    buffer.destroy(device.runtime_mut());
}

#[test]
fn access_models_are_mutually_exclusive() {
    let mut device = Device::new();
    let d = DefaultBuffer::new(&mut device, 8).unwrap();
    let u = UploadBuffer::new(&mut device, 8).unwrap();
    let r = ReadbackBuffer::new(&mut device, 8).unwrap();
    let models = [d.access(), u.access(), r.access()];
    assert_eq!(models[0], AccessModel::GpuOnly);
    assert_eq!(models[1], AccessModel::Upload);
    assert_eq!(models[2], AccessModel::Readback);
    for model in models {
        let claims = [
            model == AccessModel::GpuOnly,
            model == AccessModel::Upload,
            model == AccessModel::Readback,
        ];
        assert_eq!(claims.iter().filter(|c| **c).count(), 1);
    }
    let rt = device.runtime_mut();
    d.destroy(rt);
    u.destroy(rt);
    r.destroy(rt);
}

#[test]
fn placed_buffer_keeps_heap_and_offset() {
    let mut device = Device::new();
    let heap = TestHeap { capacity: 1 << 20 };
    let raw = device
        .create_placed_resource(&heap, 512, &ResourceDesc::buffer(256, 0), ResourceState::GenericRead)
        .unwrap();
    let request = device.requests()[0];
    assert_eq!(request.kind, RequestKind::Placed { offset: 512 });
    assert_eq!(request.width, 256);
    let ptr = raw.as_ptr();
    assert_eq!(device.runtime().live_count(ptr), 1);
    let mut buffer = PlacedBuffer::new(raw, heap, 512);
    assert_eq!(buffer.get_heap_offset(), 512);
    assert_eq!(buffer.as_raw().as_ptr(), ptr);
    buffer.get_placed_heap().capacity = 2 << 20;
    assert_eq!(buffer.get_heap_offset(), 512);
    let heap_back = buffer.destroy(device.runtime_mut());
    assert_eq!(heap_back.capacity, 2 << 20);
    assert_eq!(device.runtime().live_count(ptr), 0);
}

#[test]
fn placed_creation_failure_propagates() {
    let mut device = Device::new();
    device.set_failure(Some(WinError::new(-7)));
    let heap = TestHeap { capacity: 4096 };
    let err = device
        .create_placed_resource(&heap, 0, &ResourceDesc::buffer(64, 0), ResourceState::GenericRead)
        .unwrap_err();
    assert_eq!(err.hresult(), -7);
    assert_eq!(device.runtime().num_objects(), 0);
}

#[test]
fn device_captures_committed_arguments_exactly() {
    let mut device = Device::new();
    let raw = device
        .create_committed_resource(
            &HeapProperties::new(HeapType::Upload),
            3,
            &ResourceDesc::buffer(777, 9),
            ResourceState::CopyDest,
        )
        .unwrap();
    let request = device.requests()[0];
    assert_eq!(
        request.kind,
        RequestKind::Committed { heap_type: HeapType::Upload, heap_flags: 3 }
    );
    assert_eq!(request.width, 777);
    assert_eq!(request.flags, 9);
    assert_eq!(request.initial_state, ResourceState::CopyDest);
    raw.destroy(device.runtime_mut());
}

#[test]
fn as_raw_mut_aliases_the_owned_resource() {
    let mut device = Device::new();
    let mut buffer = DefaultBuffer::new(&mut device, 16).unwrap();
    let ptr = buffer.as_raw().as_ptr();
    assert_eq!(buffer.as_raw_mut().as_ptr(), ptr);
    buffer.destroy(device.runtime_mut());
}
