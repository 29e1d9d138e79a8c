//! A safety-oriented model of a reference-counted graphics binding layer.
//!
//! The crate wraps refcounted native objects behind ownership-checked
//! handles and encodes, at the type level, which CPU/GPU access
//! operations are legal for a GPU buffer.  Native calls are represented
//! by a device collaborator that records every creation request, so the
//! lifetime and construction contracts can be stated and proved.

pub mod buffer;
pub mod comptr;
pub mod descriptor;
pub mod device;
pub mod error;
pub mod format;
pub mod resource;

pub use buffer::DefaultBuffer;
pub use buffer::PlacedBuffer;
pub use buffer::ReadbackBuffer;
pub use buffer::UploadBuffer;
pub use comptr::ComPtr;
pub use comptr::ComRuntime;
pub use descriptor::Shader4ComponentMapping;
pub use descriptor::ShaderComponentMapping;
pub use device::CreateRequest;
pub use device::Device;
pub use device::HeapProperties;
pub use device::HeapType;
pub use device::RequestKind;
pub use device::ResourceDesc;
pub use device::ResourceState;
pub use error::WinError;
pub use format::from_wchar_slice;
pub use format::Bool;
pub use format::Box3u;
pub use format::VideoMemInfo;
pub use resource::AccessModel;
pub use resource::Buffer;
pub use resource::GpuOnly;
pub use resource::Heap;
pub use resource::Placed;
pub use resource::RawResource;
pub use resource::Readback;
pub use resource::Resource;
pub use resource::Upload;
