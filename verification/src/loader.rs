//! The two structures exchanged when the loader negotiates its interface
//! with the runtime.
use vstd::prelude::*;

use crate::codes::InterfaceStructs;

verus! {

/// Structure version of `NegotiateLoaderInfo` that this library speaks.
pub const LOADER_INFO_VERSION: u32 = 1;

/// Structure version of `NegotiateRuntimeRequest` that this library speaks.
pub const RUNTIME_REQUEST_VERSION: u32 = 1;

/// Lowest runtime API version the loader accepts (1.0.0).
pub const MIN_API_VERSION: u64 = 0x1_0000_0000_0000;

/// Highest runtime API version the loader accepts (1.1023.4095).
pub const MAX_API_VERSION: u64 = 0x1_03FF_0000_0FFF;

/// What the loader announces to the runtime: the range of interface and API
/// versions that it accepts.
///
/// The structure the runtime reads also records its own size in bytes; that
/// size belongs to the layout the runtime reads, so the code that lays the
/// structure out in memory writes it.
pub struct NegotiateLoaderInfo {
    pub struct_type: InterfaceStructs,
    pub version: u32,
    pub min_interface_version: u32,
    pub max_interface_version: u32,
    pub min_api_version: u64,
    pub max_api_version: u64,
}

impl Default for NegotiateLoaderInfo {
    /// The announcement of a loader that accepts interface version 1 and
    /// API versions from `MIN_API_VERSION` to `MAX_API_VERSION`.
    fn default() -> (r: Self)
        ensures
            r.struct_type == InterfaceStructs::LoaderInfo,
            r.version == LOADER_INFO_VERSION,
            r.min_interface_version == 1,
            r.max_interface_version == 1,
            r.min_api_version == MIN_API_VERSION,
            r.max_api_version == MAX_API_VERSION,
    {
        NegotiateLoaderInfo {
            struct_type: InterfaceStructs::LoaderInfo,
            version: LOADER_INFO_VERSION,
            min_interface_version: 1,
            max_interface_version: 1,
            min_api_version: MIN_API_VERSION,
            max_api_version: MAX_API_VERSION,
        }
    }
}

/// What the runtime answers: the interface and API version it chose and the
/// address of its `xrGetInstanceProcAddr` entry point, once filled in.
///
/// As with `NegotiateLoaderInfo`, the size in bytes that the structure
/// records is written by the code that lays it out in memory.
pub struct NegotiateRuntimeRequest {
    pub ty: InterfaceStructs,
    pub version: u32,
    pub runtime_interface_version: u32,
    pub runtime_api_version: u64,
    pub get_instance_proc_addr: Option<usize>,
}

impl Default for NegotiateRuntimeRequest {
    /// An empty request, ready for the runtime to fill in.
    fn default() -> (r: Self)
        ensures
            r.ty == InterfaceStructs::RuntimeRequest,
            r.version == RUNTIME_REQUEST_VERSION,
            r.runtime_interface_version == 0,
            r.runtime_api_version == 0,
            r.get_instance_proc_addr is None,
    {
        NegotiateRuntimeRequest {
            ty: InterfaceStructs::RuntimeRequest,
            version: RUNTIME_REQUEST_VERSION,
            runtime_interface_version: 0,
            runtime_api_version: 0,
            get_instance_proc_addr: None,
        }
    }
}

} // verus!
