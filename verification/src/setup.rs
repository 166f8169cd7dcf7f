//! Structures used while setting up a session: the system query, graphics
//! requirements, view configuration and swapchain creation.
use vstd::prelude::*;

use crate::codes::{FormFactor, StructureType};
use crate::types::{ApplicationInfo, SwapchainUsageFlags, LUID};

verus! {

/// An extension offered by the runtime, with its zero-padded name.
pub struct ExtensionProperties {
    pub ty: StructureType,
    pub extension_name: [u8; 128],
    pub extension_version: u32,
}

impl Default for ExtensionProperties {
    /// An empty record, ready for the runtime to fill in.
    fn default() -> (r: Self)
        ensures
            r.ty == StructureType::ExtensionProperties,
            forall|i: int| 0 <= i < 128 ==> #[trigger] r.extension_name@[i] == 0u8,
            r.extension_version == 0,
    {
        ExtensionProperties {
            ty: StructureType::ExtensionProperties,
            extension_name: [0u8; 128],
            extension_version: 0,
        }
    }
}

/// How an instance is created: the application it is for and how many API
/// layers and extensions it enables. The lists of their names are handed to
/// the runtime by the code that lays the structure out in memory.
pub struct InstanceCreateInfo {
    pub ty: StructureType,
    pub create_flags: u64,
    pub application_info: ApplicationInfo,
    pub api_layer_count: u32,
    pub extension_count: u32,
}

impl Default for InstanceCreateInfo {
    /// A record with every field zero.
    fn default() -> (r: Self)
        ensures
            r.ty == StructureType::InstanceCreateInfo,
            r.create_flags == 0,
            forall|i: int| 0 <= i < 128 ==> #[trigger] r.application_info.name@[i] == 0u8,
            r.application_info.version == 0,
            forall|i: int| 0 <= i < 128 ==> #[trigger] r.application_info.engine@[i] == 0u8,
            r.application_info.engine_version == 0,
            r.application_info.api == 0,
            r.api_layer_count == 0,
            r.extension_count == 0,
    {
        InstanceCreateInfo {
            ty: StructureType::InstanceCreateInfo,
            create_flags: 0,
            application_info: ApplicationInfo {
                name: [0u8; 128],
                version: 0,
                engine: [0u8; 128],
                engine_version: 0,
                api: 0,
            },
            api_layer_count: 0,
            extension_count: 0,
        }
    }
}

/// Where the remote device listens for a remoting connection. The host name
/// is handed to the runtime by the code that lays the structure out in memory.
pub struct RemotingConnectInfo {
    pub ty: StructureType,
    pub remote_port: u16,
    pub secure_connection: u32,
}

impl Default for RemotingConnectInfo {
    /// A record with every field zero.
    fn default() -> (r: Self)
        ensures
            r.ty == StructureType::RemotingConnectInfo,
            r.remote_port == 0,
            r.secure_connection == 0,
    {
        RemotingConnectInfo { ty: StructureType::RemotingConnectInfo, remote_port: 0, secure_connection: 0 }
    }
}

/// How a session is created on a system. The graphics binding is chained to
/// it by the code that lays the structure out in memory.
pub struct SessionCreateInfo {
    pub ty: StructureType,
    pub create_flags: u64,
    pub system: u64,
}

impl Default for SessionCreateInfo {
    /// A record with every field zero.
    fn default() -> (r: Self)
        ensures
            r.ty == StructureType::SessionCreateInfo,
            r.create_flags == 0,
            r.system == 0,
    {
        SessionCreateInfo { ty: StructureType::SessionCreateInfo, create_flags: 0, system: 0 }
    }
}

/// How a session is begun: the view configuration it renders, by its code
/// (a `ViewConfigurationType` code, or 0 in a fresh record, which names none).
pub struct SessionBeginInfo {
    pub ty: StructureType,
    pub primary_view_configuration_type: i32,
}

impl Default for SessionBeginInfo {
    /// A record with every field zero.
    fn default() -> (r: Self)
        ensures
            r.ty == StructureType::SessionBeginInfo,
            r.primary_view_configuration_type == 0,
    {
        SessionBeginInfo { ty: StructureType::SessionBeginInfo, primary_view_configuration_type: 0 }
    }
}

/// One image of a swapchain; the texture it stands for is a graphics object
/// that only the code laying the structure out in memory handles.
pub struct SwapchainImageD3D12 {
    pub ty: StructureType,
}

impl Default for SwapchainImageD3D12 {
    fn default() -> (r: Self)
        ensures
            r.ty == StructureType::SwapchainImageD3D12,
    {
        SwapchainImageD3D12 { ty: StructureType::SwapchainImageD3D12 }
    }
}

/// Asks for a system of a given form factor.
pub struct SystemGetInfo {
    pub ty: StructureType,
    pub form_factor: FormFactor,
}

impl Default for SystemGetInfo {
    /// Asks for a head-mounted system.
    fn default() -> (r: Self)
        ensures
            r.ty == StructureType::SystemGetInfo,
            r.form_factor == FormFactor::HeadMounted,
    {
        SystemGetInfo { ty: StructureType::SystemGetInfo, form_factor: FormFactor::default() }
    }
}

/// The graphics adapter and feature level a system needs.
pub struct GraphicsRequirementsD3D12 {
    pub ty: StructureType,
    pub adapter: LUID,
    pub min_feature_level: i32,
}

impl Default for GraphicsRequirementsD3D12 {
    /// An empty record, ready for the runtime to fill in.
    fn default() -> (r: Self)
        ensures
            r.ty == StructureType::GraphicsRequirementsD3D12,
            r.adapter == (LUID { low: 0, high: 0 }),
            r.min_feature_level == 0,
    {
        GraphicsRequirementsD3D12 {
            ty: StructureType::GraphicsRequirementsD3D12,
            adapter: LUID { low: 0, high: 0 },
            min_feature_level: 0,
        }
    }
}

/// Recommended and largest image sizes and sample counts of one view.
#[derive(Debug, Clone, Copy, PartialEq, Eq, Structural)]
pub struct ViewConfigurationView {
    pub ty: StructureType,
    pub recommended_image_rect_width: u32,
    pub max_image_rect_width: u32,
    pub recommended_image_rect_height: u32,
    pub max_image_rect_height: u32,
    pub recommended_swapchain_sample_count: u32,
    pub max_swapchain_sample_count: u32,
}

impl Default for ViewConfigurationView {
    /// An empty record, ready for the runtime to fill in.
    fn default() -> (r: Self)
        ensures
            r == (ViewConfigurationView {
                ty: StructureType::ViewConfigurationView,
                recommended_image_rect_width: 0,
                max_image_rect_width: 0,
                recommended_image_rect_height: 0,
                max_image_rect_height: 0,
                recommended_swapchain_sample_count: 0,
                max_swapchain_sample_count: 0,
            }),
    {
        ViewConfigurationView {
            ty: StructureType::ViewConfigurationView,
            recommended_image_rect_width: 0,
            max_image_rect_width: 0,
            recommended_image_rect_height: 0,
            max_image_rect_height: 0,
            recommended_swapchain_sample_count: 0,
            max_swapchain_sample_count: 0,
        }
    }
}

/// The image size to render at, for a stereo configuration: its two views
/// must be alike, and their recommended width and height are used. `None`
/// when there are not exactly two views or they differ.
pub fn recommended_image_size(views: &[ViewConfigurationView]) -> (r: Option<(u32, u32)>)
    ensures
        r is Some <==> (views@.len() == 2 && views@[0] == views@[1]),
        r matches Some((width, height)) ==> width == views@[0].recommended_image_rect_width
            && height == views@[0].recommended_image_rect_height,
{
    if views.len() != 2 {
        return None;
    }
    if views[0] != views[1] {
        return None;
    }
    Some((views[0].recommended_image_rect_width, views[0].recommended_image_rect_height))
}

/// How a swapchain is to be created.
pub struct SwapchainCreateInfo {
    pub ty: StructureType,
    pub create_flags: u64,
    pub usage_flags: u64,
    pub format: i64,
    pub sample_count: u32,
    pub width: u32,
    pub height: u32,
    pub face_count: u32,
    pub array_size: u32,
    pub mip_count: u32,
}

impl Default for SwapchainCreateInfo {
    /// A record with every field zero.
    fn default() -> (r: Self)
        ensures
            r.ty == StructureType::SwapchainCreateInfo,
            r.create_flags == 0,
            r.usage_flags == 0,
            r.format == 0,
            r.sample_count == 0,
            r.width == 0,
            r.height == 0,
            r.face_count == 0,
            r.array_size == 0,
            r.mip_count == 0,
    {
        SwapchainCreateInfo {
            ty: StructureType::SwapchainCreateInfo,
            create_flags: 0,
            usage_flags: 0,
            format: 0,
            sample_count: 0,
            width: 0,
            height: 0,
            face_count: 0,
            array_size: 0,
            mip_count: 0,
        }
    }
}

impl SwapchainCreateInfo {
    /// A single-sampled, single-layer, single-level swapchain of
    /// `width` by `height` images in `format`, rendered to and sampled.
    pub fn color_target(format: i64, width: u32, height: u32) -> (r: Self)
        ensures
            r.ty == StructureType::SwapchainCreateInfo,
            r.create_flags == 0,
            r.usage_flags == SwapchainUsageFlags::ColorAttachment | SwapchainUsageFlags::Sampled,
            r.format == format,
            r.sample_count == 1,
            r.width == width,
            r.height == height,
            r.face_count == 1,
            r.array_size == 1,
            r.mip_count == 1,
    {
        SwapchainCreateInfo {
            ty: StructureType::SwapchainCreateInfo,
            create_flags: 0,
            usage_flags: SwapchainUsageFlags::ColorAttachment | SwapchainUsageFlags::Sampled,
            format,
            sample_count: 1,
            width,
            height,
            face_count: 1,
            array_size: 1,
            mip_count: 1,
        }
    }
}

} // verus!
