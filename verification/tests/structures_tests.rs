use lib::codes::{FormFactor, InterfaceStructs, StructureType};
use lib::frame::{
    plan_frame, CompositionLayerProjection, FrameEndInfo, ViewLocateInfo, FrameBeginInfo, FramePlan, FrameState, FrameWaitInfo, SwapchainImageAcquireInfo,
    SwapchainImageReleaseInfo, SwapchainImageWaitInfo, ViewState, INFINITE_DURATION,
};
use lib::loader::{NegotiateLoaderInfo, NegotiateRuntimeRequest};
use lib::setup::{
    recommended_image_size, ExtensionProperties, GraphicsRequirementsD3D12, InstanceCreateInfo,
    RemotingConnectInfo, SessionBeginInfo, SessionCreateInfo, SwapchainCreateInfo, SwapchainImageD3D12,
    SystemGetInfo, ViewConfigurationView,
};
use lib::types::{name_field, ApplicationInfo, SwapchainSubImage, SwapchainUsageFlags, LUID};

#[test]
fn loader_info_default() {
    let info = NegotiateLoaderInfo::default();
    assert_eq!(info.struct_type.code(), InterfaceStructs::LoaderInfo.code());
    assert_eq!(info.version, 1);
    assert_eq!(info.min_interface_version, 1);
    assert_eq!(info.max_interface_version, 1);
    assert_eq!(info.min_api_version, 0x1_0000_0000_0000);
    assert_eq!(info.max_api_version, 0x1_03FF_0000_0FFF);
}

#[test]
fn runtime_request_default() {
    let request = NegotiateRuntimeRequest::default();
    assert_eq!(request.ty.code(), InterfaceStructs::RuntimeRequest.code());
    assert_eq!(request.version, 1);
    assert_eq!(request.runtime_interface_version, 0);
    assert_eq!(request.runtime_api_version, 0);
    assert!(request.get_instance_proc_addr.is_none());
}

#[test]
fn name_field_pads_with_zeros() {
    let field = name_field(b"IR\0");
    assert_eq!(&field[..3], b"IR\0");
    assert!(field[3..].iter().all(|b| *b == 0));
    let full = [7u8; 128];
    assert_eq!(name_field(&full), full);
    assert_eq!(name_field(b""), [0u8; 128]);
}

#[test]
fn application_info_new() {
    let info = ApplicationInfo::new(b"IR\0", 3, b"Rust\0", 4, 0x1_0000_0000_0025);
    assert_eq!(&info.name[..4], b"IR\0\0");
    assert_eq!(&info.engine[..5], b"Rust\0");
    assert!(info.engine[5..].iter().all(|b| *b == 0));
    assert_eq!(info.version, 3);
    assert_eq!(info.engine_version, 4);
    assert_eq!(info.api, 0x1_0000_0000_0025);
}

#[test]
fn swapchain_usage_flags_values() {
    assert_eq!(SwapchainUsageFlags::ColorAttachment, 1 << 0);
    assert_eq!(SwapchainUsageFlags::Sampled, 1 << 5);
}

#[test]
fn whole_sub_image() {
    let sub = SwapchainSubImage::whole(9, 1440, 936);
    assert_eq!(sub.swapchain, 9);
    assert_eq!(sub.image_rect.offset.x, 0);
    assert_eq!(sub.image_rect.offset.y, 0);
    assert_eq!(sub.image_rect.extent.width, 1440);
    assert_eq!(sub.image_rect.extent.height, 936);
    assert_eq!(sub.image_array_index, 0);
    let wrapped = SwapchainSubImage::whole(1, 0x8000_0000, 0xFFFF_FFFF);
    assert_eq!(wrapped.image_rect.extent.width, i32::MIN);
    assert_eq!(wrapped.image_rect.extent.height, -1);
}

#[test]
fn system_and_requirements_defaults() {
    let get = SystemGetInfo::default();
    assert_eq!(get.ty, StructureType::SystemGetInfo);
    assert_eq!(get.form_factor, FormFactor::HeadMounted);
    let req = GraphicsRequirementsD3D12::default();
    assert_eq!(req.ty, StructureType::GraphicsRequirementsD3D12);
    assert_eq!(req.adapter, LUID { low: 0, high: 0 });
    assert_eq!(req.min_feature_level, 0);
}

fn view(width: u32, height: u32) -> ViewConfigurationView {
    ViewConfigurationView {
        recommended_image_rect_width: width,
        recommended_image_rect_height: height,
        max_image_rect_width: 4096,
        max_image_rect_height: 4096,
        recommended_swapchain_sample_count: 1,
        max_swapchain_sample_count: 4,
        ..ViewConfigurationView::default()
    }
}

#[test]
fn view_configuration_view_default() {
    let v = ViewConfigurationView::default();
    assert_eq!(v.ty, StructureType::ViewConfigurationView);
    assert_eq!(v.recommended_image_rect_width, 0);
    assert_eq!(v.max_swapchain_sample_count, 0);
}

#[test]
fn recommended_size_of_two_equal_views() {
    assert_eq!(recommended_image_size(&[view(1440, 936), view(1440, 936)]), Some((1440, 936)));
}

#[test]
fn recommended_size_rejects_other_shapes() {
    assert_eq!(recommended_image_size(&[]), None);
    assert_eq!(recommended_image_size(&[view(1440, 936)]), None);
    assert_eq!(recommended_image_size(&[view(1440, 936), view(1440, 900)]), None);
    assert_eq!(recommended_image_size(&[view(10, 10), view(10, 10), view(10, 10)]), None);
}

#[test]
fn swapchain_create_info_default_and_color_target() {
    let d = SwapchainCreateInfo::default();
    assert_eq!(d.ty, StructureType::SwapchainCreateInfo);
    assert_eq!((d.usage_flags, d.width, d.mip_count), (0, 0, 0));
    let c = SwapchainCreateInfo::color_target(28, 1440, 936);
    assert_eq!(c.ty, StructureType::SwapchainCreateInfo);
    assert_eq!(c.create_flags, 0);
    assert_eq!(c.usage_flags, 0x21);
    assert_eq!(c.format, 28);
    assert_eq!((c.sample_count, c.face_count, c.array_size, c.mip_count), (1, 1, 1, 1));
    assert_eq!((c.width, c.height), (1440, 936));
}

#[test]
fn frame_record_defaults() {
    assert_eq!(FrameWaitInfo::default().ty, StructureType::FrameWaitInfo);
    assert_eq!(FrameBeginInfo::default().ty, StructureType::FrameBeginInfo);
    assert_eq!(SwapchainImageAcquireInfo::default().ty, StructureType::SwapchainImageAcquireInfo);
    assert_eq!(SwapchainImageReleaseInfo::default().ty, StructureType::SwapchainImageReleaseInfo);
    let wait = SwapchainImageWaitInfo::default();
    assert_eq!(wait.ty, StructureType::SwapchainImageWaitInfo);
    assert_eq!(wait.timeout, 0);
    let vs = ViewState::default();
    assert_eq!(vs.ty, StructureType::ViewState);
    assert_eq!(vs.view_state_flags, 0);
    let fs = FrameState::default();
    assert_eq!(fs.ty, StructureType::FrameState);
    assert_eq!((fs.predicted_display_time, fs.predicted_display_period, fs.should_render), (0, 0, 0));
    assert_eq!(INFINITE_DURATION, i64::MAX);
}

#[test]
fn plan_frame_follows_should_render() {
    let skip = FrameState { should_render: 0, predicted_display_time: 1234, ..FrameState::default() };
    assert_eq!(plan_frame(&skip), FramePlan::Skip { display_time: 1234 });
    let draw = FrameState { should_render: 1, predicted_display_time: 99, ..FrameState::default() };
    assert_eq!(plan_frame(&draw), FramePlan::Draw { display_time: 99 });
}

#[test]
fn pointer_record_defaults() {
    let ext = ExtensionProperties::default();
    assert_eq!(ext.ty, StructureType::ExtensionProperties);
    assert_eq!(ext.extension_name, [0u8; 128]);
    assert_eq!(ext.extension_version, 0);
    let inst = InstanceCreateInfo::default();
    assert_eq!(inst.ty, StructureType::InstanceCreateInfo);
    assert_eq!(inst.create_flags, 0);
    assert_eq!(inst.application_info.name, [0u8; 128]);
    assert_eq!(inst.application_info.engine, [0u8; 128]);
    assert_eq!((inst.application_info.version, inst.application_info.engine_version, inst.application_info.api), (0, 0, 0));
    assert_eq!((inst.api_layer_count, inst.extension_count), (0, 0));
    let remote = RemotingConnectInfo::default();
    assert_eq!(remote.ty, StructureType::RemotingConnectInfo);
    assert_eq!((remote.remote_port, remote.secure_connection), (0, 0));
    let session = SessionCreateInfo::default();
    assert_eq!(session.ty, StructureType::SessionCreateInfo);
    assert_eq!((session.create_flags, session.system), (0, 0));
    assert_eq!(SwapchainImageD3D12::default().ty, StructureType::SwapchainImageD3D12);
}

#[test]
fn zeroed_record_defaults() {
    let begin = SessionBeginInfo::default();
    assert_eq!(begin.ty, StructureType::SessionBeginInfo);
    assert_eq!(begin.primary_view_configuration_type, 0);
    let locate = ViewLocateInfo::default();
    assert_eq!(locate.ty, StructureType::ViewLocateInfo);
    assert_eq!((locate.view_configuration_type, locate.display_time, locate.space), (0, 0, 0));
    let end = FrameEndInfo::default();
    assert_eq!(end.ty, StructureType::FrameEndInfo);
    assert_eq!((end.display_time, end.environment_blend_mode, end.layer_count), (0, 0, 0));
    let layer = CompositionLayerProjection::default();
    assert_eq!(layer.ty, StructureType::CompositionLayerProjection);
    assert_eq!((layer.layer_flags, layer.space, layer.view_count), (0, 0, 0));
}
