use lib::codes::{
    EnvironmentBlendMode, FormFactor, InterfaceStructs, ReferenceSpaceType, Result, SessionState,
    StructureType, ViewConfigurationType,
};

#[test]
fn result_success_is_zero() {
    assert_eq!(Result::Success.code(), 0);
    assert_eq!(Result::from_code(0), Some(Result::Success));
    assert_eq!(Result::from_code(-1), None);
}

#[test]
fn structure_type_codes() {
    assert_eq!(StructureType::Unknown.code(), 0);
    assert_eq!(StructureType::ViewLocateInfo.code(), 6);
    assert_eq!(StructureType::EventDataBuffer.code(), 16);
    assert_eq!(StructureType::SessionStateChanged.code(), 18);
    assert_eq!(StructureType::FrameWaitInfo.code(), 33);
    assert_eq!(StructureType::SwapchainImageReleaseInfo.code(), 57);
    assert_eq!(StructureType::GraphicsBindingD3D12.code(), 1000028000);
    assert_eq!(StructureType::GraphicsRequirementsD3D12.code(), 1000028002);
    assert_eq!(StructureType::RemotingConnectInfo.code(), 1000065001);
    assert_eq!(StructureType::RemotingConnected.code(), 1000065005);
    assert_eq!(StructureType::RemotingDisconnected.code(), 1000065006);
    assert_eq!(StructureType::RemotingTimestampConversionReady.code(), 1000065007);
}

#[test]
fn structure_type_gaps_decode_to_none() {
    assert_eq!(StructureType::from_code(5), None);
    assert_eq!(StructureType::from_code(13), None);
    assert_eq!(StructureType::from_code(34), None);
    assert_eq!(StructureType::from_code(1000065000), None);
    assert_eq!(StructureType::from_code(-16), None);
}

#[test]
fn structure_type_round_trip() {
    let all = [
        StructureType::Unknown,
        StructureType::ApiLayerProperties,
        StructureType::ExtensionProperties,
        StructureType::InstanceCreateInfo,
        StructureType::SystemGetInfo,
        StructureType::ViewLocateInfo,
        StructureType::View,
        StructureType::SessionCreateInfo,
        StructureType::SwapchainCreateInfo,
        StructureType::SessionBeginInfo,
        StructureType::ViewState,
        StructureType::FrameEndInfo,
        StructureType::EventDataBuffer,
        StructureType::InstanceLossPending,
        StructureType::SessionStateChanged,
        StructureType::FrameWaitInfo,
        StructureType::CompositionLayerProjection,
        StructureType::ReferenceSpaceCreateInfo,
        StructureType::ViewConfigurationView,
        StructureType::FrameState,
        StructureType::FrameBeginInfo,
        StructureType::CompositionLayerProjectionView,
        StructureType::SwapchainImageAcquireInfo,
        StructureType::SwapchainImageWaitInfo,
        StructureType::SwapchainImageReleaseInfo,
        StructureType::GraphicsBindingD3D12,
        StructureType::SwapchainImageD3D12,
        StructureType::GraphicsRequirementsD3D12,
        StructureType::RemotingConnectInfo,
        StructureType::RemotingConnected,
        StructureType::RemotingDisconnected,
        StructureType::RemotingTimestampConversionReady,
    ];
    for (i, t) in all.iter().enumerate() {
        assert_eq!(StructureType::from_code(t.code()), Some(*t));
        for u in all.iter().skip(i + 1) {
            assert_ne!(t.code(), u.code());
        }
    }
}

#[test]
fn interface_structs_codes() {
    assert_eq!(InterfaceStructs::Uninitialized.code(), 0);
    assert_eq!(InterfaceStructs::LoaderInfo.code(), 1);
    assert_eq!(InterfaceStructs::RuntimeRequest.code(), 3);
    assert_eq!(InterfaceStructs::ApiLayerNextInfo.code(), 5);
    assert_eq!(InterfaceStructs::from_code(2), Some(InterfaceStructs::ApiLayerRequest));
    assert_eq!(InterfaceStructs::from_code(6), None);
}

#[test]
fn form_factor_codes_and_default() {
    assert_eq!(FormFactor::HeadMounted.code(), 1);
    assert_eq!(FormFactor::Handheld.code(), 2);
    assert_eq!(FormFactor::from_code(0), None);
    assert_eq!(FormFactor::default(), FormFactor::HeadMounted);
}

#[test]
fn view_configuration_type_codes() {
    assert_eq!(ViewConfigurationType::Mono.code(), 1);
    assert_eq!(ViewConfigurationType::Stereo.code(), 2);
    assert_eq!(ViewConfigurationType::from_code(2), Some(ViewConfigurationType::Stereo));
    assert_eq!(ViewConfigurationType::from_code(3), None);
}

#[test]
fn reference_space_type_codes() {
    assert_eq!(ReferenceSpaceType::View.code(), 1);
    assert_eq!(ReferenceSpaceType::Local.code(), 2);
    assert_eq!(ReferenceSpaceType::Stage.code(), 3);
    assert_eq!(ReferenceSpaceType::from_code(0), None);
}

#[test]
fn session_state_codes() {
    let all = [
        SessionState::Unknown,
        SessionState::Idle,
        SessionState::Ready,
        SessionState::Synchronized,
        SessionState::Visible,
        SessionState::Focused,
        SessionState::Stopping,
        SessionState::LossPending,
        SessionState::Exiting,
    ];
    for (i, s) in all.iter().enumerate() {
        assert_eq!(s.code(), i as i32);
        assert_eq!(SessionState::from_code(i as i32), Some(*s));
    }
    assert_eq!(SessionState::from_code(9), None);
}

#[test]
fn environment_blend_mode_codes() {
    assert_eq!(EnvironmentBlendMode::Opaque.code(), 1);
    assert_eq!(EnvironmentBlendMode::Additive.code(), 2);
    assert_eq!(EnvironmentBlendMode::AlphaBlend.code(), 3);
    assert_eq!(EnvironmentBlendMode::from_code(4), None);
}
