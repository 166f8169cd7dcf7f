//! Structures of the frame loop and the decision whether a frame is drawn.
use vstd::prelude::*;

use crate::codes::StructureType;
use crate::types::Space;

verus! {

/// A timeout that never expires.
pub const INFINITE_DURATION: i64 = 0x7fff_ffff_ffff_ffff;

/// Parameters of waiting for the next frame; it has none besides its type.
pub struct FrameWaitInfo {
    pub ty: StructureType,
}

impl Default for FrameWaitInfo {
    fn default() -> (r: Self)
        ensures
            r.ty == StructureType::FrameWaitInfo,
    {
        FrameWaitInfo { ty: StructureType::FrameWaitInfo }
    }
}

/// When the next frame will be displayed, and whether it should be drawn.
pub struct FrameState {
    pub ty: StructureType,
    pub predicted_display_time: i64,
    pub predicted_display_period: i64,
    pub should_render: u32,
}

impl Default for FrameState {
    /// An empty record, ready for the runtime to fill in.
    fn default() -> (r: Self)
        ensures
            r.ty == StructureType::FrameState,
            r.predicted_display_time == 0,
            r.predicted_display_period == 0,
            r.should_render == 0,
    {
        FrameState {
            ty: StructureType::FrameState,
            predicted_display_time: 0,
            predicted_display_period: 0,
            should_render: 0,
        }
    }
}

/// Parameters of beginning a frame; it has none besides its type.
pub struct FrameBeginInfo {
    pub ty: StructureType,
}

impl Default for FrameBeginInfo {
    fn default() -> (r: Self)
        ensures
            r.ty == StructureType::FrameBeginInfo,
    {
        FrameBeginInfo { ty: StructureType::FrameBeginInfo }
    }
}

/// Parameters of acquiring a swapchain image; it has none besides its type.
pub struct SwapchainImageAcquireInfo {
    pub ty: StructureType,
}

impl Default for SwapchainImageAcquireInfo {
    fn default() -> (r: Self)
        ensures
            r.ty == StructureType::SwapchainImageAcquireInfo,
    {
        SwapchainImageAcquireInfo { ty: StructureType::SwapchainImageAcquireInfo }
    }
}

/// How long to wait for an acquired swapchain image to become writable.
pub struct SwapchainImageWaitInfo {
    pub ty: StructureType,
    pub timeout: i64,
}

impl Default for SwapchainImageWaitInfo {
    /// A wait with a zero timeout.
    fn default() -> (r: Self)
        ensures
            r.ty == StructureType::SwapchainImageWaitInfo,
            r.timeout == 0,
    {
        SwapchainImageWaitInfo { ty: StructureType::SwapchainImageWaitInfo, timeout: 0 }
    }
}

/// Parameters of releasing a swapchain image; it has none besides its type.
pub struct SwapchainImageReleaseInfo {
    pub ty: StructureType,
}

impl Default for SwapchainImageReleaseInfo {
    fn default() -> (r: Self)
        ensures
            r.ty == StructureType::SwapchainImageReleaseInfo,
    {
        SwapchainImageReleaseInfo { ty: StructureType::SwapchainImageReleaseInfo }
    }
}

/// Which parts of the located views are valid and tracked.
pub struct ViewState {
    pub ty: StructureType,
    pub view_state_flags: u32,
}

impl Default for ViewState {
    /// An empty record, ready for the runtime to fill in.
    fn default() -> (r: Self)
        ensures
            r.ty == StructureType::ViewState,
            r.view_state_flags == 0,
    {
        ViewState { ty: StructureType::ViewState, view_state_flags: 0 }
    }
}

/// Where and when the views are to be located: the view configuration by its
/// code (0 in a fresh record, which names none), the display time and the
/// space the poses are given in.
pub struct ViewLocateInfo {
    pub ty: StructureType,
    pub view_configuration_type: i32,
    pub display_time: i64,
    pub space: Space,
}

impl Default for ViewLocateInfo {
    /// A record with every field zero.
    fn default() -> (r: Self)
        ensures
            r.ty == StructureType::ViewLocateInfo,
            r.view_configuration_type == 0,
            r.display_time == 0,
            r.space == 0,
    {
        ViewLocateInfo { ty: StructureType::ViewLocateInfo, view_configuration_type: 0, display_time: 0, space: 0 }
    }
}

/// How a frame ends: its display time, the blend mode by its code (an
/// `EnvironmentBlendMode` code, or 0 in a fresh record, which names none) and
/// how many layers it shows. The layers themselves are handed to the runtime
/// by the code that lays the structure out in memory.
pub struct FrameEndInfo {
    pub ty: StructureType,
    pub display_time: i64,
    pub environment_blend_mode: i32,
    pub layer_count: u32,
}

impl Default for FrameEndInfo {
    /// A record with every field zero.
    fn default() -> (r: Self)
        ensures
            r.ty == StructureType::FrameEndInfo,
            r.display_time == 0,
            r.environment_blend_mode == 0,
            r.layer_count == 0,
    {
        FrameEndInfo { ty: StructureType::FrameEndInfo, display_time: 0, environment_blend_mode: 0, layer_count: 0 }
    }
}

/// A projection layer: its flags, the space of its views and how many views
/// it has. The views themselves, which hold poses and fields of view, are
/// handed to the runtime by the code that lays the structure out in memory.
pub struct CompositionLayerProjection {
    pub ty: StructureType,
    pub layer_flags: u32,
    pub space: Space,
    pub view_count: u32,
}

impl Default for CompositionLayerProjection {
    /// A record with every field zero.
    fn default() -> (r: Self)
        ensures
            r.ty == StructureType::CompositionLayerProjection,
            r.layer_flags == 0,
            r.space == 0,
            r.view_count == 0,
    {
        CompositionLayerProjection { ty: StructureType::CompositionLayerProjection, layer_flags: 0, space: 0, view_count: 0 }
    }
}

/// What the client does with a frame it has waited for and begun.
#[derive(Debug, Clone, Copy, PartialEq, Eq, Structural)]
pub enum FramePlan {
    /// End the frame at `display_time` without any layer.
    Skip { display_time: i64 },
    /// Draw the frame and end it at `display_time` with its layer.
    Draw { display_time: i64 },
}

/// Decides whether a frame is drawn: only when the runtime asks for it,
/// and in either case it ends at the predicted display time.
pub fn plan_frame(state: &FrameState) -> (plan: FramePlan)
    ensures
        plan == (if state.should_render == 0 {
            FramePlan::Skip { display_time: state.predicted_display_time }
        } else {
            FramePlan::Draw { display_time: state.predicted_display_time }
        }),
{
    if state.should_render == 0 {
        FramePlan::Skip { display_time: state.predicted_display_time }
    } else {
        FramePlan::Draw { display_time: state.predicted_display_time }
    }
}

} // verus!
