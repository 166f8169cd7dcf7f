//! Enumerations of the runtime interface and their numeric codes.
//!
//! Each enumeration maps its variants one to one onto 32-bit codes; `code`
//! gives the code of a variant and `from_code` finds the variant of a code.
use vstd::prelude::*;

verus! {

/// Outcome code returned by every runtime entry point.
#[derive(Debug, Clone, Copy, PartialEq, Eq, Structural)]
pub enum Result {
    Success,
}

impl Result {
    /// The numeric code of the variant.
    pub open spec fn code_of(self) -> i32 {
        match self {
            Result::Success => 0,
        }
    }

    /// The variant whose code is `c`, if any variant has it.
    pub open spec fn with_code(c: i32) -> Option<Self> {
        if exists|x: Self| x.code_of() == c {
            Some(choose|x: Self| x.code_of() == c)
        } else {
            None
        }
    }

    /// Returns the numeric code of the variant.
    pub fn code(&self) -> (c: i32)
        ensures
            c == self.code_of(),
    {
        match self {
            Result::Success => 0,
        }
    }

    /// Returns the variant whose code is `c`, or `None` when no variant has it.
    pub fn from_code(c: i32) -> (r: Option<Self>)
        ensures
            r == Self::with_code(c),
            forall|x: Self| #[trigger] x.code_of() == c <==> r == Some(x),
    {
        proof {
            Self::lemma_code_injective();
        }
        if c == 0 {
            assert(Result::Success.code_of() == c);
            Some(Result::Success)
        } else {
            None
        }
    }

    /// Distinct variants have distinct codes.
    pub proof fn lemma_code_injective()
        ensures
            forall|x: Result, y: Result| #[trigger] x.code_of() == #[trigger] y.code_of() ==> x == y,
    {
    }

    /// Decoding the code of a variant gives that variant back, and a decoded
    /// variant has the code it was decoded from.
    /// The code of every variant, as the runtime interface numbers them.
    pub proof fn lemma_code_table()
        ensures
            Result::Success.code_of() == 0,
    {
    }

    pub proof fn lemma_code_round_trip(x: Self, c: i32)
        ensures
            Self::with_code(x.code_of()) == Some(x),
            Self::with_code(c) matches Some(y) ==> y.code_of() == c,
    {
        Self::lemma_code_injective();
    }
}

/// Kind tag of the structures exchanged while the loader negotiates with the runtime.
#[derive(Debug, Clone, Copy, PartialEq, Eq, Structural)]
pub enum InterfaceStructs {
    Uninitialized,
    LoaderInfo,
    ApiLayerRequest,
    RuntimeRequest,
    ApiLayerCreateInfo,
    ApiLayerNextInfo,
}

impl InterfaceStructs {
    /// The numeric code of the variant.
    pub open spec fn code_of(self) -> i32 {
        match self {
            InterfaceStructs::Uninitialized => 0,
            InterfaceStructs::LoaderInfo => 1,
            InterfaceStructs::ApiLayerRequest => 2,
            InterfaceStructs::RuntimeRequest => 3,
            InterfaceStructs::ApiLayerCreateInfo => 4,
            InterfaceStructs::ApiLayerNextInfo => 5,
        }
    }

    /// The variant whose code is `c`, if any variant has it.
    pub open spec fn with_code(c: i32) -> Option<Self> {
        if exists|x: Self| x.code_of() == c {
            Some(choose|x: Self| x.code_of() == c)
        } else {
            None
        }
    }

    /// Returns the numeric code of the variant.
    pub fn code(&self) -> (c: i32)
        ensures
            c == self.code_of(),
    {
        match self {
            InterfaceStructs::Uninitialized => 0,
            InterfaceStructs::LoaderInfo => 1,
            InterfaceStructs::ApiLayerRequest => 2,
            InterfaceStructs::RuntimeRequest => 3,
            InterfaceStructs::ApiLayerCreateInfo => 4,
            InterfaceStructs::ApiLayerNextInfo => 5,
        }
    }

    /// Returns the variant whose code is `c`, or `None` when no variant has it.
    pub fn from_code(c: i32) -> (r: Option<Self>)
        ensures
            r == Self::with_code(c),
            forall|x: Self| #[trigger] x.code_of() == c <==> r == Some(x),
    {
        proof {
            Self::lemma_code_injective();
        }
        if c == 0 {
            assert(InterfaceStructs::Uninitialized.code_of() == c);
            Some(InterfaceStructs::Uninitialized)
        } else if c == 1 {
            assert(InterfaceStructs::LoaderInfo.code_of() == c);
            Some(InterfaceStructs::LoaderInfo)
        } else if c == 2 {
            assert(InterfaceStructs::ApiLayerRequest.code_of() == c);
            Some(InterfaceStructs::ApiLayerRequest)
        } else if c == 3 {
            assert(InterfaceStructs::RuntimeRequest.code_of() == c);
            Some(InterfaceStructs::RuntimeRequest)
        } else if c == 4 {
            assert(InterfaceStructs::ApiLayerCreateInfo.code_of() == c);
            Some(InterfaceStructs::ApiLayerCreateInfo)
        } else if c == 5 {
            assert(InterfaceStructs::ApiLayerNextInfo.code_of() == c);
            Some(InterfaceStructs::ApiLayerNextInfo)
        } else {
            None
        }
    }

    /// Distinct variants have distinct codes.
    pub proof fn lemma_code_injective()
        ensures
            forall|x: InterfaceStructs, y: InterfaceStructs| #[trigger] x.code_of() == #[trigger] y.code_of() ==> x == y,
    {
    }

    /// Decoding the code of a variant gives that variant back, and a decoded
    /// variant has the code it was decoded from.
    /// The code of every variant, as the runtime interface numbers them.
    pub proof fn lemma_code_table()
        ensures
            InterfaceStructs::Uninitialized.code_of() == 0,
            InterfaceStructs::LoaderInfo.code_of() == 1,
            InterfaceStructs::ApiLayerRequest.code_of() == 2,
            InterfaceStructs::RuntimeRequest.code_of() == 3,
            InterfaceStructs::ApiLayerCreateInfo.code_of() == 4,
            InterfaceStructs::ApiLayerNextInfo.code_of() == 5,
    {
    }

    pub proof fn lemma_code_round_trip(x: Self, c: i32)
        ensures
            Self::with_code(x.code_of()) == Some(x),
            Self::with_code(c) matches Some(y) ==> y.code_of() == c,
    {
        Self::lemma_code_injective();
    }
}

/// Kind tag that opens every structure passed to or filled by the runtime.
#[derive(Debug, Clone, Copy, PartialEq, Eq, Structural)]
pub enum StructureType {
    Unknown,
    ApiLayerProperties,
    ExtensionProperties,
    InstanceCreateInfo,
    SystemGetInfo,
    ViewLocateInfo,
    View,
    SessionCreateInfo,
    SwapchainCreateInfo,
    SessionBeginInfo,
    ViewState,
    FrameEndInfo,
    EventDataBuffer,
    InstanceLossPending,
    SessionStateChanged,
    FrameWaitInfo,
    CompositionLayerProjection,
    ReferenceSpaceCreateInfo,
    ViewConfigurationView,
    FrameState,
    FrameBeginInfo,
    CompositionLayerProjectionView,
    SwapchainImageAcquireInfo,
    SwapchainImageWaitInfo,
    SwapchainImageReleaseInfo,
    GraphicsBindingD3D12,
    SwapchainImageD3D12,
    GraphicsRequirementsD3D12,
    RemotingConnectInfo,
    /// Event: the remote side has connected
    /// (`XR_TYPE_REMOTING_EVENT_DATA_CONNECTED_MSFT` of the holographic
    /// remoting extension, `openxr_msft_holographic_remoting.h`).
    RemotingConnected,
    /// Event: the remote side has disconnected
    /// (`XR_TYPE_REMOTING_EVENT_DATA_DISCONNECTED_MSFT`, same header).
    RemotingDisconnected,
    /// Event: the runtime can now convert remote timestamps
    /// (`XR_TYPE_REMOTING_EVENT_DATA_TIMESTAMP_CONVERSION_READY_MSFT`, same header).
    RemotingTimestampConversionReady,
}

impl StructureType {
    /// The numeric code of the variant.
    pub open spec fn code_of(self) -> i32 {
        match self {
            StructureType::Unknown => 0,
            StructureType::ApiLayerProperties => 1,
            StructureType::ExtensionProperties => 2,
            StructureType::InstanceCreateInfo => 3,
            StructureType::SystemGetInfo => 4,
            StructureType::ViewLocateInfo => 6,
            StructureType::View => 7,
            StructureType::SessionCreateInfo => 8,
            StructureType::SwapchainCreateInfo => 9,
            StructureType::SessionBeginInfo => 10,
            StructureType::ViewState => 11,
            StructureType::FrameEndInfo => 12,
            StructureType::EventDataBuffer => 16,
            StructureType::InstanceLossPending => 17,
            StructureType::SessionStateChanged => 18,
            StructureType::FrameWaitInfo => 33,
            StructureType::CompositionLayerProjection => 35,
            StructureType::ReferenceSpaceCreateInfo => 37,
            StructureType::ViewConfigurationView => 41,
            StructureType::FrameState => 44,
            StructureType::FrameBeginInfo => 46,
            StructureType::CompositionLayerProjectionView => 48,
            StructureType::SwapchainImageAcquireInfo => 55,
            StructureType::SwapchainImageWaitInfo => 56,
            StructureType::SwapchainImageReleaseInfo => 57,
            StructureType::GraphicsBindingD3D12 => 1000028000,
            StructureType::SwapchainImageD3D12 => 1000028001,
            StructureType::GraphicsRequirementsD3D12 => 1000028002,
            StructureType::RemotingConnectInfo => 1000065001,
            StructureType::RemotingConnected => 1000065005,
            StructureType::RemotingDisconnected => 1000065006,
            StructureType::RemotingTimestampConversionReady => 1000065007,
        }
    }

    /// The variant whose code is `c`, if any variant has it.
    pub open spec fn with_code(c: i32) -> Option<Self> {
        if exists|x: Self| x.code_of() == c {
            Some(choose|x: Self| x.code_of() == c)
        } else {
            None
        }
    }

    /// Returns the numeric code of the variant.
    pub fn code(&self) -> (c: i32)
        ensures
            c == self.code_of(),
    {
        match self {
            StructureType::Unknown => 0,
            StructureType::ApiLayerProperties => 1,
            StructureType::ExtensionProperties => 2,
            StructureType::InstanceCreateInfo => 3,
            StructureType::SystemGetInfo => 4,
            StructureType::ViewLocateInfo => 6,
            StructureType::View => 7,
            StructureType::SessionCreateInfo => 8,
            StructureType::SwapchainCreateInfo => 9,
            StructureType::SessionBeginInfo => 10,
            StructureType::ViewState => 11,
            StructureType::FrameEndInfo => 12,
            StructureType::EventDataBuffer => 16,
            StructureType::InstanceLossPending => 17,
            StructureType::SessionStateChanged => 18,
            StructureType::FrameWaitInfo => 33,
            StructureType::CompositionLayerProjection => 35,
            StructureType::ReferenceSpaceCreateInfo => 37,
            StructureType::ViewConfigurationView => 41,
            StructureType::FrameState => 44,
            StructureType::FrameBeginInfo => 46,
            StructureType::CompositionLayerProjectionView => 48,
            StructureType::SwapchainImageAcquireInfo => 55,
            StructureType::SwapchainImageWaitInfo => 56,
            StructureType::SwapchainImageReleaseInfo => 57,
            StructureType::GraphicsBindingD3D12 => 1000028000,
            StructureType::SwapchainImageD3D12 => 1000028001,
            StructureType::GraphicsRequirementsD3D12 => 1000028002,
            StructureType::RemotingConnectInfo => 1000065001,
            StructureType::RemotingConnected => 1000065005,
            StructureType::RemotingDisconnected => 1000065006,
            StructureType::RemotingTimestampConversionReady => 1000065007,
        }
    }

    /// Returns the variant whose code is `c`, or `None` when no variant has it.
    pub fn from_code(c: i32) -> (r: Option<Self>)
        ensures
            r == Self::with_code(c),
            forall|x: Self| #[trigger] x.code_of() == c <==> r == Some(x),
    {
        proof {
            Self::lemma_code_injective();
        }
        if c == 0 {
            assert(StructureType::Unknown.code_of() == c);
            Some(StructureType::Unknown)
        } else if c == 1 {
            assert(StructureType::ApiLayerProperties.code_of() == c);
            Some(StructureType::ApiLayerProperties)
        } else if c == 2 {
            assert(StructureType::ExtensionProperties.code_of() == c);
            Some(StructureType::ExtensionProperties)
        } else if c == 3 {
            assert(StructureType::InstanceCreateInfo.code_of() == c);
            Some(StructureType::InstanceCreateInfo)
        } else if c == 4 {
            assert(StructureType::SystemGetInfo.code_of() == c);
            Some(StructureType::SystemGetInfo)
        } else if c == 6 {
            assert(StructureType::ViewLocateInfo.code_of() == c);
            Some(StructureType::ViewLocateInfo)
        } else if c == 7 {
            assert(StructureType::View.code_of() == c);
            Some(StructureType::View)
        } else if c == 8 {
            assert(StructureType::SessionCreateInfo.code_of() == c);
            Some(StructureType::SessionCreateInfo)
        } else if c == 9 {
            assert(StructureType::SwapchainCreateInfo.code_of() == c);
            Some(StructureType::SwapchainCreateInfo)
        } else if c == 10 {
            assert(StructureType::SessionBeginInfo.code_of() == c);
            Some(StructureType::SessionBeginInfo)
        } else if c == 11 {
            assert(StructureType::ViewState.code_of() == c);
            Some(StructureType::ViewState)
        } else if c == 12 {
            assert(StructureType::FrameEndInfo.code_of() == c);
            Some(StructureType::FrameEndInfo)
        } else if c == 16 {
            assert(StructureType::EventDataBuffer.code_of() == c);
            Some(StructureType::EventDataBuffer)
        } else if c == 17 {
            assert(StructureType::InstanceLossPending.code_of() == c);
            Some(StructureType::InstanceLossPending)
        } else if c == 18 {
            assert(StructureType::SessionStateChanged.code_of() == c);
            Some(StructureType::SessionStateChanged)
        } else if c == 33 {
            assert(StructureType::FrameWaitInfo.code_of() == c);
            Some(StructureType::FrameWaitInfo)
        } else if c == 35 {
            assert(StructureType::CompositionLayerProjection.code_of() == c);
            Some(StructureType::CompositionLayerProjection)
        } else if c == 37 {
            assert(StructureType::ReferenceSpaceCreateInfo.code_of() == c);
            Some(StructureType::ReferenceSpaceCreateInfo)
        } else if c == 41 {
            assert(StructureType::ViewConfigurationView.code_of() == c);
            Some(StructureType::ViewConfigurationView)
        } else if c == 44 {
            assert(StructureType::FrameState.code_of() == c);
            Some(StructureType::FrameState)
        } else if c == 46 {
            assert(StructureType::FrameBeginInfo.code_of() == c);
            Some(StructureType::FrameBeginInfo)
        } else if c == 48 {
            assert(StructureType::CompositionLayerProjectionView.code_of() == c);
            Some(StructureType::CompositionLayerProjectionView)
        } else if c == 55 {
            assert(StructureType::SwapchainImageAcquireInfo.code_of() == c);
            Some(StructureType::SwapchainImageAcquireInfo)
        } else if c == 56 {
            assert(StructureType::SwapchainImageWaitInfo.code_of() == c);
            Some(StructureType::SwapchainImageWaitInfo)
        } else if c == 57 {
            assert(StructureType::SwapchainImageReleaseInfo.code_of() == c);
            Some(StructureType::SwapchainImageReleaseInfo)
        } else if c == 1000028000 {
            assert(StructureType::GraphicsBindingD3D12.code_of() == c);
            Some(StructureType::GraphicsBindingD3D12)
        } else if c == 1000028001 {
            assert(StructureType::SwapchainImageD3D12.code_of() == c);
            Some(StructureType::SwapchainImageD3D12)
        } else if c == 1000028002 {
            assert(StructureType::GraphicsRequirementsD3D12.code_of() == c);
            Some(StructureType::GraphicsRequirementsD3D12)
        } else if c == 1000065001 {
            assert(StructureType::RemotingConnectInfo.code_of() == c);
            Some(StructureType::RemotingConnectInfo)
        } else if c == 1000065005 {
            assert(StructureType::RemotingConnected.code_of() == c);
            Some(StructureType::RemotingConnected)
        } else if c == 1000065006 {
            assert(StructureType::RemotingDisconnected.code_of() == c);
            Some(StructureType::RemotingDisconnected)
        } else if c == 1000065007 {
            assert(StructureType::RemotingTimestampConversionReady.code_of() == c);
            Some(StructureType::RemotingTimestampConversionReady)
        } else {
            None
        }
    }

    /// Distinct variants have distinct codes.
    pub proof fn lemma_code_injective()
        ensures
            forall|x: StructureType, y: StructureType| #[trigger] x.code_of() == #[trigger] y.code_of() ==> x == y,
    {
    }

    /// Decoding the code of a variant gives that variant back, and a decoded
    /// variant has the code it was decoded from.
    /// The code of every variant, as the runtime interface numbers them.
    pub proof fn lemma_code_table()
        ensures
            StructureType::Unknown.code_of() == 0,
            StructureType::ApiLayerProperties.code_of() == 1,
            StructureType::ExtensionProperties.code_of() == 2,
            StructureType::InstanceCreateInfo.code_of() == 3,
            StructureType::SystemGetInfo.code_of() == 4,
            StructureType::ViewLocateInfo.code_of() == 6,
            StructureType::View.code_of() == 7,
            StructureType::SessionCreateInfo.code_of() == 8,
            StructureType::SwapchainCreateInfo.code_of() == 9,
            StructureType::SessionBeginInfo.code_of() == 10,
            StructureType::ViewState.code_of() == 11,
            StructureType::FrameEndInfo.code_of() == 12,
            StructureType::EventDataBuffer.code_of() == 16,
            StructureType::InstanceLossPending.code_of() == 17,
            StructureType::SessionStateChanged.code_of() == 18,
            StructureType::FrameWaitInfo.code_of() == 33,
            StructureType::CompositionLayerProjection.code_of() == 35,
            StructureType::ReferenceSpaceCreateInfo.code_of() == 37,
            StructureType::ViewConfigurationView.code_of() == 41,
            StructureType::FrameState.code_of() == 44,
            StructureType::FrameBeginInfo.code_of() == 46,
            StructureType::CompositionLayerProjectionView.code_of() == 48,
            StructureType::SwapchainImageAcquireInfo.code_of() == 55,
            StructureType::SwapchainImageWaitInfo.code_of() == 56,
            StructureType::SwapchainImageReleaseInfo.code_of() == 57,
            StructureType::GraphicsBindingD3D12.code_of() == 1000028000,
            StructureType::SwapchainImageD3D12.code_of() == 1000028001,
            StructureType::GraphicsRequirementsD3D12.code_of() == 1000028002,
            StructureType::RemotingConnectInfo.code_of() == 1000065001,
            StructureType::RemotingConnected.code_of() == 1000065005,
            StructureType::RemotingDisconnected.code_of() == 1000065006,
            StructureType::RemotingTimestampConversionReady.code_of() == 1000065007,
    {
    }

    pub proof fn lemma_code_round_trip(x: Self, c: i32)
        ensures
            Self::with_code(x.code_of()) == Some(x),
            Self::with_code(c) matches Some(y) ==> y.code_of() == c,
    {
        Self::lemma_code_injective();
    }
}

/// Physical form of the display device a system is requested for.
#[derive(Debug, Clone, Copy, PartialEq, Eq, Structural)]
pub enum FormFactor {
    HeadMounted,
    Handheld,
}

impl FormFactor {
    /// The numeric code of the variant.
    pub open spec fn code_of(self) -> i32 {
        match self {
            FormFactor::HeadMounted => 1,
            FormFactor::Handheld => 2,
        }
    }

    /// The variant whose code is `c`, if any variant has it.
    pub open spec fn with_code(c: i32) -> Option<Self> {
        if exists|x: Self| x.code_of() == c {
            Some(choose|x: Self| x.code_of() == c)
        } else {
            None
        }
    }

    /// Returns the numeric code of the variant.
    pub fn code(&self) -> (c: i32)
        ensures
            c == self.code_of(),
    {
        match self {
            FormFactor::HeadMounted => 1,
            FormFactor::Handheld => 2,
        }
    }

    /// Returns the variant whose code is `c`, or `None` when no variant has it.
    pub fn from_code(c: i32) -> (r: Option<Self>)
        ensures
            r == Self::with_code(c),
            forall|x: Self| #[trigger] x.code_of() == c <==> r == Some(x),
    {
        proof {
            Self::lemma_code_injective();
        }
        if c == 1 {
            assert(FormFactor::HeadMounted.code_of() == c);
            Some(FormFactor::HeadMounted)
        } else if c == 2 {
            assert(FormFactor::Handheld.code_of() == c);
            Some(FormFactor::Handheld)
        } else {
            None
        }
    }

    /// Distinct variants have distinct codes.
    pub proof fn lemma_code_injective()
        ensures
            forall|x: FormFactor, y: FormFactor| #[trigger] x.code_of() == #[trigger] y.code_of() ==> x == y,
    {
    }

    /// Decoding the code of a variant gives that variant back, and a decoded
    /// variant has the code it was decoded from.
    /// The code of every variant, as the runtime interface numbers them.
    pub proof fn lemma_code_table()
        ensures
            FormFactor::HeadMounted.code_of() == 1,
            FormFactor::Handheld.code_of() == 2,
    {
    }

    pub proof fn lemma_code_round_trip(x: Self, c: i32)
        ensures
            Self::with_code(x.code_of()) == Some(x),
            Self::with_code(c) matches Some(y) ==> y.code_of() == c,
    {
        Self::lemma_code_injective();
    }
}

impl Default for FormFactor {
    /// A head-mounted display.
    fn default() -> (r: Self)
        ensures
            r == FormFactor::HeadMounted,
    {
        FormFactor::HeadMounted
    }
}

/// Arrangement of the views rendered each frame.
#[derive(Debug, Clone, Copy, PartialEq, Eq, Structural)]
pub enum ViewConfigurationType {
    Mono,
    Stereo,
}

impl ViewConfigurationType {
    /// The numeric code of the variant.
    pub open spec fn code_of(self) -> i32 {
        match self {
            ViewConfigurationType::Mono => 1,
            ViewConfigurationType::Stereo => 2,
        }
    }

    /// The variant whose code is `c`, if any variant has it.
    pub open spec fn with_code(c: i32) -> Option<Self> {
        if exists|x: Self| x.code_of() == c {
            Some(choose|x: Self| x.code_of() == c)
        } else {
            None
        }
    }

    /// Returns the numeric code of the variant.
    pub fn code(&self) -> (c: i32)
        ensures
            c == self.code_of(),
    {
        match self {
            ViewConfigurationType::Mono => 1,
            ViewConfigurationType::Stereo => 2,
        }
    }

    /// Returns the variant whose code is `c`, or `None` when no variant has it.
    pub fn from_code(c: i32) -> (r: Option<Self>)
        ensures
            r == Self::with_code(c),
            forall|x: Self| #[trigger] x.code_of() == c <==> r == Some(x),
    {
        proof {
            Self::lemma_code_injective();
        }
        if c == 1 {
            assert(ViewConfigurationType::Mono.code_of() == c);
            Some(ViewConfigurationType::Mono)
        } else if c == 2 {
            assert(ViewConfigurationType::Stereo.code_of() == c);
            Some(ViewConfigurationType::Stereo)
        } else {
            None
        }
    }

    /// Distinct variants have distinct codes.
    pub proof fn lemma_code_injective()
        ensures
            forall|x: ViewConfigurationType, y: ViewConfigurationType| #[trigger] x.code_of() == #[trigger] y.code_of() ==> x == y,
    {
    }

    /// Decoding the code of a variant gives that variant back, and a decoded
    /// variant has the code it was decoded from.
    /// The code of every variant, as the runtime interface numbers them.
    pub proof fn lemma_code_table()
        ensures
            ViewConfigurationType::Mono.code_of() == 1,
            ViewConfigurationType::Stereo.code_of() == 2,
    {
    }

    pub proof fn lemma_code_round_trip(x: Self, c: i32)
        ensures
            Self::with_code(x.code_of()) == Some(x),
            Self::with_code(c) matches Some(y) ==> y.code_of() == c,
    {
        Self::lemma_code_injective();
    }
}

/// Origin that a reference space is anchored to.
#[derive(Debug, Clone, Copy, PartialEq, Eq, Structural)]
pub enum ReferenceSpaceType {
    View,
    Local,
    Stage,
}

impl ReferenceSpaceType {
    /// The numeric code of the variant.
    pub open spec fn code_of(self) -> i32 {
        match self {
            ReferenceSpaceType::View => 1,
            ReferenceSpaceType::Local => 2,
            ReferenceSpaceType::Stage => 3,
        }
    }

    /// The variant whose code is `c`, if any variant has it.
    pub open spec fn with_code(c: i32) -> Option<Self> {
        if exists|x: Self| x.code_of() == c {
            Some(choose|x: Self| x.code_of() == c)
        } else {
            None
        }
    }

    /// Returns the numeric code of the variant.
    pub fn code(&self) -> (c: i32)
        ensures
            c == self.code_of(),
    {
        match self {
            ReferenceSpaceType::View => 1,
            ReferenceSpaceType::Local => 2,
            ReferenceSpaceType::Stage => 3,
        }
    }

    /// Returns the variant whose code is `c`, or `None` when no variant has it.
    pub fn from_code(c: i32) -> (r: Option<Self>)
        ensures
            r == Self::with_code(c),
            forall|x: Self| #[trigger] x.code_of() == c <==> r == Some(x),
    {
        proof {
            Self::lemma_code_injective();
        }
        if c == 1 {
            assert(ReferenceSpaceType::View.code_of() == c);
            Some(ReferenceSpaceType::View)
        } else if c == 2 {
            assert(ReferenceSpaceType::Local.code_of() == c);
            Some(ReferenceSpaceType::Local)
        } else if c == 3 {
            assert(ReferenceSpaceType::Stage.code_of() == c);
            Some(ReferenceSpaceType::Stage)
        } else {
            None
        }
    }

    /// Distinct variants have distinct codes.
    pub proof fn lemma_code_injective()
        ensures
            forall|x: ReferenceSpaceType, y: ReferenceSpaceType| #[trigger] x.code_of() == #[trigger] y.code_of() ==> x == y,
    {
    }

    /// Decoding the code of a variant gives that variant back, and a decoded
    /// variant has the code it was decoded from.
    /// The code of every variant, as the runtime interface numbers them.
    pub proof fn lemma_code_table()
        ensures
            ReferenceSpaceType::View.code_of() == 1,
            ReferenceSpaceType::Local.code_of() == 2,
            ReferenceSpaceType::Stage.code_of() == 3,
    {
    }

    pub proof fn lemma_code_round_trip(x: Self, c: i32)
        ensures
            Self::with_code(x.code_of()) == Some(x),
            Self::with_code(c) matches Some(y) ==> y.code_of() == c,
    {
        Self::lemma_code_injective();
    }
}

/// Lifecycle state of a session, as reported by state-change events.
#[derive(Debug, Clone, Copy, PartialEq, Eq, Structural)]
pub enum SessionState {
    Unknown,
    Idle,
    Ready,
    Synchronized,
    Visible,
    Focused,
    Stopping,
    LossPending,
    Exiting,
}

impl SessionState {
    /// The numeric code of the variant.
    pub open spec fn code_of(self) -> i32 {
        match self {
            SessionState::Unknown => 0,
            SessionState::Idle => 1,
            SessionState::Ready => 2,
            SessionState::Synchronized => 3,
            SessionState::Visible => 4,
            SessionState::Focused => 5,
            SessionState::Stopping => 6,
            SessionState::LossPending => 7,
            SessionState::Exiting => 8,
        }
    }

    /// The variant whose code is `c`, if any variant has it.
    pub open spec fn with_code(c: i32) -> Option<Self> {
        if exists|x: Self| x.code_of() == c {
            Some(choose|x: Self| x.code_of() == c)
        } else {
            None
        }
    }

    /// Returns the numeric code of the variant.
    pub fn code(&self) -> (c: i32)
        ensures
            c == self.code_of(),
    {
        match self {
            SessionState::Unknown => 0,
            SessionState::Idle => 1,
            SessionState::Ready => 2,
            SessionState::Synchronized => 3,
            SessionState::Visible => 4,
            SessionState::Focused => 5,
            SessionState::Stopping => 6,
            SessionState::LossPending => 7,
            SessionState::Exiting => 8,
        }
    }

    /// Returns the variant whose code is `c`, or `None` when no variant has it.
    pub fn from_code(c: i32) -> (r: Option<Self>)
        ensures
            r == Self::with_code(c),
            forall|x: Self| #[trigger] x.code_of() == c <==> r == Some(x),
    {
        proof {
            Self::lemma_code_injective();
        }
        if c == 0 {
            assert(SessionState::Unknown.code_of() == c);
            Some(SessionState::Unknown)
        } else if c == 1 {
            assert(SessionState::Idle.code_of() == c);
            Some(SessionState::Idle)
        } else if c == 2 {
            assert(SessionState::Ready.code_of() == c);
            Some(SessionState::Ready)
        } else if c == 3 {
            assert(SessionState::Synchronized.code_of() == c);
            Some(SessionState::Synchronized)
        } else if c == 4 {
            assert(SessionState::Visible.code_of() == c);
            Some(SessionState::Visible)
        } else if c == 5 {
            assert(SessionState::Focused.code_of() == c);
            Some(SessionState::Focused)
        } else if c == 6 {
            assert(SessionState::Stopping.code_of() == c);
            Some(SessionState::Stopping)
        } else if c == 7 {
            assert(SessionState::LossPending.code_of() == c);
            Some(SessionState::LossPending)
        } else if c == 8 {
            assert(SessionState::Exiting.code_of() == c);
            Some(SessionState::Exiting)
        } else {
            None
        }
    }

    /// Distinct variants have distinct codes.
    pub proof fn lemma_code_injective()
        ensures
            forall|x: SessionState, y: SessionState| #[trigger] x.code_of() == #[trigger] y.code_of() ==> x == y,
    {
    }

    /// Decoding the code of a variant gives that variant back, and a decoded
    /// variant has the code it was decoded from.
    /// The code of every variant, as the runtime interface numbers them.
    pub proof fn lemma_code_table()
        ensures
            SessionState::Unknown.code_of() == 0,
            SessionState::Idle.code_of() == 1,
            SessionState::Ready.code_of() == 2,
            SessionState::Synchronized.code_of() == 3,
            SessionState::Visible.code_of() == 4,
            SessionState::Focused.code_of() == 5,
            SessionState::Stopping.code_of() == 6,
            SessionState::LossPending.code_of() == 7,
            SessionState::Exiting.code_of() == 8,
    {
    }

    pub proof fn lemma_code_round_trip(x: Self, c: i32)
        ensures
            Self::with_code(x.code_of()) == Some(x),
            Self::with_code(c) matches Some(y) ==> y.code_of() == c,
    {
        Self::lemma_code_injective();
    }
}

/// How rendered layers are combined with the real world.
#[derive(Debug, Clone, Copy, PartialEq, Eq, Structural)]
pub enum EnvironmentBlendMode {
    Opaque,
    Additive,
    AlphaBlend,
}

impl EnvironmentBlendMode {
    /// The numeric code of the variant.
    pub open spec fn code_of(self) -> i32 {
        match self {
            EnvironmentBlendMode::Opaque => 1,
            EnvironmentBlendMode::Additive => 2,
            EnvironmentBlendMode::AlphaBlend => 3,
        }
    }

    /// The variant whose code is `c`, if any variant has it.
    pub open spec fn with_code(c: i32) -> Option<Self> {
        if exists|x: Self| x.code_of() == c {
            Some(choose|x: Self| x.code_of() == c)
        } else {
            None
        }
    }

    /// Returns the numeric code of the variant.
    pub fn code(&self) -> (c: i32)
        ensures
            c == self.code_of(),
    {
        match self {
            EnvironmentBlendMode::Opaque => 1,
            EnvironmentBlendMode::Additive => 2,
            EnvironmentBlendMode::AlphaBlend => 3,
        }
    }

    /// Returns the variant whose code is `c`, or `None` when no variant has it.
    pub fn from_code(c: i32) -> (r: Option<Self>)
        ensures
            r == Self::with_code(c),
            forall|x: Self| #[trigger] x.code_of() == c <==> r == Some(x),
    {
        proof {
            Self::lemma_code_injective();
        }
        if c == 1 {
            assert(EnvironmentBlendMode::Opaque.code_of() == c);
            Some(EnvironmentBlendMode::Opaque)
        } else if c == 2 {
            assert(EnvironmentBlendMode::Additive.code_of() == c);
            Some(EnvironmentBlendMode::Additive)
        } else if c == 3 {
            assert(EnvironmentBlendMode::AlphaBlend.code_of() == c);
            Some(EnvironmentBlendMode::AlphaBlend)
        } else {
            None
        }
    }

    /// Distinct variants have distinct codes.
    pub proof fn lemma_code_injective()
        ensures
            forall|x: EnvironmentBlendMode, y: EnvironmentBlendMode| #[trigger] x.code_of() == #[trigger] y.code_of() ==> x == y,
    {
    }

    /// Decoding the code of a variant gives that variant back, and a decoded
    /// variant has the code it was decoded from.
    /// The code of every variant, as the runtime interface numbers them.
    pub proof fn lemma_code_table()
        ensures
            EnvironmentBlendMode::Opaque.code_of() == 1,
            EnvironmentBlendMode::Additive.code_of() == 2,
            EnvironmentBlendMode::AlphaBlend.code_of() == 3,
    {
    }

    pub proof fn lemma_code_round_trip(x: Self, c: i32)
        ensures
            Self::with_code(x.code_of()) == Some(x),
            Self::with_code(c) matches Some(y) ==> y.code_of() == c,
    {
        Self::lemma_code_injective();
    }
}

} // verus!
