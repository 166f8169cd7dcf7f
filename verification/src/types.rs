//! Plain structures passed to the runtime: application description,
//! adapter identity, swapchain usage and rectangles.
use vstd::prelude::*;

verus! {

/// Handle of an instance of the runtime.
pub type Instance = u64;

/// Handle of a session.
pub type Session = u64;

/// Handle of a space.
pub type Space = u64;

/// Handle of a swapchain.
pub type Swapchain = u64;

/// Length of the fixed, zero-padded name fields of `ApplicationInfo`.
pub const NAME_FIELD_LEN: usize = 128;

/// The content of a fixed name field that holds `text` followed by zeros.
pub open spec fn padded_name(text: Seq<u8>) -> Seq<u8> {
    text + Seq::new((NAME_FIELD_LEN - text.len()) as nat, |i: int| 0u8)
}

/// A padded name field is 128 bytes long: the text's bytes first, in order,
/// then zeros.
pub proof fn lemma_padded_name(text: Seq<u8>)
    requires
        text.len() <= NAME_FIELD_LEN,
    ensures
        padded_name(text).len() == 128,
        forall|i: int| 0 <= i < text.len() ==> #[trigger] padded_name(text)[i] == text[i],
        forall|i: int| text.len() <= i < 128 ==> #[trigger] padded_name(text)[i] == 0u8,
{
}

/// Returns a name field holding `text` at its start and zeros after it.
pub fn name_field(text: &[u8]) -> (field: [u8; 128])
    requires
        text@.len() <= NAME_FIELD_LEN,
    ensures
        field@ == padded_name(text@),
{
    let mut field: [u8; 128] = [0u8; 128];
    let mut i: usize = 0;
    while i < text.len()
        invariant
            text@.len() <= NAME_FIELD_LEN,
            0 <= i <= text@.len(),
            field@.len() == NAME_FIELD_LEN,
            forall|k: int| 0 <= k < i ==> field@[k] == text@[k],
            forall|k: int| i <= k < NAME_FIELD_LEN ==> field@[k] == 0u8,
        decreases text@.len() - i,
    {
        field[i] = text[i];
        i = i + 1;
    }
    assert(field@ =~= padded_name(text@));
    field
}

/// The application and engine that create an instance, with the API version
/// they were written against.
pub struct ApplicationInfo {
    pub name: [u8; 128],
    pub version: u32,
    pub engine: [u8; 128],
    pub engine_version: u32,
    pub api: u64,
}

impl ApplicationInfo {
    /// Describes an application; `name` and `engine` are copied into their
    /// zero-padded fields.
    pub fn new(name: &[u8], version: u32, engine: &[u8], engine_version: u32, api: u64) -> (r: Self)
        requires
            name@.len() <= NAME_FIELD_LEN,
            engine@.len() <= NAME_FIELD_LEN,
        ensures
            r.name@ == padded_name(name@),
            r.version == version,
            r.engine@ == padded_name(engine@),
            r.engine_version == engine_version,
            r.api == api,
    {
        ApplicationInfo {
            name: name_field(name),
            version,
            engine: name_field(engine),
            engine_version,
            api,
        }
    }
}

/// Locally unique identifier of a graphics adapter.
#[derive(Debug, Clone, Copy, PartialEq, Eq, Structural)]
pub struct LUID {
    pub low: u32,
    pub high: i32,
}

/// Bit set of the ways a swapchain image is used.
pub struct SwapchainUsageFlags(u64);

#[allow(non_upper_case_globals)]
impl SwapchainUsageFlags {
    /// The image is rendered to.
    pub const ColorAttachment: u64 = 0x1;
    /// The image is sampled by shaders.
    pub const Sampled: u64 = 0x20;
}

/// Integer offset in pixels.
#[derive(Debug, Clone, Copy, PartialEq, Eq, Structural)]
pub struct Offset2D {
    pub x: i32,
    pub y: i32,
}

/// Integer extent in pixels.
#[derive(Debug, Clone, Copy, PartialEq, Eq, Structural)]
pub struct Extent2D {
    pub width: i32,
    pub height: i32,
}

/// Integer rectangle in pixels.
#[derive(Debug, Clone, Copy, PartialEq, Eq, Structural)]
pub struct Rect2D {
    pub offset: Offset2D,
    pub extent: Extent2D,
}

/// A rectangle of one array layer of a swapchain image.
#[derive(Debug, Clone, Copy, PartialEq, Eq, Structural)]
pub struct SwapchainSubImage {
    pub swapchain: Swapchain,
    pub image_rect: Rect2D,
    pub image_array_index: u32,
}

impl SwapchainSubImage {
    /// The whole first layer of a `width` by `height` image of `swapchain`.
    /// The sizes are reinterpreted as signed 32-bit values, as the runtime
    /// interface stores them.
    pub fn whole(swapchain: Swapchain, width: u32, height: u32) -> (r: Self)
        ensures
            r.swapchain == swapchain,
            r.image_rect.offset == (Offset2D { x: 0, y: 0 }),
            r.image_rect.extent.width == width as i32,
            r.image_rect.extent.height == height as i32,
            r.image_array_index == 0,
    {
        SwapchainSubImage {
            swapchain,
            image_rect: Rect2D {
                offset: Offset2D { x: 0, y: 0 },
                extent: Extent2D { width: width as i32, height: height as i32 },
            },
            image_array_index: 0,
        }
    }
}

} // verus!
