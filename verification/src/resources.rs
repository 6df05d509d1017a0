//! Image resources of the render graph and how passes access them.

use vstd::prelude::*;

use crate::quad::F32_ONE_BITS;
use crate::quad::F32_ZERO_BITS;

verus! {

/// Pixel format of an image resource.
#[derive(Clone, Copy, Debug, PartialEq, Eq, Structural)]
pub enum Format {
    Rgba8Unorm,
    Rgba8Srgb,
    Bgra8Unorm,
    Bgra8Srgb,
    D32Sfloat,
}

/// Whether a format carries depth rather than color.
pub open spec fn is_depth_format(f: Format) -> bool {
    f is D32Sfloat
}

/// The value an image is cleared to when its pass begins.  Color channels
/// and depth are held as the bit patterns of the 32-bit floats the device
/// consumes.
#[derive(Clone, Copy, Debug, PartialEq, Eq, Structural)]
pub enum ClearValue {
    Color { r_bits: u32, g_bits: u32, b_bits: u32, a_bits: u32 },
    DepthStencil { depth_bits: u32, stencil: u32 },
}

/// Clear to opaque black.
pub open spec fn clear_black() -> ClearValue {
    ClearValue::Color {
        r_bits: F32_ZERO_BITS,
        g_bits: F32_ZERO_BITS,
        b_bits: F32_ZERO_BITS,
        a_bits: F32_ONE_BITS,
    }
}

/// Clear depth to the far plane, stencil to zero.
pub open spec fn clear_far_depth() -> ClearValue {
    ClearValue::DepthStencil { depth_bits: F32_ONE_BITS, stencil: 0 }
}

/// A 2D image resource: its size follows the current viewport dimensions.
#[derive(Clone, Copy, Debug, PartialEq, Eq, Structural)]
pub struct ImageInfo {
    pub width: u32,
    pub height: u32,
    pub levels: u32,
    pub format: Format,
    pub clear: Option<ClearValue>,
}

/// What a reading pass does with an image.
#[derive(Clone, Copy, Debug, PartialEq, Eq, Structural)]
pub enum AccessType {
    ShaderRead,
    TransferRead,
}

/// What the image must be usable as.
#[derive(Clone, Copy, Debug, PartialEq, Eq, Structural)]
pub enum UsageType {
    Sampled,
    TransferSrc,
}

/// The layout the image must be in when the pass runs.
#[derive(Clone, Copy, Debug, PartialEq, Eq, Structural)]
pub enum LayoutType {
    ShaderReadOnlyOptimal,
    TransferSrcOptimal,
    Present,
}

/// The pipeline stage at which the image is consumed.
#[derive(Clone, Copy, Debug, PartialEq, Eq, Structural)]
pub enum StageFlag {
    FragmentShader,
    Transfer,
    BottomOfPipe,
}

/// How one pass consumes one input image.
#[derive(Clone, Copy, Debug, PartialEq, Eq, Structural)]
pub struct ImageAccess {
    pub access: AccessType,
    pub usage: UsageType,
    pub layout: LayoutType,
    pub stages: StageFlag,
}

/// The post-process pass samples its input in the fragment shader.
pub open spec fn sampled_fragment_access() -> ImageAccess {
    ImageAccess {
        access: AccessType::ShaderRead,
        usage: UsageType::Sampled,
        layout: LayoutType::ShaderReadOnlyOptimal,
        stages: StageFlag::FragmentShader,
    }
}

/// The present pass hands its input to the surface.
pub open spec fn present_access() -> ImageAccess {
    ImageAccess {
        access: AccessType::TransferRead,
        usage: UsageType::TransferSrc,
        layout: LayoutType::Present,
        stages: StageFlag::BottomOfPipe,
    }
}

} // verus!
