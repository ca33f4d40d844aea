//! Fixed-function pipeline state: blend, depth and stencil policies, the
//! scissor rectangle and the reference values written at draw time.

use vstd::prelude::*;

verus! {

/// Color mask with every channel enabled.
pub const MASK_ALL: u8 = 0xF;

/// Comparison function used by depth and stencil tests.
#[derive(Clone, Copy, Debug, PartialEq, Eq, Structural)]
pub enum Comparison {
    Never,
    Less,
    LessEqual,
    Equal,
    GreaterEqual,
    Greater,
    NotEqual,
    Always,
}

/// Operation applied to the stencil buffer after a test.
#[derive(Clone, Copy, Debug, PartialEq, Eq, Structural)]
pub enum StencilOp {
    Keep,
    Zero,
    Replace,
    IncrementClamp,
    IncrementWrap,
    DecrementClamp,
    DecrementWrap,
    Invert,
}

/// Stencil test policy for one face.
#[derive(Clone, Copy, Debug, PartialEq, Eq, Structural)]
pub struct StencilSide {
    /// Comparison applied between the reference value and the stored value.
    pub fun: Comparison,
    /// Mask applied to both values before the comparison.
    pub mask_read: u8,
    /// Mask applied when writing the result back.
    pub mask_write: u8,
    /// Operation when the stencil test fails.
    pub op_fail: StencilOp,
    /// Operation when the stencil test passes but the depth test fails.
    pub op_depth_fail: StencilOp,
    /// Operation when both tests pass.
    pub op_pass: StencilOp,
}

/// Stencil test policy for front- and back-facing primitives.
#[derive(Clone, Copy, Debug, PartialEq, Eq, Structural)]
pub struct Stencil {
    pub front: StencilSide,
    pub back: StencilSide,
}

/// Depth test policy.
#[derive(Clone, Copy, Debug, PartialEq, Eq, Structural)]
pub struct Depth {
    /// Comparison applied between the incoming and the stored depth.
    pub fun: Comparison,
    /// Whether the incoming depth is written back on success.
    pub write: bool,
}

/// Blend equation.
#[derive(Clone, Copy, Debug, PartialEq, Eq, Structural)]
pub enum Equation {
    Add,
    Sub,
    RevSub,
    Min,
    Max,
}

/// Variable blend factor operand.
#[derive(Clone, Copy, Debug, PartialEq, Eq, Structural)]
pub enum BlendValue {
    SourceColor,
    SourceAlpha,
    DestColor,
    DestAlpha,
    ConstColor,
    ConstAlpha,
}

/// Blend factor applied to one operand of a blend equation.
#[derive(Clone, Copy, Debug, PartialEq, Eq, Structural)]
pub enum Factor {
    Zero,
    One,
    SourceAlphaSaturated,
    ZeroPlus(BlendValue),
    OneMinus(BlendValue),
}

/// Blend policy for one channel group (color or alpha).
#[derive(Clone, Copy, Debug, PartialEq, Eq, Structural)]
pub struct BlendChannel {
    pub equation: Equation,
    pub source: Factor,
    pub destination: Factor,
}

/// Blend policy for a color target: separate color and alpha channels.
#[derive(Clone, Copy, Debug, PartialEq, Eq, Structural)]
pub struct Blend {
    pub color: BlendChannel,
    pub alpha: BlendChannel,
}

/// Width and height of a resource view, in pixels.
#[derive(Clone, Copy, Debug, PartialEq, Eq, Structural)]
pub struct Dimensions {
    pub width: u16,
    pub height: u16,
}

/// Scissor rectangle, in pixels.
#[derive(Clone, Copy, Debug, PartialEq, Eq, Structural)]
pub struct Rect {
    pub x: u16,
    pub y: u16,
    pub w: u16,
    pub h: u16,
}

/// Blend reference color. Each channel is carried as an opaque 32-bit
/// encoding chosen by the caller and the backend (typically the bit pattern
/// of a normalized channel value); this layer copies it verbatim and never
/// interprets it.
#[derive(Clone, Copy, Debug, PartialEq, Eq, Structural)]
pub struct ColorValue {
    pub r: u32,
    pub g: u32,
    pub b: u32,
    pub a: u32,
}

} // verus!
