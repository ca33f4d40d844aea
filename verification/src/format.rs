//! Resource formats: compile-time format tags and the capability traits that
//! resolve a tag to its runtime format descriptor.
//!
//! A tag type carries no runtime state; it is only used to pick the correct
//! descriptor-building logic at pipeline-creation time and to constrain which
//! resource views may later be bound.

use vstd::prelude::*;

verus! {

/// Type of the allocated texture surface.
#[allow(non_camel_case_types)]
#[derive(Clone, Copy, Debug, PartialEq, Eq, Structural)]
pub enum SurfaceType {
    R8_G8_B8_A8,
    B8_G8_R8_A8,
}

/// How the surface channels are interpreted by the shader.
#[derive(Clone, Copy, Debug, PartialEq, Eq, Structural)]
pub enum ChannelType {
    Unorm,
    Srgb,
}

/// Runtime pixel format: a surface together with a channel interpretation.
#[derive(Clone, Copy, Debug, PartialEq, Eq, Structural)]
pub struct Format(pub SurfaceType, pub ChannelType);

/// Compile-time tag for a format renderable as a color target.
pub trait RenderFormat: Sized {
    /// The runtime format that this tag denotes.
    spec fn spec_format() -> Format;

    /// Resolve the tag to its runtime format.
    fn get_format() -> (f: Format)
        ensures
            f == Self::spec_format(),
    ;
}

/// Compile-time tag for a color format that also supports blending.
pub trait BlendFormat: RenderFormat {
}

/// Compile-time tag for a format usable as a depth target.
pub trait DepthFormat: Sized {
    /// Whether the format family carries a depth aspect.
    spec fn spec_has_depth() -> bool;

    /// Resolve whether the format family carries a depth aspect.
    fn has_depth() -> (b: bool)
        ensures
            b == Self::spec_has_depth(),
    ;
}

/// Compile-time tag for a format usable as a stencil target.
pub trait StencilFormat: Sized {
    /// Whether the format family carries a depth aspect.
    spec fn spec_has_depth() -> bool;

    /// Resolve whether the format family carries a depth aspect.
    fn has_depth() -> (b: bool)
        ensures
            b == Self::spec_has_depth(),
    ;
}

/// Compile-time tag for a format usable as a combined depth-stencil target.
pub trait DepthStencilFormat: DepthFormat + StencilFormat {
}

/// 8-bit RGBA, normalized unsigned channels.
#[derive(Clone, Copy, Debug, PartialEq, Eq, Structural)]
pub struct Rgba8;

/// 8-bit RGBA, sRGB-encoded color channels.
#[derive(Clone, Copy, Debug, PartialEq, Eq, Structural)]
pub struct Srgba8;

/// 8-bit BGRA, normalized unsigned channels.
#[derive(Clone, Copy, Debug, PartialEq, Eq, Structural)]
pub struct Bgra8;

/// 24-bit depth, no stencil.
#[derive(Clone, Copy, Debug, PartialEq, Eq, Structural)]
pub struct Depth24;

/// 8-bit stencil, no depth.
#[derive(Clone, Copy, Debug, PartialEq, Eq, Structural)]
pub struct Stencil8;

/// 24-bit depth combined with 8-bit stencil.
#[derive(Clone, Copy, Debug, PartialEq, Eq, Structural)]
pub struct Depth24Stencil8;

impl RenderFormat for Rgba8 {
    open spec fn spec_format() -> Format {
        Format(SurfaceType::R8_G8_B8_A8, ChannelType::Unorm)
    }

    fn get_format() -> (f: Format) {
        Format(SurfaceType::R8_G8_B8_A8, ChannelType::Unorm)
    }
}

impl BlendFormat for Rgba8 {
}

impl RenderFormat for Srgba8 {
    open spec fn spec_format() -> Format {
        Format(SurfaceType::R8_G8_B8_A8, ChannelType::Srgb)
    }

    fn get_format() -> (f: Format) {
        Format(SurfaceType::R8_G8_B8_A8, ChannelType::Srgb)
    }
}

impl BlendFormat for Srgba8 {
}

impl RenderFormat for Bgra8 {
    open spec fn spec_format() -> Format {
        Format(SurfaceType::B8_G8_R8_A8, ChannelType::Unorm)
    }

    fn get_format() -> (f: Format) {
        Format(SurfaceType::B8_G8_R8_A8, ChannelType::Unorm)
    }
}

impl BlendFormat for Bgra8 {
}

impl DepthFormat for Depth24 {
    open spec fn spec_has_depth() -> bool {
        true
    }

    fn has_depth() -> (b: bool) {
        true
    }
}

impl StencilFormat for Stencil8 {
    open spec fn spec_has_depth() -> bool {
        false
    }

    fn has_depth() -> (b: bool) {
        false
    }
}

impl DepthFormat for Depth24Stencil8 {
    open spec fn spec_has_depth() -> bool {
        true
    }

    fn has_depth() -> (b: bool) {
        true
    }
}

impl StencilFormat for Depth24Stencil8 {
    open spec fn spec_has_depth() -> bool {
        true
    }

    fn has_depth() -> (b: bool) {
        true
    }
}

impl DepthStencilFormat for Depth24Stencil8 {
}

} // verus!
