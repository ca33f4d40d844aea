//! Pipeline-state objects: the reflected shader output variable consumed at
//! pipeline-creation time, the fixed-function descriptors produced by the
//! Link protocol, and the raw resource set filled by the Bind protocol.

use vstd::prelude::*;
use crate::format::Format;
use crate::state::{Blend, BlendChannel, ColorValue, Depth, Dimensions, Rect, Stencil, MASK_ALL};

verus! {

/// Number of color-target slots a raw resource set can hold.
pub const MAX_COLOR_TARGETS: usize = 4;

/// Shader output variable, as reported by reflection. An empty name marks a
/// single anonymous output that matches any declared target (wildcard).
#[derive(Debug)]
pub struct OutputVar {
    /// Name of the output variable; empty for an anonymous output.
    pub name: String,
    /// Color-target slot the shader writes this output to.
    pub slot: u8,
}

/// Descriptor of one color target, produced at pipeline-creation time:
/// the runtime format, the channel write mask, and the optional separate
/// blend equations for the color and alpha channels.
#[derive(Clone, Copy, Debug, PartialEq, Eq, Structural)]
pub struct ColorTargetDesc {
    /// Runtime format of the target.
    pub format: Format,
    /// Mask of the channels written.
    pub mask: u8,
    /// Blend equation for the color channels, if blending is enabled.
    pub color: Option<BlendChannel>,
    /// Blend equation for the alpha channel, if blending is enabled.
    pub alpha: Option<BlendChannel>,
}

/// Descriptor of the depth-stencil target, produced at pipeline-creation
/// time: whether the bound format family carries a depth aspect, and the
/// depth and stencil test policies supplied by the caller.
#[derive(Clone, Copy, Debug, PartialEq, Eq, Structural)]
pub struct DepthStencilDesc {
    /// Whether the format family of the bound view carries a depth aspect.
    pub depth_format: bool,
    /// Depth test policy, if the component performs a depth test.
    pub depth: Option<Depth>,
    /// Stencil test policy, if the component performs a stencil test.
    pub stencil: Option<Stencil>,
}

/// The descriptor a plain color target produces: every channel written,
/// no blending.
pub open spec fn plain_color_desc(format: Format) -> ColorTargetDesc {
    ColorTargetDesc { format, mask: MASK_ALL, color: None, alpha: None }
}

/// The descriptor a blended color target produces: the caller-supplied
/// write mask and separate color/alpha equations.
pub open spec fn blended_color_desc(format: Format, mask: u8, blend: Blend) -> ColorTargetDesc {
    ColorTargetDesc { format, mask, color: Some(blend.color), alpha: Some(blend.alpha) }
}

/// The descriptor a depth target produces: a depth test and no stencil test.
pub open spec fn depth_only_desc(depth_format: bool, depth: Depth) -> DepthStencilDesc {
    DepthStencilDesc { depth_format, depth: Some(depth), stencil: None }
}

/// The descriptor a stencil target produces: a stencil test and no depth test.
pub open spec fn stencil_only_desc(depth_format: bool, stencil: Stencil) -> DepthStencilDesc {
    DepthStencilDesc { depth_format, depth: None, stencil: Some(stencil) }
}

/// The descriptor a combined depth-stencil target produces: both tests.
pub open spec fn depth_stencil_desc(depth_format: bool, depth: Depth, stencil: Stencil) -> DepthStencilDesc {
    DepthStencilDesc { depth_format, depth: Some(depth), stencil: Some(stencil) }
}

/// One resolved color-target binding: the opaque reference handed out by the
/// manager and the bound view's dimensions.
#[derive(Clone, Copy, Debug, PartialEq, Eq, Structural)]
pub struct ColorEntry {
    /// Opaque resource reference obtained from the handle manager.
    pub resource: u64,
    /// Dimensions of the bound view, in pixels.
    pub dimensions: Dimensions,
}

/// The resolved depth-stencil binding: the opaque reference, which aspects
/// of the view are in use, and the bound view's dimensions.
#[derive(Clone, Copy, Debug, PartialEq, Eq, Structural)]
pub struct DepthStencilEntry {
    /// Opaque resource reference obtained from the handle manager.
    pub resource: u64,
    /// Whether the depth aspect of the view is used.
    pub use_depth: bool,
    /// Whether the stencil aspect of the view is used.
    pub use_stencil: bool,
    /// Dimensions of the bound view, in pixels.
    pub dimensions: Dimensions,
}

/// The color entry a bind writes for a given reference and dimensions.
pub open spec fn color_entry(resource: u64, dimensions: Dimensions) -> Option<ColorEntry> {
    Some(ColorEntry { resource, dimensions })
}

/// The color mapping after a bind to `slot`: the slot overwritten with the
/// new entry, every other slot unchanged.
pub open spec fn colors_after(
    colors: Seq<Option<ColorEntry>>,
    slot: u8,
    resource: u64,
    dimensions: Dimensions,
) -> Seq<Option<ColorEntry>> {
    colors.update(slot as int, color_entry(resource, dimensions))
}

/// The depth-stencil entry a bind writes for a given reference, aspect
/// flags and dimensions.
pub open spec fn depth_stencil_entry(
    resource: u64,
    use_depth: bool,
    use_stencil: bool,
    dimensions: Dimensions,
) -> Option<DepthStencilEntry> {
    Some(DepthStencilEntry { resource, use_depth, use_stencil, dimensions })
}

/// Pixel targets of a raw resource set: the color-target mapping, indexed
/// by slot, and the optional depth-stencil entry.
#[derive(Debug)]
pub struct PixelTargetSet {
    /// Color-target mapping: entry `slot` holds the binding for that slot.
    pub colors: Vec<Option<ColorEntry>>,
    /// Depth-stencil binding, if any.
    pub depth_stencil: Option<DepthStencilEntry>,
}

impl PixelTargetSet {
    /// The color mapping always spans exactly the available slots.
    pub open spec fn wf(self) -> bool {
        self.colors.len() == MAX_COLOR_TARGETS
    }

    /// An empty set: every color slot free, no depth-stencil binding.
    pub fn new() -> (s: PixelTargetSet)
        ensures
            s.wf(),
            forall|i: int| 0 <= i < s.colors@.len() ==> s.colors@[i] is None,
            s.depth_stencil is None,
    {
        let mut colors: Vec<Option<ColorEntry>> = Vec::new();
        let mut i: usize = 0;
        while i < MAX_COLOR_TARGETS
            invariant
                i <= MAX_COLOR_TARGETS,
                colors.len() == i,
                forall|j: int| 0 <= j < i ==> colors@[j] is None,
            decreases MAX_COLOR_TARGETS - i,
        {
            colors.push(None);
            i = i + 1;
        }
        PixelTargetSet { colors, depth_stencil: None }
    }

    /// Overwrite the color binding of `slot` with the given reference and
    /// dimensions; every other slot and the depth-stencil entry keep their
    /// value.
    pub fn add_color(&mut self, slot: u8, resource: u64, dimensions: Dimensions)
        requires
            (slot as int) < old(self).colors@.len(),
        ensures
            final(self).colors@ == colors_after(old(self).colors@, slot, resource, dimensions),
            final(self).depth_stencil == old(self).depth_stencil,
    {
        self.colors[slot as usize] = Some(ColorEntry { resource, dimensions });
    }

    /// Overwrite the depth-stencil binding with the given reference, aspect
    /// flags and dimensions; the color mapping keeps its value.
    pub fn add_depth_stencil(
        &mut self,
        resource: u64,
        use_depth: bool,
        use_stencil: bool,
        dimensions: Dimensions,
    )
        ensures
            final(self).colors@ == old(self).colors@,
            final(self).depth_stencil == depth_stencil_entry(
                resource,
                use_depth,
                use_stencil,
                dimensions,
            ),
    {
        self.depth_stencil = Some(DepthStencilEntry { resource, use_depth, use_stencil, dimensions });
    }
}

/// Reference values read by the fixed-function stages at draw time.
#[derive(Clone, Copy, Debug)]
pub struct RefValues {
    /// Blend reference color.
    pub blend: ColorValue,
    /// Stencil reference values for front- and back-facing primitives.
    pub stencil: (u8, u8),
}

/// Backend-neutral raw resource set for one draw call. It is owned by the
/// aggregator, which passes it by mutable reference into every Bind call of
/// the pipeline's components.
#[derive(Debug)]
pub struct RawDataSet {
    /// Resolved pixel-target bindings.
    pub pixel_targets: PixelTargetSet,
    /// Scissor rectangle.
    pub scissor: Rect,
    /// Reference values for blending and the stencil test.
    pub ref_values: RefValues,
}

impl RawDataSet {
    /// Well-formedness of the set: its color mapping spans the available
    /// slots.
    pub open spec fn wf(self) -> bool {
        self.pixel_targets.wf()
    }

    /// An empty set: no bindings, a zero scissor rectangle, zero reference
    /// values.
    pub fn new() -> (s: RawDataSet)
        ensures
            s.wf(),
            forall|i: int| 0 <= i < s.pixel_targets.colors@.len()
                ==> s.pixel_targets.colors@[i] is None,
            s.pixel_targets.depth_stencil is None,
            s.scissor == (Rect { x: 0, y: 0, w: 0, h: 0 }),
            s.ref_values == (RefValues { blend: ColorValue { r: 0, g: 0, b: 0, a: 0 }, stencil: (0, 0) }),
    {
        RawDataSet {
            pixel_targets: PixelTargetSet::new(),
            scissor: Rect { x: 0, y: 0, w: 0, h: 0 },
            ref_values: RefValues { blend: ColorValue { r: 0, g: 0, b: 0, a: 0 }, stencil: (0, 0) },
        }
    }
}

} // verus!
