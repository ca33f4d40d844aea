//! Render-target slot components and the two-phase Link/Bind protocol.
//!
//! Each component reconciles one declared rendering resource against shader
//! reflection at pipeline-creation time (Link) and transcribes a live,
//! strongly typed resource handle into the raw resource set at draw time
//! (Bind). Color and blend targets are active only once Link has assigned
//! them a slot; depth, stencil, combined depth-stencil and blend-reference
//! components are unconditionally active; the scissor component is activated
//! explicitly by the aggregator.

use vstd::prelude::*;
use core::marker::PhantomData;
use crate::format::{BlendFormat, DepthFormat, DepthStencilFormat, RenderFormat, StencilFormat};
use crate::handle::{DepthStencilView, Manager, RenderTargetView};
use crate::pso::{
    blended_color_desc, color_entry, colors_after, depth_only_desc, depth_stencil_desc,
    depth_stencil_entry, plain_color_desc, stencil_only_desc, ColorEntry, ColorTargetDesc,
    DepthStencilDesc, OutputVar, RawDataSet, MAX_COLOR_TARGETS,
};
use crate::state::{Blend, ColorValue, Depth, Dimensions, Rect, Stencil, MASK_ALL};
use crate::format::Format;

verus! {

/// The matching rule shared by the color-target components: a reflected
/// output matches a declared name when the reflected name is empty (a single
/// anonymous output, matched as a wildcard) or equal to the declared name.
pub open spec fn output_matches(out: OutputVar, name: Seq<char>) -> bool {
    out.name@.len() == 0 || out.name@ == name
}

/// Render target component. Typically points to a color-formatted texture.
/// - init: the declared name of the target
/// - data: `RenderTargetView<T>`
pub struct RenderTarget<T>(pub Option<u8>, pub PhantomData<T>);

impl<T> RenderTarget<T> {
    /// Whether Link has assigned this component a slot.
    pub open spec fn spec_active(self) -> bool {
        self.0 is Some
    }

    /// A recorded slot always lies within the raw set's color mapping.
    pub open spec fn wf(self) -> bool {
        self.0 matches Some(slot) ==> (slot as int) < (MAX_COLOR_TARGETS as int)
    }
}

impl<T: RenderFormat> RenderTarget<T> {
    /// A fresh, unmatched component.
    pub fn new() -> (s: Self)
        ensures
            !s.spec_active(),
            s.wf(),
    {
        RenderTarget(None, PhantomData)
    }

    /// Whether Link has assigned this component a slot.
    pub fn is_active(&self) -> (b: bool)
        ensures
            b == self.spec_active(),
    {
        self.0.is_some()
    }

    /// Match the declared target name `init` against one reflected output.
    /// On a match the reflected slot is recorded and the descriptor of the
    /// target is returned: the format of `T` with every channel written and
    /// no blending. Otherwise the component is left unmatched and no
    /// descriptor is produced.
    pub fn link_output(&mut self, out: &OutputVar, init: &String) -> (r: Option<
        Result<ColorTargetDesc, Format>,
    >)
        requires
            !old(self).spec_active(),
        ensures
            output_matches(*out, init@) ==> {
                &&& final(self).0 == Some(out.slot)
                &&& r == Some(Ok::<ColorTargetDesc, Format>(plain_color_desc(T::spec_format())))
            },
            !output_matches(*out, init@) ==> *final(self) == *old(self) && r is None,
    {
        if out.name.as_str().is_empty() || out.name == *init {
            self.0 = Some(out.slot);
            Some(Ok(ColorTargetDesc { format: T::get_format(), mask: MASK_ALL, color: None, alpha: None }))
        } else {
            None
        }
    }
}

impl<T> RenderTarget<T> {
    /// If Link assigned a slot, register the view with the manager and
    /// overwrite that slot of the raw set's color mapping with the opaque
    /// reference and the view's dimensions; on an unmatched component this
    /// is a no-op.
    pub fn bind_to(&self, out: &mut RawDataSet, data: &RenderTargetView<T>, man: &mut Manager)
        requires
            self.wf(),
            old(out).wf(),
        ensures
            final(out).wf(),
            self.0 matches Some(slot) ==> {
                &&& final(out).pixel_targets.colors@ == colors_after(
                    old(out).pixel_targets.colors@,
                    slot,
                    data.raw.resource,
                    data.raw.dimensions,
                )
                &&& final(out).pixel_targets.depth_stencil == old(out).pixel_targets.depth_stencil
                &&& final(out).scissor == old(out).scissor
                &&& final(out).ref_values == old(out).ref_values
                &&& final(man).registered@ == old(man).registered@.push(data.raw.resource)
            },
            self.0 is None ==> *final(out) == *old(out) && *final(man) == *old(man),
    {
        if let Some(slot) = self.0 {
            let r = man.ref_rtv(data.raw());
            out.pixel_targets.add_color(slot, r, data.raw().dimensions);
        }
    }
}

/// Render target component with an active blending mode.
/// - init: (declared name, color mask, blending state)
/// - data: `RenderTargetView<T>`
pub struct BlendTarget<T>(pub Option<u8>, pub PhantomData<T>);

impl<T> BlendTarget<T> {
    /// Whether Link has assigned this component a slot.
    pub open spec fn spec_active(self) -> bool {
        self.0 is Some
    }

    /// A recorded slot always lies within the raw set's color mapping.
    pub open spec fn wf(self) -> bool {
        self.0 matches Some(slot) ==> (slot as int) < (MAX_COLOR_TARGETS as int)
    }
}

impl<T: BlendFormat> BlendTarget<T> {
    /// A fresh, unmatched component.
    pub fn new() -> (s: Self)
        ensures
            !s.spec_active(),
            s.wf(),
    {
        BlendTarget(None, PhantomData)
    }

    /// Whether Link has assigned this component a slot.
    pub fn is_active(&self) -> (b: bool)
        ensures
            b == self.spec_active(),
    {
        self.0.is_some()
    }

    /// Match the declared target name `init.0` against one reflected
    /// output, as for a plain render target; the descriptor carries the
    /// caller-supplied write mask `init.1` and blend state `init.2` instead
    /// of the write-all default.
    pub fn link_output(&mut self, out: &OutputVar, init: &(String, u8, Blend)) -> (r: Option<
        Result<ColorTargetDesc, Format>,
    >)
        requires
            !old(self).spec_active(),
        ensures
            output_matches(*out, init.0@) ==> {
                &&& final(self).0 == Some(out.slot)
                &&& r == Some(
                    Ok::<ColorTargetDesc, Format>(
                        blended_color_desc(T::spec_format(), init.1, init.2),
                    ),
                )
            },
            !output_matches(*out, init.0@) ==> *final(self) == *old(self) && r is None,
    {
        if out.name.as_str().is_empty() || out.name == init.0 {
            self.0 = Some(out.slot);
            Some(Ok(ColorTargetDesc {
                format: T::get_format(),
                mask: init.1,
                color: Some(init.2.color),
                alpha: Some(init.2.alpha),
            }))
        } else {
            None
        }
    }
}

impl<T> BlendTarget<T> {
    /// If Link assigned a slot, register the view with the manager and
    /// overwrite that slot of the raw set's color mapping with the opaque
    /// reference and the view's dimensions; on an unmatched component this
    /// is a no-op.
    pub fn bind_to(&self, out: &mut RawDataSet, data: &RenderTargetView<T>, man: &mut Manager)
        requires
            self.wf(),
            old(out).wf(),
        ensures
            final(out).wf(),
            self.0 matches Some(slot) ==> {
                &&& final(out).pixel_targets.colors@ == colors_after(
                    old(out).pixel_targets.colors@,
                    slot,
                    data.raw.resource,
                    data.raw.dimensions,
                )
                &&& final(out).pixel_targets.depth_stencil == old(out).pixel_targets.depth_stencil
                &&& final(out).scissor == old(out).scissor
                &&& final(out).ref_values == old(out).ref_values
                &&& final(man).registered@ == old(man).registered@.push(data.raw.resource)
            },
            self.0 is None ==> *final(out) == *old(out) && *final(man) == *old(man),
    {
        if let Some(slot) = self.0 {
            let r = man.ref_rtv(data.raw());
            out.pixel_targets.add_color(slot, r, data.raw().dimensions);
        }
    }
}

/// Depth target component.
/// - init: `Depth` = depth test state
/// - data: `DepthStencilView<T>`
pub struct DepthTarget<T>(pub PhantomData<T>);

impl<T> DepthTarget<T> {
    /// Depth targets are unconditionally active.
    pub open spec fn spec_active(self) -> bool {
        true
    }
}

impl<T: DepthFormat> DepthTarget<T> {
    /// A fresh component; active from the start.
    pub fn new() -> (s: Self)
        ensures
            s.spec_active(),
    {
        DepthTarget(PhantomData)
    }

    /// Always active.
    pub fn is_active(&self) -> (b: bool)
        ensures
            b == self.spec_active(),
    {
        true
    }

    /// Link ignores reflection (depth targets are not named shader outputs)
    /// and unconditionally produces a descriptor carrying the depth aspect
    /// of `T` and the caller-supplied depth test state.
    pub fn link_depth_stencil(&mut self, init: &Depth) -> (r: Option<DepthStencilDesc>)
        ensures
            *final(self) == *old(self),
            r == Some(depth_only_desc(T::spec_has_depth(), *init)),
    {
        Some(DepthStencilDesc { depth_format: T::has_depth(), depth: Some(*init), stencil: None })
    }
}

impl<T> DepthTarget<T> {
    /// Register the view with the manager and overwrite the raw set's
    /// depth-stencil entry: depth in use, stencil not in use.
    pub fn bind_to(&self, out: &mut RawDataSet, data: &DepthStencilView<T>, man: &mut Manager)
        ensures
            final(out).pixel_targets.colors@ == old(out).pixel_targets.colors@,
            final(out).pixel_targets.depth_stencil == depth_stencil_entry(
                data.raw.resource,
                true,
                false,
                data.raw.dimensions,
            ),
            final(out).scissor == old(out).scissor,
            final(out).ref_values == old(out).ref_values,
            final(man).registered@ == old(man).registered@.push(data.raw.resource),
    {
        let dsv = data.raw();
        let r = man.ref_dsv(dsv);
        out.pixel_targets.add_depth_stencil(r, true, false, dsv.dimensions);
    }
}

/// Stencil target component.
/// - init: `Stencil` = stencil test state
/// - data: (`DepthStencilView<T>`, (front, back) = stencil reference values)
pub struct StencilTarget<T>(pub PhantomData<T>);

impl<T> StencilTarget<T> {
    /// Stencil targets are unconditionally active.
    pub open spec fn spec_active(self) -> bool {
        true
    }
}

impl<T: StencilFormat> StencilTarget<T> {
    /// A fresh component; active from the start.
    pub fn new() -> (s: Self)
        ensures
            s.spec_active(),
    {
        StencilTarget(PhantomData)
    }

    /// Always active.
    pub fn is_active(&self) -> (b: bool)
        ensures
            b == self.spec_active(),
    {
        true
    }

    /// Link ignores reflection and unconditionally produces a descriptor
    /// carrying the depth aspect of `T` and the caller-supplied stencil
    /// test state.
    pub fn link_depth_stencil(&mut self, init: &Stencil) -> (r: Option<DepthStencilDesc>)
        ensures
            *final(self) == *old(self),
            r == Some(stencil_only_desc(T::spec_has_depth(), *init)),
    {
        Some(DepthStencilDesc { depth_format: T::has_depth(), depth: None, stencil: Some(*init) })
    }
}

impl<T> StencilTarget<T> {
    /// Register the view with the manager, overwrite the raw set's
    /// depth-stencil entry (stencil in use, depth not in use) and the
    /// stencil reference values.
    pub fn bind_to(
        &self,
        out: &mut RawDataSet,
        data: &(DepthStencilView<T>, (u8, u8)),
        man: &mut Manager,
    )
        ensures
            final(out).pixel_targets.colors@ == old(out).pixel_targets.colors@,
            final(out).pixel_targets.depth_stencil == depth_stencil_entry(
                data.0.raw.resource,
                false,
                true,
                data.0.raw.dimensions,
            ),
            final(out).scissor == old(out).scissor,
            final(out).ref_values.stencil == data.1,
            final(out).ref_values.blend == old(out).ref_values.blend,
            final(man).registered@ == old(man).registered@.push(data.0.raw.resource),
    {
        let dsv = data.0.raw();
        let r = man.ref_dsv(dsv);
        out.pixel_targets.add_depth_stencil(r, false, true, dsv.dimensions);
        out.ref_values.stencil = data.1;
    }
}

/// Combined depth and stencil target component.
/// - init: (`Depth` = depth test state, `Stencil` = stencil test state)
/// - data: (`DepthStencilView<T>`, (front, back) = stencil reference values)
pub struct DepthStencilTarget<T>(pub PhantomData<T>);

impl<T> DepthStencilTarget<T> {
    /// Combined depth-stencil targets are unconditionally active.
    pub open spec fn spec_active(self) -> bool {
        true
    }
}

impl<T: DepthStencilFormat> DepthStencilTarget<T> {
    /// A fresh component; active from the start.
    pub fn new() -> (s: Self)
        ensures
            s.spec_active(),
    {
        DepthStencilTarget(PhantomData)
    }

    /// Always active.
    pub fn is_active(&self) -> (b: bool)
        ensures
            b == self.spec_active(),
    {
        true
    }

    /// Link ignores reflection and unconditionally produces a descriptor
    /// combining the caller-supplied depth and stencil test states.
    pub fn link_depth_stencil(&mut self, init: &(Depth, Stencil)) -> (r: Option<DepthStencilDesc>)
        ensures
            *final(self) == *old(self),
            r == Some(depth_stencil_desc(<T as DepthFormat>::spec_has_depth(), init.0, init.1)),
    {
        Some(DepthStencilDesc {
            depth_format: <T as DepthFormat>::has_depth(),
            depth: Some(init.0),
            stencil: Some(init.1),
        })
    }
}

impl<T> DepthStencilTarget<T> {
    /// Register the view with the manager, overwrite the raw set's
    /// depth-stencil entry (both aspects in use) and the stencil reference
    /// values.
    pub fn bind_to(
        &self,
        out: &mut RawDataSet,
        data: &(DepthStencilView<T>, (u8, u8)),
        man: &mut Manager,
    )
        ensures
            final(out).pixel_targets.colors@ == old(out).pixel_targets.colors@,
            final(out).pixel_targets.depth_stencil == depth_stencil_entry(
                data.0.raw.resource,
                true,
                true,
                data.0.raw.dimensions,
            ),
            final(out).scissor == old(out).scissor,
            final(out).ref_values.stencil == data.1,
            final(out).ref_values.blend == old(out).ref_values.blend,
            final(man).registered@ == old(man).registered@.push(data.0.raw.resource),
    {
        let dsv = data.0.raw();
        let r = man.ref_dsv(dsv);
        out.pixel_targets.add_depth_stencil(r, true, true, dsv.dimensions);
        out.ref_values.stencil = data.1;
    }
}

/// Scissor component. Sets up the scissor test for rendering.
/// - init: none
/// - data: `Rect` = target area
pub struct Scissor(pub bool);

impl Scissor {
    /// Whether the aggregator has enabled the scissor test.
    pub open spec fn spec_active(self) -> bool {
        self.0
    }

    /// A fresh component; inactive until `link_scissor` is called.
    pub fn new() -> (s: Self)
        ensures
            !s.spec_active(),
    {
        Scissor(false)
    }

    /// Whether the aggregator has enabled the scissor test.
    pub fn is_active(&self) -> (b: bool)
        ensures
            b == self.spec_active(),
    {
        self.0
    }

    /// Enable the scissor test. Called by the aggregator, and only when
    /// scissor testing is requested; there is no reflection dependency and
    /// no descriptor output.
    pub fn link_scissor(&mut self) -> (r: bool)
        ensures
            final(self).spec_active(),
            r,
    {
        self.0 = true;
        true
    }

    /// Overwrite the raw set's scissor rectangle with `data`, verbatim.
    /// Bind is defined only once the component is active; every other field
    /// of the raw set keeps its value.
    pub fn bind_to(&self, out: &mut RawDataSet, data: &Rect, man: &mut Manager)
        requires
            self.spec_active(),
        ensures
            final(out).scissor == *data,
            final(out).pixel_targets == old(out).pixel_targets,
            final(out).ref_values == old(out).ref_values,
            *final(man) == *old(man),
    {
        let _ = man;
        out.scissor = *data;
    }
}

/// Blend reference component. Sets up the reference color for blending.
/// - init: none
/// - data: `ColorValue`
pub struct BlendRef;

impl BlendRef {
    /// Blend-reference components are unconditionally active.
    pub open spec fn spec_active(self) -> bool {
        true
    }

    /// A fresh component; active from the start.
    pub fn new() -> (s: Self)
        ensures
            s.spec_active(),
    {
        BlendRef
    }

    /// Always active.
    pub fn is_active(&self) -> (b: bool)
        ensures
            b == self.spec_active(),
    {
        true
    }

    /// Overwrite the raw set's blend reference color with `data`, verbatim;
    /// every other field of the raw set keeps its value.
    pub fn bind_to(&self, out: &mut RawDataSet, data: &ColorValue, man: &mut Manager)
        ensures
            final(out).ref_values.blend == *data,
            final(out).ref_values.stencil == old(out).ref_values.stencil,
            final(out).pixel_targets == old(out).pixel_targets,
            final(out).scissor == old(out).scissor,
            *final(man) == *old(man),
    {
        let _ = man;
        out.ref_values.blend = *data;
    }
}

/// A reflected output that carries the declared name matches it, so Link
/// activates the component with the reflected slot; a later Bind then
/// writes exactly that slot of the color mapping and leaves every other
/// slot unchanged.
pub proof fn lemma_named_output_links_and_binds_its_slot(
    out: OutputVar,
    name: Seq<char>,
    colors: Seq<Option<ColorEntry>>,
    resource: u64,
    dimensions: Dimensions,
)
    requires
        out.name@ == name,
        (out.slot as int) < colors.len(),
    ensures
        output_matches(out, name),
        colors_after(colors, out.slot, resource, dimensions)[out.slot as int] == color_entry(
            resource,
            dimensions,
        ),
        forall|j: int|
            0 <= j < colors.len() && j != out.slot as int
                ==> colors_after(colors, out.slot, resource, dimensions)[j] == colors[j],
{
}

/// A reflection list whose sole entry has an empty name matches any
/// declared name: the anonymous output is a wildcard.
pub proof fn lemma_wildcard_output_matches(out: OutputVar, name: Seq<char>)
    requires
        out.name@.len() == 0,
    ensures
        output_matches(out, name),
{
}

/// A reflected output whose name is neither empty nor the declared name
/// does not match, so Link leaves the component inactive; Bind on an
/// inactive component leaves the raw set unchanged, as its contract states.
pub proof fn lemma_mismatched_output_does_not_match(out: OutputVar, name: Seq<char>)
    requires
        out.name@.len() != 0,
        out.name@ != name,
    ensures
        !output_matches(out, name),
{
}

/// Bind overwrites: binding the same color data to the same slot twice
/// leaves the color mapping exactly as after the first bind. Together with
/// the Bind contracts of the other components, whose written fields depend
/// on the bound data alone, repeated Bind calls with the same data
/// accumulate nothing.
pub proof fn lemma_color_bind_idempotent(
    colors: Seq<Option<ColorEntry>>,
    slot: u8,
    resource: u64,
    dimensions: Dimensions,
)
    requires
        (slot as int) < colors.len(),
    ensures
        colors_after(colors_after(colors, slot, resource, dimensions), slot, resource, dimensions)
            == colors_after(colors, slot, resource, dimensions),
{
    assert(colors_after(
        colors_after(colors, slot, resource, dimensions),
        slot,
        resource,
        dimensions,
    ) =~= colors_after(colors, slot, resource, dimensions));
}

} // verus!
