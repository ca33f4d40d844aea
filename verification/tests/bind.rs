use pso_target::format::{Depth24, Depth24Stencil8, Rgba8, Stencil8};
use pso_target::handle::{
    DepthStencilView, Manager, RawDepthStencilView, RawRenderTargetView, RenderTargetView,
};
use pso_target::pso::{ColorEntry, DepthStencilEntry, OutputVar, RawDataSet};
use pso_target::state::{ColorValue, Dimensions, Rect};
use pso_target::target::{BlendRef, DepthStencilTarget, DepthTarget, RenderTarget, Scissor, StencilTarget};

fn dims(width: u16, height: u16) -> Dimensions {
    Dimensions { width, height }
}

#[test]
fn linked_color_target_binds_exactly_its_slot() {
    let mut target: RenderTarget<Rgba8> = RenderTarget::new();
    let out = OutputVar { name: "out_color".to_string(), slot: 0 };
    let r = target.link_output(&out, &"out_color".to_string());
    assert!(r.is_some());

    let mut set = RawDataSet::new();
    let mut man = Manager::new();
    let view: RenderTargetView<Rgba8> =
        RenderTargetView::new(RawRenderTargetView { resource: 11, dimensions: dims(256, 256) });
    target.bind_to(&mut set, &view, &mut man);

    assert_eq!(
        set.pixel_targets.colors[0],
        Some(ColorEntry { resource: 11, dimensions: dims(256, 256) })
    );
    for slot in 1..4 {
        assert_eq!(set.pixel_targets.colors[slot], None);
    }
    assert_eq!(set.pixel_targets.depth_stencil, None);
    assert_eq!(man.registered, vec![11]);
}

#[test]
fn unlinked_color_target_bind_is_a_no_op() {
    let mut target: RenderTarget<Rgba8> = RenderTarget::new();
    let out = OutputVar { name: "other".to_string(), slot: 1 };
    let r = target.link_output(&out, &"declared".to_string());
    assert!(r.is_none());

    let mut set = RawDataSet::new();
    let mut man = Manager::new();
    let view: RenderTargetView<Rgba8> =
        RenderTargetView::new(RawRenderTargetView { resource: 5, dimensions: dims(64, 64) });
    target.bind_to(&mut set, &view, &mut man);

    for slot in 0..4 {
        assert_eq!(set.pixel_targets.colors[slot], None);
    }
    assert!(man.registered.is_empty());
}

#[test]
fn repeated_bind_with_same_data_gives_same_result() {
    let mut target: RenderTarget<Rgba8> = RenderTarget::new();
    let out = OutputVar { name: String::new(), slot: 2 };
    target.link_output(&out, &"c".to_string());

    let mut set = RawDataSet::new();
    let mut man = Manager::new();
    let view: RenderTargetView<Rgba8> =
        RenderTargetView::new(RawRenderTargetView { resource: 9, dimensions: dims(32, 32) });
    target.bind_to(&mut set, &view, &mut man);
    let after_first: Vec<Option<ColorEntry>> = set.pixel_targets.colors.clone();
    target.bind_to(&mut set, &view, &mut man);

    assert_eq!(set.pixel_targets.colors, after_first);
    assert_eq!(
        set.pixel_targets.colors[2],
        Some(ColorEntry { resource: 9, dimensions: dims(32, 32) })
    );
}

#[test]
fn depth_target_bind_writes_depth_entry() {
    let target: DepthTarget<Depth24> = DepthTarget::new();
    let mut set = RawDataSet::new();
    let mut man = Manager::new();
    let view: DepthStencilView<Depth24> =
        DepthStencilView::new(RawDepthStencilView { resource: 3, dimensions: dims(128, 128) });
    target.bind_to(&mut set, &view, &mut man);

    assert_eq!(
        set.pixel_targets.depth_stencil,
        Some(DepthStencilEntry {
            resource: 3,
            use_depth: true,
            use_stencil: false,
            dimensions: dims(128, 128),
        })
    );
    assert_eq!(man.registered, vec![3]);
}

#[test]
fn stencil_target_bind_writes_entry_and_reference_values() {
    let target: StencilTarget<Stencil8> = StencilTarget::new();
    let mut set = RawDataSet::new();
    let mut man = Manager::new();
    let view: DepthStencilView<Stencil8> =
        DepthStencilView::new(RawDepthStencilView { resource: 4, dimensions: dims(128, 128) });
    target.bind_to(&mut set, &(view, (1, 2)), &mut man);

    assert_eq!(
        set.pixel_targets.depth_stencil,
        Some(DepthStencilEntry {
            resource: 4,
            use_depth: false,
            use_stencil: true,
            dimensions: dims(128, 128),
        })
    );
    assert_eq!(set.ref_values.stencil, (1, 2));
    assert_eq!(man.registered, vec![4]);
}

#[test]
fn combined_target_bind_uses_both_aspects() {
    let target: DepthStencilTarget<Depth24Stencil8> = DepthStencilTarget::new();
    let mut set = RawDataSet::new();
    let mut man = Manager::new();
    let view: DepthStencilView<Depth24Stencil8> =
        DepthStencilView::new(RawDepthStencilView { resource: 8, dimensions: dims(64, 32) });
    target.bind_to(&mut set, &(view, (7, 7)), &mut man);

    assert_eq!(
        set.pixel_targets.depth_stencil,
        Some(DepthStencilEntry {
            resource: 8,
            use_depth: true,
            use_stencil: true,
            dimensions: dims(64, 32),
        })
    );
    assert_eq!(set.ref_values.stencil, (7, 7));
}

#[test]
fn blend_ref_bind_overwrites_reference_color() {
    let component = BlendRef::new();
    let mut set = RawDataSet::new();
    let mut man = Manager::new();

    let first = ColorValue {
        r: 0.25f32.to_bits(),
        g: 0.5f32.to_bits(),
        b: 0.75f32.to_bits(),
        a: 0.5f32.to_bits(),
    };
    component.bind_to(&mut set, &first, &mut man);
    assert_eq!(set.ref_values.blend, first);

    let red = ColorValue {
        r: 1.0f32.to_bits(),
        g: 0.0f32.to_bits(),
        b: 0.0f32.to_bits(),
        a: 1.0f32.to_bits(),
    };
    component.bind_to(&mut set, &red, &mut man);
    assert_eq!(set.ref_values.blend, red);
    assert_eq!(set.ref_values.stencil, (0, 0));
    assert!(man.registered.is_empty());
}

#[test]
fn scissor_bind_overwrites_only_the_rectangle() {
    let mut scissor = Scissor::new();
    assert!(scissor.link_scissor());

    let mut set = RawDataSet::new();
    let mut man = Manager::new();
    let area = Rect { x: 10, y: 20, w: 30, h: 40 };
    scissor.bind_to(&mut set, &area, &mut man);

    assert_eq!(set.scissor, area);
    for slot in 0..4 {
        assert_eq!(set.pixel_targets.colors[slot], None);
    }
    assert_eq!(set.pixel_targets.depth_stencil, None);
    assert_eq!(set.ref_values.stencil, (0, 0));
    assert_eq!(set.ref_values.blend, ColorValue { r: 0, g: 0, b: 0, a: 0 });
    assert!(man.registered.is_empty());
}

#[test]
fn manager_registers_every_bound_view_in_order() {
    let mut color: RenderTarget<Rgba8> = RenderTarget::new();
    let out = OutputVar { name: String::new(), slot: 0 };
    color.link_output(&out, &"c".to_string());
    let depth: DepthTarget<Depth24> = DepthTarget::new();

    let mut set = RawDataSet::new();
    let mut man = Manager::new();
    let rtv: RenderTargetView<Rgba8> =
        RenderTargetView::new(RawRenderTargetView { resource: 21, dimensions: dims(16, 16) });
    let dsv: DepthStencilView<Depth24> =
        DepthStencilView::new(RawDepthStencilView { resource: 22, dimensions: dims(16, 16) });
    color.bind_to(&mut set, &rtv, &mut man);
    depth.bind_to(&mut set, &dsv, &mut man);

    assert_eq!(man.registered, vec![21, 22]);
}
