//! Resource views and the handle manager.
//!
//! A raw view carries the backend-neutral data this layer reads: an opaque
//! resource identifier and the view's dimensions. A typed view wraps a raw
//! view together with a compile-time format tag, so that only views of the
//! declared format can be bound to a component.
//!
//! The manager is the lifetime-tracking collaborator: every handle written
//! into a raw resource set is first registered with it, and the opaque
//! reference it hands out stays valid for at least the lifetime of the
//! in-flight set. Deduplication and reference counting are its own concern;
//! this layer relies only on the registration interface.

use vstd::prelude::*;
use crate::state::Dimensions;
use core::marker::PhantomData;

verus! {

/// Raw (untyped) render-target view: an opaque resource identifier together
/// with the view's dimensions in pixels.
#[derive(Clone, Copy, Debug, PartialEq, Eq, Structural)]
pub struct RawRenderTargetView {
    /// Opaque backend resource identifier.
    pub resource: u64,
    /// Width and height of the view, in pixels.
    pub dimensions: Dimensions,
}

/// Raw (untyped) depth-stencil view.
#[derive(Clone, Copy, Debug, PartialEq, Eq, Structural)]
pub struct RawDepthStencilView {
    /// Opaque backend resource identifier.
    pub resource: u64,
    /// Width and height of the view, in pixels.
    pub dimensions: Dimensions,
}

/// Render-target view tagged with its compile-time format `T`.
#[derive(Debug)]
pub struct RenderTargetView<T> {
    /// The underlying untyped view.
    pub raw: RawRenderTargetView,
    /// Zero-sized format tag.
    pub marker: PhantomData<T>,
}

/// Depth-stencil view tagged with its compile-time format `T`.
#[derive(Debug)]
pub struct DepthStencilView<T> {
    /// The underlying untyped view.
    pub raw: RawDepthStencilView,
    /// Zero-sized format tag.
    pub marker: PhantomData<T>,
}

impl<T> RenderTargetView<T> {
    /// Tag a raw view with the compile-time format `T`.
    pub fn new(raw: RawRenderTargetView) -> (v: Self)
        ensures
            v.raw == raw,
    {
        RenderTargetView { raw, marker: PhantomData }
    }

    /// The underlying untyped view.
    pub fn raw(&self) -> (r: &RawRenderTargetView)
        ensures
            *r == self.raw,
    {
        &self.raw
    }
}

impl<T> DepthStencilView<T> {
    /// Tag a raw view with the compile-time format `T`.
    pub fn new(raw: RawDepthStencilView) -> (v: Self)
        ensures
            v.raw == raw,
    {
        DepthStencilView { raw, marker: PhantomData }
    }

    /// The underlying untyped view.
    pub fn raw(&self) -> (r: &RawDepthStencilView)
        ensures
            *r == self.raw,
    {
        &self.raw
    }
}

/// Handle manager: records every view registered for the current draw so
/// that the backend can keep the underlying resources alive, and hands out
/// the opaque reference that is written into the raw resource set.
#[derive(Debug)]
pub struct Manager {
    /// Resource identifiers registered so far, in registration order.
    pub registered: Vec<u64>,
}

impl Manager {
    /// A manager with nothing registered yet.
    pub fn new() -> (m: Manager)
        ensures
            m.registered@ == Seq::<u64>::empty(),
    {
        Manager { registered: Vec::new() }
    }

    /// Register a render-target view and return the opaque reference to
    /// write into the raw resource set.
    pub fn ref_rtv(&mut self, view: &RawRenderTargetView) -> (r: u64)
        ensures
            r == view.resource,
            final(self).registered@ == old(self).registered@.push(view.resource),
    {
        self.registered.push(view.resource);
        view.resource
    }

    /// Register a depth-stencil view and return the opaque reference to
    /// write into the raw resource set.
    pub fn ref_dsv(&mut self, view: &RawDepthStencilView) -> (r: u64)
        ensures
            r == view.resource,
            final(self).registered@ == old(self).registered@.push(view.resource),
    {
        self.registered.push(view.resource);
        view.resource
    }
}

} // verus!
