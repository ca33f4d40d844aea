//! Typed pipeline-resource binding components.
//!
//! A set of "slot components" that, at pipeline-creation time, reconcile the
//! declared rendering resources (color targets, depth/stencil targets, a
//! scissor rectangle, a blend reference color) against a shader's reflected
//! output variables, producing fixed-function pipeline descriptors; and, at
//! draw time, transcribe strongly typed resource handles into a
//! backend-neutral raw resource set while registering each handle with a
//! lifetime-tracking manager.

pub mod format;
pub mod handle;
pub mod pso;
pub mod state;
pub mod target;
