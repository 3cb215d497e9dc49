//! A declarative panel-grid core: cell descriptors read from configuration,
//! a grid binder that turns each descriptor into exactly one UI element plan,
//! a command launch policy (replace-semantics vs. supervised), and the
//! collapse/expand controller for the auxiliary shadow region.

use vstd::prelude::*;

pub mod binder;
pub mod config;
pub mod controller;
pub mod launch;

verus! {

/// The fixed shadow width used while the panel is expanded.
pub const EXPANDED_SHADOW_WIDTH: i32 = 100;

} // verus!
