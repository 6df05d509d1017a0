//! Infrastructure for a full-screen anti-aliasing post-process pass.
//!
//! The library models the machinery around such a pass: a render-graph
//! builder that assembles three passes (shaded geometry, post-process,
//! present) with explicit resource dependencies, a render group that owns
//! the pass's pipeline, descriptor set, uniform slices and static quad,
//! a debounced rebuild check for viewport resizes, and the settings and
//! event plumbing that toggles the effect.  GPU objects are tracked through
//! a capability-style factory that counts every creation and destruction,
//! so that lifecycle laws (no partial build, no leak, ordered teardown,
//! no double free) are stated and proved rather than assumed.

pub mod dims;
pub mod factory;
pub mod fxaa;
pub mod graph;
pub mod offscreen;
pub mod quad;
pub mod resources;
pub mod session;
pub mod settings;
pub mod state;
pub mod tracker;
