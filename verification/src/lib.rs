//! Resource-lifecycle and frame-synchronization core of a real-time renderer
//! built on an explicit, Vulkan-class graphics API.
//!
//! The library keeps a generation-checked registry of live GPU objects,
//! selects a physical device that can both draw and present, records the
//! dependency chain of presentation and pipeline objects so that teardown
//! runs in strict reverse creation order, and drives the bounded ring of
//! in-flight frame slots through the acquire/submit/present protocol.
//! The native API calls themselves are issued by the surrounding
//! application; this crate decides what to do and proves that those
//! decisions respect the lifecycle and synchronization rules.

pub mod chain;
pub mod config;
pub mod error;
pub mod events;
pub mod frame;
pub mod instance;
pub mod resource;
pub mod registry;
pub mod renderer;
pub mod selection;
pub mod version;

use vstd::prelude::*;

verus! {

} // verus!
