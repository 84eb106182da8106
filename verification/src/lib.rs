//! Deferred rendering command pipeline: resource identity, reference-counted
//! registries, per-frame scratch storage and the command buffer that replays
//! recorded operations against a graphics backend.

pub mod assets;
pub mod data_buffer;
pub mod errors;
pub mod frame;
pub mod handle;
pub mod headless;
pub mod location;
pub mod registry;
pub mod scene;
pub mod settings;
pub mod state;
pub mod texture;
