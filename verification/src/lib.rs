//! Diene: renderer-independent engine logic with machine-checked contracts.

pub mod extent;
pub mod vulkan;
pub mod text;
pub mod bytes;
pub mod glm;
pub mod texture;
pub mod asset;
pub mod scene;
pub mod timer;
pub mod shader;
pub mod runtime;
pub mod report;
pub mod host;
