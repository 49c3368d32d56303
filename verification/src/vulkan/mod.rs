//! Decision logic of the Vulkan renderer backend, over plain values.

pub mod queues;
pub mod version;
pub mod surface;
pub mod device;
pub mod pipeline;
pub mod frame;
pub mod layout;
pub mod draw;
pub mod upload;
