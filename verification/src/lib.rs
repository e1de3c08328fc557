//! Verified core of the engine's Vulkan backend: the plain-data vocabulary of
//! the Vulkan API, and every decision the backend makes about it.

pub mod vk_types;
pub mod shader;
pub mod image;
pub mod memory;
pub mod swapchain;
pub mod gpu_assets;
pub mod input;
pub mod device;
pub mod instance;
pub mod pipeline;
pub mod descriptor;
pub mod depth;
pub mod sync;
pub mod sampler;
pub mod surface;
pub mod frame;
pub mod upload;
pub mod shader_semantics;
