//! Verified core of a small game engine built on Vulkan: window sizes,
//! error values, and the decisions that drive swapchain, device and
//! frame set-up.

pub mod command;
pub mod debug;
pub mod derive;
pub mod device;
pub mod error;
pub mod frame;
pub mod instance;
pub mod pipeline;
pub mod registry;
pub mod selection;
pub mod shader;
pub mod swapchain;
pub mod ui;
pub mod vk;
pub mod window;
