//! Frame bookkeeping and command planning for the Vulkan renderer of the
//! jay compositor, together with the small protocol objects it serves.

pub mod error;
pub mod format;
pub mod maps;
pub mod image;
pub mod command;
pub mod renderer;
pub mod readback;
pub mod client;
pub mod wl_data_device;
pub mod wl_registry;
pub mod state;
pub mod jay_idle;
pub mod xkbcommon;
pub mod ipc;
pub mod device;
