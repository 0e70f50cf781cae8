//! Core of a small Vulkan presentation engine: adapter selection, surface
//! negotiation, swapchain lifecycle and the frame synchronisation protocol,
//! written as plain-value logic whose contracts are machine checked.
//!
//! Nothing here talks to a driver. Handles are raw `u64` values, enumerants
//! and flag sets are the raw integers of the Vulkan headers, and every
//! operation that needs the GPU is described as an action for the caller to
//! perform and report back on.

pub mod utils;
pub mod vulkan;
pub mod surface;
pub mod device;
pub mod teardown;
pub mod presentation;
pub mod shader;
pub mod renderer;
pub mod app;
