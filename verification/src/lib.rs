//! A small Vulkan model viewer: the decisions that set up and tear down the
//! renderer (queue families, swap chain parameters, device selection,
//! extension and layer checks) and the application's response to window
//! events, each with a contract that Verus checks.

pub mod app;
pub mod graphics;
