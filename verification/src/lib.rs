//! Presentation layer of a real-time rendering engine: device selection,
//! swap-chain negotiation and the frame acquire/present protocol.

pub mod config;
pub mod context;
pub mod device;
pub mod event;
pub mod frame;
pub mod input;
pub mod laws;
pub mod swapchain;
pub mod time;
pub mod updater;
