//! Rendering-engine logic for a small 2D quad renderer on an explicit GPU API.
//!
//! The library holds the decisions of the engine as verified code over plain
//! values: GPU handles are raw `u64` values, formats and modes their raw
//! integer codes, sizes are integers. The program around it makes the GPU
//! calls and hands the results in.

pub mod commands;
pub mod device;
pub mod fps_limiter;
pub mod input;
pub mod lifetime;
pub mod model;
pub mod scheduler;
pub mod swapchain;
