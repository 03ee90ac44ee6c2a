//! Bootstrap of a low-level graphics API connection: building the instance
//! with its diagnostic layers, picking a hardware adapter and a queue family,
//! opening the logical device, and binding a presentable surface to a window.
//!
//! The live driver and window server sit outside this crate.  Every answer
//! they give (which layers and extensions the host offers, which adapters
//! exist, whether a queue family can present) enters the library as a plain
//! value, and every decision taken on those answers is verified here.

pub mod adapter;
pub mod context;
pub mod debug;
pub mod device;
pub mod errors;
pub mod instance;
pub mod names;
pub mod renderer;
pub mod startup;
pub mod surface;
