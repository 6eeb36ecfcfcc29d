//! Frame orchestration for a small swapchain renderer.
//!
//! The library decides *what* the graphics device is asked to do and in which
//! order; it never talks to the device itself. Every operation is a state
//! machine that hands out one [`gpu::Call`] at a time and is resumed with the
//! [`gpu::Reply`] the driver gave to it:
//!
//! - [`startup`] brings the renderer up, through the machines of
//!   [`swapchain`], [`pipeline`], [`upload`] and [`commands`];
//! - [`frame`] draws one frame;
//! - [`renderer`] holds the running renderer and shuts it down.
//!
//! [`memory`] chooses memory types, [`buffer`] and [`submit`] are the parts
//! an upload is made of, [`state`] and [`model`] describe the pipeline and
//! the mesh, and [`flags`] holds the words shared with the graphics API.

pub mod buffer;
pub mod commands;
pub mod flags;
pub mod frame;
pub mod gpu;
pub mod memory;
pub mod model;
pub mod pipeline;
pub mod renderer;
pub mod startup;
pub mod state;
pub mod submit;
pub mod swapchain;
pub mod upload;
