//! Frame assembly and presentation logic for a small real-time renderer.
//!
//! The library decides *what* the GPU is asked to do: which swapchain
//! configuration to request, which framebuffers to build, which commands a
//! frame records and in which order, and how the frame cycle reacts to
//! acquisition and presentation results. Talking to the device is left to
//! the caller, which performs each requested action and reports the outcome.
pub mod command;
pub mod context;
pub mod draw_buffer;
pub mod frame;
pub mod framebuffer;
pub mod render_pass;
pub mod shader_object;
pub mod swapchain;
