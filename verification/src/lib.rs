//! The decisions of an OpenGL backend that runs on EGL.
//!
//! The backend finds a configuration and a context for a display, hands out adapters and surfaces,
//! and shows what was rendered. What it asks of EGL and OpenGL is decided here, and so is what
//! their answers mean. Handles of theirs are carried as type parameters, and calls that only have
//! an effect are listed as commands, in the order in which they are to be made.

pub mod attributes;
pub mod config;
pub mod context;
pub mod creation;
pub mod display;
pub mod error;
pub mod gl;
pub mod instance;
pub mod srgb;
pub mod surface;
pub mod text;
pub mod version;
