//! Control logic of a minimal windowed OpenGL program that draws one triangle
//! until the escape key is pressed.
//!
//! The crate decides; it never touches a window or a driver itself. A host
//! program performs each [`command::Command`] that a [`session::Session`]
//! hands out and gives the outcome back as a [`command::Reply`].

pub mod command;
pub mod failure;
pub mod info_log;
pub mod input;
pub mod laws;
pub mod render_loop;
pub mod scene;
pub mod session;
