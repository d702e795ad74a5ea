//! Verified decision core of a windowed rendering framework.
//!
//! The framework drives a window, a presentation surface and a user
//! application.  Everything that touches the window system or the GPU is done
//! by the embedding event loop; this crate decides, for every event, what has
//! to happen next and keeps the surface bookkeeping consistent.
//!
//! - [`surface`]: surface extents and settings, the surface lifecycle step and
//!   the choice of the surface format.
//! - [`handler`]: the event-handler state machine (window events, texture
//!   acquisition, suspend and resume).
//! - [`laws`]: properties that relate several steps of the state machine.

pub mod surface;
pub mod handler;
pub mod laws;
