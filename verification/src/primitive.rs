//! The shapes that the renderer draws.

pub mod quad;
