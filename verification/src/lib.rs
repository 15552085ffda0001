//! The core of a renderer of rounded rectangles: what the quad pipeline
//! creates, uploads and draws, how a presentation target follows the size
//! of its window, and what one frame submits.
//!
//! Nothing here touches a graphics device or a window. Every function takes
//! plain values and returns plain values that say what is to be created,
//! copied and drawn; the owner of the device carries that out. Numbers that
//! reach the device are held as their binary32 encodings throughout.

pub mod binary32;
pub mod bytes;
pub mod device;
pub mod primitive;
pub mod rectangle;
pub mod renderer;
pub mod shader;
pub mod transformation;
