//! The decisions behind a script-visible pixel window.
//!
//! A script holds a window object, pushes byte buffers into it frame by frame,
//! asks whether it is still open and throttles its refresh rate. This crate
//! holds everything such a bridge decides: which receiver and which arguments
//! are acceptable, which failure a script sees otherwise, how a byte buffer
//! becomes a view of 32-bit pixels, and what the bridge remembers of its
//! surface. Creating the surface and blitting to it are left to the caller.

pub mod error;
pub mod options;
pub mod pixels;
pub mod value;
pub mod window;

pub use crate::window::constructor;
pub use crate::window::Window;
