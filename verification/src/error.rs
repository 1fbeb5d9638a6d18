//! The failures that a script can catch.

use vstd::prelude::*;

verus! {

/// Why a call on the bridge was turned down.
#[derive(Clone, Copy, Debug, PartialEq, Eq, Structural)]
pub enum ScriptError {
    /// The receiver of the call is not a window.
    NotAWindow,
    /// The refresh interval is neither a number nor `undefined` nor left out.
    InvalidUpdateRate,
    /// The first argument is left out or is not an object.
    MissingArrayBuffer,
    /// The first argument is an object, but not a byte buffer.
    NotAnArrayBuffer,
    /// Width or height is left out or is not a number.
    InvalidDimensions,
    /// The buffer holds fewer than four bytes for each pixel of the frame.
    BufferTooSmall,
    /// The buffer does not end on a pixel boundary.
    PartialPixel,
    /// The surface has been closed.
    WindowClosed,
    /// The surface could not be created.
    SurfaceUnavailable,
}

impl ScriptError {
    /// The text that the script sees.
    pub open spec fn spec_message(self) -> Seq<char> {
        match self {
            ScriptError::NotAWindow => "Not a window"@,
            ScriptError::InvalidUpdateRate => "Invalid update rate"@,
            ScriptError::MissingArrayBuffer => "Missing ArrayBuffer argument"@,
            ScriptError::NotAnArrayBuffer => "Not an ArrayBuffer"@,
            ScriptError::InvalidDimensions => "Width and height must be present and numbers"@,
            ScriptError::BufferTooSmall => "ArrayBuffer is too small for width and height"@,
            ScriptError::PartialPixel => "ArrayBuffer length must be a multiple of 4"@,
            ScriptError::WindowClosed => "Window is closed"@,
            ScriptError::SurfaceUnavailable => "Failed to create window"@,
        }
    }

    /// The text that the script sees.
    pub fn message(&self) -> (text: String)
        ensures
            text@ == self.spec_message(),
    {
        let text: &str = match self {
            ScriptError::NotAWindow => "Not a window",
            ScriptError::InvalidUpdateRate => "Invalid update rate",
            ScriptError::MissingArrayBuffer => "Missing ArrayBuffer argument",
            ScriptError::NotAnArrayBuffer => "Not an ArrayBuffer",
            ScriptError::InvalidDimensions => "Width and height must be present and numbers",
            ScriptError::BufferTooSmall => "ArrayBuffer is too small for width and height",
            ScriptError::PartialPixel => "ArrayBuffer length must be a multiple of 4",
            ScriptError::WindowClosed => "Window is closed",
            ScriptError::SurfaceUnavailable => "Failed to create window",
        };
        text.to_owned()
    }
}

} // verus!
