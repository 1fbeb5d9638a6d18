//! The settings with which a surface is created.
//!
//! The bridge does not look into them: it hands them to whoever creates the
//! surface, as they came.

use vstd::prelude::*;

verus! {

/// How much larger than the frame the window is.
#[derive(Clone, Copy, Debug, PartialEq, Eq, Structural)]
pub enum Scale {
    /// The largest scale that fits the screen.
    FitScreen,
    /// One screen pixel for each pixel of the frame.
    X1,
    /// Two screen pixels along each axis for each pixel of the frame.
    X2,
    /// Four screen pixels along each axis.
    X4,
    /// Eight screen pixels along each axis.
    X8,
    /// Sixteen screen pixels along each axis.
    X16,
    /// Thirty-two screen pixels along each axis.
    X32,
}

/// How a frame is laid into a window of another size.
#[derive(Clone, Copy, Debug, PartialEq, Eq, Structural)]
pub enum ScaleMode {
    /// The frame fills the window.
    Stretch,
    /// The frame fills the window along one axis and keeps its proportions.
    AspectRatioStretch,
    /// The frame sits unscaled in the middle of the window.
    Center,
    /// The frame sits unscaled in the upper left corner of the window.
    UpperLeft,
}

/// The settings of a surface.
#[derive(Clone, Copy, Debug, PartialEq, Eq, Structural)]
pub struct WindowOptions {
    /// No border around the window.
    pub borderless: bool,
    /// A title bar.
    pub title: bool,
    /// The user may resize the window.
    pub resize: bool,
    /// The size of the window relative to the frame.
    pub scale: Scale,
    /// How a frame is laid into the window.
    pub scale_mode: ScaleMode,
    /// The window stays above all others.
    pub topmost: bool,
    /// Transparent pixels are drawn as such.
    pub transparency: bool,
    /// No decoration at all.
    pub none: bool,
}

impl WindowOptions {
    /// A titled, fixed-size, opaque window that shows a frame pixel for pixel.
    pub open spec fn standard() -> WindowOptions {
        WindowOptions {
            borderless: false,
            title: true,
            resize: false,
            scale: Scale::X1,
            scale_mode: ScaleMode::Stretch,
            topmost: false,
            transparency: false,
            none: false,
        }
    }
}

impl Default for WindowOptions {
    fn default() -> (options: WindowOptions)
        ensures
            options == WindowOptions::standard(),
    {
        WindowOptions {
            borderless: false,
            title: true,
            resize: false,
            scale: Scale::X1,
            scale_mode: ScaleMode::Stretch,
            topmost: false,
            transparency: false,
            none: false,
        }
    }
}

} // verus!
