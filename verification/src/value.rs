//! What the bridge sees of a script's values.

use vstd::prelude::*;
use crate::window::Window;

verus! {

/// A value that a script passes, as far as the bridge tells values apart.
#[derive(Clone, Copy, Debug)]
pub enum ScriptValue<'a> {
    /// The value `undefined`.
    Undefined,
    /// A number, cut down to an unsigned integer: its whole part, 0 where it
    /// is negative or not a number, the largest `u64` where it is beyond that.
    Number(u64),
    /// An object.
    Object(ScriptObject<'a>),
    /// Any other value.
    Other,
}

/// An object that a script passes.
#[derive(Clone, Copy, Debug)]
pub enum ScriptObject<'a> {
    /// A window of this bridge.
    Window(&'a Window),
    /// A byte buffer, with its storage.
    ArrayBuffer(&'a [u8]),
    /// Any other object.
    Other,
}

impl<'a> ScriptValue<'a> {
    /// Whether the value is a window of this bridge.
    pub open spec fn is_window(self) -> bool {
        self matches ScriptValue::Object(ScriptObject::Window(_))
    }

    /// The window that the value is, where it is one.
    pub open spec fn window(self) -> Window
        recommends
            self.is_window(),
    {
        match self {
            ScriptValue::Object(ScriptObject::Window(window)) => *window,
            _ => arbitrary(),
        }
    }
}

} // verus!
