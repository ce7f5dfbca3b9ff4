//! The closed union of events the callback bridge can deliver.
//!
//! Native callbacks fire synchronously during poll/wait calls; each one
//! validates its primitive arguments and appends one of these values to the
//! aggregation queue. Scalar payloads that the native layer reports as
//! floating-point samples (cursor position, scroll offset, content scale,
//! event timestamps) are carried as opaque bit patterns: the safety core
//! never interprets them, it only moves them to the consumer.

use vstd::prelude::*;

use crate::monitor::MonitorId;
use crate::types::GlfwError;
use crate::types::Joystick;
use crate::types::Key;
use crate::types::Modifiers;
use crate::types::MouseButton;
use crate::window::WindowId;

verus! {

/// One event, tagged with the handle it originated from where one exists.
#[derive(Debug, Clone, PartialEq)]
pub enum Event {
    /// A fault forwarded from the error channel.
    Error(GlfwError),
    /// The window was moved; the new position of the upper-left corner of
    /// the content area, in screen coordinates.
    Pos { window: WindowId, x: i32, y: i32 },
    /// The window was resized; the new size of the content area, in screen
    /// coordinates.
    Size { window: WindowId, width: i32, height: i32 },
    /// The user attempted to close the window; only the should-close flag is
    /// set, nothing is destroyed.
    Close { window: WindowId },
    /// The contents of the window were damaged and need to be redrawn.
    Refresh { window: WindowId },
    /// The window gained or lost input focus.
    Focus { window: WindowId, focused: bool },
    /// The window was iconified (minimized) or restored.
    Iconify { window: WindowId, iconified: bool },
    /// The window was maximized or restored.
    Maximize { window: WindowId, maximized: bool },
    /// The framebuffer of the window was resized; the new size in pixels.
    FramebufferSize { window: WindowId, width: i32, height: i32 },
    /// The content scale of the window changed. The two fields carry the bit
    /// patterns of the native 32-bit scale samples.
    ContentScale { window: WindowId, xscale_bits: u32, yscale_bits: u32 },
    /// A physical key was pressed, released, or repeated.
    Key {
        window: WindowId,
        /// The key token, or `None` when the native layer has no token for
        /// the key.
        key: Option<Key>,
        /// The platform-specific scancode, meaningful even without a token.
        scancode: i32,
        /// `true` if pressed, `false` if released; ignore when `repeat`.
        pressed: bool,
        /// The key is being held down; ignore `pressed` then.
        repeat: bool,
        mods: Modifiers,
    },
    /// Text input: one Unicode code point from the system text input
    /// machinery.
    Char { window: WindowId, codepoint: char },
    /// A mouse button was pressed or released.
    MouseButton { window: WindowId, button: MouseButton, pressed: bool, mods: Modifiers },
    /// The cursor moved; the two fields carry the bit patterns of the native
    /// 64-bit coordinate samples, relative to the content area's upper-left
    /// corner.
    CursorPos { window: WindowId, x_bits: u64, y_bits: u64 },
    /// The cursor entered or left the content area of the window.
    CursorEnter { window: WindowId, entered: bool },
    /// The user scrolled; the two fields carry the bit patterns of the
    /// native 64-bit offset samples.
    Scroll { window: WindowId, x_bits: u64, y_bits: u64 },
    /// Paths of files or directories dropped onto the window.
    DropPaths { window: WindowId, paths: Vec<String> },
    /// A joystick was connected or disconnected.
    JoystickConnected { joystick: Joystick, connected: bool },
    /// A monitor was connected or disconnected. On disconnect its identity
    /// has already left the live set when this event is delivered.
    MonitorConnected { monitor: MonitorId, connected: bool },
}

} // verus!
