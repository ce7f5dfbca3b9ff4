//! Custom cursor images.
//!
//! A cursor is created from a raw RGBA pixel buffer or from a standard shape,
//! and then set on a window. The native layer owns the image; this module
//! validates the buffer geometry and tracks the opaque identity the native
//! layer returned.

use vstd::prelude::*;

use crate::types::StdCursor;

verus! {

/// A custom cursor: the opaque non-zero identity of a native cursor object.
#[derive(Debug, Clone, Copy, Eq, PartialEq, Hash, Structural)]
pub struct Cursor {
    /// The opaque native identity; never zero.
    pub id: u64,
}

impl Cursor {
    /// Wraps the identity the native layer returned for a cursor created
    /// from a raw pixel buffer: 32-bit RGBA, eight bits per channel, packed
    /// in rows from the top-left corner, with the hotspot in pixels from the
    /// upper-left corner. A buffer whose length does not match the claimed
    /// geometry is a fatal assertion in the original and a precondition
    /// here. The native layer returns zero when it could not create the
    /// cursor, which becomes `None`.
    pub fn new_from_pixels(
        width: u32,
        height: u32,
        pixels: &Vec<u8>,
        x_hot: i32,
        y_hot: i32,
        native: u64,
    ) -> (r: Option<Self>)
        requires
            pixels@.len() == width * height * 4,
        ensures
            r == if native == 0 {
                None::<Cursor>
            } else {
                (Some(Cursor { id: native }))
            },
    {
        let _ = pixels;
        let _ = x_hot;
        let _ = y_hot;
        if native == 0 {
            None
        } else {
            Some(Cursor { id: native })
        }
    }

    /// Wraps the identity the native layer returned for a standard-shape
    /// cursor. Shapes missing from the current platform's cursor theme make
    /// the native layer return zero, which becomes `None`.
    pub fn new_std_cursor(cursor: StdCursor, native: u64) -> (r: Option<Self>)
        ensures
            r == if native == 0 {
                None::<Cursor>
            } else {
                (Some(Cursor { id: native }))
            },
    {
        let _ = cursor;
        if native == 0 {
            None
        } else {
            Some(Cursor { id: native })
        }
    }

    /// The native identity stored inside.
    pub fn get_ptr(&self) -> (r: u64)
        ensures
            r == self.id,
    {
        self.id
    }
}

} // verus!
