//! The native call surface, modelled as data.
//!
//! Every operation of the wrapper resolves to exactly one call into the
//! native layer. The library never performs that call itself: it
//! produces a `NativeCall` value describing precisely which native
//! function is to be invoked and with which arguments, and it interprets
//! the integer status the native layer reports back. The unverified
//! shell that owns the foreign interface executes the call and feeds the
//! status to `op_result_from_status`.

use vstd::prelude::*;

use crate::errors::OpError;

verus! {

/// The fixed "target window" sentinel: every window-taking native call
/// is directed at the currently focused window, never at a
/// caller-chosen one.
pub const CURRENT_WINDOW: u64 = 0;

/// Which half (or whole) of a key stroke a key-sequence call performs.
#[derive(Clone, Copy, Debug, PartialEq, Eq, Structural)]
pub enum KeyDirection {
    /// Press and release the sequence.
    PressRelease,
    /// Press the sequence down and leave it held.
    Down,
    /// Release a previously held sequence.
    Up,
}

/// A description of one call into the native layer: which native
/// function, and every argument it receives. String arguments appearing
/// here are guaranteed free of embedded NUL characters, so they can be
/// marshalled as C strings.
#[derive(Debug, PartialEq)]
pub enum NativeCall<'a> {
    /// Release the native resource `handle`.
    Free { handle: u64 },
    /// Move the pointer to `(x, y)` on screen `screen`.
    MoveMouse { handle: u64, x: i32, y: i32, screen: i32 },
    /// Move the pointer by `(dx, dy)` relative to its current position.
    MoveMouseRelative { handle: u64, dx: i32, dy: i32 },
    /// Click mouse button `button` on window `window`.
    Click { handle: u64, window: u64, button: i32 },
    /// Hold mouse button `button` down on window `window`.
    MouseDown { handle: u64, window: u64, button: i32 },
    /// Release mouse button `button` on window `window`.
    MouseUp { handle: u64, window: u64, button: i32 },
    /// Type `text` literally into window `window`, pausing
    /// `delay_microsecs` between keystrokes.
    EnterText { handle: u64, window: u64, text: &'a str, delay_microsecs: u32 },
    /// Send the symbolic key sequence `sequence` to window `window`,
    /// in the given direction, pausing `delay_microsecs` between keys.
    Keysequence {
        handle: u64,
        window: u64,
        direction: KeyDirection,
        sequence: &'a str,
        delay_microsecs: u32,
    },
}

/// The mathematical shape of a `NativeCall`: the same description with
/// the string arguments abstracted to character sequences.
pub ghost enum CallView {
    Free { handle: u64 },
    MoveMouse { handle: u64, x: i32, y: i32, screen: i32 },
    MoveMouseRelative { handle: u64, dx: i32, dy: i32 },
    Click { handle: u64, window: u64, button: i32 },
    MouseDown { handle: u64, window: u64, button: i32 },
    MouseUp { handle: u64, window: u64, button: i32 },
    EnterText { handle: u64, window: u64, text: Seq<char>, delay_microsecs: u32 },
    Keysequence {
        handle: u64,
        window: u64,
        direction: KeyDirection,
        sequence: Seq<char>,
        delay_microsecs: u32,
    },
}

impl<'a> View for NativeCall<'a> {
    type V = CallView;

    open spec fn view(&self) -> CallView {
        match *self {
            NativeCall::Free { handle } => CallView::Free { handle },
            NativeCall::MoveMouse { handle, x, y, screen } => CallView::MoveMouse {
                handle,
                x,
                y,
                screen,
            },
            NativeCall::MoveMouseRelative { handle, dx, dy } => CallView::MoveMouseRelative {
                handle,
                dx,
                dy,
            },
            NativeCall::Click { handle, window, button } => CallView::Click {
                handle,
                window,
                button,
            },
            NativeCall::MouseDown { handle, window, button } => CallView::MouseDown {
                handle,
                window,
                button,
            },
            NativeCall::MouseUp { handle, window, button } => CallView::MouseUp {
                handle,
                window,
                button,
            },
            NativeCall::EnterText { handle, window, text, delay_microsecs } => (CallView::EnterText {
                handle,
                window,
                text: text@,
                delay_microsecs,
            }),
            NativeCall::Keysequence {
                handle,
                window,
                direction,
                sequence,
                delay_microsecs,
            } => (CallView::Keysequence {
                handle,
                window,
                direction,
                sequence: sequence@,
                delay_microsecs,
            }),
        }
    }
}

/// Result of an `XDo` operation.
pub type OpResult = Result<(), OpError>;

/// How a native status code is reported to the caller: zero is the sole
/// success signal, any other status is surfaced verbatim.
pub open spec fn op_result_of(status: i32) -> OpResult {
    if status == 0 {
        Ok(())
    } else {
        Err(OpError::Ffi(status))
    }
}

/// Interprets the integer status reported by a native operation call:
/// zero means success, anything else is a native failure carrying the
/// status code. The outcome is a function of the status alone, so no
/// state carries over from one operation to the next.
pub fn op_result_from_status(status: i32) -> (r: OpResult)
    ensures
        r == op_result_of(status),
{
    if status == 0 {
        Ok(())
    } else {
        Err(OpError::Ffi(status))
    }
}

} // verus!
