//! The handle type that owns one opaque native resource.
//!
//! An `XDo` value stands for one live native automation context. The
//! native layer identifies the context by an opaque non-null reference;
//! the library carries that reference as a plain number, never
//! dereferences it, and never duplicates it: `XDo` is neither `Clone`
//! nor `Copy`, and `release` consumes the handle, so at most one release
//! can ever be issued for it.
//!
//! Construction runs in two phases, mirroring the order in which the
//! work must happen at the boundary. `prepare_new` validates the
//! optional display name before anything is marshalled: a name with an
//! embedded NUL is rejected here and the native layer is never reached.
//! The shell then invokes the native constructor and hands the returned
//! reference to `new`, which rejects a null reference and otherwise
//! wraps it. Each operation likewise produces the one `NativeCall` the
//! native layer is to execute, or an encoding error produced before any
//! call; the status the native layer reports back is interpreted by
//! `op_result_from_status`.

use vstd::prelude::*;

use crate::call::{CallView, KeyDirection, NativeCall, CURRENT_WINDOW};
use crate::errors::{CreationError, NulCharError, OpError};
use crate::text::{find_interior_nul, first_nul, has_nul};

verus! {

/// The main handle type which provides access to the various operations.
///
/// Owns exactly one opaque native resource reference, which is non-null
/// for the whole lifetime of the value.
pub struct XDo {
    handle: u64,
}

/// The creation error produced for a display name whose first embedded
/// NUL character sits at index `first_nul(s)`.
pub open spec fn creation_nul_error(s: Seq<char>) -> CreationError {
    CreationError::Nul(NulCharError { index: first_nul(s) as usize })
}

/// The operation error produced for a string argument whose first
/// embedded NUL character sits at index `first_nul(s)`.
pub open spec fn op_nul_error(s: Seq<char>) -> OpError {
    OpError::Nul(NulCharError { index: first_nul(s) as usize })
}

/// The verdict of display-name validation: an optional display name is
/// accepted exactly when it carries no embedded NUL character.
pub open spec fn display_check(display: Option<Seq<char>>) -> Result<(), CreationError> {
    match display {
        Some(s) => if has_nul(s) {
            Err(creation_nul_error(s))
        } else {
            Ok(())
        },
        None => Ok(()),
    }
}

/// The verdict of string-argument validation for an operation: the
/// string is accepted exactly when it carries no embedded NUL character.
pub open spec fn string_op_check(s: Seq<char>) -> Result<(), OpError> {
    if has_nul(s) {
        Err(op_nul_error(s))
    } else {
        Ok(())
    }
}

/// The character sequences behind an optional display name.
pub open spec fn display_view(display: Option<&str>) -> Option<Seq<char>> {
    match display {
        Some(s) => Some(s@),
        None => None,
    }
}

/// The one native call that ends a handle's life: releasing exactly the
/// resource the handle owns.
pub open spec fn release_call(h: XDo) -> CallView {
    CallView::Free { handle: h.id() }
}

/// How the reference returned by the native constructor is interpreted:
/// null (zero) is the sole failure signal, and any other value becomes
/// the resource reference the new handle owns.
pub open spec fn construction(raw: u64) -> Result<u64, CreationError> {
    if raw == 0 {
        Err(CreationError::Ffi)
    } else {
        Ok(raw)
    }
}

impl XDo {
    /// The opaque native resource reference this handle owns.
    pub closed spec fn id(&self) -> u64 {
        self.handle
    }

    /// A live handle always owns a non-null reference.
    pub open spec fn wf(&self) -> bool {
        self.id() != 0
    }

    /// Validates the optional display name (such as `":0"`; absence
    /// means "use the default display") before it crosses the string
    /// boundary. A name with an embedded NUL character is rejected with
    /// an encoding error, and nothing is handed to the native layer; a
    /// valid name is returned unchanged, ready to be marshalled.
    pub fn prepare_new<'a>(display: Option<&'a str>) -> (r: Result<Option<&'a str>, CreationError>)
        ensures
            match r {
                Ok(d) => {
                    &&& d == display
                    &&& display_check(display_view(display)) == Ok::<(), CreationError>(())
                },
                Err(e) => display_check(display_view(display)) == Err::<(), CreationError>(e),
            },
    {
        match display {
            Some(s) => match find_interior_nul(s) {
                Some(i) => Err(CreationError::from(NulCharError { index: i })),
                None => Ok(Some(s)),
            },
            None => Ok(None),
        }
    }

    /// Creates a new `XDo` instance from the resource reference the
    /// native constructor returned for a previously validated display
    /// name. A null reference (zero) means the native layer failed and
    /// yields `CreationError::Ffi`; any other reference is wrapped into
    /// a handle that exclusively owns it.
    pub fn new(raw: u64) -> (r: Result<XDo, CreationError>)
        ensures
            match r {
                Ok(h) => {
                    &&& construction(raw) == Ok::<u64, CreationError>(h.id())
                    &&& h.id() == raw
                    &&& h.wf()
                },
                Err(e) => construction(raw) == Err::<u64, CreationError>(e),
            },
    {
        if raw == 0 {
            Err(CreationError::Ffi)
        } else {
            Ok(XDo { handle: raw })
        }
    }

    /// Moves the mouse to the specified position on the given screen.
    pub fn move_mouse(&self, x: i32, y: i32, screen: i32) -> (c: NativeCall<'static>)
        ensures
            c@ == (CallView::MoveMouse { handle: self.id(), x, y, screen }),
    {
        NativeCall::MoveMouse { handle: self.handle, x, y, screen }
    }

    /// Moves the mouse relative to the current position.
    pub fn move_mouse_relative(&self, x: i32, y: i32) -> (c: NativeCall<'static>)
        ensures
            c@ == (CallView::MoveMouseRelative { handle: self.id(), dx: x, dy: y }),
    {
        NativeCall::MoveMouseRelative { handle: self.handle, dx: x, dy: y }
    }

    /// Does a mouse click on the currently focused window.
    pub fn click(&self, button: i32) -> (c: NativeCall<'static>)
        ensures
            c@ == (CallView::Click { handle: self.id(), window: CURRENT_WINDOW, button }),
    {
        NativeCall::Click { handle: self.handle, window: CURRENT_WINDOW, button }
    }

    /// Holds a mouse button down on the currently focused window.
    pub fn mouse_down(&self, button: i32) -> (c: NativeCall<'static>)
        ensures
            c@ == (CallView::MouseDown { handle: self.id(), window: CURRENT_WINDOW, button }),
    {
        NativeCall::MouseDown { handle: self.handle, window: CURRENT_WINDOW, button }
    }

    /// Releases a mouse button on the currently focused window.
    pub fn mouse_up(&self, button: i32) -> (c: NativeCall<'static>)
        ensures
            c@ == (CallView::MouseUp { handle: self.id(), window: CURRENT_WINDOW, button }),
    {
        NativeCall::MouseUp { handle: self.handle, window: CURRENT_WINDOW, button }
    }

    /// Types the specified text into the currently focused window,
    /// pausing `delay_microsecs` between keystrokes. Text with an
    /// embedded NUL character is rejected with an encoding error before
    /// any native call.
    pub fn enter_text<'a>(&self, text: &'a str, delay_microsecs: u32) -> (r: Result<
        NativeCall<'a>,
        OpError,
    >)
        ensures
            match r {
                Ok(c) => {
                    &&& string_op_check(text@) == Ok::<(), OpError>(())
                    &&& c@ == (CallView::EnterText {
                        handle: self.id(),
                        window: CURRENT_WINDOW,
                        text: text@,
                        delay_microsecs,
                    })
                },
                Err(e) => string_op_check(text@) == Err::<(), OpError>(e),
            },
    {
        match find_interior_nul(text) {
            Some(i) => Err(OpError::from(NulCharError { index: i })),
            None => Ok(
                NativeCall::EnterText {
                    handle: self.handle,
                    window: CURRENT_WINDOW,
                    text,
                    delay_microsecs,
                },
            ),
        }
    }

    /// The shared body of the three key-sequence operations: validate
    /// the sequence string, then describe the one native call to make.
    fn keysequence_call<'a>(
        &self,
        sequence: &'a str,
        delay_microsecs: u32,
        direction: KeyDirection,
    ) -> (r: Result<NativeCall<'a>, OpError>)
        ensures
            match r {
                Ok(c) => {
                    &&& string_op_check(sequence@) == Ok::<(), OpError>(())
                    &&& c@ == (CallView::Keysequence {
                        handle: self.id(),
                        window: CURRENT_WINDOW,
                        direction,
                        sequence: sequence@,
                        delay_microsecs,
                    })
                },
                Err(e) => string_op_check(sequence@) == Err::<(), OpError>(e),
            },
    {
        match find_interior_nul(sequence) {
            Some(i) => Err(OpError::from(NulCharError { index: i })),
            None => Ok(
                NativeCall::Keysequence {
                    handle: self.handle,
                    window: CURRENT_WINDOW,
                    direction,
                    sequence,
                    delay_microsecs,
                },
            ),
        }
    }

    /// Presses and releases the specified key sequence on the currently
    /// focused window. A sequence with an embedded NUL character is
    /// rejected with an encoding error before any native call.
    pub fn send_keysequence<'a>(&self, sequence: &'a str, delay_microsecs: u32) -> (r: Result<
        NativeCall<'a>,
        OpError,
    >)
        ensures
            match r {
                Ok(c) => {
                    &&& string_op_check(sequence@) == Ok::<(), OpError>(())
                    &&& c@ == (CallView::Keysequence {
                        handle: self.id(),
                        window: CURRENT_WINDOW,
                        direction: KeyDirection::PressRelease,
                        sequence: sequence@,
                        delay_microsecs,
                    })
                },
                Err(e) => string_op_check(sequence@) == Err::<(), OpError>(e),
            },
    {
        self.keysequence_call(sequence, delay_microsecs, KeyDirection::PressRelease)
    }

    /// Releases the specified key sequence on the currently focused
    /// window. Same string constraint as `send_keysequence`.
    pub fn send_keysequence_up<'a>(&self, sequence: &'a str, delay_microsecs: u32) -> (r: Result<
        NativeCall<'a>,
        OpError,
    >)
        ensures
            match r {
                Ok(c) => {
                    &&& string_op_check(sequence@) == Ok::<(), OpError>(())
                    &&& c@ == (CallView::Keysequence {
                        handle: self.id(),
                        window: CURRENT_WINDOW,
                        direction: KeyDirection::Up,
                        sequence: sequence@,
                        delay_microsecs,
                    })
                },
                Err(e) => string_op_check(sequence@) == Err::<(), OpError>(e),
            },
    {
        self.keysequence_call(sequence, delay_microsecs, KeyDirection::Up)
    }

    /// Presses the specified key sequence down on the currently focused
    /// window. Same string constraint as `send_keysequence`.
    pub fn send_keysequence_down<'a>(&self, sequence: &'a str, delay_microsecs: u32) -> (r: Result<
        NativeCall<'a>,
        OpError,
    >)
        ensures
            match r {
                Ok(c) => {
                    &&& string_op_check(sequence@) == Ok::<(), OpError>(())
                    &&& c@ == (CallView::Keysequence {
                        handle: self.id(),
                        window: CURRENT_WINDOW,
                        direction: KeyDirection::Down,
                        sequence: sequence@,
                        delay_microsecs,
                    })
                },
                Err(e) => string_op_check(sequence@) == Err::<(), OpError>(e),
            },
    {
        self.keysequence_call(sequence, delay_microsecs, KeyDirection::Down)
    }

    /// Ends the handle's life, consuming it and producing the one
    /// release call the native layer must execute for its resource.
    /// Because the handle is consumed and cannot be duplicated, no
    /// second release can ever be produced for the same resource.
    pub fn release(self) -> (c: NativeCall<'static>)
        ensures
            c@ == release_call(self),
    {
        NativeCall::Free { handle: self.handle }
    }
}

} // verus!
