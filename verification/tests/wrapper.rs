//! Tests driving the wrapper against a stubbed native layer: the tests
//! play the role of the shell, choosing the resource references the
//! "native constructor" returns and the status codes the "native calls"
//! report.

use libxdo::call::{op_result_from_status, KeyDirection, NativeCall, CURRENT_WINDOW};
use libxdo::delay::{delay_from_micros, DELAY_MAX_MICROS, DELAY_MIN_MICROS};
use libxdo::errors::{CreationError, NulCharError, OpError};
use libxdo::handle::XDo;
use libxdo::text::find_interior_nul;

fn fresh(raw: u64) -> XDo {
    XDo::new(raw).expect("non-null reference must yield a handle")
}

#[test]
fn valid_display_passes_validation() {
    let r = XDo::prepare_new(Some(":0"));
    assert_eq!(r, Ok(Some(":0")));
}

#[test]
fn absent_display_passes_validation() {
    let r = XDo::prepare_new(None);
    assert_eq!(r, Ok(None));
}

#[test]
fn valid_display_fails_only_with_ffi() {
    // The native constructor is stubbed to fail: the only error a valid
    // display name can produce is the native-failure tag.
    let display = XDo::prepare_new(Some(":0")).unwrap();
    assert_eq!(display, Some(":0"));
    let stub_raw: u64 = 0; // native constructor returned null
    match XDo::new(stub_raw) {
        Err(CreationError::Ffi) => {}
        _ => panic!("expected the native-failure creation error"),
    }
}

#[test]
fn valid_display_succeeds_when_native_succeeds() {
    let display = XDo::prepare_new(Some(":0")).unwrap();
    assert_eq!(display, Some(":0"));
    let stub_raw: u64 = 0x1000;
    assert!(XDo::new(stub_raw).is_ok());
}

#[test]
fn nul_display_rejected_before_native_call() {
    let r = XDo::prepare_new(Some("a\0b"));
    assert_eq!(r, Err(CreationError::Nul(NulCharError { index: 1 })));
}

#[test]
fn nul_at_start_reported_at_index_zero() {
    let r = XDo::prepare_new(Some("\0ab"));
    assert_eq!(r, Err(CreationError::Nul(NulCharError { index: 0 })));
}

#[test]
fn nul_text_rejected_by_enter_text() {
    let h = fresh(0x1000);
    let r = h.enter_text("he\0llo", 0);
    assert_eq!(r, Err(OpError::Nul(NulCharError { index: 2 })));
}

#[test]
fn nul_sequence_rejected_by_all_keysequence_ops() {
    let h = fresh(0x1000);
    let e = Err(OpError::Nul(NulCharError { index: 3 }));
    assert_eq!(h.send_keysequence("ctr\0l", 5), e);
    assert_eq!(h.send_keysequence_up("ctr\0l", 5), e);
    assert_eq!(h.send_keysequence_down("ctr\0l", 5), e);
}

#[test]
fn find_interior_nul_reports_first_occurrence() {
    assert_eq!(find_interior_nul("abc"), None);
    assert_eq!(find_interior_nul(""), None);
    assert_eq!(find_interior_nul("a\0b\0c"), Some(1));
    assert_eq!(find_interior_nul("\0"), Some(0));
}

#[test]
fn release_frees_the_created_reference() {
    // Whatever path the handle takes, its one release call names the
    // reference construction handed it.
    let h = fresh(0x2a);
    let ops = h.click(1);
    match ops {
        NativeCall::Click { handle, .. } => assert_eq!(handle, 0x2a),
        _ => panic!("expected a click call"),
    }
    let free = h.release();
    assert_eq!(free, NativeCall::Free { handle: 0x2a });
}

#[test]
fn release_after_failed_operation_names_same_reference() {
    // An early exit after an operation error still releases the same
    // resource exactly once.
    let h = fresh(0x77);
    let r = h.enter_text("bad\0text", 0);
    assert!(r.is_err());
    let free = h.release();
    assert_eq!(free, NativeCall::Free { handle: 0x77 });
}

#[test]
fn delay_bounds_are_inclusive() {
    assert_eq!(delay_from_micros(0), Ok(0));
    assert_eq!(delay_from_micros(1_000_000), Ok(1_000_000));
}

#[test]
fn delay_below_range_reports_value_and_bounds() {
    assert_eq!(
        delay_from_micros(-1),
        Err(OpError::OutOfRange { value: -1, min: 0, max: 1_000_000 })
    );
}

#[test]
fn delay_above_range_reports_value_and_bounds() {
    assert_eq!(
        delay_from_micros(1_000_001),
        Err(OpError::OutOfRange { value: 1_000_001, min: 0, max: 1_000_000 })
    );
}

#[test]
fn delay_bound_constants_match_reported_bounds() {
    assert_eq!(DELAY_MIN_MICROS, 0);
    assert_eq!(DELAY_MAX_MICROS, 1_000_000);
}

#[test]
fn click_succeeds_when_native_layer_returns_zero() {
    // Native layer stubbed to always return 0: a click with button 1
    // yields success with no error.
    let h = fresh(0x1000);
    let call = h.click(1);
    assert_eq!(
        call,
        NativeCall::Click { handle: 0x1000, window: CURRENT_WINDOW, button: 1 }
    );
    let stub_status: i32 = 0;
    assert_eq!(op_result_from_status(stub_status), Ok(()));
}

#[test]
fn move_relative_reports_each_status_independently() {
    // Two immediately successive move-relative operations: each reports
    // the status of its own native call, nothing carries over.
    let h = fresh(0x1000);
    let first = h.move_mouse_relative(10, -5);
    assert_eq!(
        first,
        NativeCall::MoveMouseRelative { handle: 0x1000, dx: 10, dy: -5 }
    );
    let first_status: i32 = 13;
    assert_eq!(op_result_from_status(first_status), Err(OpError::Ffi(13)));

    let second = h.move_mouse_relative(10, -5);
    assert_eq!(
        second,
        NativeCall::MoveMouseRelative { handle: 0x1000, dx: 10, dy: -5 }
    );
    let second_status: i32 = 0;
    assert_eq!(op_result_from_status(second_status), Ok(()));
}

#[test]
fn two_handles_are_independent() {
    // Sequentially constructed handles own independent references;
    // releasing one leaves the other usable.
    let h1 = fresh(0x10);
    let h2 = fresh(0x20);
    let free1 = h1.release();
    assert_eq!(free1, NativeCall::Free { handle: 0x10 });
    let call = h2.move_mouse(3, 4, 0);
    assert_eq!(
        call,
        NativeCall::MoveMouse { handle: 0x20, x: 3, y: 4, screen: 0 }
    );
    let free2 = h2.release();
    assert_eq!(free2, NativeCall::Free { handle: 0x20 });
    assert_ne!(NativeCall::Free { handle: 0x10 }, free2);
}

#[test]
fn mouse_down_and_up_target_current_window() {
    let h = fresh(0x1000);
    assert_eq!(
        h.mouse_down(2),
        NativeCall::MouseDown { handle: 0x1000, window: CURRENT_WINDOW, button: 2 }
    );
    assert_eq!(
        h.mouse_up(2),
        NativeCall::MouseUp { handle: 0x1000, window: CURRENT_WINDOW, button: 2 }
    );
}

#[test]
fn enter_text_carries_text_and_delay() {
    let h = fresh(0x1000);
    let r = h.enter_text("hello", 250).unwrap();
    assert_eq!(
        r,
        NativeCall::EnterText {
            handle: 0x1000,
            window: CURRENT_WINDOW,
            text: "hello",
            delay_microsecs: 250,
        }
    );
}

#[test]
fn empty_text_is_valid() {
    let h = fresh(0x1000);
    let r = h.enter_text("", 0).unwrap();
    assert_eq!(
        r,
        NativeCall::EnterText {
            handle: 0x1000,
            window: CURRENT_WINDOW,
            text: "",
            delay_microsecs: 0,
        }
    );
}

#[test]
fn keysequence_variants_carry_their_direction() {
    let h = fresh(0x1000);
    let press = h.send_keysequence("ctrl+a", 7).unwrap();
    assert_eq!(
        press,
        NativeCall::Keysequence {
            handle: 0x1000,
            window: CURRENT_WINDOW,
            direction: KeyDirection::PressRelease,
            sequence: "ctrl+a",
            delay_microsecs: 7,
        }
    );
    let down = h.send_keysequence_down("shift", 0).unwrap();
    assert_eq!(
        down,
        NativeCall::Keysequence {
            handle: 0x1000,
            window: CURRENT_WINDOW,
            direction: KeyDirection::Down,
            sequence: "shift",
            delay_microsecs: 0,
        }
    );
    let up = h.send_keysequence_up("shift", 0).unwrap();
    assert_eq!(
        up,
        NativeCall::Keysequence {
            handle: 0x1000,
            window: CURRENT_WINDOW,
            direction: KeyDirection::Up,
            sequence: "shift",
            delay_microsecs: 0,
        }
    );
}

#[test]
fn nonzero_status_carries_its_code() {
    assert_eq!(op_result_from_status(1), Err(OpError::Ffi(1)));
    assert_eq!(op_result_from_status(-3), Err(OpError::Ffi(-3)));
    assert_eq!(op_result_from_status(i32::MAX), Err(OpError::Ffi(i32::MAX)));
}

#[test]
fn error_descriptions_name_their_category() {
    assert_eq!(
        CreationError::Nul(NulCharError { index: 0 }).description(),
        "libxdo creation error: Nul byte in argument"
    );
    assert_eq!(
        CreationError::Ffi.description(),
        "libxdo creation error: Ffi error"
    );
    assert_eq!(
        OpError::Nul(NulCharError { index: 0 }).description(),
        "xdo operation failure: Nul byte in argument"
    );
    assert_eq!(OpError::Ffi(4).description(), "xdo operation failure: Ffi error");
    assert_eq!(
        OpError::OutOfRange { value: 2_000_000, min: 0, max: 1_000_000 }.description(),
        "xdo operation failure: delay out of range"
    );
}

#[test]
fn encoding_errors_convert_into_both_error_types() {
    let nul = NulCharError { index: 9 };
    assert_eq!(CreationError::from(nul), CreationError::Nul(nul));
    assert_eq!(OpError::from(nul), OpError::Nul(nul));
}
