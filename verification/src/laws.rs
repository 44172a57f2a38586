//! The laws of the wrapper, stated and proved over the same spec
//! functions that the public contracts use.

use vstd::prelude::*;

use crate::call::{op_result_of, CallView, OpResult};
use crate::errors::{CreationError, OpError};
use crate::handle::{
    construction, creation_nul_error, display_check, op_nul_error, release_call, string_op_check,
    XDo,
};
use crate::text::has_nul;

verus! {

/// The pair of outcomes a session of two successive operations reports,
/// given the native statuses of the two calls.
pub open spec fn two_op_session(first: i32, second: i32) -> (OpResult, OpResult) {
    (op_result_of(first), op_result_of(second))
}

/// For a display name free of embedded NUL characters, construction
/// never reports an encoding error: validation accepts the name
/// outright, and the only way construction can fail is the native
/// constructor returning a null reference, reported as
/// `CreationError::Ffi`; a non-null reference always yields a usable
/// handle owning it.
pub proof fn lemma_valid_display_creation(display: Option<Seq<char>>, raw: u64)
    requires
        display matches Some(s) ==> !has_nul(s),
    ensures
        display_check(display) == Ok::<(), CreationError>(()),
        raw == 0 ==> construction(raw) == Err::<u64, CreationError>(CreationError::Ffi),
        raw != 0 ==> construction(raw) == Ok::<u64, CreationError>(raw),
{
}

/// A string with an embedded NUL character is rejected by display-name
/// validation and by the string validation of every operation, always
/// with the encoding error naming the first embedded NUL. Both verdicts
/// fall before a native call is described, so nothing reaches the
/// native layer for such a string.
pub proof fn lemma_nul_string_rejected(s: Seq<char>)
    requires
        has_nul(s),
    ensures
        display_check(Some(s)) == Err::<(), CreationError>(creation_nul_error(s)),
        string_op_check(s) == Err::<(), OpError>(op_nul_error(s)),
        creation_nul_error(s) is Nul,
        op_nul_error(s) is Nul,
{
}

/// Every successfully constructed handle owns exactly the reference the
/// native constructor returned, and its release call frees exactly that
/// reference. Because `release` consumes the handle and `XDo` can be
/// neither cloned nor copied, at most one release call can ever be
/// produced per handle; the shell executes each produced call once,
/// whatever exit path ends the handle's scope.
pub proof fn lemma_release_matches_creation(raw: u64, h: XDo)
    requires
        construction(raw) == Ok::<u64, CreationError>(h.id()),
    ensures
        raw != 0,
        h.id() == raw,
        h.wf(),
        release_call(h) == (CallView::Free { handle: raw }),
{
}

/// The operation layer is stateless: in a session of two successive
/// operations, each reported outcome is a function of that call's own
/// native status alone. Changing the first status cannot change the
/// second report, and changing the second cannot change the first.
pub proof fn lemma_ops_stateless(first: i32, second: i32, other: i32)
    ensures
        two_op_session(first, second).0 == op_result_of(first),
        two_op_session(first, second).1 == op_result_of(second),
        two_op_session(other, second).1 == two_op_session(first, second).1,
        two_op_session(first, other).0 == two_op_session(first, second).0,
{
}

/// Handles constructed from distinct native references are independent:
/// each owns its own reference, and the release call of one names a
/// different resource than the release call of the other, so releasing
/// one cannot touch the resource the other still owns.
pub proof fn lemma_independent_handles(raw1: u64, raw2: u64, h1: XDo, h2: XDo)
    requires
        raw1 != raw2,
        construction(raw1) == Ok::<u64, CreationError>(h1.id()),
        construction(raw2) == Ok::<u64, CreationError>(h2.id()),
    ensures
        h1.wf(),
        h2.wf(),
        h1.id() != h2.id(),
        release_call(h1) != release_call(h2),
        release_call(h1) == (CallView::Free { handle: raw1 }),
        release_call(h2) == (CallView::Free { handle: raw2 }),
{
}

} // verus!
