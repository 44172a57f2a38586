//! A safe, verified surface over a native input-automation layer.
//!
//! The library owns the decision logic of the wrapper: validating string
//! arguments before they cross the C boundary, interpreting the native
//! layer's status codes, bounding delay parameters, and modelling the
//! lifecycle of the opaque native resource. The native calls themselves
//! are described as plain data (`NativeCall`) that an unverified shell
//! executes; every decision about what to send and how to report the
//! outcome is made and proved here.

pub mod call;
pub mod delay;
pub mod errors;
pub mod handle;
pub mod laws;
pub mod text;
