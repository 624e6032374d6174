//! Status translation: the single policy that turns a numeric driver status
//! into the closed error taxonomy of this crate.
//!
//! Every driver entry point returns an `i32` status where `0` means success
//! and any other value a driver-defined failure. The semantic kinds
//! (`GxiError`, `DeviceHandleError`, `FrameDataError`, `LockError`) are never
//! derived from a status code: they are detected before a driver call is made.

use vstd::prelude::*;

verus! {

/// The closed error taxonomy of the session layer.
#[derive(Debug, Clone, Copy, PartialEq, Eq, Structural)]
pub enum ErrorKind {
    /// The driver shared library could not be loaded.
    LoadError,
    /// A driver call returned this nonzero status; propagated verbatim.
    DriverError(i32),
    /// An operation needed an open device and none is open.
    DeviceHandleError,
    /// An operation was attempted outside the library-open window.
    GxiError,
    /// A frame was requested or used without a valid capture behind it.
    FrameDataError,
    /// A session-state lock could not be acquired.
    LockError,
}

/// What `check_gx_status` returns for a given driver status.
pub open spec fn translate_status(status: i32) -> Result<(), ErrorKind> {
    if status == 0 {
        Ok(())
    } else {
        Err(ErrorKind::DriverError(status))
    }
}

/// Turns a numeric driver status into a result: `0` is success, every other
/// value is surfaced verbatim as `DriverError`.
pub fn check_gx_status(status: i32) -> (r: Result<(), ErrorKind>)
    ensures
        r == translate_status(status),
{
    if status == 0 {
        Ok(())
    } else {
        Err(ErrorKind::DriverError(status))
    }
}

} // verus!
