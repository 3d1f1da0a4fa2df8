//! Error types.

use vstd::prelude::*;

verus! {

/// The error type of the display interface crate, which command encoders report.
#[verifier::external_type_specification]
#[verifier::external_body]
pub struct ExDisplayError(display_interface::DisplayError);

/// Error returned by [`Builder::init`](crate::Builder).
#[derive(Debug)]
pub enum InitError<DI, P> {
    /// Error caused by the display interface.
    DisplayError(DI),
    /// Error caused by the reset pin's `OutputPin` implementation.
    Pin(P),
}

} // verus!

/// The error that command encoders report.
pub use display_interface::DisplayError as Error;
