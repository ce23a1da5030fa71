//! The driver's error type.

use vstd::prelude::*;

verus! {

/// An error returned by a driver operation. Every error is surfaced to the
/// immediate caller; none is fatal to the session, which stays usable for
/// subsequent calls.
#[derive(Debug)]
pub enum DiddyBorgError<E> {
    /// The underlying transport read or write failed; the transport's own
    /// error is carried along. The failure is propagated, never retried.
    I2C(E),
    /// A response byte fell outside the expected value-code domain.
    CorruptedData,
    /// No PicoBorg Reverse answered the identity handshake at the given
    /// address: construction fails and no session is produced.
    NotFound,
}

impl<E> DiddyBorgError<E> {
    /// A short human-readable description of the error.
    pub fn message(&self) -> (r: &'static str)
        ensures
            match self {
                DiddyBorgError::I2C(_) => r@ == "I2C error occurred"@,
                DiddyBorgError::CorruptedData => r@ == "corrupted data received"@,
                DiddyBorgError::NotFound => r@ == "invalid PicoBorg Reverse ID"@,
            },
    {
        match self {
            DiddyBorgError::I2C(_) => "I2C error occurred",
            DiddyBorgError::CorruptedData => "corrupted data received",
            DiddyBorgError::NotFound => "invalid PicoBorg Reverse ID",
        }
    }
}

} // verus!
