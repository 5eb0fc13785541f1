//! What can go wrong while a calendar is loaded or a board is computed.

use vstd::prelude::*;

verus! {

/// The ways in which the input data can be at fault. None of them ends the
/// process: each is handed back to the caller.
#[derive(Clone, Copy, Debug, PartialEq, Eq, Structural)]
pub enum BoardError {
    /// A start, end or exception date is not an eight-digit calendar date.
    DateFormatError,
    /// An arrival or departure offset is not of the shape `H:MM:SS` or
    /// `HH:MM:SS`.
    TimeFormatError,
    /// A stop-time names a service that the calendar does not hold.
    UnknownServiceError { service_id: u16 },
    /// The exception that decides a lookup carries a code that is neither
    /// "added" nor "removed".
    InvalidExceptionType { code: u8 },
    /// The service day of a stop-time lies before the first date of the
    /// calendar.
    DateOutOfRange,
}

} // verus!
