use vstd::prelude::*;

verus! {

/// No error has been recorded.
pub const NO_ERROR: u32 = 0x0000;
/// An unacceptable value is specified for an enumerated argument.
pub const INVALID_ENUM: u32 = 0x0500;
/// A numeric argument is out of range.
pub const INVALID_VALUE: u32 = 0x0501;
/// The specified operation is not allowed in the current state.
pub const INVALID_OPERATION: u32 = 0x0502;
/// There is not enough memory left to execute the command.
pub const OUT_OF_MEMORY: u32 = 0x0505;
/// The framebuffer object is not complete.
pub const INVALID_FRAMEBUFFER_OPERATION: u32 = 0x0506;

/// Snapshot of the native context's error code.
#[derive(Clone, Copy, Debug, PartialEq, Eq, Structural)]
pub struct Error(pub u32);

/// The fixed text that describes an error code.
pub open spec fn error_text(code: u32) -> &'static str {
    if code == NO_ERROR {
        "No error"
    } else if code == INVALID_ENUM {
        "An unacceptable value is specified for an enumerated argument"
    } else if code == INVALID_VALUE {
        "A numeric argument is out of range"
    } else if code == INVALID_OPERATION {
        "The specified operation is not allowed in the current state"
    } else if code == INVALID_FRAMEBUFFER_OPERATION {
        "The framebuffer object is not complete"
    } else if code == OUT_OF_MEMORY {
        "There is not enough memory left to execute the command"
    } else {
        "Unknown error"
    }
}

impl Error {
    /// Wraps an error code read from the native context.
    pub fn new(code: u32) -> (r: Self)
        ensures
            r.0 == code,
    {
        Error(code)
    }

    /// Returns the wrapped error code.
    pub fn code(self) -> (r: u32)
        ensures
            r == self.0,
    {
        self.0
    }

    /// Returns true if an error was raised.
    pub fn is_error(self) -> (r: bool)
        ensures
            r == (self.0 != NO_ERROR),
    {
        self.0 != NO_ERROR
    }

    /// Returns true if no error was raised.
    pub fn is_okay(self) -> (r: bool)
        ensures
            r == (self.0 == NO_ERROR),
    {
        self.0 == NO_ERROR
    }

    /// Returns the human readable text of the error code.
    pub fn to_str(self) -> (r: &'static str)
        ensures
            r == error_text(self.0),
    {
        match self.0 {
            NO_ERROR => "No error",
            INVALID_ENUM => "An unacceptable value is specified for an enumerated argument",
            INVALID_VALUE => "A numeric argument is out of range",
            INVALID_OPERATION => "The specified operation is not allowed in the current state",
            INVALID_FRAMEBUFFER_OPERATION => "The framebuffer object is not complete",
            OUT_OF_MEMORY => "There is not enough memory left to execute the command",
            _ => "Unknown error",
        }
    }
}

} // verus!
