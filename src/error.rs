use vstd::prelude::*;

verus! {

/// Every way an operation on an interface can fail.
///
/// The `i32` payloads are the operating system's error numbers.
#[derive(Debug, Clone, Copy, PartialEq, Eq)]
pub enum TunError {
    /// The requested name does not fit, terminator included, in the
    /// interface-name buffer.
    NameTooLong,
    /// The control device could not be opened.
    DeviceOpen(i32),
    /// A control request was refused by the kernel.
    Configuration(i32),
    /// Reading from or writing to the device failed; `None` when no error
    /// number is known (a write that made no progress).
    Io(Option<i32>),
    /// The caller broke a precondition of the operation.
    InvariantViolation,
    /// Data held or returned by the kernel was malformed.
    InvalidState,
}

} // verus!
