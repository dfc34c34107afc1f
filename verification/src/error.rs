use vstd::prelude::*;

verus! {

/// The terminal outcome of an operation that did not go through. An operation
/// that returns one of these has changed nothing.
#[derive(Clone, Copy, Debug, PartialEq, Eq, Structural)]
pub enum EngineError {
    /// A creation targets an address that already holds a record.
    AlreadyExists,
    /// An ownership or relationship condition between the named entities fails.
    ConstraintViolation,
    /// A balance transfer asks for more than the paying balance holds.
    InsufficientFunds,
    /// A checked counter or balance would leave the range of its type.
    ArithmeticOverflow,
    /// The seeds of a record yield no address under the program id.
    AddressUnavailable,
}

} // verus!
