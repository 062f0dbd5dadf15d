use vstd::prelude::*;

verus! {

/// The failure tags of the arithmetic core. Both are terminal for a given
/// input pair: arithmetic failures are deterministic, so the caller must
/// abort the enclosing operation rather than retry or clamp.
#[derive(Clone, Copy, Debug, PartialEq, Eq, Structural)]
pub enum ArithmeticError {
    /// A debit was requested for more than the balance holds; applying it
    /// would require an underflowing (wrapping) subtraction.
    InsufficientFunds,
    /// A rate computation produced a value that cannot be represented at
    /// width 64 without wraparound or truncation.
    ArithmeticOverflow,
}

} // verus!
