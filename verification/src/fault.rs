//! Contract violations that the admission layer refuses loudly.

use vstd::prelude::*;

verus! {

/// A programming or contract violation: a bug in the caller's type
/// resolution, never a transient condition.  The admission layer refuses the
/// request and reports which rule was broken rather than producing a wrong
/// byte count or corrupting a counter.
#[derive(Clone, Copy, Debug, PartialEq, Eq, Structural)]
pub enum Fault {
    /// The operation code does not name a supported operation.
    UnknownOperation,
    /// The operand count does not match the operation's fixed arity.
    ArityMismatch,
    /// The operand variants are not a legal combination for the operation.
    UnsupportedShape,
    /// A scalar type tag does not name a supported destination type.
    UnknownTypeTag,
    /// A device index beyond the discovered device count.
    UnknownDevice,
    /// A release larger than the device's outstanding reservations.
    ReleaseUnderflow,
}

} // verus!
