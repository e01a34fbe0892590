//! Failures of the ledger lookups and of the validator.
use vstd::prelude::*;

verus! {

/// Why a lookup of the ledger's record capability returned no value.
/// `IndexOutOfBound` is how an enumeration reports that the list has ended.
#[derive(Clone, Copy, Debug, PartialEq, Eq, Structural)]
pub enum Fault {
    IndexOutOfBound,
    ItemMissing,
    LengthNotEnough(usize),
    Encoding,
    Other(u64),
}

/// Why the validator rejected a transition.
#[derive(Clone, Copy, Debug, PartialEq, Eq, Structural)]
pub enum Error {
    /// The script's static arguments are empty.
    NoArgs,
    /// The group has no authorizing witness, or it is empty.
    NoWitness,
    /// A record's data payload is not a 16-byte amount.
    Encoding,
    /// The group's inputs and outputs do not carry the same total.
    AmountMismatch,
    /// The witness did not authenticate the transition.
    AuthorizationFailure,
    /// A lookup failed for a reason other than the end of a list.
    Capability(Fault),
}

} // verus!
