//! Owner mode: whether the transaction also consumes a record whose lock the
//! script's arguments name.
use vstd::prelude::*;

use crate::error::{Error, Fault};
use crate::validator::Listing;

verus! {

/// Width in bytes of a lock identity (a lock script hash).
pub const LOCK_HASH_LEN: usize = 32;

/// Some input before the end of the listing has the lock identity `args`.
pub open spec fn owns_some_input(args: Seq<u8>, locks: Seq<[u8; 32]>) -> bool {
    exists|i: int| 0 <= i < locks.len() && (#[trigger] locks[i])@ == args
}

/// The owner-mode answer for the lock identities of all inputs.
pub open spec fn owner_mode(args: Seq<u8>, inputs: Listing<[u8; 32]>) -> Result<bool, Error> {
    if owns_some_input(args, inputs.items@) {
        Ok(true)
    } else if inputs.stop == Fault::IndexOutOfBound {
        Ok(false)
    } else {
        Err(Error::Capability(inputs.stop))
    }
}

/// Compares `args` with a lock identity byte for byte.
pub fn same_lock(args: &[u8], lock: &[u8; 32]) -> (r: bool)
    ensures
        r == (args@ == lock@),
{
    if args.len() != LOCK_HASH_LEN {
        return false;
    }
    let mut j: usize = 0;
    while j < LOCK_HASH_LEN
        invariant
            args@.len() == LOCK_HASH_LEN,
            lock@.len() == LOCK_HASH_LEN,
            j <= LOCK_HASH_LEN,
            forall|k: int| 0 <= k < j ==> args@[k] == lock@[k],
        decreases LOCK_HASH_LEN - j,
    {
        if args[j] != lock[j] {
            return false;
        }
        j = j + 1;
    }
    assert(args@ =~= lock@);
    true
}

/// Scans the lock identities of all inputs of the transaction from index 0
/// and reports whether one of them equals `args`. The scan stops at the first
/// match; a listing that ended in a fault other than the end of the list
/// fails unless a match came before it.
pub fn check_owner_mode(args: &[u8], inputs: &Listing<[u8; 32]>) -> (r: Result<bool, Error>)
    ensures
        r == owner_mode(args@, *inputs),
        inputs.items@.len() == 0 && inputs.stop == Fault::IndexOutOfBound ==> r == Ok::<
            bool,
            Error,
        >(false),
{
    let mut i: usize = 0;
    while i < inputs.items.len()
        invariant
            i <= inputs.items@.len(),
            forall|k: int| 0 <= k < i ==> (#[trigger] inputs.items@[k])@ != args@,
        decreases inputs.items@.len() - i,
    {
        if same_lock(args, &inputs.items[i]) {
            return Ok(true);
        }
        i = i + 1;
    }
    if inputs.stop == Fault::IndexOutOfBound {
        Ok(false)
    } else {
        Err(Error::Capability(inputs.stop))
    }
}

} // verus!
