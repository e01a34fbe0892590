//! The lock script's decision: static arguments, the authorizing witness,
//! and conservation of the amounts that the script's group holds.
//!
//! The ledger is read through lookups that either yield a value or a
//! [`Fault`]. A listing of records holds what an enumeration from index 0
//! returned, together with the fault that ended it, so that the end of a
//! list and a failed lookup stay apart.
use vstd::prelude::*;

use crate::amount::{
    decode_amount, decoded, le_value, lemma_le_value_bound, lemma_pow256_16, AMOUNT_LEN,
};
use crate::error::{Error, Fault};

verus! {

/// The values an enumeration from index 0 returned, in index order, and the
/// fault that stopped it.
pub struct Listing<T> {
    pub items: Vec<T>,
    pub stop: Fault,
}

/// What the validator reads of the transition under evaluation.
pub struct Transition {
    /// The script's static arguments.
    pub args: Result<Vec<u8>, Fault>,
    /// The lock field of the group's witness at slot 0.
    pub witness: Result<Option<Vec<u8>>, Fault>,
    /// The transaction's content hash.
    pub tx_hash: Result<[u8; 32], Fault>,
    /// Whether the signature check accepted the witness for this transaction.
    pub authorized: bool,
    /// Data payloads of the group's inputs.
    pub group_inputs: Listing<Vec<u8>>,
    /// Data payloads of the group's outputs.
    pub group_outputs: Listing<Vec<u8>>,
}

/// Running the sum over the first `n` payloads of a group: the total, or the
/// first failure. A payload that does not decode fails with `Encoding`; a
/// total beyond `u128` fails the conservation check.
pub open spec fn scan_prefix(cells: Seq<Vec<u8>>, n: nat) -> Result<u128, Error>
    decreases n,
{
    if n == 0 {
        Ok(0)
    } else {
        match scan_prefix(cells, (n - 1) as nat) {
            Err(e) => Err(e),
            Ok(t) => match decoded(cells[n - 1]@) {
                Err(e) => Err(e),
                Ok(a) => if t + a > u128::MAX {
                    Err(Error::AmountMismatch)
                } else {
                    Ok((t + a) as u128)
                },
            },
        }
    }
}

/// The total a group carries, or why it cannot be had.
pub open spec fn group_total(g: Listing<Vec<u8>>) -> Result<u128, Error> {
    match scan_prefix(g.items@, g.items@.len()) {
        Err(e) => Err(e),
        Ok(t) => if g.stop == Fault::IndexOutOfBound {
            Ok(t)
        } else {
            Err(Error::Capability(g.stop))
        },
    }
}

/// The mathematical sum of the amounts in the first `n` payloads.
pub open spec fn amounts_sum(cells: Seq<Vec<u8>>, n: nat) -> nat
    decreases n,
{
    if n == 0 {
        0
    } else {
        amounts_sum(cells, (n - 1) as nat) + le_value(cells[n - 1]@)
    }
}

/// Every payload of the group is a well-formed amount and the listing ended
/// normally.
pub open spec fn well_formed_group(g: Listing<Vec<u8>>) -> bool {
    &&& g.stop == Fault::IndexOutOfBound
    &&& forall|i: int| 0 <= i < g.items@.len() ==> (#[trigger] g.items@[i])@.len() == AMOUNT_LEN
}

/// The authorizing witness, or why there is none.
pub open spec fn witness_check(w: Result<Option<Vec<u8>>, Fault>) -> Result<Seq<u8>, Error> {
    match w {
        Err(Fault::IndexOutOfBound) => Err(Error::NoWitness),
        Err(f) => Err(Error::Capability(f)),
        Ok(None) => Err(Error::NoWitness),
        Ok(Some(b)) => if b@.len() == 0 {
            Err(Error::NoWitness)
        } else {
            Ok(b@)
        },
    }
}

/// The participant check: the transaction hash must load, and the signature
/// check must have accepted.
pub open spec fn participant_check(tx_hash: Result<[u8; 32], Fault>, authorized: bool) -> Result<
    (),
    Error,
> {
    match tx_hash {
        Err(f) => Err(Error::Capability(f)),
        Ok(_) => if authorized {
            Ok(())
        } else {
            Err(Error::AuthorizationFailure)
        },
    }
}

/// The verdict on a transition: arguments first, then the witness, then
/// authorization, then conservation.
pub open spec fn verdict(tx: Transition) -> Result<(), Error> {
    match tx.args {
        Err(f) => Err(Error::Capability(f)),
        Ok(a) => if a@.len() == 0 {
            Err(Error::NoArgs)
        } else {
            match witness_check(tx.witness) {
                Err(e) => Err(e),
                Ok(_) => match participant_check(tx.tx_hash, tx.authorized) {
                    Err(e) => Err(e),
                    Ok(_) => match group_total(tx.group_inputs) {
                        Err(e) => Err(e),
                        Ok(i) => match group_total(tx.group_outputs) {
                            Err(e) => Err(e),
                            Ok(o) => if i == o {
                                Ok(())
                            } else {
                                Err(Error::AmountMismatch)
                            },
                        },
                    },
                },
            }
        },
    }
}

/// Sums the amounts of a group in index order, failing closed on a payload
/// that does not decode, on overflow, and on a lookup that failed for any
/// reason but the end of the list.
pub fn collect_amount_for_source(g: &Listing<Vec<u8>>) -> (r: Result<u128, Error>)
    ensures
        r == group_total(*g),
{
    let mut amount: u128 = 0;
    let mut i: usize = 0;
    while i < g.items.len()
        invariant
            i <= g.items@.len(),
            scan_prefix(g.items@, i as nat) == Ok::<u128, Error>(amount),
        decreases g.items@.len() - i,
    {
        let a = match decode_amount(g.items[i].as_slice()) {
            Ok(a) => a,
            Err(e) => {
                proof {
                    lemma_scan_stays_failed(g.items@, (i + 1) as nat, g.items@.len(), e);
                }
                return Err(e);
            },
        };
        match amount.checked_add(a) {
            Some(t) => amount = t,
            None => {
                proof {
                    lemma_scan_stays_failed(
                        g.items@,
                        (i + 1) as nat,
                        g.items@.len(),
                        Error::AmountMismatch,
                    );
                }
                return Err(Error::AmountMismatch);
            },
        }
        i = i + 1;
    }
    if g.stop == Fault::IndexOutOfBound {
        Ok(amount)
    } else {
        Err(Error::Capability(g.stop))
    }
}

/// Once the scan has failed, it stays failed with the same error.
pub proof fn lemma_scan_stays_failed(cells: Seq<Vec<u8>>, n: nat, m: nat, e: Error)
    requires
        n <= m,
        scan_prefix(cells, n) == Err::<u128, Error>(e),
    ensures
        scan_prefix(cells, m) == Err::<u128, Error>(e),
    decreases m - n,
{
    if n < m {
        lemma_scan_stays_failed(cells, n, (m - 1) as nat, e);
    }
}

/// The total of the group's inputs.
pub fn collect_inputs_amount(tx: &Transition) -> (r: Result<u128, Error>)
    ensures
        r == group_total(tx.group_inputs),
{
    collect_amount_for_source(&tx.group_inputs)
}

/// The total of the group's outputs.
pub fn collect_outputs_amount(tx: &Transition) -> (r: Result<u128, Error>)
    ensures
        r == group_total(tx.group_outputs),
{
    collect_amount_for_source(&tx.group_outputs)
}

/// The single authorizing witness of the group.
pub fn extract_witness(w: &Result<Option<Vec<u8>>, Fault>) -> (r: Result<&Vec<u8>, Error>)
    ensures
        match r {
            Ok(b) => witness_check(*w) == Ok::<Seq<u8>, Error>(b@),
            Err(e) => witness_check(*w) == Err::<Seq<u8>, Error>(e),
        },
{
    match w {
        Err(Fault::IndexOutOfBound) => Err(Error::NoWitness),
        Err(f) => Err(Error::Capability(*f)),
        Ok(None) => Err(Error::NoWitness),
        Ok(Some(b)) => if b.len() == 0 {
            Err(Error::NoWitness)
        } else {
            Ok(b)
        },
    }
}

/// Decides the participant check from the loaded transaction hash and the
/// signature check's answer over it.
pub fn verify_valid_participant(tx_hash: &Result<[u8; 32], Fault>, authorized: bool) -> (r: Result<
    (),
    Error,
>)
    ensures
        r == participant_check(*tx_hash, authorized),
{
    match tx_hash {
        Err(f) => Err(Error::Capability(*f)),
        Ok(_) => if authorized {
            Ok(())
        } else {
            Err(Error::AuthorizationFailure)
        },
    }
}

/// Accepts the transition or says why it is rejected.
pub fn validate(tx: &Transition) -> (r: Result<(), Error>)
    ensures
        r == verdict(*tx),
{
    let args = match &tx.args {
        Ok(a) => a,
        Err(f) => return Err(Error::Capability(*f)),
    };
    if args.len() == 0 {
        return Err(Error::NoArgs);
    }
    let _witness = match extract_witness(&tx.witness) {
        Ok(w) => w,
        Err(e) => return Err(e),
    };
    match verify_valid_participant(&tx.tx_hash, tx.authorized) {
        Ok(()) => {},
        Err(e) => return Err(e),
    }
    let inputs_amount = match collect_inputs_amount(tx) {
        Ok(a) => a,
        Err(e) => return Err(e),
    };
    let outputs_amount = match collect_outputs_amount(tx) {
        Ok(a) => a,
        Err(e) => return Err(e),
    };
    if inputs_amount != outputs_amount {
        return Err(Error::AmountMismatch);
    }
    Ok(())
}

/// Over well-formed payloads the scan yields the mathematical sum while it
/// fits in `u128`, and fails the conservation check once it does not.
pub proof fn lemma_scan_is_sum(cells: Seq<Vec<u8>>, n: nat)
    requires
        n <= cells.len(),
        forall|i: int| 0 <= i < cells.len() ==> (#[trigger] cells[i])@.len() == AMOUNT_LEN,
    ensures
        amounts_sum(cells, n) <= u128::MAX ==> scan_prefix(cells, n) == Ok::<u128, Error>(
            amounts_sum(cells, n) as u128,
        ),
        amounts_sum(cells, n) > u128::MAX ==> scan_prefix(cells, n) == Err::<u128, Error>(
            Error::AmountMismatch,
        ),
    decreases n,
{
    if n > 0 {
        lemma_scan_is_sum(cells, (n - 1) as nat);
        assert(cells[n - 1]@.len() == AMOUNT_LEN);
        lemma_le_value_bound(cells[n - 1]@);
        lemma_pow256_16();
    }
}

/// Conservation: once arguments, witness and authorization pass and both
/// groups are well formed, the validator accepts when the groups carry equal
/// totals that fit in 128 bits, and rejects with `AmountMismatch` whenever
/// the totals differ.
pub proof fn lemma_conservation(tx: Transition)
    requires
        tx.args is Ok && tx.args->Ok_0@.len() > 0,
        witness_check(tx.witness) is Ok,
        participant_check(tx.tx_hash, tx.authorized) is Ok,
        well_formed_group(tx.group_inputs),
        well_formed_group(tx.group_outputs),
    ensures
        ({
            let i = amounts_sum(tx.group_inputs.items@, tx.group_inputs.items@.len());
            let o = amounts_sum(tx.group_outputs.items@, tx.group_outputs.items@.len());
            &&& (i == o && i <= u128::MAX ==> verdict(tx) == Ok::<(), Error>(()))
            &&& (i != o ==> verdict(tx) == Err::<(), Error>(Error::AmountMismatch))
        }),
{
    lemma_scan_is_sum(tx.group_inputs.items@, tx.group_inputs.items@.len());
    lemma_scan_is_sum(tx.group_outputs.items@, tx.group_outputs.items@.len());
}

/// Empty static arguments are rejected with `NoArgs`, whatever the witness
/// and the groups hold.
pub proof fn lemma_fail_closed_on_empty_args(tx: Transition)
    requires
        tx.args is Ok && tx.args->Ok_0@.len() == 0,
    ensures
        verdict(tx) == Err::<(), Error>(Error::NoArgs),
{
}

/// A group without a witness at slot 0, or with an empty one, is rejected
/// with `NoWitness`, whether or not its amounts balance.
pub proof fn lemma_missing_witness(tx: Transition)
    requires
        tx.args is Ok && tx.args->Ok_0@.len() > 0,
        tx.witness == Err::<Option<Vec<u8>>, Fault>(Fault::IndexOutOfBound) || tx.witness
            == Ok::<Option<Vec<u8>>, Fault>(None) || (tx.witness is Ok && tx.witness->Ok_0 is Some
            && tx.witness->Ok_0->Some_0@.len() == 0),
    ensures
        verdict(tx) == Err::<(), Error>(Error::NoWitness),
{
}

} // verus!
