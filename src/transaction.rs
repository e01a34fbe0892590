//! Builders for the shapes of the open and abort transitions.
use vstd::prelude::*;

use crate::funding::{expected_funding, FundingAgreement, FundingError};

verus! {

/// A reference to an output of a committed transaction.
#[derive(Clone, Copy, Debug, PartialEq, Eq)]
pub struct OutPoint {
    pub tx_hash: [u8; 32],
    pub index: u32,
}

/// A script reference: the code it runs and its static arguments.
#[derive(Clone, Debug)]
pub struct Script {
    pub code_hash: [u8; 32],
    pub hash_type: u8,
    pub args: Vec<u8>,
}

/// A record to be created: its capacity in shannons, its lock and its
/// optional type.
#[derive(Clone, Debug)]
pub struct CellOutput {
    pub capacity: u64,
    pub lock: Script,
    pub type_: Option<Script>,
}

/// The action that a channel witness carries.
#[derive(Clone, Copy, Debug, PartialEq, Eq, Structural)]
pub enum ChannelAction {
    Open,
    Abort,
    Fund,
    Dispute,
    Close,
}

/// What opening a channel needs from the opening party.
#[derive(Clone, Debug)]
pub struct OpenArgs {
    /// The channel's identifier, which the initial channel state names.
    pub cid: [u8; 32],
    pub funding_agreement: FundingAgreement,
    pub channel_token_outpoint: OutPoint,
    pub my_funds_outpoint: OutPoint,
    /// Capacity, in shannons, of the record the opening party funds from.
    pub my_available_funds: u64,
    pub party_index: u8,
    /// Lock of the channel-state record.
    pub pcls_script: Script,
    /// Type of the channel-state record.
    pub pcts_script: Script,
    /// Lock of the funds records.
    pub pfls_script: Script,
}

/// An unsigned transaction.
#[derive(Clone, Debug)]
pub struct TxShape {
    pub inputs: Vec<OutPoint>,
    pub outputs: Vec<CellOutput>,
    pub outputs_data: Vec<Vec<u8>>,
    pub cell_deps: Vec<OutPoint>,
    /// The action of the single channel witness, if the transaction has one.
    pub witness: Option<ChannelAction>,
}

/// The records that an open transaction with hash `tx_hash` creates.
#[derive(Clone, Debug)]
pub struct OpenResult {
    pub channel_cell: OutPoint,
    pub funds_cells: Vec<OutPoint>,
}

/// The change left when `wanted` is taken out of `available`; fails with
/// `InsufficientFunds` when `wanted` exceeds it.
pub fn create_funding_from(available_capacity: u64, wanted_capacity: u64) -> (r: Result<
    u64,
    FundingError,
>)
    ensures
        wanted_capacity <= available_capacity ==> r == Ok::<u64, FundingError>(
            (available_capacity - wanted_capacity) as u64,
        ),
        wanted_capacity > available_capacity ==> r == Err::<u64, FundingError>(
            FundingError::InsufficientFunds,
        ),
{
    match available_capacity.checked_sub(wanted_capacity) {
        Some(c) => Ok(c),
        None => Err(FundingError::InsufficientFunds),
    }
}

/// Builds the open transition. Inputs are the channel token and the opening
/// party's funds record; outputs are, in this order, the channel-state
/// record holding `initial_state` with `state_capacity`, the funds record
/// holding the party's committed amount, and the change record returning
/// the rest of the available funds under `change_lock`.
pub fn mk_open(
    args: OpenArgs,
    initial_state: Vec<u8>,
    state_capacity: u64,
    change_lock: Script,
    cell_deps: Vec<OutPoint>,
) -> (r: Result<TxShape, FundingError>)
    ensures
        match expected_funding(args.funding_agreement.entries(), args.party_index) {
            Err(e) => r == Err::<TxShape, FundingError>(e),
            Ok(wanted) => if wanted > args.my_available_funds {
                r == Err::<TxShape, FundingError>(FundingError::InsufficientFunds)
            } else {
                &&& r is Ok
                &&& r->Ok_0.inputs@ == seq![args.channel_token_outpoint, args.my_funds_outpoint]
                &&& r->Ok_0.outputs@.len() == 3
                &&& r->Ok_0.outputs@[0].capacity == state_capacity
                &&& r->Ok_0.outputs@[0].lock == args.pcls_script
                &&& r->Ok_0.outputs@[0].type_ == Some(args.pcts_script)
                &&& r->Ok_0.outputs@[1].capacity == wanted
                &&& r->Ok_0.outputs@[1].lock == args.pfls_script
                &&& r->Ok_0.outputs@[1].type_ is None
                &&& r->Ok_0.outputs@[2].capacity == args.my_available_funds - wanted
                &&& r->Ok_0.outputs@[2].lock == change_lock
                &&& r->Ok_0.outputs@[2].type_ is None
                &&& r->Ok_0.outputs_data@.len() == 3
                &&& r->Ok_0.outputs_data@[0]@ == initial_state@
                &&& r->Ok_0.outputs_data@[1]@.len() == 0
                &&& r->Ok_0.outputs_data@[2]@.len() == 0
                &&& r->Ok_0.cell_deps@ == cell_deps@
                &&& r->Ok_0.witness is None
            },
        },
{
    let wanted = match args.funding_agreement.expected_funding_for(args.party_index) {
        Ok(w) => w,
        Err(e) => return Err(e),
    };
    let change = match create_funding_from(args.my_available_funds, wanted) {
        Ok(c) => c,
        Err(e) => return Err(e),
    };
    let inputs = vec![args.channel_token_outpoint, args.my_funds_outpoint];
    let channel_cell = CellOutput {
        capacity: state_capacity,
        lock: args.pcls_script,
        type_: Some(args.pcts_script),
    };
    let fund_cell = CellOutput { capacity: wanted, lock: args.pfls_script, type_: None };
    let exchange_cell = CellOutput { capacity: change, lock: change_lock, type_: None };
    let outputs = vec![channel_cell, fund_cell, exchange_cell];
    let outputs_data = vec![initial_state, Vec::new(), Vec::new()];
    Ok(TxShape { inputs, outputs, outputs_data, cell_deps, witness: None })
}

/// Where the records of an open transaction with hash `tx_hash` live: the
/// channel state at output 0 and the party's funds at output 1.
pub fn open_result(tx_hash: [u8; 32]) -> (r: OpenResult)
    ensures
        r.channel_cell == (OutPoint { tx_hash, index: 0 }),
        r.funds_cells@ == seq![OutPoint { tx_hash, index: 1 }],
{
    OpenResult {
        channel_cell: OutPoint { tx_hash, index: 0 },
        funds_cells: vec![OutPoint { tx_hash, index: 1 }],
    }
}

/// Builds the abort transition: it consumes the channel-state record and the
/// funds records not yet committed, creates one reclaim record of capacity 1
/// under `reclaim_lock`, and carries an `Abort` witness.
pub fn mk_abort(channel_cell: OutPoint, funds: Vec<OutPoint>, reclaim_lock: Script) -> (r: TxShape)
    ensures
        r.inputs@ == seq![channel_cell] + funds@,
        r.outputs@.len() == 1,
        r.outputs@[0].capacity == 1,
        r.outputs@[0].lock == reclaim_lock,
        r.outputs@[0].type_ is None,
        r.outputs_data@.len() == 0,
        r.cell_deps@.len() == 0,
        r.witness == Some(ChannelAction::Abort),
{
    let mut inputs = vec![channel_cell];
    let mut i: usize = 0;
    while i < funds.len()
        invariant
            i <= funds@.len(),
            inputs@ == seq![channel_cell] + funds@.subrange(0, i as int),
        decreases funds@.len() - i,
    {
        inputs.push(funds[i]);
        i = i + 1;
        assert(inputs@ =~= seq![channel_cell] + funds@.subrange(0, i as int));
    }
    assert(funds@.subrange(0, funds@.len() as int) =~= funds@);
    let outputs = vec![CellOutput { capacity: 1, lock: reclaim_lock, type_: None }];
    TxShape {
        inputs,
        outputs,
        outputs_data: Vec::new(),
        cell_deps: Vec::new(),
        witness: Some(ChannelAction::Abort),
    }
}

} // verus!
