use perun_funds::funding::{FundingAgreement, FundingError};
use perun_funds::transaction::{
    create_funding_from, mk_abort, mk_open, open_result, ChannelAction, OpenArgs, OutPoint, Script,
};

fn script(tag: u8) -> Script {
    Script { code_hash: [tag; 32], hash_type: 1, args: vec![tag] }
}

fn outpoint(tag: u8, index: u32) -> OutPoint {
    OutPoint { tx_hash: [tag; 32], index }
}

fn open_args(available: u64, wanted: u64) -> OpenArgs {
    OpenArgs {
        cid: [0xcc; 32],
        funding_agreement: FundingAgreement::new_with_capacities(vec![
            (vec![4u8; 65], wanted),
            (vec![5u8; 65], 77),
        ]),
        channel_token_outpoint: outpoint(1, 0),
        my_funds_outpoint: outpoint(2, 3),
        my_available_funds: available,
        party_index: 0,
        pcls_script: script(10),
        pcts_script: script(11),
        pfls_script: script(12),
    }
}

#[test]
fn open_has_three_outputs_in_fixed_order() {
    let tx = mk_open(open_args(500, 300), vec![1, 2, 3], 150, script(13), vec![outpoint(9, 0)])
        .unwrap();
    assert_eq!(tx.outputs.len(), 3);
    assert_eq!(tx.outputs[0].capacity, 150);
    assert_eq!(tx.outputs[0].lock.code_hash, [10; 32]);
    assert_eq!(tx.outputs[0].type_.as_ref().unwrap().code_hash, [11; 32]);
    assert_eq!(tx.outputs[1].capacity, 300);
    assert_eq!(tx.outputs[1].lock.code_hash, [12; 32]);
    assert!(tx.outputs[1].type_.is_none());
    assert_eq!(tx.outputs[2].capacity, 200);
    assert_eq!(tx.outputs[2].lock.code_hash, [13; 32]);
    assert_eq!(tx.outputs_data, vec![vec![1, 2, 3], vec![], vec![]]);
    assert_eq!(tx.inputs, vec![outpoint(1, 0), outpoint(2, 3)]);
    assert_eq!(tx.cell_deps, vec![outpoint(9, 0)]);
    assert!(tx.witness.is_none());
}

#[test]
fn open_spends_all_available_funds() {
    let tx = mk_open(open_args(300, 300), vec![], 1, script(13), vec![]).unwrap();
    assert_eq!(tx.outputs[2].capacity, 0);
}

#[test]
fn open_fails_when_wanted_exceeds_available() {
    let r = mk_open(open_args(200, 300), vec![], 1, script(13), vec![]);
    assert_eq!(r.err(), Some(FundingError::InsufficientFunds));
}

#[test]
fn open_fails_for_unknown_party() {
    let mut args = open_args(500, 300);
    args.party_index = 5;
    let r = mk_open(args, vec![], 1, script(13), vec![]);
    assert_eq!(r.err(), Some(FundingError::UnknownIndex));
}

#[test]
fn change_is_available_minus_wanted() {
    assert_eq!(create_funding_from(500, 300), Ok(200));
    assert_eq!(create_funding_from(300, 300), Ok(0));
    assert_eq!(create_funding_from(0, 1), Err(FundingError::InsufficientFunds));
    assert_eq!(create_funding_from(u64::MAX, 0), Ok(u64::MAX));
}

#[test]
fn open_result_points_at_outputs() {
    let r = open_result([7; 32]);
    assert_eq!(r.channel_cell, outpoint(7, 0));
    assert_eq!(r.funds_cells, vec![outpoint(7, 1)]);
}

#[test]
fn abort_consumes_channel_and_funds() {
    let tx = mk_abort(outpoint(1, 0), vec![outpoint(2, 1), outpoint(3, 1)], script(13));
    assert_eq!(tx.inputs, vec![outpoint(1, 0), outpoint(2, 1), outpoint(3, 1)]);
    assert_eq!(tx.outputs.len(), 1);
    assert_eq!(tx.outputs[0].capacity, 1);
    assert_eq!(tx.outputs[0].lock.code_hash, [13; 32]);
    assert_eq!(tx.witness, Some(ChannelAction::Abort));
}
