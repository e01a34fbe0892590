use perun_funds::funding::{Asset, FundingAgreement, FundingAgreementEntry, FundingError};

fn key(i: u8) -> Vec<u8> {
    let mut k = vec![4u8];
    k.extend(std::iter::repeat(i).take(64));
    k
}

fn agreement(amounts: &[u64]) -> FundingAgreement {
    FundingAgreement::new_with_capacities(
        amounts.iter().enumerate().map(|(i, a)| (key(i as u8), *a)).collect(),
    )
}

#[test]
fn new_with_capacities_indexes_by_position() {
    let fa = agreement(&[100, 200, 300]);
    let entries = fa.content();
    assert_eq!(entries.len(), 3);
    for (i, e) in entries.iter().enumerate() {
        assert_eq!(e.index as usize, i);
        assert_eq!(e.pub_key, key(i as u8));
        assert_eq!(e.amounts, vec![(Asset(0), [100u64, 200, 300][i])]);
    }
}

#[test]
fn balances_for_funded_indices() {
    let fa = agreement(&[100, 200, 300]);
    assert_eq!(fa.mk_balances(&vec![1]), Ok(vec![0, 200, 0]));
    assert_eq!(fa.mk_balances(&vec![]), Ok(vec![0, 0, 0]));
    assert_eq!(fa.mk_balances(&vec![0, 1, 2]), Ok(vec![100, 200, 300]));
}

#[test]
fn balances_ignore_unknown_indices() {
    let fa = agreement(&[100, 200]);
    assert_eq!(fa.mk_balances(&vec![7, 0]), Ok(vec![100, 0]));
}

#[test]
fn balances_reject_unsupported_asset() {
    let fa = FundingAgreement::from_entries(vec![
        FundingAgreementEntry { amounts: vec![(Asset(0), 5)], index: 0, pub_key: key(0) },
        FundingAgreementEntry { amounts: vec![(Asset(3), 10)], index: 1, pub_key: key(1) },
        FundingAgreementEntry { amounts: vec![], index: 2, pub_key: key(2) },
    ]);
    assert_eq!(fa.mk_balances(&vec![0]), Ok(vec![5, 0, 0]));
    assert_eq!(fa.mk_balances(&vec![1]), Err(FundingError::UnsupportedAsset));
    assert_eq!(fa.mk_balances(&vec![2]), Err(FundingError::UnsupportedAsset));
}

#[test]
fn expected_funding_lookup() {
    let fa = agreement(&[100, 200, 300]);
    assert_eq!(fa.expected_funding_for(0), Ok(100));
    assert_eq!(fa.expected_funding_for(2), Ok(300));
    assert_eq!(fa.expected_funding_for(3), Err(FundingError::UnknownIndex));
}

#[test]
fn expected_funding_finds_supported_asset() {
    let fa = FundingAgreement::from_entries(vec![
        FundingAgreementEntry { amounts: vec![(Asset(2), 1), (Asset(0), 42)], index: 0, pub_key: key(0) },
        FundingAgreementEntry { amounts: vec![(Asset(2), 1)], index: 1, pub_key: key(1) },
    ]);
    assert_eq!(fa.expected_funding_for(0), Ok(42));
    assert_eq!(fa.expected_funding_for(1), Err(FundingError::UnsupportedAsset));
}

#[test]
fn participants_carry_key_and_index() {
    let fa = agreement(&[10, 20]);
    let ps = fa.mk_participants([8u8; 32], 61);
    assert_eq!(ps.len(), 2);
    for (i, p) in ps.iter().enumerate() {
        assert_eq!(p.pub_key, key(i as u8));
        assert_eq!(p.payment_lock_hash, [8u8; 32]);
        assert_eq!(p.payment_min_capacity, 61);
        assert!(p.unlock_args.is_empty());
        assert_eq!(p.payment_args, vec![i as u8]);
    }
}

#[test]
fn asset_defaults_to_supported() {
    assert_eq!(Asset::new(), Asset(0));
    assert_eq!(Asset::default(), Asset(0));
}
