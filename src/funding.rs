//! The funding agreement: who owes what when a channel opens, projected into
//! the on-chain participant list and balances.
use vstd::prelude::*;

verus! {

/// A fungible asset. Only `Asset(0)` is supported.
#[derive(Clone, Copy, Debug, PartialEq, Eq, Structural)]
pub struct Asset(pub u32);

impl Asset {
    pub fn new() -> (r: Asset)
        ensures
            r.0 == 0,
    {
        Asset(0)
    }
}

impl Default for Asset {
    fn default() -> (r: Asset)
        ensures
            r.0 == 0,
    {
        Asset(0)
    }
}

/// Why a funding-agreement query or a builder failed.
#[derive(Clone, Copy, Debug, PartialEq, Eq, Structural)]
pub enum FundingError {
    /// No participant has the index asked for.
    UnknownIndex,
    /// The participant's amount is not in the supported asset.
    UnsupportedAsset,
    /// The committed amount exceeds the available capacity.
    InsufficientFunds,
}

/// What one participant commits.
#[derive(Clone, Debug)]
pub struct FundingAgreementEntry {
    pub amounts: Vec<(Asset, u64)>,
    pub index: u8,
    /// The participant's public key, as an uncompressed SEC1 point.
    pub pub_key: Vec<u8>,
}

/// One entry per participant, in participant order.
#[derive(Clone, Debug)]
pub struct FundingAgreement(Vec<FundingAgreementEntry>);

/// A channel participant as the channel state records it.
#[derive(Clone, Debug)]
pub struct Participant {
    /// Uncompressed SEC1 public key.
    pub pub_key: Vec<u8>,
    pub payment_lock_hash: [u8; 32],
    pub payment_min_capacity: u64,
    pub unlock_args: Vec<u8>,
    /// The payout address: the participant's index.
    pub payment_args: Vec<u8>,
}

/// The first amount of the list in the supported asset.
pub open spec fn supported_amount(amounts: Seq<(Asset, u64)>) -> Option<u64>
    decreases amounts.len(),
{
    if amounts.len() == 0 {
        None
    } else if amounts[0].0.0 == 0 {
        Some(amounts[0].1)
    } else {
        supported_amount(amounts.drop_first())
    }
}

/// What the first entry with `index` owes in the supported asset.
pub open spec fn expected_funding(entries: Seq<FundingAgreementEntry>, index: u8) -> Result<
    u64,
    FundingError,
>
    decreases entries.len(),
{
    if entries.len() == 0 {
        Err(FundingError::UnknownIndex)
    } else if entries[0].index == index {
        match supported_amount(entries[0].amounts@) {
            Some(v) => Ok(v),
            None => Err(FundingError::UnsupportedAsset),
        }
    } else {
        expected_funding(entries.drop_first(), index)
    }
}

/// The entry's agreed amount when its first amount is in the supported asset.
pub open spec fn first_is_supported(e: FundingAgreementEntry) -> bool {
    e.amounts@.len() > 0 && e.amounts@[0].0.0 == 0
}

/// The balance the entry stands at when the participants `funded` have paid.
pub open spec fn balance_of(e: FundingAgreementEntry, funded: Seq<u8>) -> u128 {
    if funded.contains(e.index) {
        e.amounts@[0].1 as u128
    } else {
        0
    }
}

/// Every funded entry states its amount in the supported asset first.
pub open spec fn balances_defined(entries: Seq<FundingAgreementEntry>, funded: Seq<u8>) -> bool {
    forall|k: int|
        0 <= k < entries.len() && funded.contains(#[trigger] entries[k].index) ==> first_is_supported(
            entries[k],
        )
}

pub fn contains_index(indices: &Vec<u8>, index: u8) -> (r: bool)
    ensures
        r == indices@.contains(index),
{
    let mut i: usize = 0;
    while i < indices.len()
        invariant
            i <= indices@.len(),
            forall|k: int| 0 <= k < i ==> indices@[k] != index,
        decreases indices@.len() - i,
    {
        if indices[i] == index {
            return true;
        }
        i = i + 1;
    }
    false
}

impl FundingAgreement {
    pub closed spec fn entries(&self) -> Seq<FundingAgreementEntry> {
        self.0@
    }

    /// One entry per `(public key, amount)` pair, indexed by position, owing
    /// its amount in the supported asset.
    pub fn new_with_capacities(caps: Vec<(Vec<u8>, u64)>) -> (r: FundingAgreement)
        requires
            caps@.len() <= 256,
        ensures
            r.entries().len() == caps@.len(),
            forall|k: int|
                0 <= k < caps@.len() ==> {
                    &&& (#[trigger] r.entries()[k]).index == k
                    &&& r.entries()[k].pub_key@ == caps@[k].0@
                    &&& r.entries()[k].amounts@ == seq![(Asset(0), caps@[k].1)]
                },
    {
        let mut entries: Vec<FundingAgreementEntry> = Vec::new();
        let mut i: usize = 0;
        while i < caps.len()
            invariant
                caps@.len() <= 256,
                i <= caps@.len(),
                entries@.len() == i,
                forall|k: int|
                    0 <= k < i ==> {
                        &&& (#[trigger] entries@[k]).index == k
                        &&& entries@[k].pub_key@ == caps@[k].0@
                        &&& entries@[k].amounts@ == seq![(Asset(0), caps@[k].1)]
                    },
            decreases caps@.len() - i,
        {
            let key = caps[i].0.clone();
            assert(key@ =~= caps@[i as int].0@);
            let amounts = vec![(Asset::default(), caps[i].1)];
            entries.push(FundingAgreementEntry { amounts, index: i as u8, pub_key: key });
            i = i + 1;
        }
        FundingAgreement(entries)
    }

    /// An agreement with the given entries, in the given order.
    pub fn from_entries(entries: Vec<FundingAgreementEntry>) -> (r: FundingAgreement)
        ensures
            r.entries() == entries@,
    {
        FundingAgreement(entries)
    }

    pub fn content(&self) -> (r: &Vec<FundingAgreementEntry>)
        ensures
            r@ == self.entries(),
    {
        &self.0
    }

    /// Projects each entry into the on-chain participant shape: its key, the
    /// shared payout lock and minimum capacity, no unlock arguments, and its
    /// index as payout arguments.
    pub fn mk_participants(&self, payment_lock_hash: [u8; 32], payment_min_capacity: u64) -> (r: Vec<
        Participant,
    >)
        ensures
            r@.len() == self.entries().len(),
            forall|k: int|
                0 <= k < r@.len() ==> {
                    &&& (#[trigger] r@[k]).pub_key@ == self.entries()[k].pub_key@
                    &&& r@[k].payment_lock_hash == payment_lock_hash
                    &&& r@[k].payment_min_capacity == payment_min_capacity
                    &&& r@[k].unlock_args@.len() == 0
                    &&& r@[k].payment_args@ == seq![self.entries()[k].index]
                },
    {
        let mut out: Vec<Participant> = Vec::new();
        let mut i: usize = 0;
        while i < self.0.len()
            invariant
                i <= self.entries().len(),
                out@.len() == i,
                forall|k: int|
                    0 <= k < i ==> {
                        &&& (#[trigger] out@[k]).pub_key@ == self.entries()[k].pub_key@
                        &&& out@[k].payment_lock_hash == payment_lock_hash
                        &&& out@[k].payment_min_capacity == payment_min_capacity
                        &&& out@[k].unlock_args@.len() == 0
                        &&& out@[k].payment_args@ == seq![self.entries()[k].index]
                    },
            decreases self.entries().len() - i,
        {
            let entry = &self.0[i];
            let key = entry.pub_key.clone();
            assert(key@ =~= entry.pub_key@);
            let payment_args = vec![entry.index];
            out.push(
                Participant {
                    pub_key: key,
                    payment_lock_hash,
                    payment_min_capacity,
                    unlock_args: Vec::new(),
                    payment_args,
                },
            );
            i = i + 1;
        }
        out
    }

    /// The balances when the participants with the indices `indices` have
    /// funded: their agreed amount for those, zero for the others. Fails with
    /// `UnsupportedAsset` when a funded entry does not owe the supported asset
    /// first.
    pub fn mk_balances(&self, indices: &Vec<u8>) -> (r: Result<Vec<u128>, FundingError>)
        ensures
            balances_defined(self.entries(), indices@) <==> r is Ok,
            r is Err ==> r == Err::<Vec<u128>, FundingError>(FundingError::UnsupportedAsset),
            r is Ok ==> {
                &&& r->Ok_0@.len() == self.entries().len()
                &&& forall|k: int|
                    0 <= k < self.entries().len() ==> #[trigger] r->Ok_0@[k] == balance_of(
                        self.entries()[k],
                        indices@,
                    )
            },
    {
        let mut out: Vec<u128> = Vec::new();
        let mut i: usize = 0;
        while i < self.0.len()
            invariant
                i <= self.entries().len(),
                out@.len() == i,
                balances_defined(self.entries().subrange(0, i as int), indices@),
                forall|k: int|
                    0 <= k < i ==> #[trigger] out@[k] == balance_of(self.entries()[k], indices@),
            decreases self.entries().len() - i,
        {
            let entry = &self.0[i];
            if contains_index(indices, entry.index) {
                if entry.amounts.len() == 0 || entry.amounts[0].0.0 != 0 {
                    assert(!first_is_supported(self.entries()[i as int]));
                    return Err(FundingError::UnsupportedAsset);
                }
                out.push(entry.amounts[0].1 as u128);
            } else {
                out.push(0);
            }
            proof {
                let pre = self.entries().subrange(0, i as int);
                let post = self.entries().subrange(0, i + 1);
                assert forall|k: int|
                    0 <= k < post.len() && indices@.contains(#[trigger] post[k].index) implies first_is_supported(
                    post[k],
                ) by {
                    if k < i {
                        assert(post[k] == pre[k]);
                    }
                }
            }
            i = i + 1;
        }
        assert(self.entries().subrange(0, self.entries().len() as int) =~= self.entries());
        Ok(out)
    }

    /// What the participant `index` owes in the supported asset.
    pub fn expected_funding_for(&self, index: u8) -> (r: Result<u64, FundingError>)
        ensures
            r == expected_funding(self.entries(), index),
    {
        let mut i: usize = 0;
        assert(self.entries().subrange(0, self.entries().len() as int) =~= self.entries());
        while i < self.0.len()
            invariant
                i <= self.entries().len(),
                expected_funding(self.entries(), index) == expected_funding(
                    self.entries().subrange(i as int, self.entries().len() as int),
                    index,
                ),
            decreases self.entries().len() - i,
        {
            let ghost rest = self.entries().subrange(i as int, self.entries().len() as int);
            assert(rest.drop_first() =~= self.entries().subrange(
                i + 1,
                self.entries().len() as int,
            ));
            let entry = &self.0[i];
            if entry.index == index {
                return supported_amount_of(&entry.amounts);
            }
            i = i + 1;
        }
        Err(FundingError::UnknownIndex)
    }
}

/// The first amount of the list in the supported asset.
fn supported_amount_of(amounts: &Vec<(Asset, u64)>) -> (r: Result<u64, FundingError>)
    ensures
        r == (match supported_amount(amounts@) {
            Some(v) => Ok::<u64, FundingError>(v),
            None => Err(FundingError::UnsupportedAsset),
        }),
{
    let mut i: usize = 0;
    assert(amounts@.subrange(0, amounts@.len() as int) =~= amounts@);
    while i < amounts.len()
        invariant
            i <= amounts@.len(),
            supported_amount(amounts@) == supported_amount(
                amounts@.subrange(i as int, amounts@.len() as int),
            ),
        decreases amounts@.len() - i,
    {
        assert(amounts@.subrange(i as int, amounts@.len() as int).drop_first() =~= amounts@.subrange(
            i + 1,
            amounts@.len() as int,
        ));
        if amounts[i].0.0 == 0 {
            return Ok(amounts[i].1);
        }
        i = i + 1;
    }
    Err(FundingError::UnsupportedAsset)
}

} // verus!
