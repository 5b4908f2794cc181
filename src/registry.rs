//! The registry: its state, the transitions that the operations make on it,
//! and the operations themselves.
use vstd::prelude::*;
use std::collections::HashMap;
use crate::royalty::{royalty_amount, royalty_of, product_fits};
use crate::types::{Address, ContractError, Event, NFT, RoyaltyPayment};

verus! {

broadcast use vstd::std_specs::hash::group_hash_axioms;

/// The abstract state of a registry.
pub ghost struct RegistryState {
    /// The administrator; `None` until the registry is initialized.
    pub admin: Option<Address>,
    /// The number of assets minted so far, which is also the last identifier.
    pub counter: nat,
    /// The asset table, by identifier.
    pub nfts: Map<u64, NFT>,
    /// The royalty table: percentage by identifier.
    pub royalties: Map<u64, u64>,
}

/// The identifiers `1..=n`.
pub open spec fn ids_up_to(n: nat) -> Set<u64> {
    Set::new(|i: u64| 1 <= i && i <= n)
}

impl RegistryState {
    /// Whether the registry has been initialized.
    pub open spec fn initialized(self) -> bool {
        self.admin is Some
    }

    /// An uninitialized registry holds nothing; an initialized one holds the
    /// assets `1..=counter` and no other, and its counter fits in a `u64`.
    pub open spec fn well_formed(self) -> bool {
        &&& self.counter <= u64::MAX
        &&& self.nfts.dom() == ids_up_to(self.counter)
        &&& !self.initialized() ==> {
            &&& self.counter == 0
            &&& self.royalties.dom() == Set::<u64>::empty()
        }
    }

    /// The royalty percentage of `id`: the one set last, or 0 if none was set.
    pub open spec fn royalty_rate(self, id: u64) -> u64 {
        if self.royalties.contains_key(id) {
            self.royalties[id]
        } else {
            0
        }
    }
}

/// The state right after `initialize(admin)`.
pub open spec fn fresh(admin: Address) -> RegistryState {
    RegistryState {
        admin: Some(admin),
        counter: 0,
        nfts: Map::empty(),
        royalties: Map::empty(),
    }
}

/// The state after a successful mint on `s`: the counter goes up by one and
/// names the new asset.
pub open spec fn mint_step(s: RegistryState, creator: Address, owner: Address, uri: String) -> RegistryState {
    RegistryState {
        counter: s.counter + 1,
        nfts: s.nfts.insert((s.counter + 1) as u64, NFT { owner, creator, uri }),
        ..s
    }
}

/// The state after a successful transfer of `id` to `to`: only its owner changes.
pub open spec fn transfer_step(s: RegistryState, id: u64, to: Address) -> RegistryState {
    RegistryState {
        nfts: s.nfts.insert(id, NFT { owner: to, ..s.nfts[id] }),
        ..s
    }
}

/// The state after `set_royalty` of `percentage` on `id`.
pub open spec fn royalty_step(s: RegistryState, id: u64, percentage: u64) -> RegistryState {
    RegistryState { royalties: s.royalties.insert(id, percentage), ..s }
}

/// The asset table holding `records[i]` under identifier `i + 1`.
pub open spec fn nfts_of(records: Seq<NFT>) -> Map<u64, NFT> {
    Map::new(|i: u64| 1 <= i && i <= records.len(), |i: u64| records[i - 1])
}

/// The royalty table that setting each pair `(id, percentage)` of `pairs`
/// in order leaves on an empty one.
pub open spec fn royalties_of(pairs: Seq<(u64, u64)>) -> Map<u64, u64>
    decreases pairs.len(),
{
    if pairs.len() == 0 {
        Map::empty()
    } else {
        royalties_of(pairs.drop_last()).insert(pairs.last().0, pairs.last().1)
    }
}

/// A registry, with its persisted state held in memory.
pub struct FanEngagementContract {
    admin: Option<Address>,
    nft_counter: u64,
    nfts: HashMap<u64, NFT>,
    royalties: HashMap<u64, u64>,
}

impl View for FanEngagementContract {
    type V = RegistryState;

    closed spec fn view(&self) -> RegistryState {
        RegistryState {
            admin: self.admin,
            counter: self.nft_counter as nat,
            nfts: self.nfts@,
            royalties: self.royalties@,
        }
    }
}

impl FanEngagementContract {
    /// A registry that has not been initialized.
    pub fn new() -> (r: FanEngagementContract)
        ensures
            r@.admin is None,
            r@.well_formed(),
    {
        let r = FanEngagementContract {
            admin: None,
            nft_counter: 0,
            nfts: HashMap::new(),
            royalties: HashMap::new(),
        };
        assert(r@.nfts.dom() =~= ids_up_to(0));
        assert(r@.royalties.dom() =~= Set::<u64>::empty());
        r
    }

    /// A registry rebuilt from persisted parts: the administrator, the assets
    /// in identifier order from 1, and the royalty rates in the order they
    /// were set. `None` where the parts cannot come from a registry: an
    /// uninitialized one holds no assets and no rates.
    pub fn restore(admin: Option<Address>, nfts: Vec<NFT>, royalties: Vec<(u64, u64)>) -> (r: Option<FanEngagementContract>)
        ensures
            r is Some == (admin is Some || (nfts@.len() == 0 && royalties@.len() == 0)),
            r is Some ==> r->Some_0@ == (RegistryState {
                admin,
                counter: nfts@.len(),
                nfts: nfts_of(nfts@),
                royalties: royalties_of(royalties@),
            }),
            r is Some ==> r->Some_0@.well_formed(),
    {
        if admin.is_none() && (nfts.len() > 0 || royalties.len() > 0) {
            return None;
        }
        let ghost records = nfts@;
        let total: usize = nfts.len();
        let mut rest = nfts;
        let mut table: HashMap<u64, NFT> = HashMap::new();
        while rest.len() > 0
            invariant
                rest@.len() <= total,
                total == records.len(),
                rest@ == records.take(rest@.len() as int),
                table@ == Map::new(
                    |i: u64| rest@.len() < i && i <= total,
                    |i: u64| records[i - 1],
                ),
            decreases rest@.len(),
        {
            let id: u64 = rest.len() as u64;
            let n = rest.pop().unwrap();
            table.insert(id, n);
            assert(rest@ =~= records.take(rest@.len() as int));
            assert(table@ =~= Map::new(
                |i: u64| rest@.len() < i && i <= total,
                |i: u64| records[i - 1],
            ));
        }
        assert(table@ =~= nfts_of(records));
        let mut rates: HashMap<u64, u64> = HashMap::new();
        let mut i: usize = 0;
        while i < royalties.len()
            invariant
                i <= royalties@.len(),
                rates@ == royalties_of(royalties@.take(i as int)),
            decreases royalties@.len() - i,
        {
            let (k, v) = royalties[i];
            rates.insert(k, v);
            assert(royalties@.take(i + 1).drop_last() =~= royalties@.take(i as int));
            i = i + 1;
        }
        assert(royalties@.take(i as int) =~= royalties@);
        let r = FanEngagementContract { admin, nft_counter: total as u64, nfts: table, royalties: rates };
        assert(r@.nfts.dom() =~= ids_up_to(r@.counter));
        assert(r@.admin is None ==> r@.royalties.dom() =~= Set::<u64>::empty());
        Some(r)
    }

    /// The number of assets minted so far, which is also the last identifier.
    pub fn nft_counter(&self) -> (r: u64)
        ensures
            r == self@.counter,
    {
        self.nft_counter
    }

    /// Initialize the registry with an administrator. Fails, changing
    /// nothing, if it already has one.
    pub fn initialize(&mut self, admin: Address) -> (r: Result<(), ContractError>)
        requires
            old(self)@.well_formed(),
        ensures
            final(self)@.well_formed(),
            r == (if old(self)@.initialized() {
                Err(ContractError::AlreadyInitialized)
            } else {
                Ok(())
            }),
            r is Ok ==> final(self)@ == fresh(admin),
            r is Err ==> final(self)@ == old(self)@,
    {
        if self.admin.is_some() {
            return Err(ContractError::AlreadyInitialized);
        }
        self.admin = Some(admin);
        self.nft_counter = 0;
        self.nfts = HashMap::new();
        self.royalties = HashMap::new();
        assert(self@.nfts =~= Map::empty());
        assert(self@.royalties =~= Map::empty());
        assert(self@.nfts.dom() =~= ids_up_to(0));
        Ok(())
    }

    /// The asset `token_id`, or `None` if it was never minted.
    pub fn get_nft(&self, token_id: u64) -> (r: Result<Option<NFT>, ContractError>)
        requires
            self@.well_formed(),
        ensures
            !self@.initialized() ==> r == Err::<Option<NFT>, ContractError>(ContractError::UninitializedAccess),
            self@.initialized() ==> r == Ok::<Option<NFT>, ContractError>(
                if self@.nfts.contains_key(token_id) {
                    Some(self@.nfts[token_id])
                } else {
                    None
                },
            ),
    {
        if self.admin.is_none() {
            return Err(ContractError::UninitializedAccess);
        }
        match self.nfts.get(&token_id) {
            Some(n) => Ok(Some(n.clone())),
            None => Ok(None),
        }
    }
    /// Mint a new asset for `owner`, created by `creator`, whose authorization
    /// the host reports in `creator_authorized`. The new identifier is one
    /// more than the counter; it is announced by a `Mint` event.
    pub fn mint_nft(
        &mut self,
        creator_authorized: bool,
        creator: Address,
        owner: Address,
        uri: String,
        events: &mut Vec<Event>,
    ) -> (r: Result<(), ContractError>)
        requires
            old(self)@.well_formed(),
        ensures
            final(self)@.well_formed(),
            r == (if !creator_authorized {
                Err(ContractError::AuthorizationFailure)
            } else if !old(self)@.initialized() {
                Err(ContractError::UninitializedAccess)
            } else if old(self)@.counter == u64::MAX {
                Err(ContractError::Overflow)
            } else {
                Ok(())
            }),
            r is Ok ==> final(self)@ == mint_step(old(self)@, creator, owner, uri),
            r is Ok ==> final(events)@ == old(events)@.push(
                Event::Mint { owner, creator, id: (old(self)@.counter + 1) as u64 },
            ),
            r is Err ==> final(self)@ == old(self)@ && final(events)@ == old(events)@,
    {
        if !creator_authorized {
            return Err(ContractError::AuthorizationFailure);
        }
        if self.admin.is_none() {
            return Err(ContractError::UninitializedAccess);
        }
        if self.nft_counter == u64::MAX {
            return Err(ContractError::Overflow);
        }
        let id: u64 = self.nft_counter + 1;
        let ghost before = self@;
        let event = Event::Mint { owner: owner.clone(), creator: creator.clone(), id };
        self.nfts.insert(id, NFT { owner, creator, uri });
        self.nft_counter = id;
        events.push(event);
        assert(self@.nfts.dom() =~= ids_up_to(self@.counter));
        assert(self@ == mint_step(before, creator, owner, uri));
        Ok(())
    }

    /// Hand the asset `token_id` from `from`, whose authorization the host
    /// reports in `from_authorized`, to `to`. Only its owner changes; a
    /// `Transfer` event announces it.
    pub fn transfer_nft(
        &mut self,
        from_authorized: bool,
        from: Address,
        to: Address,
        token_id: u64,
        events: &mut Vec<Event>,
    ) -> (r: Result<(), ContractError>)
        requires
            old(self)@.well_formed(),
        ensures
            final(self)@.well_formed(),
            r == (if !from_authorized {
                Err(ContractError::AuthorizationFailure)
            } else if !old(self)@.initialized() {
                Err(ContractError::UninitializedAccess)
            } else if !old(self)@.nfts.contains_key(token_id) {
                Err(ContractError::NotFound)
            } else if old(self)@.nfts[token_id].owner@ != from@ {
                Err(ContractError::NotOwner)
            } else {
                Ok(())
            }),
            r is Ok ==> final(self)@ == transfer_step(old(self)@, token_id, to),
            r is Ok ==> final(events)@ == old(events)@.push(
                Event::Transfer { from, to, id: token_id },
            ),
            r is Err ==> final(self)@ == old(self)@ && final(events)@ == old(events)@,
    {
        if !from_authorized {
            return Err(ContractError::AuthorizationFailure);
        }
        if self.admin.is_none() {
            return Err(ContractError::UninitializedAccess);
        }
        let updated = match self.nfts.get(&token_id) {
            Some(n) => {
                if !n.owner.same_as(&from) {
                    return Err(ContractError::NotOwner);
                }
                NFT { owner: to.clone(), creator: n.creator.clone(), uri: n.uri.clone() }
            },
            None => {
                return Err(ContractError::NotFound);
            },
        };
        let ghost before = self@;
        self.nfts.insert(token_id, updated);
        events.push(Event::Transfer { from, to, id: token_id });
        assert(self@.nfts.dom() =~= before.nfts.dom());
        assert(self@ == transfer_step(before, token_id, to));
        Ok(())
    }

    /// Set the royalty percentage of `token_id`, overwriting any earlier one.
    /// Only the authorization of `creator` is asked for: neither that it
    /// created the asset nor that the asset exists.
    pub fn set_royalty(&mut self, creator_authorized: bool, creator: Address, token_id: u64, amount: u64) -> (r: Result<(), ContractError>)
        requires
            old(self)@.well_formed(),
        ensures
            final(self)@.well_formed(),
            r == (if !creator_authorized {
                Err(ContractError::AuthorizationFailure)
            } else if !old(self)@.initialized() {
                Err(ContractError::UninitializedAccess)
            } else {
                Ok(())
            }),
            r is Ok ==> final(self)@ == royalty_step(old(self)@, token_id, amount),
            r is Err ==> final(self)@ == old(self)@,
    {
        if !creator_authorized {
            return Err(ContractError::AuthorizationFailure);
        }
        if self.admin.is_none() {
            return Err(ContractError::UninitializedAccess);
        }
        let ghost before = self@;
        self.royalties.insert(token_id, amount);
        assert(self@ == royalty_step(before, token_id, amount));
        Ok(())
    }

    /// The royalty percentage of `token_id`: the one set last, or 0.
    pub fn get_royalty(&self, token_id: u64) -> (r: u64)
        ensures
            r == self@.royalty_rate(token_id),
    {
        match self.royalties.get(&token_id) {
            Some(p) => *p,
            None => 0,
        }
    }

    /// Settle the royalty on a secondary payment of `amount` for `token_id`
    /// by `buyer`, whose authorization the host reports in `buyer_authorized`.
    /// Where the asset's royalty rate is positive, returns the payment of the
    /// creator's cut that the host must make in the asset `token_address`;
    /// at a rate of 0, `None`. The state is never changed.
    pub fn pay_royalty(
        &self,
        buyer_authorized: bool,
        buyer: Address,
        token_id: u64,
        amount: i128,
        token_address: Address,
    ) -> (r: Result<Option<RoyaltyPayment>, ContractError>)
        requires
            self@.well_formed(),
        ensures
            !buyer_authorized ==> r == Err::<Option<RoyaltyPayment>, ContractError>(
                ContractError::AuthorizationFailure,
            ),
            buyer_authorized && !self@.initialized() ==> r == Err::<Option<RoyaltyPayment>, ContractError>(
                ContractError::UninitializedAccess,
            ),
            buyer_authorized && self@.initialized() && !self@.nfts.contains_key(token_id) ==> r == Err::<Option<RoyaltyPayment>, ContractError>(
                ContractError::NotFound,
            ),
            buyer_authorized && self@.initialized() && self@.nfts.contains_key(token_id) ==> {
                let p = self@.royalty_rate(token_id);
                if p == 0 {
                    r == Ok::<Option<RoyaltyPayment>, ContractError>(None)
                } else if !product_fits(amount as int, p as int) {
                    r == Err::<Option<RoyaltyPayment>, ContractError>(ContractError::Overflow)
                } else {
                    r == Ok::<Option<RoyaltyPayment>, ContractError>(Some(RoyaltyPayment {
                        from: buyer,
                        to: self@.nfts[token_id].creator,
                        amount: royalty_of(amount as int, p as int) as i128,
                        token: token_address,
                    }))
                }
            },
    {
        if !buyer_authorized {
            return Err(ContractError::AuthorizationFailure);
        }
        if self.admin.is_none() {
            return Err(ContractError::UninitializedAccess);
        }
        let creator = match self.nfts.get(&token_id) {
            Some(n) => n.creator.clone(),
            None => {
                return Err(ContractError::NotFound);
            },
        };
        let p = self.get_royalty(token_id);
        if p == 0 {
            return Ok(None);
        }
        match royalty_amount(amount, p) {
            Some(cut) => Ok(Some(RoyaltyPayment { from: buyer, to: creator, amount: cut, token: token_address })),
            None => Err(ContractError::Overflow),
        }
    }
}

} // verus!
