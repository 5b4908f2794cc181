//! Properties of the registry's transitions that hold across operations.
use vstd::prelude::*;
use crate::registry::{RegistryState, fresh, ids_up_to, mint_step, royalty_step, transfer_step};
use crate::royalty::royalty_of;
use crate::types::{Address, NFT};

verus! {

/// The state after the successful mints `mints` on `s`, in order; each is
/// `(creator, owner, uri)`.
pub open spec fn mint_all(s: RegistryState, mints: Seq<(Address, Address, String)>) -> RegistryState
    decreases mints.len(),
{
    if mints.len() == 0 {
        s
    } else {
        let m = mints.last();
        mint_step(mint_all(s, mints.drop_last()), m.0, m.1, m.2)
    }
}

/// After any `n` successful mints on a freshly initialized registry, the
/// counter is `n` and the minted identifiers are exactly `1..=n`.
pub proof fn lemma_mints_number_assets(admin: Address, mints: Seq<(Address, Address, String)>)
    requires
        mints.len() <= u64::MAX,
    ensures
        mint_all(fresh(admin), mints).counter == mints.len(),
        mint_all(fresh(admin), mints).nfts.dom() == ids_up_to(mints.len()),
        mint_all(fresh(admin), mints).well_formed(),
    decreases mints.len(),
{
    if mints.len() == 0 {
        assert(fresh(admin).nfts.dom() =~= ids_up_to(0));
    } else {
        lemma_mints_number_assets(admin, mints.drop_last());
        let n = mints.len();
        assert(mint_all(fresh(admin), mints).nfts.dom() =~= ids_up_to(n));
    }
}

/// A successful transfer of `id` to `to` makes `to` its owner, keeps its
/// creator and link, and leaves every other asset and the counter as they were.
pub proof fn lemma_transfer_changes_owner_only(s: RegistryState, id: u64, to: Address)
    requires
        s.well_formed(),
        s.nfts.contains_key(id),
    ensures
        transfer_step(s, id, to).well_formed(),
        transfer_step(s, id, to).nfts[id] == (NFT { owner: to, ..s.nfts[id] }),
        transfer_step(s, id, to).nfts[id].creator == s.nfts[id].creator,
        forall|j: u64| j != id && s.nfts.contains_key(j) ==> #[trigger] transfer_step(s, id, to).nfts[j] == s.nfts[j],
        transfer_step(s, id, to).nfts.dom() == s.nfts.dom(),
        transfer_step(s, id, to).counter == s.counter,
{
    assert(transfer_step(s, id, to).nfts.dom() =~= s.nfts.dom());
}

/// The royalty that a payment of `amount` owes on `id` in state `s`: `None`
/// at a rate of 0, else the truncated percentage of `amount`.
pub open spec fn royalty_due(s: RegistryState, id: u64, amount: int) -> Option<int> {
    if s.royalty_rate(id) == 0 {
        None
    } else {
        Some(royalty_of(amount, s.royalty_rate(id) as int))
    }
}

/// Once `percentage` is set for `id`, a payment of `amount` owes
/// `amount * percentage / 100` (truncated) if the percentage is positive,
/// and nothing if it is 0; where no royalty was ever set for `id`, nothing
/// is owed.
pub proof fn lemma_royalty_due_after_set(s: RegistryState, id: u64, percentage: u64, amount: int)
    ensures
        royalty_step(s, id, percentage).royalty_rate(id) == percentage,
        percentage > 0 ==> royalty_due(royalty_step(s, id, percentage), id, amount) == Some(
            royalty_of(amount, percentage as int),
        ),
        percentage == 0 ==> royalty_due(royalty_step(s, id, percentage), id, amount) is None,
        !s.royalties.contains_key(id) ==> royalty_due(s, id, amount) is None,
{
}

/// Setting the same royalty twice leaves the state that setting it once does.
pub proof fn lemma_set_royalty_idempotent(s: RegistryState, id: u64, percentage: u64)
    ensures
        royalty_step(royalty_step(s, id, percentage), id, percentage) == royalty_step(s, id, percentage),
{
    assert(royalty_step(royalty_step(s, id, percentage), id, percentage).royalties =~= royalty_step(s, id, percentage).royalties);
}

} // verus!
