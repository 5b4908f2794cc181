//! The values that the registry stores and reports.
use vstd::prelude::*;

verus! {

/// An account or contract address, held as its textual key.
pub struct Address {
    key: String,
}

impl View for Address {
    type V = Seq<char>;

    closed spec fn view(&self) -> Seq<char> {
        self.key@
    }
}

impl Address {
    /// An address with the textual key `key`.
    pub fn new(key: String) -> (r: Address)
        ensures
            r@ == key@,
    {
        Address { key }
    }

    /// The textual key of this address.
    pub fn key(&self) -> (r: &String)
        ensures
            r@ == self@,
    {
        &self.key
    }

    /// Whether two addresses are the same.
    pub fn same_as(&self, other: &Address) -> (r: bool)
        ensures
            r == (self@ == other@),
    {
        self.key == other.key
    }
}

impl Clone for Address {
    fn clone(&self) -> (r: Self)
        ensures
            r == *self,
    {
        Address { key: self.key.clone() }
    }
}

impl PartialEq for Address {
    fn eq(&self, other: &Address) -> (r: bool) {
        self.key == other.key
    }
}

impl vstd::std_specs::cmp::PartialEqSpecImpl for Address {
    open spec fn obeys_eq_spec() -> bool {
        true
    }

    open spec fn eq_spec(&self, other: &Address) -> bool {
        self@ == other@
    }
}

/// One minted asset: who holds it, who created it, and its metadata link.
pub struct NFT {
    pub owner: Address,
    pub creator: Address,
    pub uri: String,
}

impl Clone for NFT {
    fn clone(&self) -> (r: Self)
        ensures
            r == *self,
    {
        NFT { owner: self.owner.clone(), creator: self.creator.clone(), uri: self.uri.clone() }
    }
}

/// The slots under which a host persists a registry's state. `Creator` is
/// reserved and never written.
#[derive(Clone, Copy, Debug, PartialEq, Eq, Structural)]
pub enum DataKey {
    Admin,
    Creator,
    NFTCounter,
    NFTs,
    Royalties,
}

/// A notification published by a state change.
pub enum Event {
    /// An asset was minted: routed by owner and creator, carrying its identifier.
    Mint { owner: Address, creator: Address, id: u64 },
    /// An asset changed hands: routed by the old and new owner, carrying its identifier.
    Transfer { from: Address, to: Address, id: u64 },
}

/// A payment that the host must carry out: `amount` units of the asset
/// `token` from `from` to `to`.
pub struct RoyaltyPayment {
    pub from: Address,
    pub to: Address,
    pub amount: i128,
    pub token: Address,
}

/// Why an operation was rejected. A rejected operation changes nothing.
#[derive(Clone, Copy, Debug, PartialEq, Eq, Structural)]
pub enum ContractError {
    /// `initialize` on a registry that already has an administrator.
    AlreadyInitialized,
    /// An operation on a registry that was never initialized.
    UninitializedAccess,
    /// The identifier names no minted asset.
    NotFound,
    /// A transfer by an address that does not hold the asset.
    NotOwner,
    /// The address on whose behalf the call is made did not authorize it.
    AuthorizationFailure,
    /// A counter or an amount would leave its integer range.
    Overflow,
}

} // verus!
