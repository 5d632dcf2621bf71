//! What the vault knows of the ledger: amounts, resources, tokens in hand, and who may do what.

use vstd::prelude::*;

use crate::hash::same_bytes;

verus! {

/// A number of tokens, in the smallest unit of their resource.
#[derive(Debug, Clone, Copy, PartialEq, Eq, PartialOrd, Ord, Structural)]
pub struct Amount(pub u128);

impl Amount {
    /// No tokens at all.
    pub fn zero() -> (amount: Self)
        ensures
            amount == Amount(0),
    {
        Amount(0)
    }

    /// Whether there is at least one token.
    pub fn is_positive(&self) -> (positive: bool)
        ensures
            positive == (self.0 > 0),
    {
        self.0 > 0
    }
}

/// The address of a resource on the ledger.
#[derive(Debug, Clone, Copy, Eq)]
pub struct ResourceAddress {
    bytes: [u8; 32],
}

impl View for ResourceAddress {
    type V = Seq<u8>;

    closed spec fn view(&self) -> Seq<u8> {
        self.bytes@
    }
}

impl PartialEq for ResourceAddress {
    fn eq(&self, other: &Self) -> (same: bool) {
        same_bytes(&self.bytes, &other.bytes)
    }
}

impl vstd::std_specs::cmp::PartialEqSpecImpl for ResourceAddress {
    open spec fn obeys_eq_spec() -> bool {
        true
    }

    open spec fn eq_spec(&self, other: &Self) -> bool {
        self@ == other@
    }
}

impl ResourceAddress {
    /// The address with the given bytes.
    pub fn from_array(bytes: [u8; 32]) -> (address: Self)
        ensures
            address@ == bytes@,
    {
        ResourceAddress { bytes }
    }

    /// The bytes of this address.
    pub fn into_array(self) -> (bytes: [u8; 32])
        ensures
            bytes@ == self@,
    {
        self.bytes
    }
}

/// Tokens of one resource on their way from one place to another. Of a confidential resource, some
/// may be blinded: their value is hidden, but for a lower bound that the ledger has proved.
#[derive(Debug)]
pub struct Bucket {
    /// What the tokens are.
    pub resource: ResourceAddress,
    /// How many of them are revealed: all, unless the resource is confidential.
    pub amount: Amount,
    /// The least value that the ledger has proved of those that are blinded. Zero if none are.
    pub promised: Amount,
}

/// What the ledger reports of the vault that holds the proceeds. Of a confidential resource,
/// `balance` counts the revealed tokens only.
#[derive(Debug)]
pub struct Earnings {
    /// The resource that the vault holds.
    pub resource: ResourceAddress,
    /// How many tokens it holds.
    pub balance: Amount,
}

/// Who makes a call.
#[derive(Debug, Clone, Copy, PartialEq, Eq, Structural)]
pub enum Caller {
    /// The owner of the component: whoever published it.
    Owner,
    /// Anybody else.
    Other,
}

/// Who is let through.
#[derive(Debug, Clone, Copy, PartialEq, Eq, Structural)]
pub enum Access {
    /// Every caller.
    Anyone,
    /// The owner alone.
    Owner,
}

impl Access {
    /// Whether a caller is let through.
    pub open spec fn admits(self, caller: Caller) -> bool {
        self == Access::Anyone || caller == Caller::Owner
    }
}

/// Two addresses compare equal exactly when they have the same bytes.
pub proof fn addresses_compare_by_their_bytes(address: ResourceAddress, other: ResourceAddress)
    ensures
        vstd::std_specs::cmp::PartialEqSpec::eq_spec(&address, &other) <==> address@ == other@,
{
}

}
