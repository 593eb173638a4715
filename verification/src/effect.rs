//! Pending effects. Operations never move tokens themselves: they return an
//! ordered list of effects which a surrounding runtime executes after the
//! call returns, all or nothing. If any effect in the list fails, the host
//! rolls back the whole list together with this call's state changes.

use vstd::prelude::*;

verus! {

/// What an asset is: a native coin or a token contract.
#[derive(Clone, Debug)]
pub enum AssetInfo {
    NativeToken { denom: String },
    Token { contract_addr: String },
}

impl AssetInfo {
    /// Both sides name the same asset.
    pub open spec fn same(self, other: AssetInfo) -> bool {
        match (self, other) {
            (AssetInfo::NativeToken { denom: a }, AssetInfo::NativeToken { denom: b }) => a@ == b@,
            (AssetInfo::Token { contract_addr: a }, AssetInfo::Token { contract_addr: b }) => a@
                == b@,
            _ => false,
        }
    }

    /// Exact comparison of two asset identities.
    pub fn matches(&self, other: &AssetInfo) -> (b: bool)
        ensures
            b == self.same(*other),
    {
        match (self, other) {
            (AssetInfo::NativeToken { denom: a }, AssetInfo::NativeToken { denom: b }) => *a
                == *b,
            (AssetInfo::Token { contract_addr: a }, AssetInfo::Token { contract_addr: b }) => *a
                == *b,
            _ => false,
        }
    }
}

/// A quantity of some asset.
#[derive(Clone, Debug)]
pub struct Asset {
    pub info: AssetInfo,
    pub amount: u64,
}

/// One scheduled side effect.
#[derive(Clone, Debug, PartialEq, Eq)]
pub enum Effect {
    /// Send a native coin.
    Send { to: String, denom: String, amount: u64 },
    /// Transfer tokens held by this contract.
    TokenTransfer { token: String, recipient: String, amount: u64 },
    /// Pull tokens from an owner who granted an allowance.
    TokenTransferFrom { token: String, owner: String, recipient: String, amount: u64 },
    /// Mint receipt tokens to a recipient.
    TokenMint { token: String, recipient: String, amount: u64 },
    /// Burn receipt tokens held by this contract.
    TokenBurn { token: String, amount: u64 },
    /// Invoke a borrower-provided callback; the payload is opaque here.
    ExecuteContract { contract: String, payload: Vec<u8> },
    /// Self-callback that settles a flash loan after the borrower returns.
    AfterTrade { contract: String, loan_fee: u64 },
}

} // verus!
