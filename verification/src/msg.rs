//! The requests that the pool answers, and the answers to its queries.

use vstd::prelude::*;
use crate::state::{Denom, DenomView};

verus! {

/// The request that creates a pool.
#[derive(Debug, PartialEq, Eq)]
pub struct InstantiateMsg {
    /// The asset of the first reserve slot.
    pub token1: Denom,
    /// The asset of the second reserve slot.
    pub token2: Denom,
    /// The administrative owner.
    pub owner: String,
}

/// The mathematical value of an [`InstantiateMsg`].
pub struct InstantiateMsgView {
    pub token1: DenomView,
    pub token2: DenomView,
    pub owner: Seq<char>,
}

impl View for InstantiateMsg {
    type V = InstantiateMsgView;

    open spec fn view(&self) -> InstantiateMsgView {
        InstantiateMsgView { token1: self.token1@, token2: self.token2@, owner: self.owner@ }
    }
}

impl Clone for InstantiateMsg {
    fn clone(&self) -> (res: Self)
        ensures
            res == *self,
    {
        InstantiateMsg {
            token1: self.token1.clone(),
            token2: self.token2.clone(),
            owner: self.owner.clone(),
        }
    }
}

/// A request that changes the pool.
#[derive(Clone, Copy, Debug, PartialEq, Eq, Structural)]
pub enum ExecuteMsg {
    /// Offer up to `token1` of the first asset and `token2` of the second.
    Deposit { token1: u128, token2: u128 },
    /// Redeem `lp_amount` shares, and take `token1_amount` and `token2_amount`
    /// off the recorded reserves.
    Withdraw { lp_amount: u128, token1_amount: u128, token2_amount: u128 },
    /// Trade one asset for the other. No rule for it exists yet.
    Swap {},
}

/// A request that only reads.
#[derive(Debug, PartialEq, Eq)]
pub enum QueryMsg {
    /// The two reserves and the share supply.
    Reserves {},
    /// The share balance of the holder at `address`.
    Share { address: String },
}

/// The pool's books at a glance.
#[derive(Clone, Copy, Debug, PartialEq, Eq, Structural)]
pub struct ReservesResponse {
    /// The recorded reserve of the first asset.
    pub token1_reserve: u128,
    /// The recorded reserve of the second asset.
    pub token2_reserve: u128,
    /// The total number of shares in existence.
    pub lp_token_supply: u128,
}

/// The answer to a [`QueryMsg`].
#[derive(Clone, Copy, Debug, PartialEq, Eq, Structural)]
pub enum QueryResponse {
    /// The answer to `QueryMsg::Reserves`.
    Reserves(ReservesResponse),
    /// The answer to `QueryMsg::Share`.
    Share { balance: u128 },
}

} // verus!
