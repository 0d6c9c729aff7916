//! The pool's durable state: two reserve slots, the owner and the address of
//! the share ledger.

use vstd::prelude::*;

verus! {

/// What an asset is: a coin that the host settles itself, or a token whose
/// balances a separate contract keeps.
#[derive(Debug, PartialEq, Eq)]
pub enum Denom {
    /// A native coin, by its currency code.
    Native(String),
    /// A ledgered token, by the address of its contract.
    Cw20(String),
}

/// The mathematical value of a [`Denom`].
pub enum DenomView {
    Native(Seq<char>),
    Cw20(Seq<char>),
}

impl View for Denom {
    type V = DenomView;

    open spec fn view(&self) -> DenomView {
        match self {
            Denom::Native(code) => DenomView::Native(code@),
            Denom::Cw20(address) => DenomView::Cw20(address@),
        }
    }
}

impl Clone for Denom {
    fn clone(&self) -> (res: Self)
        ensures
            res == *self,
    {
        match self {
            Denom::Native(code) => Denom::Native(code.clone()),
            Denom::Cw20(address) => Denom::Cw20(address.clone()),
        }
    }
}

/// One reserve slot: how much of an asset the pool has on its books.
#[derive(Debug, PartialEq, Eq)]
pub struct Token {
    /// The recorded holding, in the asset's smallest unit.
    pub reserve: u128,
    /// The asset that this slot accounts for.
    pub denom: Denom,
}

/// The mathematical value of a [`Token`].
pub struct TokenView {
    pub reserve: u128,
    pub denom: DenomView,
}

impl View for Token {
    type V = TokenView;

    open spec fn view(&self) -> TokenView {
        TokenView { reserve: self.reserve, denom: self.denom@ }
    }
}

impl Clone for Token {
    fn clone(&self) -> (res: Self)
        ensures
            res == *self,
    {
        Token { reserve: self.reserve, denom: self.denom.clone() }
    }
}

/// The share ledger's address. It is learned only when the host acknowledges
/// the ledger's creation; until then the pool accepts no deposit or withdrawal.
#[derive(Debug, PartialEq, Eq)]
pub enum LpToken {
    /// The creation has been requested and not yet acknowledged.
    Pending,
    /// The ledger exists at this address.
    Ready(String),
}

impl View for LpToken {
    type V = Option<Seq<char>>;

    open spec fn view(&self) -> Option<Seq<char>> {
        match self {
            LpToken::Pending => None,
            LpToken::Ready(address) => Some(address@),
        }
    }
}

impl Clone for LpToken {
    fn clone(&self) -> (res: Self)
        ensures
            res == *self,
    {
        match self {
            LpToken::Pending => LpToken::Pending,
            LpToken::Ready(address) => LpToken::Ready(address.clone()),
        }
    }
}

/// The value of an address that may be absent.
pub open spec fn optional_address(address: Option<String>) -> Option<Seq<char>> {
    match address {
        Some(a) => Some(a@),
        None => None,
    }
}

/// The whole state of one pool.
#[derive(Debug, PartialEq, Eq)]
pub struct Pool {
    /// The first reserve slot.
    pub token1: Token,
    /// The second reserve slot.
    pub token2: Token,
    /// The administrative owner, if one was recorded.
    pub owner: Option<String>,
    /// The share ledger.
    pub lp_token: LpToken,
}

/// The mathematical value of a [`Pool`].
pub struct PoolView {
    pub token1: TokenView,
    pub token2: TokenView,
    pub owner: Option<Seq<char>>,
    pub lp_token: Option<Seq<char>>,
}

impl View for Pool {
    type V = PoolView;

    open spec fn view(&self) -> PoolView {
        PoolView {
            token1: self.token1@,
            token2: self.token2@,
            owner: optional_address(self.owner),
            lp_token: self.lp_token@,
        }
    }
}

impl Clone for Pool {
    fn clone(&self) -> (res: Self)
        ensures
            res == *self,
    {
        Pool {
            token1: self.token1.clone(),
            token2: self.token2.clone(),
            owner: match &self.owner {
                Some(address) => Some(address.clone()),
                None => None,
            },
            lp_token: self.lp_token.clone(),
        }
    }
}

} // verus!
