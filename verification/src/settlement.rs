//! The instructions that the pool hands to the host, and the mapping from a
//! transfer of an asset to the instruction that settles it.

use vstd::prelude::*;
use crate::state::{Denom, DenomView};

verus! {

/// One effect for the host to carry out after the call has returned.
#[derive(Debug, PartialEq, Eq)]
pub enum Instruction {
    /// Create the share ledger, with `minter` as the only account that may mint.
    /// The host reports the new ledger's address under `reply_id`.
    CreateLpToken {
        code_id: u64,
        label: String,
        name: String,
        symbol: String,
        decimals: u8,
        minter: String,
        reply_id: u64,
    },
    /// Mint `amount` shares on the ledger at `contract` to `recipient`.
    Mint { contract: String, recipient: String, amount: u128 },
    /// Burn `amount` shares of `owner` on the ledger at `contract`.
    BurnFrom { contract: String, owner: String, amount: u128 },
    /// Pull `amount` of the token at `contract` from `owner` to `recipient`.
    TransferFrom { contract: String, owner: String, recipient: String, amount: u128 },
    /// Push `amount` of the token at `contract` to `recipient`.
    Transfer { contract: String, recipient: String, amount: u128 },
    /// Send `amount` of the native coin `denom` to `to_address`.
    Send { to_address: String, denom: String, amount: u128 },
}

/// The mathematical value of an [`Instruction`].
pub enum InstructionView {
    CreateLpToken {
        code_id: u64,
        label: Seq<char>,
        name: Seq<char>,
        symbol: Seq<char>,
        decimals: u8,
        minter: Seq<char>,
        reply_id: u64,
    },
    Mint { contract: Seq<char>, recipient: Seq<char>, amount: u128 },
    BurnFrom { contract: Seq<char>, owner: Seq<char>, amount: u128 },
    TransferFrom { contract: Seq<char>, owner: Seq<char>, recipient: Seq<char>, amount: u128 },
    Transfer { contract: Seq<char>, recipient: Seq<char>, amount: u128 },
    Send { to_address: Seq<char>, denom: Seq<char>, amount: u128 },
}

impl View for Instruction {
    type V = InstructionView;

    open spec fn view(&self) -> InstructionView {
        match self {
            Instruction::CreateLpToken { code_id, label, name, symbol, decimals, minter, reply_id } =>
                InstructionView::CreateLpToken {
                    code_id: *code_id,
                    label: label@,
                    name: name@,
                    symbol: symbol@,
                    decimals: *decimals,
                    minter: minter@,
                    reply_id: *reply_id,
                },
            Instruction::Mint { contract, recipient, amount } => InstructionView::Mint {
                contract: contract@,
                recipient: recipient@,
                amount: *amount,
            },
            Instruction::BurnFrom { contract, owner, amount } => InstructionView::BurnFrom {
                contract: contract@,
                owner: owner@,
                amount: *amount,
            },
            Instruction::TransferFrom { contract, owner, recipient, amount } =>
                InstructionView::TransferFrom {
                    contract: contract@,
                    owner: owner@,
                    recipient: recipient@,
                    amount: *amount,
                },
            Instruction::Transfer { contract, recipient, amount } => InstructionView::Transfer {
                contract: contract@,
                recipient: recipient@,
                amount: *amount,
            },
            Instruction::Send { to_address, denom, amount } => InstructionView::Send {
                to_address: to_address@,
                denom: denom@,
                amount: *amount,
            },
        }
    }
}

/// The values of a list of instructions, in order.
pub open spec fn instruction_views(list: Seq<Instruction>) -> Seq<InstructionView> {
    Seq::new(list.len(), |i: int| list[i]@)
}

/// What pulls `amount` of an asset from `from` into `to`. A ledgered token is
/// pulled by a `TransferFrom` on its contract. A native coin is not pulled: it
/// has to arrive with the call.
pub open spec fn pull_spec(
    denom: DenomView,
    from: Seq<char>,
    to: Seq<char>,
    amount: u128,
) -> Option<InstructionView> {
    match denom {
        DenomView::Native(_) => None,
        DenomView::Cw20(contract) => Some(
            InstructionView::TransferFrom { contract, owner: from, recipient: to, amount },
        ),
    }
}

/// What pays `amount` of an asset out to `to`: a `Send` of a native coin, a
/// `Transfer` on the contract of a ledgered token.
pub open spec fn payout_spec(denom: DenomView, to: Seq<char>, amount: u128) -> InstructionView {
    match denom {
        DenomView::Native(code) => InstructionView::Send { to_address: to, denom: code, amount },
        DenomView::Cw20(contract) => InstructionView::Transfer { contract, recipient: to, amount },
    }
}

/// The instruction, if any, that pulls `amount` of the asset from `from` to `to`.
pub fn pull(denom: &Denom, from: &str, to: &str, amount: u128) -> (res: Option<Instruction>)
    ensures
        match pull_spec(denom@, from@, to@, amount) {
            Some(view) => res is Some && res->0@ == view,
            None => res is None,
        },
{
    match denom {
        Denom::Native(_) => None,
        Denom::Cw20(contract) => Some(
            Instruction::TransferFrom {
                contract: contract.clone(),
                owner: from.to_owned(),
                recipient: to.to_owned(),
                amount,
            },
        ),
    }
}

/// The instruction that pays `amount` of the asset out to `to`.
pub fn payout(denom: &Denom, to: &str, amount: u128) -> (res: Instruction)
    ensures
        res@ == payout_spec(denom@, to@, amount),
{
    match denom {
        Denom::Native(code) => Instruction::Send {
            to_address: to.to_owned(),
            denom: code.clone(),
            amount,
        },
        Denom::Cw20(contract) => Instruction::Transfer {
            contract: contract.clone(),
            recipient: to.to_owned(),
            amount,
        },
    }
}

} // verus!
