//! The pool engine: creation, deposit, withdrawal and the queries.
//!
//! Every operation is a function of the pool's state, the request and what the
//! share ledger reported before the call. It either returns the instructions
//! for the host together with the updated state, or an error and the state
//! untouched.

use vstd::prelude::*;
use crate::error::{overflow, Error, OverflowOperation, StdErrorKind};
use crate::math::{floor_sqrt, mul_div, ratio, sqrt};
use crate::msg::{
    ExecuteMsg, InstantiateMsg, InstantiateMsgView, QueryMsg, QueryResponse, ReservesResponse,
};
use crate::settlement::{
    instruction_views, payout, payout_spec, pull, pull_spec, Instruction, InstructionView,
};
use crate::state::{optional_address, LpToken, Pool, PoolView, Token, TokenView};

verus! {

/// The shares withheld for good from the first depositor.
pub const MINIMUM_LIQUIDITY: u128 = 10000;

/// The code from which the share ledger is created.
pub const LP_TOKEN_CODE_ID: u64 = 0;

/// The number of decimals of a share.
pub const LP_TOKEN_DECIMALS: u8 = 6;

/// The tag under which the host acknowledges the share ledger's creation.
pub const LP_TOKEN_REPLY_ID: u64 = 200;

/// The shares for a deposit into a pool without shares: the floor of the
/// geometric mean of the two amounts, less the minimum liquidity.
pub open spec fn initial_shares_spec(amount1: u128, amount2: u128) -> Result<u128, Error> {
    if amount1 * amount2 > u128::MAX {
        Err(overflow(OverflowOperation::Mul, amount1, amount2))
    } else if floor_sqrt((amount1 * amount2) as nat) < MINIMUM_LIQUIDITY {
        Err(Error::InsufficientLiquidity)
    } else {
        Ok((floor_sqrt((amount1 * amount2) as nat) - MINIMUM_LIQUIDITY) as u128)
    }
}

/// The shares for a deposit into a pool with `supply` shares: the smaller of
/// the two contributions, each measured against its reserve.
pub open spec fn proportional_shares_spec(
    amount1: u128,
    amount2: u128,
    supply: u128,
    reserve1: u128,
    reserve2: u128,
) -> Result<u128, Error> {
    match ratio(amount1, supply, reserve1) {
        Err(e) => Err(e),
        Ok(by_first) => match ratio(amount2, supply, reserve2) {
            Err(e) => Err(e),
            Ok(by_second) => Ok(if by_first <= by_second { by_first } else { by_second }),
        },
    }
}

/// The shares that a deposit mints. A deposit that would mint none is refused.
pub open spec fn shares_for_deposit_spec(
    amount1: u128,
    amount2: u128,
    supply: u128,
    reserve1: u128,
    reserve2: u128,
) -> Result<u128, Error> {
    let computed = if supply == 0 {
        initial_shares_spec(amount1, amount2)
    } else {
        proportional_shares_spec(amount1, amount2, supply, reserve1, reserve2)
    };
    match computed {
        Err(e) => Err(e),
        Ok(shares) => if shares == 0 {
            Err(Error::InsufficientLiquidity)
        } else {
            Ok(shares)
        },
    }
}

/// The list that holds the instruction, if there is one.
pub open spec fn optional(instruction: Option<InstructionView>) -> Seq<InstructionView> {
    match instruction {
        Some(i) => seq![i],
        None => seq![],
    }
}

/// What a deposit emits: the mint of the shares to the depositor, then the
/// pull of each ledgered asset into the pool, the second by the amount that
/// matches the first.
pub open spec fn deposit_instructions(
    pool: PoolView,
    lp_token: Seq<char>,
    sender: Seq<char>,
    contract: Seq<char>,
    shares: u128,
    amount1: u128,
    needed2: u128,
) -> Seq<InstructionView> {
    seq![InstructionView::Mint { contract: lp_token, recipient: sender, amount: shares }]
        + optional(pull_spec(pool.token1.denom, sender, contract, amount1))
        + optional(pull_spec(pool.token2.denom, sender, contract, needed2))
}

/// The pool with its two reserves replaced.
pub open spec fn with_reserves(pool: PoolView, reserve1: u128, reserve2: u128) -> PoolView {
    PoolView {
        token1: TokenView { reserve: reserve1, denom: pool.token1.denom },
        token2: TokenView { reserve: reserve2, denom: pool.token2.denom },
        owner: pool.owner,
        lp_token: pool.lp_token,
    }
}

/// The outcome of a deposit of `amount1` and `amount2` by `sender` into the
/// pool at `contract`, while the share ledger reports `supply` shares: the
/// pool afterwards and the instructions, or the first check that fails.
pub open spec fn deposit_spec(
    pool: PoolView,
    sender: Seq<char>,
    contract: Seq<char>,
    amount1: u128,
    amount2: u128,
    supply: u128,
) -> Result<(PoolView, Seq<InstructionView>), Error> {
    let reserve1 = pool.token1.reserve;
    let reserve2 = pool.token2.reserve;
    match pool.lp_token {
        None => Err(Error::Std(StdErrorKind::NotFound)),
        Some(lp_token) => match shares_for_deposit_spec(
            amount1,
            amount2,
            supply,
            reserve1,
            reserve2,
        ) {
            Err(e) => Err(e),
            Ok(shares) => match ratio(amount1, reserve2, reserve1) {
                Err(e) => Err(e),
                Ok(needed2) => if needed2 > amount2 {
                    Err(Error::InsufficientTokenAmount)
                } else if reserve1 + amount1 > u128::MAX {
                    Err(overflow(OverflowOperation::Add, reserve1, amount1))
                } else if reserve2 + amount2 > u128::MAX {
                    Err(overflow(OverflowOperation::Add, reserve2, amount2))
                } else {
                    Ok(
                        (
                            with_reserves(
                                pool,
                                (reserve1 + amount1) as u128,
                                (reserve2 + amount2) as u128,
                            ),
                            deposit_instructions(
                                pool,
                                lp_token,
                                sender,
                                contract,
                                shares,
                                amount1,
                                needed2,
                            ),
                        ),
                    )
                },
            },
        },
    }
}

/// The shares that a deposit of `amount1` and `amount2` mints while the ledger
/// reports `supply` shares and the reserves stand at `reserve1` and `reserve2`.
pub fn shares_for_deposit(
    amount1: u128,
    amount2: u128,
    supply: u128,
    reserve1: u128,
    reserve2: u128,
) -> (res: Result<u128, Error>)
    ensures
        res == shares_for_deposit_spec(amount1, amount2, supply, reserve1, reserve2),
{
    let shares: u128 = if supply == 0 {
        match amount1.checked_mul(amount2) {
            None => {
                return Err(
                    Error::Std(
                        StdErrorKind::Overflow {
                            operation: OverflowOperation::Mul,
                            operand1: amount1,
                            operand2: amount2,
                        },
                    ),
                );
            },
            Some(product) => {
                let root: u128 = sqrt(product);
                if root < MINIMUM_LIQUIDITY {
                    return Err(Error::InsufficientLiquidity);
                }
                root - MINIMUM_LIQUIDITY
            },
        }
    } else {
        let by_first: u128 = match mul_div(amount1, supply, reserve1) {
            Err(e) => {
                return Err(e);
            },
            Ok(q) => q,
        };
        let by_second: u128 = match mul_div(amount2, supply, reserve2) {
            Err(e) => {
                return Err(e);
            },
            Ok(q) => q,
        };
        if by_first <= by_second {
            by_first
        } else {
            by_second
        }
    };
    if shares == 0 {
        Err(Error::InsufficientLiquidity)
    } else {
        Ok(shares)
    }
}

/// Deposits up to `token1_amount` and `token2_amount` on behalf of `sender`
/// into the pool at `contract`. `total_supply` is the number of shares that
/// the share ledger reported before the call.
pub fn deposit(
    pool: &mut Pool,
    sender: &str,
    contract: &str,
    token1_amount: u128,
    token2_amount: u128,
    total_supply: u128,
) -> (res: Result<Vec<Instruction>, Error>)
    ensures
        match deposit_spec(
            old(pool)@,
            sender@,
            contract@,
            token1_amount,
            token2_amount,
            total_supply,
        ) {
            Ok((after, instructions)) => {
                &&& res is Ok
                &&& final(pool)@ == after
                &&& instruction_views(res->Ok_0@) == instructions
            },
            Err(e) => {
                &&& res is Err
                &&& res->Err_0 == e
                &&& *final(pool) == *old(pool)
            },
        },
{
    let lp_token: String = match &pool.lp_token {
        LpToken::Pending => {
            return Err(Error::Std(StdErrorKind::NotFound));
        },
        LpToken::Ready(address) => address.clone(),
    };
    let shares: u128 = match shares_for_deposit(
        token1_amount,
        token2_amount,
        total_supply,
        pool.token1.reserve,
        pool.token2.reserve,
    ) {
        Err(e) => {
            return Err(e);
        },
        Ok(shares) => shares,
    };
    let needed2: u128 = match mul_div(token1_amount, pool.token2.reserve, pool.token1.reserve) {
        Err(e) => {
            return Err(e);
        },
        Ok(needed2) => needed2,
    };
    if needed2 > token2_amount {
        return Err(Error::InsufficientTokenAmount);
    }
    let reserve1: u128 = match pool.token1.reserve.checked_add(token1_amount) {
        None => {
            return Err(
                Error::Std(
                    StdErrorKind::Overflow {
                        operation: OverflowOperation::Add,
                        operand1: pool.token1.reserve,
                        operand2: token1_amount,
                    },
                ),
            );
        },
        Some(sum) => sum,
    };
    let reserve2: u128 = match pool.token2.reserve.checked_add(token2_amount) {
        None => {
            return Err(
                Error::Std(
                    StdErrorKind::Overflow {
                        operation: OverflowOperation::Add,
                        operand1: pool.token2.reserve,
                        operand2: token2_amount,
                    },
                ),
            );
        },
        Some(sum) => sum,
    };

    let mut instructions: Vec<Instruction> = Vec::new();
    instructions.push(
        Instruction::Mint { contract: lp_token, recipient: sender.to_owned(), amount: shares },
    );
    match pull(&pool.token1.denom, sender, contract, token1_amount) {
        Some(instruction) => {
            instructions.push(instruction);
        },
        None => {},
    }
    match pull(&pool.token2.denom, sender, contract, needed2) {
        Some(instruction) => {
            instructions.push(instruction);
        },
        None => {},
    }
    pool.token1.reserve = reserve1;
    pool.token2.reserve = reserve2;
    proof {
        assert(instruction_views(instructions@) =~= deposit_instructions(
            old(pool)@,
            lp_token@,
            sender@,
            contract@,
            shares,
            token1_amount,
            needed2,
        ));
    }
    Ok(instructions)
}

/// The outcome of a withdrawal of `lp_amount` shares by `sender`, who holds
/// `lp_balance` shares, with `token1_amount` and `token2_amount` to be taken
/// off the books: the pool afterwards and the instructions, or the first check
/// that fails. Each payout is the share of a reserve that `lp_amount` is of
/// the caller's whole balance.
pub open spec fn withdraw_spec(
    pool: PoolView,
    sender: Seq<char>,
    lp_amount: u128,
    token1_amount: u128,
    token2_amount: u128,
    lp_balance: u128,
) -> Result<(PoolView, Seq<InstructionView>), Error> {
    let reserve1 = pool.token1.reserve;
    let reserve2 = pool.token2.reserve;
    match pool.lp_token {
        None => Err(Error::Std(StdErrorKind::NotFound)),
        Some(lp_token) => if lp_balance < lp_amount {
            Err(Error::InvalidLPTokenAmount)
        } else {
            match ratio(lp_amount, reserve1, lp_balance) {
                Err(e) => Err(e),
                Ok(amount1) => match ratio(lp_amount, reserve2, lp_balance) {
                    Err(e) => Err(e),
                    Ok(amount2) => if amount1 == 0 || amount2 == 0 {
                        Err(Error::InsufficientLiquidity)
                    } else if token1_amount > reserve1 {
                        Err(overflow(OverflowOperation::Sub, reserve1, token1_amount))
                    } else if token2_amount > reserve2 {
                        Err(overflow(OverflowOperation::Sub, reserve2, token2_amount))
                    } else {
                        Ok(
                            (
                                with_reserves(
                                    pool,
                                    (reserve1 - token1_amount) as u128,
                                    (reserve2 - token2_amount) as u128,
                                ),
                                seq![
                                    InstructionView::BurnFrom {
                                        contract: lp_token,
                                        owner: sender,
                                        amount: lp_amount,
                                    },
                                    payout_spec(pool.token1.denom, sender, amount1),
                                    payout_spec(pool.token2.denom, sender, amount2),
                                ],
                            ),
                        )
                    },
                },
            }
        },
    }
}

/// Redeems `lp_amount` shares of `sender` and takes `token1_amount` and
/// `token2_amount` off the recorded reserves. `lp_balance` is the share
/// balance of `sender` that the share ledger reported before the call.
pub fn withdraw(
    pool: &mut Pool,
    sender: &str,
    lp_amount: u128,
    token1_amount: u128,
    token2_amount: u128,
    lp_balance: u128,
) -> (res: Result<Vec<Instruction>, Error>)
    ensures
        match withdraw_spec(
            old(pool)@,
            sender@,
            lp_amount,
            token1_amount,
            token2_amount,
            lp_balance,
        ) {
            Ok((after, instructions)) => {
                &&& res is Ok
                &&& final(pool)@ == after
                &&& instruction_views(res->Ok_0@) == instructions
            },
            Err(e) => {
                &&& res is Err
                &&& res->Err_0 == e
                &&& *final(pool) == *old(pool)
            },
        },
{
    let lp_token: String = match &pool.lp_token {
        LpToken::Pending => {
            return Err(Error::Std(StdErrorKind::NotFound));
        },
        LpToken::Ready(address) => address.clone(),
    };
    if lp_balance < lp_amount {
        return Err(Error::InvalidLPTokenAmount);
    }
    let amount1: u128 = match mul_div(lp_amount, pool.token1.reserve, lp_balance) {
        Err(e) => {
            return Err(e);
        },
        Ok(amount) => amount,
    };
    let amount2: u128 = match mul_div(lp_amount, pool.token2.reserve, lp_balance) {
        Err(e) => {
            return Err(e);
        },
        Ok(amount) => amount,
    };
    if amount1 == 0 || amount2 == 0 {
        return Err(Error::InsufficientLiquidity);
    }
    let reserve1: u128 = match pool.token1.reserve.checked_sub(token1_amount) {
        None => {
            return Err(
                Error::Std(
                    StdErrorKind::Overflow {
                        operation: OverflowOperation::Sub,
                        operand1: pool.token1.reserve,
                        operand2: token1_amount,
                    },
                ),
            );
        },
        Some(rest) => rest,
    };
    let reserve2: u128 = match pool.token2.reserve.checked_sub(token2_amount) {
        None => {
            return Err(
                Error::Std(
                    StdErrorKind::Overflow {
                        operation: OverflowOperation::Sub,
                        operand1: pool.token2.reserve,
                        operand2: token2_amount,
                    },
                ),
            );
        },
        Some(rest) => rest,
    };

    let mut instructions: Vec<Instruction> = Vec::new();
    instructions.push(
        Instruction::BurnFrom { contract: lp_token, owner: sender.to_owned(), amount: lp_amount },
    );
    instructions.push(payout(&pool.token1.denom, sender, amount1));
    instructions.push(payout(&pool.token2.denom, sender, amount2));
    pool.token1.reserve = reserve1;
    pool.token2.reserve = reserve2;
    proof {
        assert(instruction_views(instructions@) =~= seq![
            InstructionView::BurnFrom { contract: lp_token@, owner: sender@, amount: lp_amount },
            payout_spec(old(pool)@.token1.denom, sender@, amount1),
            payout_spec(old(pool)@.token2.denom, sender@, amount2),
        ]);
    }
    Ok(instructions)
}

/// The pool as it is created: both reserves empty, the owner recorded, the
/// share ledger still to come.
pub open spec fn instantiate_pool(msg: InstantiateMsgView) -> PoolView {
    PoolView {
        token1: TokenView { reserve: 0, denom: msg.token1 },
        token2: TokenView { reserve: 0, denom: msg.token2 },
        owner: Some(msg.owner),
        lp_token: None,
    }
}

/// The request to create the share ledger, with the pool at `contract` as its
/// minter.
pub open spec fn create_lp_token(contract: Seq<char>) -> InstructionView {
    InstructionView::CreateLpToken {
        code_id: LP_TOKEN_CODE_ID,
        label: "lp_token"@,
        name: "lp_token"@,
        symbol: "LP"@,
        decimals: LP_TOKEN_DECIMALS,
        minter: contract,
        reply_id: LP_TOKEN_REPLY_ID,
    }
}

/// Creates the pool that lives at `contract` and asks the host to create its
/// share ledger.
pub fn instantiate(contract: &str, msg: InstantiateMsg) -> (res: (Pool, Vec<Instruction>))
    ensures
        res.0@ == instantiate_pool(msg@),
        instruction_views(res.1@) == seq![create_lp_token(contract@)],
{
    let pool = Pool {
        token1: Token { reserve: 0, denom: msg.token1 },
        token2: Token { reserve: 0, denom: msg.token2 },
        owner: Some(msg.owner),
        lp_token: LpToken::Pending,
    };
    let mut instructions: Vec<Instruction> = Vec::new();
    instructions.push(
        Instruction::CreateLpToken {
            code_id: LP_TOKEN_CODE_ID,
            label: "lp_token".to_owned(),
            name: "lp_token".to_owned(),
            symbol: "LP".to_owned(),
            decimals: LP_TOKEN_DECIMALS,
            minter: contract.to_owned(),
            reply_id: LP_TOKEN_REPLY_ID,
        },
    );
    proof {
        assert(instruction_views(instructions@) =~= seq![create_lp_token(contract@)]);
    }
    (pool, instructions)
}

/// The pool after the host's word on the share ledger's creation: with the
/// ledger's address on record, or, where the creation failed, an error.
pub open spec fn reply_spec(pool: PoolView, created: Option<Seq<char>>) -> Result<PoolView, Error> {
    match created {
        None => Err(Error::LPTokenError),
        Some(address) => Ok(
            PoolView {
                token1: pool.token1,
                token2: pool.token2,
                owner: pool.owner,
                lp_token: Some(address),
            },
        ),
    }
}

/// Takes the host's acknowledgement of the share ledger's creation: the
/// address of the new ledger, or `None` where the creation failed or its
/// acknowledgement could not be read. Nothing is emitted.
pub fn reply(pool: &mut Pool, created: Option<String>) -> (res: Result<Vec<Instruction>, Error>)
    ensures
        match reply_spec(old(pool)@, optional_address(created)) {
            Ok(after) => {
                &&& res is Ok
                &&& final(pool)@ == after
                &&& res->Ok_0@.len() == 0
            },
            Err(e) => {
                &&& res is Err
                &&& res->Err_0 == e
                &&& *final(pool) == *old(pool)
            },
        },
{
    match created {
        None => Err(Error::LPTokenError),
        Some(address) => {
            pool.lp_token = LpToken::Ready(address);
            Ok(Vec::new())
        },
    }
}

/// The outcome of a request that changes the pool. `reading` is what the share
/// ledger reported before the call: the total supply for a deposit, the
/// sender's balance for a withdrawal.
pub open spec fn execute_spec(
    pool: PoolView,
    sender: Seq<char>,
    contract: Seq<char>,
    msg: ExecuteMsg,
    reading: u128,
) -> Result<(PoolView, Seq<InstructionView>), Error>
    recommends
        !(msg is Swap),
{
    match msg {
        ExecuteMsg::Deposit { token1, token2 } => deposit_spec(
            pool,
            sender,
            contract,
            token1,
            token2,
            reading,
        ),
        ExecuteMsg::Withdraw { lp_amount, token1_amount, token2_amount } => withdraw_spec(
            pool,
            sender,
            lp_amount,
            token1_amount,
            token2_amount,
            reading,
        ),
        ExecuteMsg::Swap {  } => arbitrary(),
    }
}

/// Carries out a deposit or a withdrawal for `sender` on the pool at
/// `contract`. `reading` is what the share ledger reported before the call:
/// the total supply for a deposit, the sender's balance for a withdrawal.
/// No rule exists for a swap, so a swap may not be passed.
pub fn execute(
    pool: &mut Pool,
    sender: &str,
    contract: &str,
    msg: ExecuteMsg,
    reading: u128,
) -> (res: Result<Vec<Instruction>, Error>)
    requires
        !(msg is Swap),
    ensures
        match execute_spec(old(pool)@, sender@, contract@, msg, reading) {
            Ok((after, instructions)) => {
                &&& res is Ok
                &&& final(pool)@ == after
                &&& instruction_views(res->Ok_0@) == instructions
            },
            Err(e) => {
                &&& res is Err
                &&& res->Err_0 == e
                &&& *final(pool) == *old(pool)
            },
        },
{
    match msg {
        ExecuteMsg::Deposit { token1, token2 } => deposit(
            pool,
            sender,
            contract,
            token1,
            token2,
            reading,
        ),
        ExecuteMsg::Withdraw { lp_amount, token1_amount, token2_amount } => withdraw(
            pool,
            sender,
            lp_amount,
            token1_amount,
            token2_amount,
            reading,
        ),
        ExecuteMsg::Swap {  } => unreached(),
    }
}

/// The reserves and the share supply of a pool whose ledger reports
/// `total_supply` shares. A pool without a share ledger has no answer.
pub open spec fn query_reserves_spec(pool: PoolView, total_supply: u128) -> Result<
    ReservesResponse,
    Error,
> {
    match pool.lp_token {
        None => Err(Error::Std(StdErrorKind::NotFound)),
        Some(_) => Ok(
            ReservesResponse {
                token1_reserve: pool.token1.reserve,
                token2_reserve: pool.token2.reserve,
                lp_token_supply: total_supply,
            },
        ),
    }
}

/// Reports the two reserves and the share supply. `total_supply` is the number
/// of shares that the share ledger reported before the call.
pub fn query_reserves(pool: &Pool, total_supply: u128) -> (res: Result<ReservesResponse, Error>)
    ensures
        res == query_reserves_spec(pool@, total_supply),
{
    match &pool.lp_token {
        LpToken::Pending => Err(Error::Std(StdErrorKind::NotFound)),
        LpToken::Ready(_) => Ok(
            ReservesResponse {
                token1_reserve: pool.token1.reserve,
                token2_reserve: pool.token2.reserve,
                lp_token_supply: total_supply,
            },
        ),
    }
}

/// Answers a query. `reading` is what the share ledger reported before the
/// call: the total supply for `Reserves`, the holder's balance for `Share`.
pub fn query(pool: &Pool, msg: &QueryMsg, reading: u128) -> (res: Result<QueryResponse, Error>)
    ensures
        res == match *msg {
            QueryMsg::Reserves {  } => match query_reserves_spec(pool@, reading) {
                Ok(reserves) => Ok(QueryResponse::Reserves(reserves)),
                Err(e) => Err(e),
            },
            QueryMsg::Share { address } => Ok(QueryResponse::Share { balance: reading }),
        },
{
    match msg {
        QueryMsg::Reserves {  } => match query_reserves(pool, reading) {
            Ok(reserves) => Ok(QueryResponse::Reserves(reserves)),
            Err(e) => Err(e),
        },
        QueryMsg::Share { address: _ } => Ok(QueryResponse::Share { balance: reading }),
    }
}

} // verus!
