use amm::contract::{
    deposit, execute, instantiate, query, query_reserves, reply, shares_for_deposit, withdraw,
    LP_TOKEN_CODE_ID, LP_TOKEN_DECIMALS, LP_TOKEN_REPLY_ID, MINIMUM_LIQUIDITY,
};
use amm::error::{Error, OverflowOperation, StdErrorKind};
use amm::math::{mul_div, sqrt};
use amm::msg::{ExecuteMsg, InstantiateMsg, QueryMsg, QueryResponse, ReservesResponse};
use amm::settlement::{payout, pull, Instruction};
use amm::state::{Denom, LpToken, Pool, Token};

fn overflow(operation: OverflowOperation, operand1: u128, operand2: u128) -> Error {
    Error::Std(StdErrorKind::Overflow { operation, operand1, operand2 })
}

fn divide_by_zero(operand: u128) -> Error {
    Error::Std(StdErrorKind::DivideByZero { operand })
}

fn native(code: &str) -> Denom {
    Denom::Native(code.to_string())
}

fn cw20(address: &str) -> Denom {
    Denom::Cw20(address.to_string())
}

fn pool_with(denom1: Denom, reserve1: u128, denom2: Denom, reserve2: u128) -> Pool {
    Pool {
        token1: Token { reserve: reserve1, denom: denom1 },
        token2: Token { reserve: reserve2, denom: denom2 },
        owner: Some("owner".to_string()),
        lp_token: LpToken::Ready("shares".to_string()),
    }
}

fn ledgered_pool(reserve1: u128, reserve2: u128) -> Pool {
    pool_with(cw20("gold"), reserve1, cw20("silver"), reserve2)
}

fn mint(recipient: &str, amount: u128) -> Instruction {
    Instruction::Mint {
        contract: "shares".to_string(),
        recipient: recipient.to_string(),
        amount,
    }
}

fn burn(owner: &str, amount: u128) -> Instruction {
    Instruction::BurnFrom { contract: "shares".to_string(), owner: owner.to_string(), amount }
}

fn transfer_from(contract: &str, owner: &str, amount: u128) -> Instruction {
    Instruction::TransferFrom {
        contract: contract.to_string(),
        owner: owner.to_string(),
        recipient: "pool".to_string(),
        amount,
    }
}

fn transfer(contract: &str, recipient: &str, amount: u128) -> Instruction {
    Instruction::Transfer {
        contract: contract.to_string(),
        recipient: recipient.to_string(),
        amount,
    }
}

fn send(denom: &str, to: &str, amount: u128) -> Instruction {
    Instruction::Send { to_address: to.to_string(), denom: denom.to_string(), amount }
}

#[test]
fn sqrt_is_the_floor_of_the_root() {
    assert_eq!(sqrt(0), 0);
    assert_eq!(sqrt(1), 1);
    assert_eq!(sqrt(3), 1);
    assert_eq!(sqrt(4), 2);
    assert_eq!(sqrt(15), 3);
    assert_eq!(sqrt(16), 4);
    assert_eq!(sqrt(1_000_000_000_000), 1_000_000);
    assert_eq!(sqrt(1_000_000_000_000 - 1), 999_999);
    assert_eq!(sqrt(u128::MAX), 18_446_744_073_709_551_615);
}

#[test]
fn mul_div_floors_the_quotient() {
    assert_eq!(mul_div(7, 3, 2), Ok(10));
    assert_eq!(mul_div(100_000, 990_000, 1_000_000), Ok(99_000));
    assert_eq!(mul_div(0, 5, 9), Ok(0));
}

#[test]
fn mul_div_reports_overflow_before_a_zero_divisor() {
    assert_eq!(mul_div(u128::MAX, 2, 0), Err(overflow(OverflowOperation::Mul, u128::MAX, 2)));
    assert_eq!(mul_div(u128::MAX, 2, 1), Err(overflow(OverflowOperation::Mul, u128::MAX, 2)));
    assert_eq!(mul_div(u128::MAX, 1, 0), Err(divide_by_zero(u128::MAX)));
    assert_eq!(mul_div(6, 7, 0), Err(divide_by_zero(42)));
    assert_eq!(mul_div(u128::MAX, 1, 1), Ok(u128::MAX));
}

#[test]
fn first_deposit_shares_are_the_geometric_mean_less_the_minimum() {
    assert_eq!(MINIMUM_LIQUIDITY, 10_000);
    assert_eq!(shares_for_deposit(1_000_000, 1_000_000, 0, 0, 0), Ok(990_000));
    assert_eq!(shares_for_deposit(4_000_000, 1_000_000, 0, 0, 0), Ok(1_990_000));
    assert_eq!(shares_for_deposit(10_001, 10_001, 0, 7, 9), Ok(1));
    assert_eq!(shares_for_deposit(20_000, 20_001, 0, 0, 0), Ok(10_000));
}

#[test]
fn first_deposit_at_or_below_the_minimum_is_refused() {
    assert_eq!(shares_for_deposit(10_000, 10_000, 0, 0, 0), Err(Error::InsufficientLiquidity));
    assert_eq!(shares_for_deposit(9_999, 10_000, 0, 0, 0), Err(Error::InsufficientLiquidity));
    assert_eq!(shares_for_deposit(0, 0, 0, 0, 0), Err(Error::InsufficientLiquidity));
    assert_eq!(shares_for_deposit(1, 100_000_000, 0, 5, 5), Err(Error::InsufficientLiquidity));
}

#[test]
fn first_deposit_just_above_the_minimum_square_mints_nothing() {
    // The root of 100_000_001 is still the minimum, so no share is left to mint.
    assert_eq!(shares_for_deposit(1, 100_000_001, 0, 0, 0), Err(Error::InsufficientLiquidity));
    assert_eq!(shares_for_deposit(1, 100_020_000, 0, 0, 0), Err(Error::InsufficientLiquidity));
    assert_eq!(shares_for_deposit(1, 100_020_001, 0, 0, 0), Ok(1));
}

#[test]
fn first_deposit_with_an_overflowing_product_is_refused() {
    assert_eq!(
        shares_for_deposit(u128::MAX, 2, 0, 0, 0),
        Err(overflow(OverflowOperation::Mul, u128::MAX, 2))
    );
}

#[test]
fn later_deposit_shares_follow_the_smaller_contribution() {
    assert_eq!(shares_for_deposit(100_000, 50_000, 990_000, 1_000_000, 1_000_000), Ok(49_500));
    assert_eq!(shares_for_deposit(50_000, 100_000, 990_000, 1_000_000, 1_000_000), Ok(49_500));
    assert_eq!(shares_for_deposit(10, 10, 3, 7, 4), Ok(4));
}

#[test]
fn later_deposit_shares_fail_in_order() {
    assert_eq!(
        shares_for_deposit(u128::MAX, 1, 2, 0, 0),
        Err(overflow(OverflowOperation::Mul, u128::MAX, 2))
    );
    assert_eq!(shares_for_deposit(1, u128::MAX, 2, 0, 1), Err(divide_by_zero(2)));
    assert_eq!(
        shares_for_deposit(1, u128::MAX, 2, 1, 0),
        Err(overflow(OverflowOperation::Mul, u128::MAX, 2))
    );
    assert_eq!(shares_for_deposit(1, 1, 2, 1, 0), Err(divide_by_zero(2)));
    assert_eq!(shares_for_deposit(1, 1, 1, 2, 1), Err(Error::InsufficientLiquidity));
}

#[test]
fn smaller_deposit_never_mints_more() {
    let full = shares_for_deposit(100_000, 80_000, 990_000, 1_000_000, 1_000_000).unwrap();
    assert_eq!(full, 79_200);
    let less_first = shares_for_deposit(70_000, 80_000, 990_000, 1_000_000, 1_000_000).unwrap();
    let less_second = shares_for_deposit(100_000, 60_000, 990_000, 1_000_000, 1_000_000).unwrap();
    assert_eq!(less_first, 69_300);
    assert_eq!(less_second, 59_400);
    assert!(less_first <= full);
    assert!(less_second <= full);
    assert_eq!(
        shares_for_deposit(0, 80_000, 990_000, 1_000_000, 1_000_000),
        Err(Error::InsufficientLiquidity)
    );
}

#[test]
fn first_deposit_into_empty_reserves() {
    let mut pool = ledgered_pool(0, 0);
    let before = pool.clone();
    // The shares of the first deposit are the root of the product less the minimum.
    assert_eq!(shares_for_deposit(1_000_000, 1_000_000, 0, 0, 0), Ok(1_000_000 - 10_000));
    // The matching amount is measured against the first reserve, which is still empty.
    assert_eq!(
        deposit(&mut pool, "alice", "pool", 1_000_000, 1_000_000, 0),
        Err(divide_by_zero(0))
    );
    assert_eq!(pool, before);
}

#[test]
fn first_deposit_into_seeded_reserves() {
    let mut pool = ledgered_pool(1, 1);
    let instructions = deposit(&mut pool, "alice", "pool", 1_000_000, 1_000_000, 0).unwrap();
    assert_eq!(
        instructions,
        vec![
            mint("alice", 990_000),
            transfer_from("gold", "alice", 1_000_000),
            transfer_from("silver", "alice", 1_000_000),
        ]
    );
    assert_eq!(pool, ledgered_pool(1_000_001, 1_000_001));
}

#[test]
fn deposit_with_too_little_of_the_second_asset() {
    let mut pool = ledgered_pool(1_000_000, 1_000_000);
    assert_eq!(mul_div(100_000, 1_000_000, 1_000_000), Ok(100_000));
    assert_eq!(
        deposit(&mut pool, "alice", "pool", 100_000, 50_000, 990_000),
        Err(Error::InsufficientTokenAmount)
    );
    assert_eq!(pool, ledgered_pool(1_000_000, 1_000_000));
}

#[test]
fn deposit_with_exactly_the_matching_amount() {
    let mut pool = ledgered_pool(1_000_000, 2_000_000);
    let instructions = deposit(&mut pool, "alice", "pool", 100_000, 200_000, 990_000).unwrap();
    assert_eq!(
        instructions,
        vec![
            mint("alice", 99_000),
            transfer_from("gold", "alice", 100_000),
            transfer_from("silver", "alice", 200_000),
        ]
    );
    assert_eq!(pool, ledgered_pool(1_100_000, 2_200_000));

    let mut short = ledgered_pool(1_000_000, 2_000_000);
    assert_eq!(
        deposit(&mut short, "alice", "pool", 100_000, 199_999, 990_000),
        Err(Error::InsufficientTokenAmount)
    );
}

#[test]
fn deposit_pulls_the_matching_amount_and_books_the_offered_one() {
    let mut pool = ledgered_pool(1_000_000, 1_000_000);
    let instructions = deposit(&mut pool, "alice", "pool", 100_000, 150_000, 990_000).unwrap();
    assert_eq!(
        instructions,
        vec![
            mint("alice", 99_000),
            transfer_from("gold", "alice", 100_000),
            transfer_from("silver", "alice", 100_000),
        ]
    );
    assert_eq!(pool, ledgered_pool(1_100_000, 1_150_000));
}

#[test]
fn deposit_of_native_coins_emits_no_pull() {
    let mut pool = pool_with(native("uatom"), 1_000_000, cw20("silver"), 1_000_000);
    let instructions = deposit(&mut pool, "alice", "pool", 100_000, 100_000, 990_000).unwrap();
    assert_eq!(
        instructions,
        vec![mint("alice", 99_000), transfer_from("silver", "alice", 100_000)]
    );

    let mut both = pool_with(native("uatom"), 1_000_000, native("uosmo"), 1_000_000);
    let instructions = deposit(&mut both, "alice", "pool", 100_000, 100_000, 990_000).unwrap();
    assert_eq!(instructions, vec![mint("alice", 99_000)]);
    assert_eq!(both, pool_with(native("uatom"), 1_100_000, native("uosmo"), 1_100_000));
}

#[test]
fn deposit_without_a_share_ledger_is_refused() {
    let mut pool = ledgered_pool(1_000_000, 1_000_000);
    pool.lp_token = LpToken::Pending;
    let before = pool.clone();
    assert_eq!(
        deposit(&mut pool, "alice", "pool", 100_000, 100_000, 990_000),
        Err(Error::Std(StdErrorKind::NotFound))
    );
    assert_eq!(pool, before);
}

#[test]
fn deposit_that_mints_nothing_is_refused() {
    let mut pool = ledgered_pool(1_000_000, 1_000_000);
    assert_eq!(
        deposit(&mut pool, "alice", "pool", 1, 1, 990_000),
        Err(Error::InsufficientLiquidity)
    );
    assert_eq!(pool, ledgered_pool(1_000_000, 1_000_000));
}

#[test]
fn deposit_against_an_empty_reserve_is_refused() {
    let mut pool = ledgered_pool(0, 1_000_000);
    assert_eq!(
        deposit(&mut pool, "alice", "pool", 100, 100, 990_000),
        Err(divide_by_zero(99_000_000))
    );
    assert_eq!(pool, ledgered_pool(0, 1_000_000));
}

#[test]
fn deposit_that_overflows_is_refused() {
    let mut product = ledgered_pool(1_000_000, 1_000_000);
    assert_eq!(
        deposit(&mut product, "alice", "pool", u128::MAX, 1, 990_000),
        Err(overflow(OverflowOperation::Mul, u128::MAX, 990_000))
    );
    assert_eq!(product, ledgered_pool(1_000_000, 1_000_000));

    let mut books = ledgered_pool(1, u128::MAX - 5);
    assert_eq!(
        deposit(&mut books, "alice", "pool", 0, 6, 0),
        Err(Error::InsufficientLiquidity)
    );
    let mut books = ledgered_pool(u128::MAX - 5, 1);
    assert_eq!(
        deposit(&mut books, "alice", "pool", 20_000, 20_000, 0),
        Err(overflow(OverflowOperation::Add, u128::MAX - 5, 20_000))
    );
    assert_eq!(books, ledgered_pool(u128::MAX - 5, 1));
    let mut second = ledgered_pool(1_000_000, u128::MAX - 5);
    assert_eq!(
        deposit(&mut second, "alice", "pool", 20_000, 20_000, 0),
        Err(overflow(OverflowOperation::Mul, 20_000, u128::MAX - 5))
    );
    let mut second = ledgered_pool(u128::MAX, 0);
    second.token2.reserve = u128::MAX - 5;
    second.token1.reserve = u128::MAX / 2;
    assert_eq!(
        deposit(&mut second, "alice", "pool", 1, 100_020_001, 0),
        Err(overflow(OverflowOperation::Add, u128::MAX - 5, 100_020_001))
    );
}

#[test]
fn withdraw_pays_against_the_callers_balance() {
    let mut pool = ledgered_pool(1_000_000, 1_000_000);
    let instructions = withdraw(&mut pool, "bob", 50_000, 500_000, 500_000, 100_000).unwrap();
    assert_eq!(
        instructions,
        vec![
            burn("bob", 50_000),
            transfer("gold", "bob", 500_000),
            transfer("silver", "bob", 500_000),
        ]
    );
    assert_eq!(pool, ledgered_pool(500_000, 500_000));
}

#[test]
fn withdraw_books_the_declared_amounts() {
    let mut pool = ledgered_pool(1_000_000, 3_000_000);
    let instructions = withdraw(&mut pool, "bob", 1, 10, 0, 3).unwrap();
    assert_eq!(
        instructions,
        vec![burn("bob", 1), transfer("gold", "bob", 333_333), transfer("silver", "bob", 1_000_000)]
    );
    assert_eq!(pool, ledgered_pool(999_990, 3_000_000));
}

#[test]
fn withdraw_of_native_coins_sends_them() {
    let mut pool = pool_with(native("uatom"), 1_000_000, cw20("silver"), 800_000);
    let instructions = withdraw(&mut pool, "bob", 25_000, 1, 2, 100_000).unwrap();
    assert_eq!(
        instructions,
        vec![burn("bob", 25_000), send("uatom", "bob", 250_000), transfer("silver", "bob", 200_000)]
    );
    assert_eq!(pool, pool_with(native("uatom"), 999_999, cw20("silver"), 799_998));
}

#[test]
fn withdraw_of_more_than_the_balance_is_refused() {
    let mut pool = ledgered_pool(1_000_000, 1_000_000);
    assert_eq!(
        withdraw(&mut pool, "bob", 100_001, 1, 1, 100_000),
        Err(Error::InvalidLPTokenAmount)
    );
    assert_eq!(pool, ledgered_pool(1_000_000, 1_000_000));
}

#[test]
fn withdraw_of_the_whole_balance_pays_the_whole_reserves() {
    let mut pool = ledgered_pool(1_000_000, 2_000_000);
    let instructions = withdraw(&mut pool, "bob", 100_000, 1_000_000, 2_000_000, 100_000).unwrap();
    assert_eq!(
        instructions,
        vec![
            burn("bob", 100_000),
            transfer("gold", "bob", 1_000_000),
            transfer("silver", "bob", 2_000_000),
        ]
    );
    assert_eq!(pool, ledgered_pool(0, 0));
}

#[test]
fn withdraw_beyond_a_reserve_is_refused() {
    let mut pool = ledgered_pool(1_000_000, 1_000_000);
    assert_eq!(
        withdraw(&mut pool, "bob", 50_000, 1_000_001, 0, 100_000),
        Err(overflow(OverflowOperation::Sub, 1_000_000, 1_000_001))
    );
    assert_eq!(
        withdraw(&mut pool, "bob", 50_000, 0, 1_000_001, 100_000),
        Err(overflow(OverflowOperation::Sub, 1_000_000, 1_000_001))
    );
    assert_eq!(pool, ledgered_pool(1_000_000, 1_000_000));
}

#[test]
fn withdraw_with_an_empty_balance_is_refused() {
    let mut pool = ledgered_pool(1_000_000, 1_000_000);
    assert_eq!(withdraw(&mut pool, "bob", 0, 0, 0, 0), Err(divide_by_zero(0)));
    assert_eq!(pool, ledgered_pool(1_000_000, 1_000_000));
}

#[test]
fn withdraw_that_pays_nothing_is_refused() {
    let mut pool = ledgered_pool(1_000_000, 9);
    assert_eq!(
        withdraw(&mut pool, "bob", 1, 0, 0, 10),
        Err(Error::InsufficientLiquidity)
    );
    let mut empty = ledgered_pool(0, 1_000_000);
    assert_eq!(
        withdraw(&mut empty, "bob", 5, 0, 0, 10),
        Err(Error::InsufficientLiquidity)
    );
    assert_eq!(pool, ledgered_pool(1_000_000, 9));
}

#[test]
fn withdraw_that_overflows_is_refused() {
    let mut pool = ledgered_pool(u128::MAX, 1);
    assert_eq!(
        withdraw(&mut pool, "bob", 2, 0, 0, 2),
        Err(overflow(OverflowOperation::Mul, 2, u128::MAX))
    );
    assert_eq!(pool, ledgered_pool(u128::MAX, 1));
}

#[test]
fn withdraw_without_a_share_ledger_is_refused() {
    let mut pool = ledgered_pool(1_000_000, 1_000_000);
    pool.lp_token = LpToken::Pending;
    let before = pool.clone();
    assert_eq!(
        withdraw(&mut pool, "bob", 50_000, 1, 1, 100_000),
        Err(Error::Std(StdErrorKind::NotFound))
    );
    assert_eq!(pool, before);
}

#[test]
fn instantiate_creates_an_empty_pool_and_asks_for_the_ledger() {
    let msg = InstantiateMsg {
        token1: native("uatom"),
        token2: cw20("silver"),
        owner: "owner".to_string(),
    };
    let (pool, instructions) = instantiate("pool", msg.clone());
    assert_eq!(
        pool,
        Pool {
            token1: Token { reserve: 0, denom: native("uatom") },
            token2: Token { reserve: 0, denom: cw20("silver") },
            owner: Some("owner".to_string()),
            lp_token: LpToken::Pending,
        }
    );
    assert_eq!(LP_TOKEN_CODE_ID, 0);
    assert_eq!(LP_TOKEN_DECIMALS, 6);
    assert_eq!(LP_TOKEN_REPLY_ID, 200);
    assert_eq!(
        instructions,
        vec![Instruction::CreateLpToken {
            code_id: 0,
            label: "lp_token".to_string(),
            name: "lp_token".to_string(),
            symbol: "LP".to_string(),
            decimals: 6,
            minter: "pool".to_string(),
            reply_id: 200,
        }]
    );
    assert_eq!(msg.owner, "owner");
}

#[test]
fn reply_records_the_ledger() {
    let msg = InstantiateMsg { token1: cw20("gold"), token2: cw20("silver"), owner: "owner".to_string() };
    let (mut pool, _) = instantiate("pool", msg);
    assert_eq!(reply(&mut pool, Some("shares".to_string())), Ok(vec![]));
    assert_eq!(pool, ledgered_pool(0, 0));
}

#[test]
fn reply_to_a_failed_creation_is_an_error() {
    let msg = InstantiateMsg { token1: cw20("gold"), token2: cw20("silver"), owner: "owner".to_string() };
    let (mut pool, _) = instantiate("pool", msg);
    let before = pool.clone();
    assert_eq!(reply(&mut pool, None), Err(Error::LPTokenError));
    assert_eq!(pool, before);
    assert_eq!(pool.lp_token, LpToken::Pending);
}

#[test]
fn execute_dispatches_to_deposit_and_withdraw() {
    let mut pool = ledgered_pool(1_000_000, 1_000_000);
    let deposited = execute(
        &mut pool,
        "alice",
        "pool",
        ExecuteMsg::Deposit { token1: 100_000, token2: 100_000 },
        990_000,
    );
    assert_eq!(
        deposited,
        Ok(vec![
            mint("alice", 99_000),
            transfer_from("gold", "alice", 100_000),
            transfer_from("silver", "alice", 100_000),
        ])
    );
    assert_eq!(pool, ledgered_pool(1_100_000, 1_100_000));

    let withdrawn = execute(
        &mut pool,
        "alice",
        "pool",
        ExecuteMsg::Withdraw { lp_amount: 99_000, token1_amount: 100_000, token2_amount: 100_000 },
        99_000,
    );
    assert_eq!(
        withdrawn,
        Ok(vec![
            burn("alice", 99_000),
            transfer("gold", "alice", 1_100_000),
            transfer("silver", "alice", 1_100_000),
        ])
    );
    assert_eq!(pool, ledgered_pool(1_000_000, 1_000_000));

    let refused = execute(
        &mut pool,
        "alice",
        "pool",
        ExecuteMsg::Withdraw { lp_amount: 2, token1_amount: 0, token2_amount: 0 },
        1,
    );
    assert_eq!(refused, Err(Error::InvalidLPTokenAmount));
    assert_eq!(pool, ledgered_pool(1_000_000, 1_000_000));
}

#[test]
fn reserves_never_fall_below_zero_over_a_run() {
    let mut pool = ledgered_pool(1_000, 1_000);
    assert!(deposit(&mut pool, "alice", "pool", 500, 700, 100).is_ok());
    assert_eq!(pool, ledgered_pool(1_500, 1_700));
    assert!(withdraw(&mut pool, "alice", 10, 1_500, 1_700, 20).is_ok());
    assert_eq!(pool, ledgered_pool(0, 0));
    assert_eq!(
        withdraw(&mut pool, "alice", 10, 1, 0, 20),
        Err(Error::InsufficientLiquidity)
    );
    let mut other = ledgered_pool(10, 10);
    assert_eq!(
        withdraw(&mut other, "alice", 10, 11, 0, 20),
        Err(overflow(OverflowOperation::Sub, 10, 11))
    );
    assert_eq!(other, ledgered_pool(10, 10));
}

#[test]
fn query_reserves_reports_the_books() {
    let pool = ledgered_pool(1_000_000, 2_000_000);
    assert_eq!(
        query_reserves(&pool, 990_000),
        Ok(ReservesResponse {
            token1_reserve: 1_000_000,
            token2_reserve: 2_000_000,
            lp_token_supply: 990_000,
        })
    );
    let mut pending = ledgered_pool(0, 0);
    pending.lp_token = LpToken::Pending;
    assert_eq!(query_reserves(&pending, 0), Err(Error::Std(StdErrorKind::NotFound)));
}

#[test]
fn query_answers_both_questions() {
    let pool = ledgered_pool(1_000_000, 2_000_000);
    assert_eq!(
        query(&pool, &QueryMsg::Reserves {}, 990_000),
        Ok(QueryResponse::Reserves(ReservesResponse {
            token1_reserve: 1_000_000,
            token2_reserve: 2_000_000,
            lp_token_supply: 990_000,
        }))
    );
    assert_eq!(
        query(&pool, &QueryMsg::Share { address: "bob".to_string() }, 42),
        Ok(QueryResponse::Share { balance: 42 })
    );
    let mut pending = ledgered_pool(0, 0);
    pending.lp_token = LpToken::Pending;
    assert_eq!(
        query(&pending, &QueryMsg::Reserves {}, 0),
        Err(Error::Std(StdErrorKind::NotFound))
    );
    assert_eq!(
        query(&pending, &QueryMsg::Share { address: "bob".to_string() }, 7),
        Ok(QueryResponse::Share { balance: 7 })
    );
}

#[test]
fn pull_and_payout_follow_the_asset() {
    assert_eq!(pull(&native("uatom"), "alice", "pool", 5), None);
    assert_eq!(pull(&cw20("gold"), "alice", "pool", 5), Some(transfer_from("gold", "alice", 5)));
    assert_eq!(payout(&native("uatom"), "bob", 9), send("uatom", "bob", 9));
    assert_eq!(payout(&cw20("gold"), "bob", 9), transfer("gold", "bob", 9));
}
