//! What holds of the pool engine on every input, proved from the definitions
//! that the operations' contracts are stated in.

use vstd::prelude::*;
use vstd::arithmetic::div_mod::lemma_div_is_ordered;
use vstd::arithmetic::mul::lemma_mul_inequality;
use crate::contract::{
    deposit_spec, execute_spec, shares_for_deposit_spec, withdraw_spec, MINIMUM_LIQUIDITY,
};
use crate::error::{overflow, Error, OverflowOperation};
use crate::math::{floor_sqrt, lemma_floor_sqrt, lemma_floor_sqrt_at_least, ratio};
use crate::msg::ExecuteMsg;
use crate::settlement::{payout_spec, InstructionView};
use crate::state::PoolView;

verus! {

/// The square root grows with its argument.
pub proof fn lemma_floor_sqrt_monotone(n: nat, m: nat)
    requires
        n <= m,
    ensures
        floor_sqrt(n) <= floor_sqrt(m),
{
    lemma_floor_sqrt(n);
    lemma_floor_sqrt(m);
    let r: nat = floor_sqrt(n);
    let t: nat = floor_sqrt(m);
    if t < r {
        assert((t + 1) * (t + 1) <= r * r) by (nonlinear_arith)
            requires
                t + 1 <= r,
        ;
    }
}

/// The square root of a number is at most the number.
pub proof fn lemma_floor_sqrt_bounded(n: nat)
    ensures
        floor_sqrt(n) <= n,
{
    lemma_floor_sqrt(n);
    let r: nat = floor_sqrt(n);
    assert(r <= r * r) by (nonlinear_arith);
}

/// A ratio grows with its first factor: where the larger product fits, so does
/// the smaller, and its quotient is no larger.
pub proof fn lemma_ratio_monotone(small: u128, large: u128, b: u128, c: u128)
    requires
        small <= large,
        ratio(large, b, c) is Ok,
    ensures
        ratio(small, b, c) is Ok,
        ratio(small, b, c)->Ok_0 <= ratio(large, b, c)->Ok_0,
{
    lemma_mul_inequality(small as int, large as int, b as int);
    lemma_div_is_ordered(small * b, large * b, c as int);
    assert(0 <= small * b) by (nonlinear_arith);
    assert(0 <= (small * b) / (c as int)) by (nonlinear_arith)
        requires
            0 <= small * b,
            c > 0,
    ;
    assert((large * b) / (c as int) <= large * b) by (nonlinear_arith)
        requires
            0 <= large * b,
            c > 0,
    ;
}

/// The first deposit: where the product of the two amounts fits in `u128` and
/// its square root exceeds the minimum liquidity, the shares are that root
/// less the minimum liquidity, whatever the reserves.
pub proof fn first_deposit_shares(amount1: u128, amount2: u128, reserve1: u128, reserve2: u128)
    requires
        (MINIMUM_LIQUIDITY + 1) * (MINIMUM_LIQUIDITY + 1) <= amount1 * amount2 <= u128::MAX,
    ensures
        0 < floor_sqrt((amount1 * amount2) as nat) - MINIMUM_LIQUIDITY <= u128::MAX,
        shares_for_deposit_spec(amount1, amount2, 0, reserve1, reserve2) == Ok::<u128, Error>(
            (floor_sqrt((amount1 * amount2) as nat) - MINIMUM_LIQUIDITY) as u128,
        ),
{
    let product: nat = (amount1 * amount2) as nat;
    lemma_floor_sqrt_at_least(product, (MINIMUM_LIQUIDITY + 1) as nat);
    lemma_floor_sqrt_bounded(product);
}

/// The first deposit: where the product of the two amounts is at most the
/// square of the minimum liquidity, no shares are minted and the deposit is
/// refused for want of liquidity.
pub proof fn first_deposit_below_minimum(
    amount1: u128,
    amount2: u128,
    reserve1: u128,
    reserve2: u128,
)
    requires
        amount1 * amount2 <= MINIMUM_LIQUIDITY * MINIMUM_LIQUIDITY,
    ensures
        shares_for_deposit_spec(amount1, amount2, 0, reserve1, reserve2) == Err::<u128, Error>(
            Error::InsufficientLiquidity,
        ),
{
    assert(0 <= amount1 * amount2) by (nonlinear_arith);
    let product: nat = (amount1 * amount2) as nat;
    let floor: nat = MINIMUM_LIQUIDITY as nat;
    assert(floor * floor < (floor + 1) * (floor + 1)) by (nonlinear_arith);
    assert(floor * floor <= u128::MAX) by (nonlinear_arith)
        requires
            floor == 10000,
    ;
    lemma_floor_sqrt_at_least(product, floor);
    lemma_floor_sqrt_at_least(product, floor + 1);
}

/// A first deposit into a pool whose share ledger exists is refused for want
/// of liquidity where the product of the amounts is at most the square of the
/// minimum liquidity.
pub proof fn first_deposit_below_minimum_fails(
    pool: PoolView,
    sender: Seq<char>,
    contract: Seq<char>,
    amount1: u128,
    amount2: u128,
)
    requires
        pool.lp_token is Some,
        amount1 * amount2 <= MINIMUM_LIQUIDITY * MINIMUM_LIQUIDITY,
    ensures
        deposit_spec(pool, sender, contract, amount1, amount2, 0) == Err::<
            (PoolView, Seq<InstructionView>),
            Error,
        >(Error::InsufficientLiquidity),
{
    first_deposit_below_minimum(amount1, amount2, pool.token1.reserve, pool.token2.reserve);
}

/// A first deposit that passes every other check mints the square root of the
/// product of the amounts, less the minimum liquidity, to the depositor, and
/// books both amounts.
pub proof fn first_deposit_mints(
    pool: PoolView,
    sender: Seq<char>,
    contract: Seq<char>,
    amount1: u128,
    amount2: u128,
)
    requires
        pool.lp_token is Some,
        (MINIMUM_LIQUIDITY + 1) * (MINIMUM_LIQUIDITY + 1) <= amount1 * amount2 <= u128::MAX,
        ratio(amount1, pool.token2.reserve, pool.token1.reserve) is Ok,
        ratio(amount1, pool.token2.reserve, pool.token1.reserve)->Ok_0 <= amount2,
        pool.token1.reserve + amount1 <= u128::MAX,
        pool.token2.reserve + amount2 <= u128::MAX,
    ensures
        deposit_spec(pool, sender, contract, amount1, amount2, 0) is Ok,
        ({
            let (after, instructions) = deposit_spec(pool, sender, contract, amount1, amount2, 0)->Ok_0;
            &&& instructions[0] == InstructionView::Mint {
                contract: pool.lp_token->0,
                recipient: sender,
                amount: (floor_sqrt((amount1 * amount2) as nat) - MINIMUM_LIQUIDITY) as u128,
            }
            &&& after.token1.reserve == pool.token1.reserve + amount1
            &&& after.token2.reserve == pool.token2.reserve + amount2
        }),
{
    first_deposit_shares(amount1, amount2, pool.token1.reserve, pool.token2.reserve);
}

/// A later deposit mints no more than either contribution is worth: the
/// shares are at most `amount1 * supply / reserve1` and at most
/// `amount2 * supply / reserve2`, and equal to one of the two.
pub proof fn later_deposit_shares_bounded(
    amount1: u128,
    amount2: u128,
    supply: u128,
    reserve1: u128,
    reserve2: u128,
)
    requires
        supply > 0,
        shares_for_deposit_spec(amount1, amount2, supply, reserve1, reserve2) is Ok,
    ensures
        reserve1 > 0,
        reserve2 > 0,
        ({
            let shares = shares_for_deposit_spec(amount1, amount2, supply, reserve1, reserve2)->Ok_0;
            let by_first = (amount1 * supply) / (reserve1 as int);
            let by_second = (amount2 * supply) / (reserve2 as int);
            &&& shares <= by_first
            &&& shares <= by_second
            &&& shares == by_first || shares == by_second
        }),
{
}

/// The shares recorded by the mint of an accepted deposit are those of
/// `shares_for_deposit_spec`.
pub proof fn deposit_mints_computed_shares(
    pool: PoolView,
    sender: Seq<char>,
    contract: Seq<char>,
    amount1: u128,
    amount2: u128,
    supply: u128,
)
    requires
        deposit_spec(pool, sender, contract, amount1, amount2, supply) is Ok,
    ensures
        shares_for_deposit_spec(
            amount1,
            amount2,
            supply,
            pool.token1.reserve,
            pool.token2.reserve,
        ) is Ok,
        deposit_spec(pool, sender, contract, amount1, amount2, supply)->Ok_0.1[0]
            == (InstructionView::Mint {
            contract: pool.lp_token->0,
            recipient: sender,
            amount: shares_for_deposit_spec(
                amount1,
                amount2,
                supply,
                pool.token1.reserve,
                pool.token2.reserve,
            )->Ok_0,
        }),
{
}

/// Offering less never mints more: where a deposit mints shares, a deposit of
/// no more of either asset, against the same supply and reserves, mints no
/// more shares, or none at all and is refused for want of liquidity.
pub proof fn smaller_deposit_mints_no_more(
    amount1: u128,
    amount2: u128,
    less1: u128,
    less2: u128,
    supply: u128,
    reserve1: u128,
    reserve2: u128,
)
    requires
        less1 <= amount1,
        less2 <= amount2,
        shares_for_deposit_spec(amount1, amount2, supply, reserve1, reserve2) is Ok,
    ensures
        match shares_for_deposit_spec(less1, less2, supply, reserve1, reserve2) {
            Ok(shares) => shares <= shares_for_deposit_spec(
                amount1,
                amount2,
                supply,
                reserve1,
                reserve2,
            )->Ok_0,
            Err(e) => e == Error::InsufficientLiquidity,
        },
{
    if supply == 0 {
        lemma_mul_inequality(less1 as int, amount1 as int, less2 as int);
        lemma_mul_inequality(less2 as int, amount2 as int, amount1 as int);
        assert(less1 * less2 <= amount1 * amount2) by (nonlinear_arith)
            requires
                less1 * less2 <= amount1 * less2,
                less2 * amount1 <= amount2 * amount1,
        ;
        assert(0 <= less1 * less2) by (nonlinear_arith);
        lemma_floor_sqrt_monotone((less1 * less2) as nat, (amount1 * amount2) as nat);
        lemma_floor_sqrt_bounded((less1 * less2) as nat);
        lemma_floor_sqrt_bounded((amount1 * amount2) as nat);
    } else {
        lemma_ratio_monotone(less1, amount1, supply, reserve1);
        lemma_ratio_monotone(less2, amount2, supply, reserve2);
    }
}

/// The matching requirement: a deposit is refused for an insufficient token
/// amount exactly when the share ledger exists, shares would be minted, the
/// second amount that matches the first at the current reserve ratio can be
/// computed, and the second amount offered is below it.
pub proof fn deposit_refused_for_unmatched_amount(
    pool: PoolView,
    sender: Seq<char>,
    contract: Seq<char>,
    amount1: u128,
    amount2: u128,
    supply: u128,
)
    ensures
        deposit_spec(pool, sender, contract, amount1, amount2, supply) == Err::<
            (PoolView, Seq<InstructionView>),
            Error,
        >(Error::InsufficientTokenAmount) <==> {
            &&& pool.lp_token is Some
            &&& shares_for_deposit_spec(
                amount1,
                amount2,
                supply,
                pool.token1.reserve,
                pool.token2.reserve,
            ) is Ok
            &&& ratio(amount1, pool.token2.reserve, pool.token1.reserve) is Ok
            &&& amount2 < ratio(amount1, pool.token2.reserve, pool.token1.reserve)->Ok_0
        },
{
    lemma_shares_errors(amount1, amount2, supply, pool.token1.reserve, pool.token2.reserve);
}

/// The share computation fails only with an overflow, a division by zero or
/// for want of liquidity, and a ratio only with the first two.
pub proof fn lemma_shares_errors(
    amount1: u128,
    amount2: u128,
    supply: u128,
    reserve1: u128,
    reserve2: u128,
)
    ensures
        match shares_for_deposit_spec(amount1, amount2, supply, reserve1, reserve2) {
            Ok(shares) => shares > 0,
            Err(e) => e is Std || e == Error::InsufficientLiquidity,
        },
{
}

/// The matching requirement at equality and above: a deposit that offers at
/// least the matching second amount, and passes every other check, is accepted.
pub proof fn deposit_accepted_with_matched_amount(
    pool: PoolView,
    sender: Seq<char>,
    contract: Seq<char>,
    amount1: u128,
    amount2: u128,
    supply: u128,
)
    requires
        pool.lp_token is Some,
        shares_for_deposit_spec(
            amount1,
            amount2,
            supply,
            pool.token1.reserve,
            pool.token2.reserve,
        ) is Ok,
        ratio(amount1, pool.token2.reserve, pool.token1.reserve) is Ok,
        amount2 >= ratio(amount1, pool.token2.reserve, pool.token1.reserve)->Ok_0,
        pool.token1.reserve + amount1 <= u128::MAX,
        pool.token2.reserve + amount2 <= u128::MAX,
    ensures
        deposit_spec(pool, sender, contract, amount1, amount2, supply) is Ok,
{
}

/// The withdrawal bound: a withdrawal is refused for an invalid share amount
/// exactly when the share ledger exists and more shares are asked for than the
/// caller holds.
pub proof fn withdraw_refused_beyond_balance(
    pool: PoolView,
    sender: Seq<char>,
    lp_amount: u128,
    token1_amount: u128,
    token2_amount: u128,
    lp_balance: u128,
)
    ensures
        withdraw_spec(pool, sender, lp_amount, token1_amount, token2_amount, lp_balance) == Err::<
            (PoolView, Seq<InstructionView>),
            Error,
        >(Error::InvalidLPTokenAmount) <==> pool.lp_token is Some && lp_balance < lp_amount,
{
}

/// The withdrawal bound at equality: a caller who redeems the whole of a
/// balance is paid each reserve in full, provided that the balance is not
/// zero, neither reserve is empty, the products fit and the amounts taken off
/// the books are covered by the reserves.
pub proof fn withdraw_accepted_at_full_balance(
    pool: PoolView,
    sender: Seq<char>,
    token1_amount: u128,
    token2_amount: u128,
    lp_balance: u128,
)
    requires
        pool.lp_token is Some,
        lp_balance > 0,
        pool.token1.reserve > 0,
        pool.token2.reserve > 0,
        lp_balance * pool.token1.reserve <= u128::MAX,
        lp_balance * pool.token2.reserve <= u128::MAX,
        token1_amount <= pool.token1.reserve,
        token2_amount <= pool.token2.reserve,
    ensures
        withdraw_spec(pool, sender, lp_balance, token1_amount, token2_amount, lp_balance) is Ok,
        withdraw_spec(pool, sender, lp_balance, token1_amount, token2_amount, lp_balance)->Ok_0.1
            == seq![
            InstructionView::BurnFrom {
                contract: pool.lp_token->0,
                owner: sender,
                amount: lp_balance,
            },
            payout_spec(pool.token1.denom, sender, pool.token1.reserve),
            payout_spec(pool.token2.denom, sender, pool.token2.reserve),
        ],
{
    lemma_full_ratio(lp_balance, pool.token1.reserve);
    lemma_full_ratio(lp_balance, pool.token2.reserve);
}

/// `a * b / a` is `b`.
pub proof fn lemma_full_ratio(a: u128, b: u128)
    requires
        a > 0,
        a * b <= u128::MAX,
    ensures
        ratio(a, b, a) == Ok::<u128, Error>(b),
{
    assert((a * b) / (a as int) == b) by (nonlinear_arith)
        requires
            a > 0,
    ;
}

/// An accepted withdrawal takes exactly the declared amounts off the books,
/// and the reserves cover them: the difference is taken in the integers and
/// is the new reserve, so nothing wraps and nothing falls below zero.
pub proof fn withdraw_books_declared_amounts(
    pool: PoolView,
    sender: Seq<char>,
    lp_amount: u128,
    token1_amount: u128,
    token2_amount: u128,
    lp_balance: u128,
)
    requires
        withdraw_spec(pool, sender, lp_amount, token1_amount, token2_amount, lp_balance) is Ok,
    ensures
        ({
            let after = withdraw_spec(
                pool,
                sender,
                lp_amount,
                token1_amount,
                token2_amount,
                lp_balance,
            )->Ok_0.0;
            &&& after.token1.reserve == pool.token1.reserve - token1_amount
            &&& after.token2.reserve == pool.token2.reserve - token2_amount
            &&& 0 <= pool.token1.reserve - token1_amount
            &&& 0 <= pool.token2.reserve - token2_amount
        }),
{
}

/// A withdrawal that would take more off the books than a reserve holds is
/// refused; where every earlier check passes, it is refused as an overflow.
pub proof fn withdraw_beyond_reserve_fails(
    pool: PoolView,
    sender: Seq<char>,
    lp_amount: u128,
    token1_amount: u128,
    token2_amount: u128,
    lp_balance: u128,
)
    requires
        token1_amount > pool.token1.reserve || token2_amount > pool.token2.reserve,
    ensures
        withdraw_spec(pool, sender, lp_amount, token1_amount, token2_amount, lp_balance) is Err,
        ({
            &&& pool.lp_token is Some
            &&& lp_amount <= lp_balance
            &&& ratio(lp_amount, pool.token1.reserve, lp_balance) is Ok
            &&& ratio(lp_amount, pool.token2.reserve, lp_balance) is Ok
            &&& ratio(lp_amount, pool.token1.reserve, lp_balance)->Ok_0 > 0
            &&& ratio(lp_amount, pool.token2.reserve, lp_balance)->Ok_0 > 0
        }) ==> withdraw_spec(pool, sender, lp_amount, token1_amount, token2_amount, lp_balance)
            == Err::<(PoolView, Seq<InstructionView>), Error>(
            if token1_amount > pool.token1.reserve {
                overflow(OverflowOperation::Sub, pool.token1.reserve, token1_amount)
            } else {
                overflow(OverflowOperation::Sub, pool.token2.reserve, token2_amount)
            },
        ),
{
}

/// An accepted deposit adds exactly the offered amounts to the books, and the
/// sums fit.
pub proof fn deposit_books_offered_amounts(
    pool: PoolView,
    sender: Seq<char>,
    contract: Seq<char>,
    amount1: u128,
    amount2: u128,
    supply: u128,
)
    requires
        deposit_spec(pool, sender, contract, amount1, amount2, supply) is Ok,
    ensures
        ({
            let after = deposit_spec(pool, sender, contract, amount1, amount2, supply)->Ok_0.0;
            &&& after.token1.reserve == pool.token1.reserve + amount1
            &&& after.token2.reserve == pool.token2.reserve + amount2
        }),
{
}

/// One request against the pool, with what the share ledger reported before it.
pub struct Call {
    pub sender: Seq<char>,
    pub contract: Seq<char>,
    pub msg: ExecuteMsg,
    pub reading: u128,
}

/// The pool after a call: as the call leaves it where it is accepted,
/// untouched where it is refused.
pub open spec fn after_call(pool: PoolView, call: Call) -> PoolView {
    match execute_spec(pool, call.sender, call.contract, call.msg, call.reading) {
        Ok((after, _)) => after,
        Err(_) => pool,
    }
}

/// The pool after a sequence of calls, each made on what the one before left.
pub open spec fn after_calls(pool: PoolView, calls: Seq<Call>) -> PoolView
    decreases calls.len(),
{
    if calls.len() == 0 {
        pool
    } else {
        after_call(after_calls(pool, calls.drop_last()), calls.last())
    }
}

/// What a call books on the two reserves, in the integers: an accepted deposit
/// adds the amounts offered, an accepted withdrawal takes the amounts
/// declared, a refused call books nothing.
pub open spec fn booked(pool: PoolView, call: Call) -> (int, int) {
    if execute_spec(pool, call.sender, call.contract, call.msg, call.reading) is Ok {
        match call.msg {
            ExecuteMsg::Deposit { token1, token2 } => (token1 as int, token2 as int),
            ExecuteMsg::Withdraw { lp_amount, token1_amount, token2_amount } => (
                -(token1_amount as int),
                -(token2_amount as int),
            ),
            ExecuteMsg::Swap {  } => (0, 0),
        }
    } else {
        (0, 0)
    }
}

/// The sum of what a sequence of calls books on the two reserves.
pub open spec fn booked_total(pool: PoolView, calls: Seq<Call>) -> (int, int)
    decreases calls.len(),
{
    if calls.len() == 0 {
        (0, 0)
    } else {
        let before = booked_total(pool, calls.drop_last());
        let last = booked(after_calls(pool, calls.drop_last()), calls.last());
        (before.0 + last.0, before.1 + last.1)
    }
}

/// After any sequence of deposits and withdrawals each reserve is what it was
/// at the start plus all that the accepted calls booked, summed in the
/// integers: the books never wrap, and no reserve falls below zero. The
/// assets, the owner and the share ledger's address stay as they were.
pub proof fn reserves_follow_the_books(pool: PoolView, calls: Seq<Call>)
    requires
        forall|i: int| 0 <= i < calls.len() ==> !(#[trigger] calls[i].msg is Swap),
    ensures
        after_calls(pool, calls).token1.reserve == pool.token1.reserve + booked_total(
            pool,
            calls,
        ).0,
        after_calls(pool, calls).token2.reserve == pool.token2.reserve + booked_total(
            pool,
            calls,
        ).1,
        0 <= pool.token1.reserve + booked_total(pool, calls).0 <= u128::MAX,
        0 <= pool.token2.reserve + booked_total(pool, calls).1 <= u128::MAX,
        after_calls(pool, calls).token1.denom == pool.token1.denom,
        after_calls(pool, calls).token2.denom == pool.token2.denom,
        after_calls(pool, calls).owner == pool.owner,
        after_calls(pool, calls).lp_token == pool.lp_token,
    decreases calls.len(),
{
    if calls.len() > 0 {
        let earlier = calls.drop_last();
        assert forall|i: int| 0 <= i < earlier.len() implies !(#[trigger] earlier[i].msg is Swap) by {
            assert(earlier[i] == calls[i]);
        }
        reserves_follow_the_books(pool, earlier);
        assert(!(calls[calls.len() - 1].msg is Swap));
    }
}

} // verus!
