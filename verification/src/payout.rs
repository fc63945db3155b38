//! Payout computation: a winner redeems their stake plus a proportional,
//! truncated share of the losing pool.
//!
//! All arithmetic saturates at `Amount::MAX`; the division truncates toward
//! zero and its remainder (rounding dust) is never redistributed.

use vstd::prelude::*;

use crate::ledger::stake_sum;
use crate::{sat_cap, AccountOwner, Amount};

verus! {

/// What a winner with stake `bet` is paid, given the winning pool and the
/// losing pool: `bet + floor(lose_pool * bet / win_pool)`, computed with
/// saturating multiplication and addition. An empty winning pool is a
/// defensive fallback (unreachable when `bet > 0`): the stake alone.
pub open spec fn payout_amount(bet: int, win_pool: int, lose_pool: int) -> int {
    if win_pool == 0 {
        bet
    } else {
        sat_cap(bet + sat_cap(lose_pool * bet) / win_pool)
    }
}

/// Computes a winner's payout.
pub fn compute_winnings(bet: Amount, win_pool: Amount, lose_pool: Amount) -> (r: Amount)
    ensures
        r as int == payout_amount(bet as int, win_pool as int, lose_pool as int),
{
    if win_pool == 0 {
        bet
    } else {
        let share_of_losing_pool = lose_pool.checked_mul(bet).unwrap_or(u128::MAX) / win_pool;
        bet.saturating_add(share_of_losing_pool)
    }
}

/// Where nothing saturates, the payout is exactly the formula
/// `bet + floor(lose_pool * bet / win_pool)`.
pub proof fn lemma_payout_exact(bet: int, win_pool: int, lose_pool: int)
    requires
        0 < bet <= win_pool,
        0 <= lose_pool,
        lose_pool * bet <= u128::MAX,
        bet + lose_pool <= u128::MAX,
    ensures
        payout_amount(bet, win_pool, lose_pool) == bet + (lose_pool * bet) / win_pool,
{
    lemma_share_le_lose_pool(bet, win_pool, lose_pool);
}

/// A single winner's share of the losing pool never exceeds that pool:
/// `floor(lose_pool * bet / win_pool) <= lose_pool` when `bet <= win_pool`.
proof fn lemma_share_le_lose_pool(bet: int, win_pool: int, lose_pool: int)
    requires
        0 < bet <= win_pool,
        0 <= lose_pool,
    ensures
        (lose_pool * bet) / win_pool <= lose_pool,
        (lose_pool * bet) / win_pool >= 0,
{
    assert(lose_pool * bet >= 0) by (nonlinear_arith)
        requires
            0 < bet,
            0 <= lose_pool,
    ;
    assert(lose_pool * bet <= win_pool * lose_pool) by (nonlinear_arith)
        requires
            0 < bet <= win_pool,
            0 <= lose_pool,
    ;
    vstd::arithmetic::div_mod::lemma_div_is_ordered(
        lose_pool * bet,
        win_pool * lose_pool,
        win_pool,
    );
    vstd::arithmetic::div_mod::lemma_div_multiples_vanish(lose_pool, win_pool);
    vstd::arithmetic::div_mod::lemma_div_pos_is_pos(lose_pool * bet, win_pool);
}

/// Truncated division is superadditive: dividing two shares separately
/// never yields more than dividing their sum.
proof fn lemma_div_superadditive(x: int, y: int, d: int)
    requires
        0 <= x,
        0 <= y,
        0 < d,
    ensures
        x / d + y / d <= (x + y) / d,
{
    vstd::arithmetic::div_mod::lemma_fundamental_div_mod(x, d);
    vstd::arithmetic::div_mod::lemma_fundamental_div_mod(y, d);
    vstd::arithmetic::div_mod::lemma_fundamental_div_mod(x + y, d);
    vstd::arithmetic::div_mod::lemma_mod_bound(x, d);
    vstd::arithmetic::div_mod::lemma_mod_bound(y, d);
    vstd::arithmetic::div_mod::lemma_mod_bound(x + y, d);
    let qx = x / d;
    let qy = y / d;
    let qs = (x + y) / d;
    assert(d * qs + (x + y) % d == d * qx + x % d + d * qy + y % d);
    if qs < qx + qy {
        assert(d * qs <= d * (qx + qy - 1)) by (nonlinear_arith)
            requires
                0 < d,
                qs <= qx + qy - 1,
        ;
        assert(d * (qx + qy - 1) == d * qx + d * qy - d) by (nonlinear_arith);
        assert(false);
    }
}

/// Sum of the payouts owed to a set of winners, enumerated as ledger entries.
pub open spec fn payout_sum(
    s: Seq<(AccountOwner, Amount)>,
    win_pool: int,
    lose_pool: int,
) -> int
    decreases s.len(),
{
    if s.len() == 0 {
        0
    } else {
        payout_amount(s[0].1 as int, win_pool, lose_pool) + payout_sum(
            s.drop_first(),
            win_pool,
            lose_pool,
        )
    }
}

/// One payout never exceeds the uncapped formula.
proof fn lemma_payout_le_formula(bet: int, win_pool: int, lose_pool: int)
    requires
        0 <= bet,
        0 < win_pool,
        0 <= lose_pool,
    ensures
        0 <= payout_amount(bet, win_pool, lose_pool) <= bet + (lose_pool * bet) / win_pool,
{
    assert(0 <= lose_pool * bet) by (nonlinear_arith)
        requires
            0 <= bet,
            0 <= lose_pool,
    ;
    vstd::arithmetic::div_mod::lemma_div_is_ordered(
        sat_cap(lose_pool * bet),
        lose_pool * bet,
        win_pool,
    );
    vstd::arithmetic::div_mod::lemma_div_pos_is_pos(sat_cap(lose_pool * bet), win_pool);
}

/// The payouts owed to any set of winners sum to no more than their stakes
/// plus a proportional share of the losing pool; in particular never more
/// than the two pools together. Rounding dust only ever lowers the total.
pub proof fn lemma_payout_sum_le(
    s: Seq<(AccountOwner, Amount)>,
    win_pool: int,
    lose_pool: int,
)
    requires
        0 < win_pool,
        0 <= lose_pool,
    ensures
        payout_sum(s, win_pool, lose_pool) <= stake_sum(s) + (lose_pool * stake_sum(s))
            / win_pool,
    decreases s.len(),
{
    crate::ledger::lemma_sum_nonneg(s);
    if s.len() == 0 {
        assert(lose_pool * 0 == 0) by (nonlinear_arith);
        vstd::arithmetic::div_mod::lemma_div_pos_is_pos(0, win_pool);
        assert(0int / win_pool == 0) by {
            vstd::arithmetic::div_mod::lemma_basic_div(0, win_pool);
        }
    } else {
        let b = s[0].1 as int;
        let rest = s.drop_first();
        lemma_payout_sum_le(rest, win_pool, lose_pool);
        lemma_payout_le_formula(b, win_pool, lose_pool);
        crate::ledger::lemma_sum_nonneg(rest);
        assert(lose_pool * b >= 0) by (nonlinear_arith)
            requires
                0 <= b,
                0 <= lose_pool,
        ;
        assert(lose_pool * stake_sum(rest) >= 0) by (nonlinear_arith)
            requires
                0 <= stake_sum(rest),
                0 <= lose_pool,
        ;
        lemma_div_superadditive(lose_pool * b, lose_pool * stake_sum(rest), win_pool);
        assert(lose_pool * b + lose_pool * stake_sum(rest) == lose_pool * (b + stake_sum(rest)))
            by (nonlinear_arith);
        assert(stake_sum(s) == b + stake_sum(rest));
    }
}

/// All winners together are never over-paid: when every winner's stake is in
/// the winning pool (`stake_sum(s) <= win_pool`), the payouts sum to at most
/// the whole escrow, winning pool plus losing pool.
pub proof fn lemma_no_over_issuance(
    s: Seq<(AccountOwner, Amount)>,
    win_pool: int,
    lose_pool: int,
)
    requires
        0 < win_pool,
        0 <= lose_pool,
        stake_sum(s) <= win_pool,
    ensures
        payout_sum(s, win_pool, lose_pool) <= win_pool + lose_pool,
{
    lemma_payout_sum_le(s, win_pool, lose_pool);
    crate::ledger::lemma_sum_nonneg(s);
    lemma_share_le_lose_pool_weak(stake_sum(s), win_pool, lose_pool);
}

/// As [`lemma_share_le_lose_pool`], allowing a zero numerator share.
proof fn lemma_share_le_lose_pool_weak(amount: int, win_pool: int, lose_pool: int)
    requires
        0 <= amount <= win_pool,
        0 < win_pool,
        0 <= lose_pool,
    ensures
        (lose_pool * amount) / win_pool <= lose_pool,
{
    assert(lose_pool * amount >= 0) by (nonlinear_arith)
        requires
            0 <= amount,
            0 <= lose_pool,
    ;
    assert(lose_pool * amount <= win_pool * lose_pool) by (nonlinear_arith)
        requires
            0 <= amount <= win_pool,
            0 <= lose_pool,
    ;
    vstd::arithmetic::div_mod::lemma_div_is_ordered(
        lose_pool * amount,
        win_pool * lose_pool,
        win_pool,
    );
    vstd::arithmetic::div_mod::lemma_div_multiples_vanish(lose_pool, win_pool);
}

} // verus!
