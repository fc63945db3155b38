use pulse_market::payout::compute_winnings;
use pulse_market::state::Bet;
use pulse_market::{Outcome, PulseMarketAbi};

#[test]
fn payout_is_stake_plus_proportional_share() {
    // bet + floor(lose_pool * bet / win_pool)
    assert_eq!(compute_winnings(100, 100, 50), 150);
    assert_eq!(compute_winnings(30, 100, 50), 45);
    assert_eq!(compute_winnings(70, 100, 50), 105);
    // The sole winner takes the whole losing pool.
    assert_eq!(compute_winnings(25, 25, 1_000), 1_025);
}

#[test]
fn payout_truncates_rounding_dust() {
    // floor(10 * 1 / 3) = 3: one unit of dust stays in custody.
    assert_eq!(compute_winnings(1, 3, 10), 4);
    assert_eq!(compute_winnings(2, 3, 10), 8);
    // 4 + 8 = 12 <= 3 + 10: no over-issuance, one unit of dust.
    assert!(compute_winnings(1, 3, 10) + compute_winnings(2, 3, 10) <= 13);
}

#[test]
fn payout_empty_winning_pool_falls_back_to_stake() {
    assert_eq!(compute_winnings(5, 0, 7), 5);
    assert_eq!(compute_winnings(0, 0, 0), 0);
}

#[test]
fn payout_saturates_instead_of_overflowing() {
    // lose_pool * bet overflows u128: the share clamps, as does the sum.
    assert_eq!(compute_winnings(u128::MAX, 1, u128::MAX), u128::MAX);
    // The product clamps at u128::MAX before the division, so the share is
    // floor(u128::MAX / bet), not the unbounded quotient.
    let h = u128::MAX / 2;
    assert_eq!(compute_winnings(h, h, u128::MAX), h + 2);
}

#[test]
fn winners_together_never_exceed_escrow() {
    let win_pool: u128 = 100;
    let lose_pool: u128 = 33;
    let stakes: [u128; 4] = [1, 24, 33, 42];
    let total: u128 = stakes.iter().map(|b| compute_winnings(*b, win_pool, lose_pool)).sum();
    assert!(total <= win_pool + lose_pool);
}

#[test]
fn bet_record_carries_outcome_and_amount() {
    let _abi = PulseMarketAbi;
    let bet = Bet { outcome: Outcome::Yes, amount: 12 };
    assert_eq!(bet.outcome, Outcome::Yes);
    assert_eq!(bet.amount, 12);
}
