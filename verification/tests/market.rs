use pulse_market::contract::{Account, Action, ExecutionContext, MarketError};
use pulse_market::state::{MarketStatus, PulseMarketState};
use pulse_market::{InstantiationArgument, Message, Operation, Outcome};

const HOME: u64 = 100;
const OTHER: u64 = 5;
const APP: u64 = 99;
const OWNER: u64 = 1;
const NOW: u64 = 1_000;
const HOUR: u64 = 3_600_000_000;

fn params(deadline: u64) -> InstantiationArgument {
    InstantiationArgument {
        owner: OWNER,
        deadline,
        question: String::from("Will it rain tomorrow?"),
        description: Some(String::from("Resolved by the owner.")),
    }
}

fn home_ctx(auth: Option<u64>, time: u64) -> ExecutionContext {
    ExecutionContext {
        chain_id: HOME,
        creator_chain_id: HOME,
        authenticated_owner: auth,
        application_account: APP,
        system_time: time,
    }
}

fn remote_ctx(auth: Option<u64>, time: u64) -> ExecutionContext {
    ExecutionContext {
        chain_id: OTHER,
        creator_chain_id: HOME,
        authenticated_owner: auth,
        application_account: APP,
        system_time: time,
    }
}

fn new_market() -> PulseMarketState {
    PulseMarketState::instantiate(params(NOW + HOUR), NOW).expect("creation should succeed")
}

fn place_bet(m: &mut PulseMarketState, ctx: &ExecutionContext, owner: u64, outcome: Outcome, amount: u128) -> Result<Vec<Action>, MarketError> {
    m.execute_operation(ctx, Operation::PlaceBet { owner, outcome, amount })
}

#[test]
fn instantiate_rejects_past_or_present_deadline() {
    assert!(matches!(
        PulseMarketState::instantiate(params(NOW - 1), NOW),
        Err(MarketError::InvalidDeadline)
    ));
    assert!(matches!(
        PulseMarketState::instantiate(params(NOW), NOW),
        Err(MarketError::InvalidDeadline)
    ));
    let m = new_market();
    assert_eq!(m.status, MarketStatus::Active);
    assert_eq!(m.total_yes, 0);
    assert_eq!(m.total_no, 0);
    assert_eq!(m.yes_bets.len(), 0);
    assert_eq!(m.no_bets.len(), 0);
}

#[test]
fn scenario_resolve_and_claim() {
    let mut m = new_market();
    let a: u64 = 10;
    let b: u64 = 11;

    let actions = place_bet(&mut m, &home_ctx(Some(a), NOW), a, Outcome::Yes, 100).unwrap();
    assert_eq!(
        actions,
        vec![Action::Transfer { owner: a, amount: 100, target: Account { chain_id: HOME, owner: APP } }]
    );
    place_bet(&mut m, &home_ctx(Some(b), NOW), b, Outcome::No, 50).unwrap();
    assert_eq!(m.total_yes, 100);
    assert_eq!(m.total_no, 50);
    assert_eq!(m.yes_bets.stake(a), Some(100));
    assert_eq!(m.no_bets.stake(b), Some(50));

    // Before the deadline, resolution is rejected even for the owner.
    let early = m.execute_operation(
        &home_ctx(Some(OWNER), NOW + 1),
        Operation::ResolveMarket { winning_outcome: Outcome::Yes },
    );
    assert_eq!(early, Err(MarketError::DeadlineNotReached));

    // After the deadline, only the owner may resolve.
    let late = NOW + HOUR + 1;
    let by_stranger = m.execute_operation(
        &home_ctx(Some(a), late),
        Operation::ResolveMarket { winning_outcome: Outcome::Yes },
    );
    assert_eq!(by_stranger, Err(MarketError::NotAuthorized));
    let by_nobody = m.execute_operation(
        &home_ctx(None, late),
        Operation::ResolveMarket { winning_outcome: Outcome::Yes },
    );
    assert_eq!(by_nobody, Err(MarketError::NotAuthorized));
    let resolved = m.execute_operation(
        &home_ctx(Some(OWNER), late),
        Operation::ResolveMarket { winning_outcome: Outcome::Yes },
    );
    assert_eq!(resolved, Ok(vec![]));
    assert_eq!(m.status, MarketStatus::Resolved(Outcome::Yes));

    // A double resolution fails: the market is no longer active.
    let again = m.execute_operation(
        &home_ctx(Some(OWNER), late),
        Operation::ResolveMarket { winning_outcome: Outcome::No },
    );
    assert_eq!(again, Err(MarketError::MarketNotActive));

    // A claims 100 + floor(50 * 100 / 100) = 150.
    let claim = m.execute_operation(&home_ctx(Some(a), late), Operation::ClaimWinnings { owner: a });
    assert_eq!(
        claim,
        Ok(vec![Action::Transfer { owner: APP, amount: 150, target: Account { chain_id: HOME, owner: a } }])
    );

    // B has no Yes stake; A's entry is gone after the successful claim.
    let b_claim = m.execute_operation(&home_ctx(Some(b), late), Operation::ClaimWinnings { owner: b });
    assert_eq!(b_claim, Err(MarketError::NoWinningBet));
    let a_again = m.execute_operation(&home_ctx(Some(a), late), Operation::ClaimWinnings { owner: a });
    assert_eq!(a_again, Err(MarketError::NoWinningBet));
}

#[test]
fn resolve_succeeds_exactly_at_deadline() {
    let mut m = new_market();
    let r = m.execute_operation(
        &home_ctx(Some(OWNER), NOW + HOUR),
        Operation::ResolveMarket { winning_outcome: Outcome::No },
    );
    assert_eq!(r, Ok(vec![]));
    assert_eq!(m.status, MarketStatus::Resolved(Outcome::No));
}

#[test]
fn scenario_cancel_refunds_everyone() {
    let mut m = new_market();
    let a: u64 = 10;
    let b: u64 = 11;
    place_bet(&mut m, &home_ctx(Some(a), NOW), a, Outcome::Yes, 30).unwrap();
    place_bet(&mut m, &home_ctx(Some(b), NOW), b, Outcome::No, 70).unwrap();

    // Only the owner may cancel.
    assert_eq!(m.execute_operation(&home_ctx(Some(a), NOW), Operation::CancelMarket), Err(MarketError::NotAuthorized));

    // Cancellation is allowed before the deadline; each bettor gets back
    // exactly their stake.
    let refunds = m.execute_operation(&home_ctx(Some(OWNER), NOW + 2), Operation::CancelMarket).unwrap();
    assert_eq!(
        refunds,
        vec![
            Action::Transfer { owner: APP, amount: 30, target: Account { chain_id: HOME, owner: a } },
            Action::Transfer { owner: APP, amount: 70, target: Account { chain_id: HOME, owner: b } },
        ]
    );
    assert_eq!(m.status, MarketStatus::Cancelled);
    assert_eq!(m.yes_bets.len(), 0);
    assert_eq!(m.no_bets.len(), 0);

    // Everything fails afterwards.
    assert_eq!(place_bet(&mut m, &home_ctx(Some(a), NOW + 3), a, Outcome::Yes, 5), Err(MarketError::MarketNotActive));
    assert_eq!(
        m.execute_operation(&home_ctx(Some(OWNER), NOW + HOUR + 1), Operation::ResolveMarket { winning_outcome: Outcome::Yes }),
        Err(MarketError::MarketNotActive)
    );
    assert_eq!(
        m.execute_operation(&home_ctx(Some(a), NOW + 3), Operation::ClaimWinnings { owner: a }),
        Err(MarketError::MarketNotResolved)
    );
    assert_eq!(m.execute_operation(&home_ctx(Some(OWNER), NOW + 3), Operation::CancelMarket), Err(MarketError::MarketNotActive));
}

#[test]
fn scenario_remote_bet_is_relayed() {
    let mut m = new_market();
    let c: u64 = 12;

    // On a non-home chain, the bet becomes a transfer to C's own account on
    // the home chain (not into escrow) plus a relay envelope; the local
    // state does not change.
    let actions = place_bet(&mut m, &remote_ctx(Some(c), NOW), c, Outcome::No, 20).unwrap();
    assert_eq!(
        actions,
        vec![
            Action::Transfer { owner: c, amount: 20, target: Account { chain_id: HOME, owner: c } },
            Action::Relay {
                message: Message::PlaceBetWithAccount { owner: c, outcome: Outcome::No, amount: 20 },
                target_chain: HOME,
            },
        ]
    );
    assert_eq!(m.no_bets.stake(c), None);
    assert_eq!(m.total_no, 0);

    // Delivering the envelope on the home chain records the bet and escrows
    // the funds that already moved there.
    let recorded = m
        .execute_message(
            &home_ctx(Some(c), NOW),
            Message::PlaceBetWithAccount { owner: c, outcome: Outcome::No, amount: 20 },
        )
        .unwrap();
    assert_eq!(
        recorded,
        vec![Action::Transfer { owner: c, amount: 20, target: Account { chain_id: HOME, owner: APP } }]
    );
    assert_eq!(m.no_bets.stake(c), Some(20));
    assert_eq!(m.total_no, 20);

    // The envelope is rejected anywhere but on the home chain.
    let misdelivered = m.execute_message(
        &remote_ctx(Some(c), NOW),
        Message::PlaceBetWithAccount { owner: c, outcome: Outcome::No, amount: 20 },
    );
    assert_eq!(misdelivered, Err(MarketError::NotHomeChain));
}

#[test]
fn zero_bet_always_fails() {
    let mut m = new_market();
    let a: u64 = 10;
    assert_eq!(place_bet(&mut m, &home_ctx(Some(a), NOW), a, Outcome::Yes, 0), Err(MarketError::NonPositiveAmount));
    assert_eq!(place_bet(&mut m, &remote_ctx(Some(a), NOW), a, Outcome::Yes, 0), Err(MarketError::NonPositiveAmount));
    assert_eq!(
        m.execute_message(&home_ctx(Some(a), NOW), Message::PlaceBetWithAccount { owner: a, outcome: Outcome::No, amount: 0 }),
        Err(MarketError::NonPositiveAmount)
    );

    // The amount check comes first, whatever the status.
    m.execute_operation(&home_ctx(Some(OWNER), NOW + HOUR), Operation::ResolveMarket { winning_outcome: Outcome::Yes }).unwrap();
    assert_eq!(place_bet(&mut m, &home_ctx(Some(a), NOW), a, Outcome::Yes, 0), Err(MarketError::NonPositiveAmount));
    assert_eq!(place_bet(&mut m, &home_ctx(Some(a), NOW), a, Outcome::Yes, 5), Err(MarketError::MarketNotActive));
}

#[test]
fn bets_accumulate_and_both_sides_are_tracked() {
    let mut m = new_market();
    let a: u64 = 10;
    place_bet(&mut m, &home_ctx(Some(a), NOW), a, Outcome::Yes, 30).unwrap();
    place_bet(&mut m, &home_ctx(Some(a), NOW), a, Outcome::Yes, 30).unwrap();
    place_bet(&mut m, &home_ctx(Some(a), NOW), a, Outcome::No, 8).unwrap();
    assert_eq!(m.yes_bets.stake(a), Some(60));
    assert_eq!(m.no_bets.stake(a), Some(8));
    assert_eq!(m.total_yes, 60);
    assert_eq!(m.total_no, 8);

    // Only the winning ledger pays; the losing-side stake of the same user
    // does not admit a second claim.
    m.execute_operation(&home_ctx(Some(OWNER), NOW + HOUR), Operation::ResolveMarket { winning_outcome: Outcome::Yes }).unwrap();
    let claim = m.execute_operation(&home_ctx(Some(a), NOW + HOUR), Operation::ClaimWinnings { owner: a }).unwrap();
    assert_eq!(
        claim,
        vec![Action::Transfer { owner: APP, amount: 68, target: Account { chain_id: HOME, owner: a } }]
    );
    assert_eq!(
        m.execute_operation(&home_ctx(Some(a), NOW + HOUR), Operation::ClaimWinnings { owner: a }),
        Err(MarketError::NoWinningBet)
    );
}

#[test]
fn claim_on_unresolved_market_fails() {
    let mut m = new_market();
    let a: u64 = 10;
    place_bet(&mut m, &home_ctx(Some(a), NOW), a, Outcome::Yes, 10).unwrap();
    assert_eq!(
        m.execute_operation(&home_ctx(Some(a), NOW), Operation::ClaimWinnings { owner: a }),
        Err(MarketError::MarketNotResolved)
    );
}

#[test]
fn saturating_stake_never_panics() {
    let mut m = new_market();
    let a: u64 = 10;
    place_bet(&mut m, &home_ctx(Some(a), NOW), a, Outcome::Yes, u128::MAX).unwrap();
    place_bet(&mut m, &home_ctx(Some(a), NOW), a, Outcome::Yes, 7).unwrap();
    assert_eq!(m.yes_bets.stake(a), Some(u128::MAX));
    assert_eq!(m.total_yes, u128::MAX);
}

#[test]
fn error_messages_match() {
    assert_eq!(MarketError::NoWinningBet.message(), "No winning bet found for this user");
    assert_eq!(MarketError::NonPositiveAmount.message(), "Bet amount must be positive");
    assert_eq!(MarketError::MarketNotActive.message(), "Market is not active");
    assert_eq!(MarketError::DeadlineNotReached.message(), "Market deadline has not been reached yet");
    assert_eq!(MarketError::MarketNotResolved.message(), "Market has not been resolved yet");
    assert_eq!(
        MarketError::NotHomeChain.message(),
        "Action can only be executed on the chain that created the prediction market"
    );
    assert_eq!(
        MarketError::InvalidDeadline.message(),
        "Prediction market cannot start after its deadline"
    );
    assert_eq!(
        MarketError::NotAuthorized.message(),
        "Only the market owner can resolve or cancel the market"
    );
}

#[test]
fn status_predicates() {
    assert!(MarketStatus::Active.is_active());
    assert!(!MarketStatus::Active.is_resolved());
    assert!(!MarketStatus::Active.is_cancelled());
    assert!(MarketStatus::Resolved(Outcome::No).is_resolved());
    assert!(!MarketStatus::Resolved(Outcome::No).is_active());
    assert!(MarketStatus::Cancelled.is_cancelled());
    assert!(!MarketStatus::Cancelled.is_active());
}
