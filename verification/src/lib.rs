//! A binary-outcome prediction market.
//!
//! Users escrow value on one of two outcomes before a deadline, the market
//! owner resolves the outcome afterward, and winners redeem their stake plus a
//! proportional share of the losing pool. The market's authoritative state
//! lives on exactly one "home" chain; bets placed from other chains are
//! relayed there before being recorded.
//!
//! This crate holds the verified core: the state machine and its accounting.
//! Asset custody, message delivery and persistent storage are external
//! collaborators; every operation returns the list of custody transfers and
//! relay messages that the host must perform on its behalf.

use vstd::prelude::*;

pub mod contract;
pub mod ledger;
pub mod payout;
pub mod state;

verus! {

/// Marker type naming this application's interface.
pub struct PulseMarketAbi;

/// Identity of an account holder on the ledger network.
pub type AccountOwner = u64;

/// Identity of a chain (node) in the ledger network.
pub type ChainId = u64;

/// A point in time, in microseconds since the Unix epoch.
pub type Timestamp = u64;

/// A token amount, in the smallest indivisible unit.
pub type Amount = u128;

/// Clamp an unbounded integer to the range of `Amount`, the way saturating
/// arithmetic does.
pub open spec fn sat_cap(x: int) -> int {
    if x > u128::MAX as int {
        u128::MAX as int
    } else {
        x
    }
}

/// The outcome of a binary prediction market.
#[derive(Clone, Copy, Debug, PartialEq, Eq, Structural)]
pub enum Outcome {
    /// The "Yes" outcome.
    Yes,
    /// The "No" outcome.
    No,
}

/// The instantiation data required to create a prediction market.
#[derive(Clone, Debug)]
pub struct InstantiationArgument {
    /// The creator/owner of the market, who alone may resolve or cancel it.
    pub owner: AccountOwner,
    /// The deadline after which the market can be resolved.
    pub deadline: Timestamp,
    /// The question being predicted.
    pub question: String,
    /// Optional description of the market.
    pub description: Option<String>,
}

/// Operations that can be executed by the application.
#[derive(Clone, Debug)]
pub enum Operation {
    /// Place a bet on a specific outcome (from an account on the current
    /// chain to the market chain).
    PlaceBet { owner: AccountOwner, outcome: Outcome, amount: Amount },
    /// Resolve the market with the winning outcome (market chain only, owner
    /// only).
    ResolveMarket { winning_outcome: Outcome },
    /// Claim winnings after the market has been resolved (for winners).
    ClaimWinnings { owner: AccountOwner },
    /// Cancel the market and refund all bets (market chain only, owner only).
    CancelMarket,
}

/// Messages exchanged across chains between instances of this application.
#[derive(Clone, Copy, Debug, PartialEq, Eq, Structural)]
pub enum Message {
    /// Place a bet from an account on the receiver chain.
    PlaceBetWithAccount { owner: AccountOwner, outcome: Outcome, amount: Amount },
}

} // verus!
