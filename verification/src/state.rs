//! The prediction market's state: status, per-outcome bet ledgers, pool
//! totals, and the immutable instantiation parameters.

use vstd::prelude::*;

use crate::ledger::{stake_sum, Ledger};
use crate::{sat_cap, Amount, InstantiationArgument, Outcome};

verus! {

/// The status of a prediction market.
#[derive(Clone, Copy, Debug, PartialEq, Eq, Structural)]
pub enum MarketStatus {
    /// The market is active and can receive bets.
    Active,
    /// The market has been resolved with a winning outcome.
    Resolved(Outcome),
    /// The market was cancelled, all bets have been returned.
    Cancelled,
}

impl MarketStatus {
    /// Returns `true` if the market status is [`MarketStatus::Resolved`].
    pub fn is_resolved(&self) -> (r: bool)
        ensures
            r == (*self is Resolved),
    {
        matches!(self, MarketStatus::Resolved(_))
    }

    /// Returns `true` if the market status is [`MarketStatus::Cancelled`].
    pub fn is_cancelled(&self) -> (r: bool)
        ensures
            r == (*self is Cancelled),
    {
        matches!(self, MarketStatus::Cancelled)
    }

    /// Returns `true` if the market is active.
    pub fn is_active(&self) -> (r: bool)
        ensures
            r == (*self is Active),
    {
        matches!(self, MarketStatus::Active)
    }
}

/// A bet placed by a user on a specific outcome, as the read surface
/// reports it.
#[derive(Clone, Copy, Debug, PartialEq, Eq, Structural)]
pub struct Bet {
    /// The outcome the user bet on.
    pub outcome: Outcome,
    /// The amount bet.
    pub amount: Amount,
}

/// The prediction market's state.
pub struct PulseMarketState {
    /// The status of the market.
    pub status: MarketStatus,
    /// The record of bets on the Yes outcome: user -> amount.
    pub yes_bets: Ledger,
    /// The record of bets on the No outcome: user -> amount.
    pub no_bets: Ledger,
    /// The total amount bet on Yes.
    pub total_yes: Amount,
    /// The total amount bet on No.
    pub total_no: Amount,
    /// The instantiation data that determines the details of the market.
    pub instantiation_argument: Option<InstantiationArgument>,
}

impl PulseMarketState {
    /// Each pool total equals the sum of its ledger's stakes, clamped at
    /// `Amount::MAX` the way saturating addition leaves it.
    pub open spec fn totals_consistent(self) -> bool {
        &&& self.total_yes as int == sat_cap(stake_sum(self.yes_bets@))
        &&& self.total_no as int == sat_cap(stake_sum(self.no_bets@))
    }

    /// Well-formed: both ledgers record each bettor at most once, and the
    /// market has its instantiation parameters.
    pub open spec fn wf(self) -> bool {
        &&& self.yes_bets.wf()
        &&& self.no_bets.wf()
        &&& self.instantiation_argument is Some
    }

    /// The invariant every reachable state satisfies: well-formed, and while
    /// the market is active the pool totals track the ledgers. (Totals are
    /// historical once the market leaves `Active`: claims drain the winning
    /// ledger and cancellation clears both, while the totals keep the final
    /// pool sizes.)
    pub open spec fn inv(self) -> bool {
        &&& self.wf()
        &&& self.status is Active ==> self.totals_consistent()
    }

    /// The market's configured owner.
    pub open spec fn spec_owner(self) -> crate::AccountOwner
        recommends
            self.instantiation_argument is Some,
    {
        self.instantiation_argument->Some_0.owner
    }

    /// The market's configured deadline.
    pub open spec fn spec_deadline(self) -> crate::Timestamp
        recommends
            self.instantiation_argument is Some,
    {
        self.instantiation_argument->Some_0.deadline
    }

    /// The ledger recording bets on `outcome`, as a sequence of entries.
    pub open spec fn ledger_of(self, outcome: Outcome) -> Seq<
        (crate::AccountOwner, Amount),
    > {
        match outcome {
            Outcome::Yes => self.yes_bets@,
            Outcome::No => self.no_bets@,
        }
    }

    /// The pool total recorded for `outcome`.
    pub open spec fn total_of(self, outcome: Outcome) -> Amount {
        match outcome {
            Outcome::Yes => self.total_yes,
            Outcome::No => self.total_no,
        }
    }

    /// The instantiation parameters of a market that has them.
    pub fn instantiation_argument(&self) -> (r: &InstantiationArgument)
        requires
            self.instantiation_argument is Some,
        ensures
            *r == self.instantiation_argument->Some_0,
    {
        self.instantiation_argument.as_ref().unwrap()
    }
}

/// The outcome that lost, given the one that won.
pub open spec fn spec_opposite(outcome: Outcome) -> Outcome {
    match outcome {
        Outcome::Yes => Outcome::No,
        Outcome::No => Outcome::Yes,
    }
}

} // verus!
