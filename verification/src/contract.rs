//! The market state machine: bet intake (local and cross-chain), resolution
//! gating, payout, and cancellation with refunds.
//!
//! Every operation validates its preconditions, mutates the state, and
//! returns the custody transfers and relay messages the host must perform.
//! A failed operation returns an error and leaves the state exactly as it
//! was.

use vstd::prelude::*;

use crate::ledger::{stake_of, stake_or_zero, stake_sum, Ledger};
use crate::payout::{compute_winnings, payout_amount, payout_sum};
use crate::state::{spec_opposite, MarketStatus, PulseMarketState};
use crate::{
    sat_cap, AccountOwner, Amount, ChainId, InstantiationArgument, Message, Operation, Outcome,
    Timestamp,
};

verus! {

/// An account on some chain of the network.
#[derive(Clone, Copy, Debug, PartialEq, Eq, Structural)]
pub struct Account {
    pub chain_id: ChainId,
    pub owner: AccountOwner,
}

/// A request the state machine asks the host to perform on its behalf.
#[derive(Clone, Copy, Debug, PartialEq, Eq, Structural)]
pub enum Action {
    /// Ask the custody gateway to move `amount` from `owner`'s account to
    /// `target`, authenticated by `owner` (which is the market's own
    /// identity when paying out of escrow).
    Transfer { owner: AccountOwner, amount: Amount, target: Account },
    /// Deliver `message`, authenticated as coming from the original caller,
    /// to this application's instance on `target_chain`.
    Relay { message: Message, target_chain: ChainId },
}

/// What the host tells the state machine about the call being executed.
#[derive(Clone, Copy, Debug, PartialEq, Eq, Structural)]
pub struct ExecutionContext {
    /// The chain this operation is executing on.
    pub chain_id: ChainId,
    /// The market's home chain, where its authoritative state lives.
    pub creator_chain_id: ChainId,
    /// The authenticated identity of the caller, if any.
    pub authenticated_owner: Option<AccountOwner>,
    /// The market's own identity, owner of the escrow account.
    pub application_account: AccountOwner,
    /// The current time.
    pub system_time: Timestamp,
}

/// Why an operation was rejected. Every rejection aborts the whole
/// operation: no ledger change and no outbound request survives it.
#[derive(Clone, Copy, Debug, PartialEq, Eq, Structural)]
pub enum MarketError {
    /// A bet whose amount is zero.
    NonPositiveAmount,
    /// An operation that needs an active market found it resolved or
    /// cancelled.
    MarketNotActive,
    /// The caller is not the configured market owner.
    NotAuthorized,
    /// Resolution was attempted before the deadline.
    DeadlineNotReached,
    /// A claim against a market that has not been resolved.
    MarketNotResolved,
    /// A claim by an identity with no recorded stake on the winning outcome.
    NoWinningBet,
    /// A relayed bet arrived on a chain that is not the market's home chain.
    NotHomeChain,
    /// Creation with a deadline that is not strictly in the future.
    InvalidDeadline,
}

impl MarketError {
    /// The description of this failure.
    pub open spec fn spec_message(self) -> Seq<char> {
        match self {
            MarketError::NonPositiveAmount => "Bet amount must be positive"@,
            MarketError::MarketNotActive => "Market is not active"@,
            MarketError::NotAuthorized => "Only the market owner can resolve or cancel the market"@,
            MarketError::DeadlineNotReached => "Market deadline has not been reached yet"@,
            MarketError::MarketNotResolved => "Market has not been resolved yet"@,
            MarketError::NoWinningBet => "No winning bet found for this user"@,
            MarketError::NotHomeChain => "Action can only be executed on the chain that created the prediction market"@,
            MarketError::InvalidDeadline => "Prediction market cannot start after its deadline"@,
        }
    }

    /// The description of this failure, for reporting.
    pub fn message(&self) -> (r: &'static str)
        ensures
            r@ == self.spec_message(),
    {
        match self {
            MarketError::NonPositiveAmount => "Bet amount must be positive",
            MarketError::MarketNotActive => "Market is not active",
            MarketError::NotAuthorized => "Only the market owner can resolve or cancel the market",
            MarketError::DeadlineNotReached => "Market deadline has not been reached yet",
            MarketError::MarketNotResolved => "Market has not been resolved yet",
            MarketError::NoWinningBet => "No winning bet found for this user",
            MarketError::NotHomeChain => "Action can only be executed on the chain that created the prediction market",
            MarketError::InvalidDeadline => "Prediction market cannot start after its deadline",
        }
    }
}

/// How the market status may move in one operation: stay as it is, or leave
/// `Active` for one of the two terminal statuses.
pub open spec fn status_transition(pre: MarketStatus, post: MarketStatus) -> bool {
    post == pre || (pre is Active && (post is Resolved || post is Cancelled))
}

/// Why a bet would be rejected, if it would be; checked in this order.
pub open spec fn place_bet_error(m: PulseMarketState, amount: Amount) -> Option<MarketError> {
    if amount == 0 {
        Some(MarketError::NonPositiveAmount)
    } else if !(m.status is Active) {
        Some(MarketError::MarketNotActive)
    } else {
        None
    }
}

/// Why a resolution would be rejected, if it would be; checked in this order.
pub open spec fn resolve_error(m: PulseMarketState, ctx: ExecutionContext) -> Option<MarketError>
    recommends
        m.wf(),
{
    if ctx.authenticated_owner != Some(m.spec_owner()) {
        Some(MarketError::NotAuthorized)
    } else if !(m.status is Active) {
        Some(MarketError::MarketNotActive)
    } else if ctx.system_time < m.spec_deadline() {
        Some(MarketError::DeadlineNotReached)
    } else {
        None
    }
}

/// Why a claim would be rejected, if it would be.
pub open spec fn claim_error(m: PulseMarketState, owner: AccountOwner) -> Option<MarketError> {
    match m.status {
        MarketStatus::Resolved(w) => if stake_or_zero(m.ledger_of(w), owner) == 0 {
            Some(MarketError::NoWinningBet)
        } else {
            None
        },
        _ => Some(MarketError::MarketNotResolved),
    }
}

/// Why a cancellation would be rejected, if it would be; checked in this
/// order.
pub open spec fn cancel_error(m: PulseMarketState, ctx: ExecutionContext) -> Option<MarketError>
    recommends
        m.wf(),
{
    if ctx.authenticated_owner != Some(m.spec_owner()) {
        Some(MarketError::NotAuthorized)
    } else if !(m.status is Active) {
        Some(MarketError::MarketNotActive)
    } else {
        None
    }
}

/// Why a relayed bet would be rejected, if it would be: the receiving chain
/// must be the home chain, then the ordinary bet checks apply.
pub open spec fn message_error(
    m: PulseMarketState,
    ctx: ExecutionContext,
    amount: Amount,
) -> Option<MarketError> {
    if ctx.chain_id != ctx.creator_chain_id {
        Some(MarketError::NotHomeChain)
    } else {
        place_bet_error(m, amount)
    }
}

/// The custody transfer that pulls a local bet from `owner`'s account into
/// the market's escrow account on this chain.
pub open spec fn escrow_transfer(
    ctx: ExecutionContext,
    owner: AccountOwner,
    amount: Amount,
) -> Action {
    Action::Transfer {
        owner,
        amount,
        target: Account { chain_id: ctx.chain_id, owner: ctx.application_account },
    }
}

/// The custody transfer that pays `amount` out of escrow to `owner` on this
/// chain.
pub open spec fn payout_transfer(
    ctx: ExecutionContext,
    owner: AccountOwner,
    amount: Amount,
) -> Action {
    Action::Transfer {
        owner: ctx.application_account,
        amount,
        target: Account { chain_id: ctx.chain_id, owner },
    }
}

/// The custody transfer that moves a remote bet to the bettor's own account
/// on the home chain: ownership is preserved in transit, escrow happens only
/// when the relayed bet is recorded there.
pub open spec fn home_transfer(
    ctx: ExecutionContext,
    owner: AccountOwner,
    amount: Amount,
) -> Action {
    Action::Transfer {
        owner,
        amount,
        target: Account { chain_id: ctx.creator_chain_id, owner },
    }
}

/// The relay envelope carrying a remote bet to the home chain.
pub open spec fn relay_envelope(
    ctx: ExecutionContext,
    owner: AccountOwner,
    outcome: Outcome,
    amount: Amount,
) -> Action {
    Action::Relay {
        message: Message::PlaceBetWithAccount { owner, outcome, amount },
        target_chain: ctx.creator_chain_id,
    }
}

/// One side's ledger and pool total after a bet of `amount`: the bettor's
/// stake and the total both grow by `amount`, saturating at `Amount::MAX`;
/// nobody else's stake moves.
pub open spec fn ledger_credited(
    pre: Seq<(AccountOwner, Amount)>,
    post: Seq<(AccountOwner, Amount)>,
    total_pre: Amount,
    total_post: Amount,
    owner: AccountOwner,
    amount: Amount,
) -> bool {
    &&& stake_of(post, owner) == Some(sat_cap(stake_or_zero(pre, owner) + amount) as Amount)
    &&& forall|k: AccountOwner| k != owner ==> stake_of(post, k) == stake_of(pre, k)
    &&& stake_sum(post) == stake_sum(pre) - stake_or_zero(pre, owner) + sat_cap(
        stake_or_zero(pre, owner) + amount,
    )
    &&& total_post as int == sat_cap(total_pre + amount)
}

/// The state after recording a bet on `outcome`: that side's ledger and
/// total credited, everything else untouched.
pub open spec fn bet_recorded(
    pre: PulseMarketState,
    post: PulseMarketState,
    owner: AccountOwner,
    outcome: Outcome,
    amount: Amount,
) -> bool {
    &&& ledger_credited(
        pre.ledger_of(outcome),
        post.ledger_of(outcome),
        pre.total_of(outcome),
        post.total_of(outcome),
        owner,
        amount,
    )
    &&& post.ledger_of(spec_opposite(outcome)) == pre.ledger_of(spec_opposite(outcome))
    &&& post.total_of(spec_opposite(outcome)) == pre.total_of(spec_opposite(outcome))
    &&& post.status == pre.status
    &&& post.instantiation_argument == pre.instantiation_argument
}

/// A successful claim: the winner is paid [`payout_amount`] of their stake
/// and the two pools, and their entry alone leaves the winning ledger.
/// Totals, status and parameters stay as they were: the totals are
/// historical, used only for the payout ratio.
pub open spec fn claim_success(
    pre: PulseMarketState,
    post: PulseMarketState,
    ctx: ExecutionContext,
    owner: AccountOwner,
    actions: Seq<Action>,
) -> bool {
    &&& claim_error(pre, owner) is None
    &&& pre.status matches MarketStatus::Resolved(w) ==> ({
        let bet = stake_or_zero(pre.ledger_of(w), owner);
        let winnings = payout_amount(
            bet,
            pre.total_of(w) as int,
            pre.total_of(spec_opposite(w)) as int,
        );
        &&& actions.len() == 1
        &&& actions[0] == payout_transfer(ctx, owner, winnings as Amount)
        &&& stake_of(post.ledger_of(w), owner) is None
        &&& forall|k: AccountOwner|
            k != owner ==> stake_of(post.ledger_of(w), k) == stake_of(pre.ledger_of(w), k)
        &&& stake_sum(post.ledger_of(w)) == stake_sum(pre.ledger_of(w)) - bet
        &&& post.ledger_of(w).len() == pre.ledger_of(w).len() - 1
        &&& post.ledger_of(spec_opposite(w)) == pre.ledger_of(spec_opposite(w))
        &&& post.total_yes == pre.total_yes
        &&& post.total_no == pre.total_no
        &&& post.status == pre.status
        &&& post.instantiation_argument == pre.instantiation_argument
    })
}

/// A successful cancellation: one refund action per recorded bet, Yes ledger
/// first, each returning exactly the recorded stake to its bettor; then both
/// ledgers are cleared and the market is cancelled. Totals keep their
/// historical values.
pub open spec fn cancel_success(
    pre: PulseMarketState,
    post: PulseMarketState,
    ctx: ExecutionContext,
    actions: Seq<Action>,
) -> bool {
    &&& actions.len() == pre.yes_bets@.len() + pre.no_bets@.len()
    &&& forall|i: int|
        0 <= i < pre.yes_bets@.len() ==> actions[i] == payout_transfer(
            ctx,
            pre.yes_bets@[i].0,
            pre.yes_bets@[i].1,
        )
    &&& forall|i: int|
        0 <= i < pre.no_bets@.len() ==> actions[pre.yes_bets@.len() + i] == payout_transfer(
            ctx,
            pre.no_bets@[i].0,
            pre.no_bets@[i].1,
        )
    &&& post.yes_bets@.len() == 0
    &&& post.no_bets@.len() == 0
    &&& post.status is Cancelled
    &&& post.total_yes == pre.total_yes
    &&& post.total_no == pre.total_no
    &&& post.instantiation_argument == pre.instantiation_argument
}

/// Builds the custody request that receives `amount` from `owner`'s account
/// into the market's escrow account on this chain.
fn receive_from_account(ctx: &ExecutionContext, owner: AccountOwner, amount: Amount) -> (a: Action)
    ensures
        a == escrow_transfer(*ctx, owner, amount),
{
    Action::Transfer {
        owner,
        amount,
        target: Account { chain_id: ctx.chain_id, owner: ctx.application_account },
    }
}

/// Builds the custody request that transfers `amount` from the funds in
/// custody to `owner`'s account on this chain.
fn send_to(ctx: &ExecutionContext, amount: Amount, owner: AccountOwner) -> (a: Action)
    ensures
        a == payout_transfer(*ctx, owner, amount),
{
    Action::Transfer {
        owner: ctx.application_account,
        amount,
        target: Account { chain_id: ctx.chain_id, owner },
    }
}

impl PulseMarketState {
    /// Creates the market: the deadline must be strictly in the future; the
    /// market starts active, with empty ledgers and zero totals.
    pub fn instantiate(argument: InstantiationArgument, now: Timestamp) -> (r: Result<
        PulseMarketState,
        MarketError,
    >)
        ensures
            match r {
                Ok(m) => {
                    &&& argument.deadline > now
                    &&& m.status is Active
                    &&& m.yes_bets@.len() == 0
                    &&& m.no_bets@.len() == 0
                    &&& m.total_yes == 0
                    &&& m.total_no == 0
                    &&& m.instantiation_argument == Some(argument)
                    &&& m.inv()
                },
                Err(e) => e == MarketError::InvalidDeadline && argument.deadline <= now,
            },
    {
        if argument.deadline <= now {
            return Err(MarketError::InvalidDeadline);
        }
        let m = PulseMarketState {
            status: MarketStatus::Active,
            yes_bets: Ledger::new(),
            no_bets: Ledger::new(),
            total_yes: 0,
            total_no: 0,
            instantiation_argument: Some(argument),
        };
        Ok(m)
    }

    /// Executes a caller-facing operation, dispatching on where it runs: a
    /// bet on the home chain is recorded directly, a bet elsewhere is turned
    /// into a transfer towards the home chain plus a relay envelope.
    pub fn execute_operation(&mut self, ctx: &ExecutionContext, operation: Operation) -> (r:
        Result<Vec<Action>, MarketError>)
        requires
            old(self).wf(),
        ensures
            final(self).wf(),
            old(self).inv() ==> final(self).inv(),
            status_transition(old(self).status, final(self).status),
            match operation {
                Operation::PlaceBet { owner, outcome, amount } => {
                    if ctx.chain_id == ctx.creator_chain_id {
                        match r {
                            Ok(actions) => {
                                &&& place_bet_error(*old(self), amount) is None
                                &&& actions@.len() == 1
                                &&& actions@[0] == escrow_transfer(*ctx, owner, amount)
                                &&& bet_recorded(*old(self), *final(self), owner, outcome, amount)
                            },
                            Err(e) => Some(e) == place_bet_error(*old(self), amount) && *final(self) == *old(self),
                        }
                    } else {
                        &&& *final(self) == *old(self)
                        &&& match r {
                            Ok(actions) => {
                                &&& place_bet_error(*old(self), amount) is None
                                &&& actions@.len() == 2
                                &&& actions@[0] == home_transfer(*ctx, owner, amount)
                                &&& actions@[1] == relay_envelope(*ctx, owner, outcome, amount)
                            },
                            Err(e) => Some(e) == place_bet_error(*old(self), amount),
                        }
                    }
                },
                Operation::ResolveMarket { winning_outcome } => match r {
                    Ok(actions) => {
                        &&& resolve_error(*old(self), *ctx) is None
                        &&& actions@.len() == 0
                        &&& *final(self) == (PulseMarketState {
                            status: MarketStatus::Resolved(winning_outcome),
                            ..*old(self)
                        })
                    },
                    Err(e) => Some(e) == resolve_error(*old(self), *ctx) && *final(self) == *old(self),
                },
                Operation::ClaimWinnings { owner } => match r {
                    Ok(actions) => claim_success(*old(self), *final(self), *ctx, owner, actions@),
                    Err(e) => Some(e) == claim_error(*old(self), owner) && *final(self) == *old(self),
                },
                Operation::CancelMarket => match r {
                    Ok(actions) => cancel_error(*old(self), *ctx) is None && cancel_success(
                        *old(self),
                        *final(self),
                        *ctx,
                        actions@,
                    ),
                    Err(e) => Some(e) == cancel_error(*old(self), *ctx) && *final(self) == *old(self),
                },
            },
    {
        match operation {
            Operation::PlaceBet { owner, outcome, amount } => {
                if ctx.chain_id == ctx.creator_chain_id {
                    self.execute_bet_with_account(ctx, owner, outcome, amount)
                } else {
                    self.execute_bet_with_transfer(ctx, owner, outcome, amount)
                }
            },
            Operation::ResolveMarket { winning_outcome } => {
                match self.resolve_market(ctx, winning_outcome) {
                    Ok(_) => Ok(Vec::new()),
                    Err(e) => Err(e),
                }
            },
            Operation::ClaimWinnings { owner } => self.claim_winnings(ctx, owner),
            Operation::CancelMarket => self.cancel_market(ctx),
        }
    }

    /// Records a bet relayed from another chain, after re-checking that this
    /// is really the home chain: the funds already sit in the bettor's
    /// account here, so they are escrowed and the bet is recorded exactly as
    /// a local bet would be.
    pub fn execute_message(&mut self, ctx: &ExecutionContext, message: Message) -> (r: Result<
        Vec<Action>,
        MarketError,
    >)
        requires
            old(self).wf(),
        ensures
            final(self).wf(),
            old(self).inv() ==> final(self).inv(),
            status_transition(old(self).status, final(self).status),
            match message {
                Message::PlaceBetWithAccount { owner, outcome, amount } => match r {
                    Ok(actions) => {
                        &&& message_error(*old(self), *ctx, amount) is None
                        &&& actions@.len() == 1
                        &&& actions@[0] == escrow_transfer(*ctx, owner, amount)
                        &&& bet_recorded(*old(self), *final(self), owner, outcome, amount)
                    },
                    Err(e) => Some(e) == message_error(*old(self), *ctx, amount) && *final(self)
                        == *old(self),
                },
            },
    {
        match message {
            Message::PlaceBetWithAccount { owner, outcome, amount } => {
                if ctx.chain_id != ctx.creator_chain_id {
                    return Err(MarketError::NotHomeChain);
                }
                self.execute_bet_with_account(ctx, owner, outcome, amount)
            },
        }
    }

    /// Places a bet from a local account on a market executing away from its
    /// home chain: moves the funds to the bettor's own account on the home
    /// chain and wraps the bet in a relay envelope addressed there. The
    /// local state is not touched.
    pub fn execute_bet_with_transfer(
        &self,
        ctx: &ExecutionContext,
        owner: AccountOwner,
        outcome: Outcome,
        amount: Amount,
    ) -> (r: Result<Vec<Action>, MarketError>)
        ensures
            match r {
                Ok(actions) => {
                    &&& place_bet_error(*self, amount) is None
                    &&& actions@.len() == 2
                    &&& actions@[0] == home_transfer(*ctx, owner, amount)
                    &&& actions@[1] == relay_envelope(*ctx, owner, outcome, amount)
                },
                Err(e) => Some(e) == place_bet_error(*self, amount),
            },
    {
        if amount == 0 {
            return Err(MarketError::NonPositiveAmount);
        }
        if !self.status.is_active() {
            return Err(MarketError::MarketNotActive);
        }
        let transfer = Action::Transfer {
            owner,
            amount,
            target: Account { chain_id: ctx.creator_chain_id, owner },
        };
        let envelope = Action::Relay {
            message: Message::PlaceBetWithAccount { owner, outcome, amount },
            target_chain: ctx.creator_chain_id,
        };
        let mut actions: Vec<Action> = Vec::new();
        actions.push(transfer);
        actions.push(envelope);
        Ok(actions)
    }

    /// Places a bet from a local account on the home chain: escrows the
    /// funds and records the bet.
    pub fn execute_bet_with_account(
        &mut self,
        ctx: &ExecutionContext,
        owner: AccountOwner,
        outcome: Outcome,
        amount: Amount,
    ) -> (r: Result<Vec<Action>, MarketError>)
        requires
            old(self).wf(),
        ensures
            final(self).wf(),
            old(self).inv() ==> final(self).inv(),
            status_transition(old(self).status, final(self).status),
            match r {
                Ok(actions) => {
                    &&& place_bet_error(*old(self), amount) is None
                    &&& actions@.len() == 1
                    &&& actions@[0] == escrow_transfer(*ctx, owner, amount)
                    &&& bet_recorded(*old(self), *final(self), owner, outcome, amount)
                },
                Err(e) => Some(e) == place_bet_error(*old(self), amount) && *final(self) == *old(self),
            },
    {
        if amount == 0 {
            return Err(MarketError::NonPositiveAmount);
        }
        if !self.status.is_active() {
            return Err(MarketError::MarketNotActive);
        }
        let escrow = receive_from_account(ctx, owner, amount);
        self.finish_bet(owner, outcome, amount);
        let mut actions: Vec<Action> = Vec::new();
        actions.push(escrow);
        Ok(actions)
    }

    /// Records a bet in the state: credits the bettor's stake and the pool
    /// total of the chosen outcome, both saturating, in one step.
    pub fn finish_bet(&mut self, owner: AccountOwner, outcome: Outcome, amount: Amount)
        requires
            old(self).wf(),
        ensures
            final(self).wf(),
            bet_recorded(*old(self), *final(self), owner, outcome, amount),
            old(self).inv() ==> final(self).inv(),
    {
        match outcome {
            Outcome::Yes => {
                proof {
                    crate::ledger::lemma_stake_le_sum(self.yes_bets@, owner);
                }
                self.yes_bets.credit_saturating(owner, amount);
                self.total_yes = self.total_yes.saturating_add(amount);
            },
            Outcome::No => {
                proof {
                    crate::ledger::lemma_stake_le_sum(self.no_bets@, owner);
                }
                self.no_bets.credit_saturating(owner, amount);
                self.total_no = self.total_no.saturating_add(amount);
            },
        }
    }

    /// Resolves the market with the winning outcome. Only the market owner
    /// may resolve, only while the market is active, and only once the
    /// deadline has been reached (resolution exactly at the deadline is
    /// allowed).
    pub fn resolve_market(&mut self, ctx: &ExecutionContext, winning_outcome: Outcome) -> (r:
        Result<(), MarketError>)
        requires
            old(self).wf(),
        ensures
            final(self).wf(),
            old(self).inv() ==> final(self).inv(),
            status_transition(old(self).status, final(self).status),
            match r {
                Ok(_) => resolve_error(*old(self), *ctx) is None && *final(self)
                    == (PulseMarketState {
                    status: MarketStatus::Resolved(winning_outcome),
                    ..*old(self)
                }),
                Err(e) => Some(e) == resolve_error(*old(self), *ctx) && *final(self) == *old(self),
            },
    {
        let owner = self.instantiation_argument().owner;
        let deadline = self.instantiation_argument().deadline;
        let authorized = match ctx.authenticated_owner {
            Some(a) => a == owner,
            None => false,
        };
        if !authorized {
            return Err(MarketError::NotAuthorized);
        }
        if !self.status.is_active() {
            return Err(MarketError::MarketNotActive);
        }
        if ctx.system_time < deadline {
            return Err(MarketError::DeadlineNotReached);
        }
        self.status = MarketStatus::Resolved(winning_outcome);
        Ok(())
    }

    /// Claims winnings for `owner` after the market has been resolved: pays
    /// out the stake plus the proportional share of the losing pool, and
    /// removes the winner's ledger entry so a second claim fails.
    pub fn claim_winnings(&mut self, ctx: &ExecutionContext, owner: AccountOwner) -> (r: Result<
        Vec<Action>,
        MarketError,
    >)
        requires
            old(self).wf(),
        ensures
            final(self).wf(),
            old(self).inv() ==> final(self).inv(),
            status_transition(old(self).status, final(self).status),
            match r {
                Ok(actions) => claim_success(*old(self), *final(self), *ctx, owner, actions@),
                Err(e) => Some(e) == claim_error(*old(self), owner) && *final(self) == *old(self),
            },
    {
        let winning_outcome = match self.status {
            MarketStatus::Resolved(outcome) => outcome,
            _ => {
                return Err(MarketError::MarketNotResolved);
            },
        };
        let (winner_bet, total_winning_pool, total_losing_pool) = match winning_outcome {
            Outcome::Yes => {
                let bet = self.yes_bets.stake(owner).unwrap_or(0);
                (bet, self.total_yes, self.total_no)
            },
            Outcome::No => {
                let bet = self.no_bets.stake(owner).unwrap_or(0);
                (bet, self.total_no, self.total_yes)
            },
        };
        if winner_bet == 0 {
            return Err(MarketError::NoWinningBet);
        }
        let winnings = compute_winnings(winner_bet, total_winning_pool, total_losing_pool);
        let transfer = send_to(ctx, winnings, owner);
        match winning_outcome {
            Outcome::Yes => {
                let _removed = self.yes_bets.remove(owner);
            },
            Outcome::No => {
                let _removed = self.no_bets.remove(owner);
            },
        }
        let mut actions: Vec<Action> = Vec::new();
        actions.push(transfer);
        Ok(actions)
    }

    /// Cancels the market: only the market owner may cancel, only while the
    /// market is active, at any time (there is no deadline constraint).
    /// Every recorded bet is turned into a refund transfer, then both
    /// ledgers are cleared and the market is cancelled.
    pub fn cancel_market(&mut self, ctx: &ExecutionContext) -> (r: Result<
        Vec<Action>,
        MarketError,
    >)
        requires
            old(self).wf(),
        ensures
            final(self).wf(),
            old(self).inv() ==> final(self).inv(),
            status_transition(old(self).status, final(self).status),
            match r {
                Ok(actions) => cancel_error(*old(self), *ctx) is None && cancel_success(
                    *old(self),
                    *final(self),
                    *ctx,
                    actions@,
                ),
                Err(e) => Some(e) == cancel_error(*old(self), *ctx) && *final(self) == *old(self),
            },
    {
        let owner = self.instantiation_argument().owner;
        let authorized = match ctx.authenticated_owner {
            Some(a) => a == owner,
            None => false,
        };
        if !authorized {
            return Err(MarketError::NotAuthorized);
        }
        if !self.status.is_active() {
            return Err(MarketError::MarketNotActive);
        }
        let mut actions: Vec<Action> = Vec::new();
        let n_yes = self.yes_bets.len();
        let mut i: usize = 0;
        while i < n_yes
            invariant
                i <= n_yes,
                n_yes == self.yes_bets@.len(),
                actions@.len() == i,
                forall|j: int|
                    0 <= j < i ==> actions@[j] == payout_transfer(
                        *ctx,
                        self.yes_bets@[j].0,
                        self.yes_bets@[j].1,
                    ),
            decreases n_yes - i,
        {
            let (bettor, amount) = self.yes_bets.entry_at(i);
            actions.push(send_to(ctx, amount, bettor));
            i += 1;
        }
        let n_no = self.no_bets.len();
        let mut j: usize = 0;
        while j < n_no
            invariant
                j <= n_no,
                n_yes == self.yes_bets@.len(),
                n_no == self.no_bets@.len(),
                actions@.len() == n_yes + j,
                forall|k: int|
                    0 <= k < n_yes ==> actions@[k] == payout_transfer(
                        *ctx,
                        self.yes_bets@[k].0,
                        self.yes_bets@[k].1,
                    ),
                forall|k: int|
                    0 <= k < j ==> actions@[n_yes + k] == payout_transfer(
                        *ctx,
                        self.no_bets@[k].0,
                        self.no_bets@[k].1,
                    ),
            decreases n_no - j,
        {
            let (bettor, amount) = self.no_bets.entry_at(j);
            actions.push(send_to(ctx, amount, bettor));
            j += 1;
        }
        self.yes_bets.clear();
        self.no_bets.clear();
        self.status = MarketStatus::Cancelled;
        Ok(actions)
    }
}

/// Status transitions are one-way: a market that has left `Active` can never
/// change status again under [`status_transition`].
pub proof fn lemma_status_one_way(pre: MarketStatus, post: MarketStatus)
    requires
        status_transition(pre, post),
        !(pre is Active),
    ensures
        post == pre,
{
}

/// While the market is active, the recorded pool totals are exactly the sums
/// of their ledgers, as long as the true sums fit in `Amount` (beyond that
/// they are clamped at `Amount::MAX` by saturation).
pub proof fn lemma_totals_are_ledger_sums(m: PulseMarketState)
    requires
        m.inv(),
        m.status is Active,
        stake_sum(m.yes_bets@) <= u128::MAX,
        stake_sum(m.no_bets@) <= u128::MAX,
    ensures
        m.total_yes == stake_sum(m.yes_bets@),
        m.total_no == stake_sum(m.no_bets@),
{
}

/// No double claim: after a successful claim, the same identity's next claim
/// is rejected with "no winning bet", because its ledger entry is gone.
pub proof fn lemma_no_double_claim(
    pre: PulseMarketState,
    post: PulseMarketState,
    ctx: ExecutionContext,
    owner: AccountOwner,
    actions: Seq<Action>,
)
    requires
        claim_success(pre, post, ctx, owner, actions),
    ensures
        claim_error(post, owner) == Some(MarketError::NoWinningBet),
{
}

/// Cancellation refunds everyone: each bettor recorded in either ledger when
/// the market is cancelled gets a refund action for exactly their recorded
/// stake — no gain, no loss.
pub proof fn lemma_cancellation_refund(
    pre: PulseMarketState,
    post: PulseMarketState,
    ctx: ExecutionContext,
    actions: Seq<Action>,
    outcome: Outcome,
    owner: AccountOwner,
    v: Amount,
)
    requires
        cancel_success(pre, post, ctx, actions),
        stake_of(pre.ledger_of(outcome), owner) == Some(v),
    ensures
        exists|i: int| 0 <= i < actions.len() && actions[i] == payout_transfer(ctx, owner, v),
{
    crate::ledger::lemma_stake_has_entry(pre.ledger_of(outcome), owner, v);
    let j = choose|j: int|
        0 <= j < pre.ledger_of(outcome).len() && pre.ledger_of(outcome)[j] == (owner, v);
    match outcome {
        Outcome::Yes => {
            assert(actions[j] == payout_transfer(ctx, owner, v));
        },
        Outcome::No => {
            assert(actions[pre.yes_bets@.len() + j] == payout_transfer(ctx, owner, v));
        },
    }
}

/// No over-issuance: on a resolved market whose totals match its ledgers,
/// the payouts owed to all recorded winners together never exceed the whole
/// escrowed amount, winning pool plus losing pool.
pub proof fn lemma_market_no_over_issuance(m: PulseMarketState, w: Outcome)
    requires
        m.totals_consistent(),
        0 < stake_sum(m.ledger_of(w)),
        stake_sum(m.ledger_of(w)) <= u128::MAX,
    ensures
        payout_sum(m.ledger_of(w), m.total_of(w) as int, m.total_of(spec_opposite(w)) as int)
            <= m.total_of(w) + m.total_of(spec_opposite(w)),
{
    crate::payout::lemma_no_over_issuance(
        m.ledger_of(w),
        m.total_of(w) as int,
        m.total_of(spec_opposite(w)) as int,
    );
}

} // verus!
