use vstd::prelude::*;

use crate::ftt_account::{FttAccount, FttAccountType};
use crate::topstep_account::{TopstepAccount, TopstepAccountType, DEPLETED_BALANCE, XFA_COST};
use crate::trade_data::{Trade, MAX_TRADE_VALUE};

verus! {

/// Largest magnitude, in cents, of an account balance that the engines accept
/// (one hundred trillion dollars).
pub const BALANCE_LIMIT: i64 = 10_000_000_000_000_000;

/// Upper bound on every amount in a tier's rules, in cents. An open account
/// never falls below minus this.
pub const TIER_LIMIT: i64 = 10_000_000;

/// What applying one trade did to an account.
#[derive(Clone, Copy, Debug, PartialEq, Eq)]
pub enum AccountStatus {
    /// The loss threshold was breached; carries the amount that was booked.
    Blown(i64),
    /// The account is still open; carries the amount that was booked.
    Active(i64),
    /// The evaluation's profit target was reached.
    PassedEval,
}

/// What a withdrawal did to an account.
#[derive(Clone, Copy, Debug, PartialEq, Eq)]
pub enum WithdrawalOutcome {
    /// A payout was booked; carries the number of payouts made so far.
    Payouts(u8),
    /// The funded account was drained: the trial ends.
    AccountDepleted,
    /// The funded account stays open.
    AccountOpen,
}

/// The smaller of two integers.
pub open spec fn min_int(a: int, b: int) -> int {
    if a <= b { a } else { b }
}

/// A program and tier to simulate.
#[derive(Clone, Copy, Debug, PartialEq, Eq)]
pub enum AccountType {
    Ftt(FttAccountType),
    TopStep(TopstepAccountType),
}

/// An account of one of the supported programs. Every program answers the
/// same questions: how a trade lands, what happens at the end of a day, and
/// when money may leave.
#[derive(Clone, Copy, Debug)]
pub enum PropAccount {
    Ftt(FttAccount),
    Topstep(TopstepAccount),
}

impl AccountType {
    pub open spec fn spec_initial(self) -> PropAccount {
        match self {
            AccountType::Ftt(t) => PropAccount::Ftt(t.spec_initial()),
            AccountType::TopStep(t) => PropAccount::Topstep(t.spec_initial()),
        }
    }
}

/// A fresh account of the given program and tier.
pub fn create_account(account_type: AccountType) -> (r: PropAccount)
    ensures
        r == account_type.spec_initial(),
        r.wf(),
        r.balance_in_range(),
{
    match account_type {
        AccountType::Ftt(t) => PropAccount::Ftt(FttAccount::new(t)),
        AccountType::TopStep(t) => PropAccount::Topstep(TopstepAccount::new(t)),
    }
}

impl PropAccount {
    pub open spec fn wf(self) -> bool {
        match self {
            PropAccount::Ftt(a) => a.wf(),
            PropAccount::Topstep(a) => a.wf(),
        }
    }

    pub open spec fn balance_in_range(self) -> bool {
        match self {
            PropAccount::Ftt(a) => a.balance_in_range(),
            PropAccount::Topstep(a) => a.balance_in_range(),
        }
    }

    pub open spec fn balance(self) -> i64 {
        match self {
            PropAccount::Ftt(a) => a.current_balance,
            PropAccount::Topstep(a) => a.current_balance,
        }
    }

    pub open spec fn max_day_profit(self) -> i64 {
        match self {
            PropAccount::Ftt(a) => a.max_winning_day_profit,
            PropAccount::Topstep(a) => a.max_winning_day_profit,
        }
    }

    pub open spec fn sim_days(self) -> u64 {
        match self {
            PropAccount::Ftt(a) => a.simulation_days,
            PropAccount::Topstep(a) => a.simulation_days,
        }
    }

    /// The day counters of the account are at most `days`.
    pub open spec fn counters_within(self, days: int) -> bool {
        match self {
            PropAccount::Ftt(a) => a.trading_days <= days,
            PropAccount::Topstep(a) => a.total_winning_days <= days
                && a.winning_days_since_last_payout <= days,
        }
    }

    /// Whether the account is still in an evaluation that it can pass.
    pub open spec fn in_evaluation(self) -> bool {
        match self {
            PropAccount::Ftt(_) => false,
            PropAccount::Topstep(a) => !a.passed_eval,
        }
    }

    pub open spec fn payout_count(self) -> u8 {
        match self {
            PropAccount::Ftt(a) => a.payout_count,
            PropAccount::Topstep(_) => 0,
        }
    }

    pub open spec fn spec_cost(self) -> i64 {
        match self {
            PropAccount::Ftt(a) => a.account_type.spec_cost(),
            PropAccount::Topstep(a) => a.account_type.spec_cost(),
        }
    }

    pub open spec fn spec_funded_cost(self) -> i64 {
        match self {
            PropAccount::Ftt(_) => 0,
            PropAccount::Topstep(_) => XFA_COST,
        }
    }

    pub open spec fn spec_process_trade(self, trade: Trade) -> (PropAccount, AccountStatus) {
        match self {
            PropAccount::Ftt(a) => {
                let (b, r) = a.spec_trade(trade);
                (PropAccount::Ftt(b), r)
            },
            PropAccount::Topstep(a) => {
                let (b, r) = a.spec_trade(trade);
                (PropAccount::Topstep(b), r)
            },
        }
    }

    pub open spec fn spec_end_of_day(self, daily_pnl: i64) -> PropAccount {
        match self {
            PropAccount::Ftt(a) => PropAccount::Ftt(a.spec_end_of_day(daily_pnl)),
            PropAccount::Topstep(a) => PropAccount::Topstep(a.spec_end_of_day(daily_pnl)),
        }
    }

    pub open spec fn spec_next_day(self) -> PropAccount {
        match self {
            PropAccount::Ftt(a) => PropAccount::Ftt(
                FttAccount { simulation_days: (a.simulation_days + 1) as u64, ..a },
            ),
            PropAccount::Topstep(a) => PropAccount::Topstep(
                TopstepAccount { simulation_days: (a.simulation_days + 1) as u64, ..a },
            ),
        }
    }

    /// Withdrawals exist only on a funded account.
    pub open spec fn spec_allowed_withdrawal(self) -> Option<i64> {
        match self {
            PropAccount::Ftt(a) => a.spec_allowed_withdrawal(),
            PropAccount::Topstep(a) => if a.passed_eval {
                a.spec_allowed_withdrawal()
            } else {
                None
            },
        }
    }

    pub open spec fn spec_withdraw(self, amount: i64) -> (PropAccount, WithdrawalOutcome) {
        match self {
            PropAccount::Ftt(a) => {
                let b = a.spec_withdraw(amount);
                (PropAccount::Ftt(b), WithdrawalOutcome::Payouts(b.payout_count))
            },
            PropAccount::Topstep(a) => {
                let b = a.spec_withdraw(amount);
                (
                    PropAccount::Topstep(b),
                    if b.current_balance <= DEPLETED_BALANCE {
                        WithdrawalOutcome::AccountDepleted
                    } else {
                        WithdrawalOutcome::AccountOpen
                    },
                )
            },
        }
    }

    /// The two accounts differ at most in the balance and in the evaluation
    /// being passed.
    pub open spec fn trade_frame(self, other: PropAccount) -> bool {
        match (self, other) {
            (PropAccount::Ftt(a), PropAccount::Ftt(b)) => a == (FttAccount {
                current_balance: a.current_balance,
                ..b
            }),
            (PropAccount::Topstep(a), PropAccount::Topstep(b)) => a == (TopstepAccount {
                current_balance: a.current_balance,
                passed_eval: a.passed_eval,
                ..b
            }),
            _ => false,
        }
    }

    /// Applies one trade to the account.
    pub fn process_trade(&mut self, trade: &Trade) -> (r: AccountStatus)
        requires
            old(self).wf(),
            old(self).balance_in_range(),
            trade.is_bounded(),
        ensures
            (*final(self), r) == old(self).spec_process_trade(*trade),
    {
        match self {
            PropAccount::Ftt(a) => a.process_trade(trade),
            PropAccount::Topstep(a) => a.process_trade(trade),
        }
    }

    /// Trails the loss threshold and counts the day.
    pub fn update_end_of_day(&mut self, daily_pnl: i64)
        requires
            old(self).wf(),
            old(self).balance_in_range(),
            old(self).counters_within(old(self).sim_days() as int),
            old(self).sim_days() < u32::MAX,
        ensures
            *final(self) == old(self).spec_end_of_day(daily_pnl),
            final(self).wf(),
    {
        match self {
            PropAccount::Ftt(a) => a.update_end_of_day(daily_pnl),
            PropAccount::Topstep(a) => a.update_end_of_day(daily_pnl),
        }
    }

    pub fn allowed_withdrawal_amount(&self) -> (r: Option<i64>)
        requires
            self.wf(),
            self.balance_in_range(),
        ensures
            r == self.spec_allowed_withdrawal(),
    {
        match self {
            PropAccount::Ftt(a) => a.allowed_withdrawal_amount(),
            PropAccount::Topstep(a) => if a.passed_eval {
                a.allowed_withdrawal_amount()
            } else {
                None
            },
        }
    }

    pub fn make_withdrawal(&mut self, amount: i64) -> (r: WithdrawalOutcome)
        requires
            old(self).balance_in_range(),
            -BALANCE_LIMIT <= amount <= BALANCE_LIMIT,
            old(self).payout_count() < u8::MAX,
        ensures
            (*final(self), r) == old(self).spec_withdraw(amount),
    {
        match self {
            PropAccount::Ftt(a) => WithdrawalOutcome::Payouts(a.make_withdrawal(amount)),
            PropAccount::Topstep(a) => if a.make_withdrawal(amount) == 1 {
                WithdrawalOutcome::AccountDepleted
            } else {
                WithdrawalOutcome::AccountOpen
            },
        }
    }

    pub fn get_current_balance(&self) -> (r: i64)
        ensures
            r == self.balance(),
    {
        match self {
            PropAccount::Ftt(a) => a.current_balance,
            PropAccount::Topstep(a) => a.current_balance,
        }
    }

    pub fn get_simulation_days(&self) -> (r: u64)
        ensures
            r == self.sim_days(),
    {
        match self {
            PropAccount::Ftt(a) => a.simulation_days,
            PropAccount::Topstep(a) => a.simulation_days,
        }
    }

    pub fn increment_simulation_day(&mut self)
        requires
            old(self).sim_days() < u64::MAX,
        ensures
            *final(self) == old(self).spec_next_day(),
    {
        match self {
            PropAccount::Ftt(a) => a.simulation_days = a.simulation_days + 1,
            PropAccount::Topstep(a) => a.simulation_days = a.simulation_days + 1,
        }
    }

    /// Purchase price of the account, in cents.
    pub fn get_cost(&self) -> (r: i64)
        ensures
            r == self.spec_cost(),
    {
        match self {
            PropAccount::Ftt(a) => a.account_type.get_cost(),
            PropAccount::Topstep(a) => a.account_type.get_cost(),
        }
    }

    /// Price of the funded account that follows a passed evaluation; zero for
    /// a program without one.
    pub fn get_funded_acct_cost(&self) -> (r: i64)
        ensures
            r == self.spec_funded_cost(),
    {
        match self {
            PropAccount::Ftt(_) => 0,
            PropAccount::Topstep(_) => TopstepAccountType::funded_acct_cost(),
        }
    }
}

/// What one trade can do to an account: only its balance moves, by the
/// amount booked, and an open account stays above the floor of its tier.
pub proof fn lemma_process_trade_frame(a: PropAccount, t: Trade)
    requires
        a.wf(),
        a.balance_in_range(),
        -TIER_LIMIT <= a.balance(),
        t.is_bounded(),
    ensures
        ({
            let (b, r) = a.spec_process_trade(t);
            &&& b.trade_frame(a)
            &&& b.wf()
            &&& b.sim_days() == a.sim_days()
            &&& b.max_day_profit() == a.max_day_profit()
            &&& b.payout_count() == a.payout_count()
            &&& (forall|d: int| b.counters_within(d) == a.counters_within(d))
            &&& b.spec_cost() == a.spec_cost()
            &&& b.spec_funded_cost() == a.spec_funded_cost()
            &&& match r {
                AccountStatus::Active(x) => {
                    &&& x == t.return_value
                    &&& b.balance() == a.balance() + x
                    &&& b.balance() >= -TIER_LIMIT
                    &&& b.in_evaluation() == a.in_evaluation()
                },
                AccountStatus::Blown(x) => {
                    &&& x == t.return_value || x == t.max_opposite_excursion
                    &&& b.balance() == a.balance() + x
                    &&& b.in_evaluation() == a.in_evaluation()
                },
                AccountStatus::PassedEval => {
                    &&& a.in_evaluation()
                    &&& !b.in_evaluation()
                    &&& 0 < b.balance()
                    &&& b.balance() <= a.balance() + MAX_TRADE_VALUE
                },
            }
        }),
{
}

/// What closing a day does to an account: the balance stays, the day count
/// and each day counter grow by at most one, and the best day is the better
/// of the old one and today's.
pub proof fn lemma_end_of_day_frame(a: PropAccount, pnl: i64)
    requires
        a.wf(),
        a.balance_in_range(),
        a.sim_days() < u64::MAX,
    ensures
        ({
            let b = a.spec_end_of_day(pnl).spec_next_day();
            &&& b.wf()
            &&& b.balance() == a.balance()
            &&& b.sim_days() == a.sim_days() + 1
            &&& b.in_evaluation() == a.in_evaluation()
            &&& b.payout_count() == a.payout_count()
            &&& b.spec_cost() == a.spec_cost()
            &&& b.spec_funded_cost() == a.spec_funded_cost()
            &&& (a.counters_within(a.sim_days() as int) ==> b.counters_within(b.sim_days() as int))
            &&& (b.max_day_profit() == a.max_day_profit() || b.max_day_profit() == pnl)
        }),
{
}

/// What a withdrawal can take, and what it leaves: the amount is between
/// zero and the balance, and the day counters restart.
pub proof fn lemma_withdrawal_frame(a: PropAccount)
    requires
        a.wf(),
        a.balance_in_range(),
        -TIER_LIMIT <= a.balance(),
        a.payout_count() < u8::MAX,
        a.spec_allowed_withdrawal() is Some,
    ensures
        ({
            let x = a.spec_allowed_withdrawal()->0;
            let (b, o) = a.spec_withdraw(x);
            &&& 0 <= x <= a.balance()
            &&& b.balance() == a.balance() - x
            &&& b.balance() >= 0
            &&& b.wf()
            &&& b.sim_days() == a.sim_days()
            &&& b.in_evaluation() == a.in_evaluation()
            &&& b.max_day_profit() == 0
            &&& (forall|d: int| d >= 0 && a.counters_within(d) ==> b.counters_within(d))
            &&& b.spec_cost() == a.spec_cost()
            &&& b.spec_funded_cost() == a.spec_funded_cost()
            &&& match o {
                WithdrawalOutcome::Payouts(n) => n == a.payout_count() + 1 && n == b.payout_count(),
                _ => b.payout_count() == 0,
            }
        }),
{
}

} // verus!
