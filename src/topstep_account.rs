use vstd::prelude::*;

use crate::prop_account::{min_int, AccountStatus, BALANCE_LIMIT, TIER_LIMIT};
use crate::trade_data::Trade;

verus! {

/// A funded day is a winning day when it makes at least this much, in cents.
pub const WINNING_DAY_TOPSTEP: i64 = 20_000;

/// The consistency rule of the program: no day above half the balance.
pub const TOPSTEP_CONSISTENCY_DIVISOR: i64 = 2;

/// One-time fee for the funded account once the evaluation is passed, in cents.
pub const XFA_COST: i64 = 14_900;

/// A funded account whose balance falls to this many cents is spent.
pub const DEPLETED_BALANCE: i64 = 1;

/// Lifetime winning days after which the whole balance may be withdrawn.
pub const TOTAL_WINNING_DAYS_FOR_FULL: u32 = 30;

/// Winning days since the last payout after which half may be withdrawn.
pub const WINNING_DAYS_FOR_HALF: u32 = 5;

/// The tiers of the evaluation-then-funded program.
#[derive(Clone, Copy, Debug, PartialEq, Eq)]
pub enum TopstepAccountType {
    Fifty,
    OneHundred,
    OneFifty,
}

/// The state of an account in the evaluation-then-funded program.
#[derive(Clone, Copy, Debug)]
pub struct TopstepAccount {
    pub current_balance: i64,
    /// Highest end-of-day balance so far.
    pub hwm_balance: i64,
    /// Balance that passes the evaluation; the loss threshold stops trailing
    /// once the high-water mark reaches it.
    pub profit_target: i64,
    /// Distance of the loss threshold below the high-water mark.
    pub drawdown: i64,
    /// The account is blown when the balance reaches this.
    pub loss_balance: i64,
    pub winning_days_since_last_payout: u32,
    pub total_winning_days: u32,
    /// Best funded day since the last payout.
    pub max_winning_day_profit: i64,
    pub passed_eval: bool,
    pub simulation_days: u64,
    pub account_type: TopstepAccountType,
}

/// Half of an amount, rounded toward zero.
pub open spec fn half_of(x: int) -> int {
    if x >= 0 { x / 2 } else { -((-x) / 2) }
}

impl TopstepAccountType {
    /// The rules of the tier, with a fresh account.
    pub open spec fn spec_initial(self) -> TopstepAccount {
        let (dd, target) = match self {
            TopstepAccountType::Fifty => (200_000i64, 300_000i64),
            TopstepAccountType::OneHundred => (300_000, 600_000),
            TopstepAccountType::OneFifty => (450_000, 900_000),
        };
        TopstepAccount {
            current_balance: 0,
            hwm_balance: 0,
            profit_target: target,
            drawdown: dd,
            loss_balance: (-dd) as i64,
            winning_days_since_last_payout: 0,
            total_winning_days: 0,
            max_winning_day_profit: 0,
            passed_eval: false,
            simulation_days: 0,
            account_type: self,
        }
    }

    pub open spec fn spec_cost(self) -> i64 {
        match self {
            TopstepAccountType::Fifty => 4_900,
            TopstepAccountType::OneHundred => 9_900,
            TopstepAccountType::OneFifty => 14_900,
        }
    }

    fn initialize_account(&self) -> (r: TopstepAccount)
        ensures
            r == self.spec_initial(),
    {
        let (dd, target) = match self {
            TopstepAccountType::Fifty => (200_000i64, 300_000i64),
            TopstepAccountType::OneHundred => (300_000, 600_000),
            TopstepAccountType::OneFifty => (450_000, 900_000),
        };
        TopstepAccount {
            current_balance: 0,
            hwm_balance: 0,
            profit_target: target,
            drawdown: dd,
            loss_balance: -dd,
            winning_days_since_last_payout: 0,
            total_winning_days: 0,
            max_winning_day_profit: 0,
            passed_eval: false,
            simulation_days: 0,
            account_type: *self,
        }
    }

    /// Purchase price of the tier's evaluation, in cents.
    pub fn get_cost(&self) -> (r: i64)
        ensures
            r == self.spec_cost(),
    {
        match self {
            TopstepAccountType::Fifty => 4_900,
            TopstepAccountType::OneHundred => 9_900,
            TopstepAccountType::OneFifty => 14_900,
        }
    }

    /// Price of the funded account, charged once the evaluation is passed.
    pub fn funded_acct_cost() -> (r: i64)
        ensures
            r == XFA_COST,
    {
        XFA_COST
    }
}

impl TopstepAccount {
    /// The account's invariant: the tier's amounts are in range, and the loss
    /// threshold trails the high-water mark by the drawdown, never above zero.
    pub open spec fn wf(self) -> bool {
        &&& 0 < self.drawdown <= TIER_LIMIT
        &&& 0 < self.profit_target <= TIER_LIMIT
        &&& 0 <= self.hwm_balance
        &&& self.loss_balance == min_int(self.hwm_balance - self.drawdown, 0)
        &&& 0 <= self.max_winning_day_profit
    }

    /// The balance is small enough for one more trade or withdrawal.
    pub open spec fn balance_in_range(self) -> bool {
        &&& -BALANCE_LIMIT <= self.current_balance <= BALANCE_LIMIT
        &&& -BALANCE_LIMIT <= self.max_winning_day_profit <= BALANCE_LIMIT
    }

    pub open spec fn with_balance(self, balance: int) -> TopstepAccount {
        TopstepAccount { current_balance: balance as i64, ..self }
    }

    /// The balance set to the profit target, with the evaluation passed.
    pub open spec fn passed(self) -> TopstepAccount {
        TopstepAccount { current_balance: self.profit_target, passed_eval: true, ..self }
    }

    /// One trade during the evaluation. A winner is checked against the loss
    /// threshold by its adverse excursion, a loser against the profit target
    /// by its favorable excursion.
    pub open spec fn spec_trade_on_combine(self, trade: Trade) -> (TopstepAccount, AccountStatus) {
        if trade.return_value > 0 {
            let low = self.current_balance + trade.max_opposite_excursion;
            let after = self.current_balance + trade.return_value;
            if low <= self.loss_balance {
                (self.with_balance(low), AccountStatus::Blown(trade.max_opposite_excursion))
            } else if after >= self.profit_target {
                (self.passed(), AccountStatus::PassedEval)
            } else {
                (self.with_balance(after), AccountStatus::Active(trade.return_value))
            }
        } else {
            let after = self.current_balance + trade.return_value;
            if after <= self.loss_balance {
                (self.with_balance(after), AccountStatus::Blown(trade.return_value))
            } else if self.current_balance + trade.max_opposite_excursion >= self.profit_target {
                (self.passed(), AccountStatus::PassedEval)
            } else {
                (self.with_balance(after), AccountStatus::Active(trade.return_value))
            }
        }
    }

    /// One trade on the funded account.
    pub open spec fn spec_trade_on_account(self, trade: Trade) -> (TopstepAccount, AccountStatus) {
        if trade.return_value > 0 {
            let low = self.current_balance + trade.max_opposite_excursion;
            if low <= self.loss_balance {
                (self.with_balance(low), AccountStatus::Blown(trade.max_opposite_excursion))
            } else {
                (
                    self.with_balance(self.current_balance + trade.return_value),
                    AccountStatus::Active(trade.return_value),
                )
            }
        } else {
            let after = self.current_balance + trade.return_value;
            if after <= self.loss_balance {
                (self.with_balance(after), AccountStatus::Blown(trade.return_value))
            } else {
                (self.with_balance(after), AccountStatus::Active(trade.return_value))
            }
        }
    }

    pub open spec fn spec_trade(self, trade: Trade) -> (TopstepAccount, AccountStatus) {
        if !self.passed_eval {
            self.spec_trade_on_combine(trade)
        } else {
            self.spec_trade_on_account(trade)
        }
    }

    pub open spec fn spec_update_loss_balance(self) -> TopstepAccount {
        if self.hwm_balance < self.profit_target && self.current_balance > self.hwm_balance {
            TopstepAccount {
                loss_balance: min_int(self.current_balance - self.drawdown, 0) as i64,
                hwm_balance: self.current_balance,
                ..self
            }
        } else {
            self
        }
    }

    /// Funded days of at least the winning amount count as winning days.
    pub open spec fn spec_add_trading_day(self, daily_pnl: i64) -> TopstepAccount {
        if self.passed_eval {
            let win = daily_pnl >= WINNING_DAY_TOPSTEP;
            TopstepAccount {
                total_winning_days: if win {
                    (self.total_winning_days + 1) as u32
                } else {
                    self.total_winning_days
                },
                winning_days_since_last_payout: if win {
                    (self.winning_days_since_last_payout + 1) as u32
                } else {
                    self.winning_days_since_last_payout
                },
                max_winning_day_profit: if daily_pnl > self.max_winning_day_profit {
                    daily_pnl
                } else {
                    self.max_winning_day_profit
                },
                ..self
            }
        } else {
            self
        }
    }

    pub open spec fn spec_end_of_day(self, daily_pnl: i64) -> TopstepAccount {
        self.spec_update_loss_balance().spec_add_trading_day(daily_pnl)
    }

    pub open spec fn spec_consistent(self) -> bool {
        TOPSTEP_CONSISTENCY_DIVISOR * self.max_winning_day_profit <= self.current_balance
    }

    /// Nothing while the best day since the last payout made more than half
    /// the balance; otherwise the whole balance after thirty lifetime winning
    /// days, else half of it after five winning days since the last payout,
    /// else nothing.
    pub open spec fn spec_allowed_withdrawal(self) -> Option<i64> {
        if !self.spec_consistent() {
            None
        } else if self.total_winning_days >= TOTAL_WINNING_DAYS_FOR_FULL {
            Some(self.current_balance)
        } else if self.winning_days_since_last_payout >= WINNING_DAYS_FOR_HALF {
            Some(half_of(self.current_balance as int) as i64)
        } else {
            None
        }
    }

    pub open spec fn spec_withdraw(self, amount: i64) -> TopstepAccount {
        TopstepAccount {
            current_balance: (self.current_balance - amount) as i64,
            max_winning_day_profit: 0,
            winning_days_since_last_payout: 0,
            ..self
        }
    }

    pub fn new(account_type: TopstepAccountType) -> (r: TopstepAccount)
        ensures
            r == account_type.spec_initial(),
            r.wf(),
            r.balance_in_range(),
    {
        account_type.initialize_account()
    }

    pub fn trade_on_combine(&mut self, trade: &Trade) -> (r: AccountStatus)
        requires
            old(self).wf(),
            old(self).balance_in_range(),
            trade.is_bounded(),
        ensures
            (*final(self), r) == old(self).spec_trade_on_combine(*trade),
            trade.return_value > 0 && old(self).current_balance + trade.max_opposite_excursion
                <= old(self).loss_balance ==> r == AccountStatus::Blown(trade.max_opposite_excursion)
                && final(self).current_balance == old(self).current_balance
                + trade.max_opposite_excursion,
    {
        if trade.return_value > 0 {
            if self.current_balance + trade.max_opposite_excursion <= self.loss_balance {
                // the trade closed as a winner, but its excursion breached first
                self.current_balance = self.current_balance + trade.max_opposite_excursion;
                AccountStatus::Blown(trade.max_opposite_excursion)
            } else {
                self.current_balance = self.current_balance + trade.return_value;
                if self.current_balance >= self.profit_target {
                    self.current_balance = self.profit_target;
                    self.passed_eval = true;
                    return AccountStatus::PassedEval;
                }
                AccountStatus::Active(trade.return_value)
            }
        } else {
            if self.current_balance + trade.return_value <= self.loss_balance {
                self.current_balance = self.current_balance + trade.return_value;
                AccountStatus::Blown(trade.return_value)
            } else if self.current_balance + trade.max_opposite_excursion >= self.profit_target {
                self.current_balance = self.profit_target;
                self.passed_eval = true;
                AccountStatus::PassedEval
            } else {
                self.current_balance = self.current_balance + trade.return_value;
                AccountStatus::Active(trade.return_value)
            }
        }
    }

    pub fn trade_on_account(&mut self, trade: &Trade) -> (r: AccountStatus)
        requires
            old(self).balance_in_range(),
            trade.is_bounded(),
        ensures
            (*final(self), r) == old(self).spec_trade_on_account(*trade),
            trade.return_value > 0 && old(self).current_balance + trade.max_opposite_excursion
                <= old(self).loss_balance ==> r == AccountStatus::Blown(trade.max_opposite_excursion)
                && final(self).current_balance == old(self).current_balance
                + trade.max_opposite_excursion,
    {
        if trade.return_value > 0 {
            if self.current_balance + trade.max_opposite_excursion <= self.loss_balance {
                self.current_balance = self.current_balance + trade.max_opposite_excursion;
                AccountStatus::Blown(trade.max_opposite_excursion)
            } else {
                self.current_balance = self.current_balance + trade.return_value;
                AccountStatus::Active(trade.return_value)
            }
        } else {
            self.current_balance = self.current_balance + trade.return_value;
            if self.current_balance <= self.loss_balance {
                AccountStatus::Blown(trade.return_value)
            } else {
                AccountStatus::Active(trade.return_value)
            }
        }
    }

    /// Trails the loss threshold up to a new high-water mark, until the mark
    /// reaches the profit target.
    pub fn update_loss_balance(&mut self)
        requires
            old(self).wf(),
            old(self).balance_in_range(),
        ensures
            *final(self) == old(self).spec_update_loss_balance(),
            final(self).wf(),
            final(self).loss_balance >= old(self).loss_balance,
            final(self).loss_balance <= 0,
    {
        if self.hwm_balance < self.profit_target {
            if self.current_balance > self.hwm_balance {
                self.loss_balance = self.current_balance - self.drawdown;
                if self.loss_balance > 0 {
                    self.loss_balance = 0;
                }
                self.hwm_balance = self.current_balance;
            }
        }
    }

    pub fn passes_consistency_rule(&self) -> (r: bool)
        requires
            self.balance_in_range(),
        ensures
            r == self.spec_consistent(),
    {
        TOPSTEP_CONSISTENCY_DIVISOR * self.max_winning_day_profit <= self.current_balance
    }

    pub fn allowed_withdrawal_amount(&self) -> (r: Option<i64>)
        requires
            self.balance_in_range(),
        ensures
            r == self.spec_allowed_withdrawal(),
    {
        if !self.passes_consistency_rule() {
            return None;
        }
        if self.total_winning_days >= TOTAL_WINNING_DAYS_FOR_FULL {
            Some(self.current_balance)
        } else if self.winning_days_since_last_payout >= WINNING_DAYS_FOR_HALF {
            if self.current_balance >= 0 {
                Some(self.current_balance / 2)
            } else {
                Some(-((-self.current_balance) / 2))
            }
        } else {
            None
        }
    }

    /// Books a payout; returns 1 when it drained the account, else 0.
    pub fn make_withdrawal(&mut self, amount: i64) -> (r: u8)
        requires
            old(self).balance_in_range(),
            -BALANCE_LIMIT <= amount <= BALANCE_LIMIT,
        ensures
            *final(self) == old(self).spec_withdraw(amount),
            r == (if final(self).current_balance <= DEPLETED_BALANCE { 1u8 } else { 0u8 }),
    {
        self.current_balance = self.current_balance - amount;
        // the consistency tracker restarts with every payout
        self.max_winning_day_profit = 0;
        self.winning_days_since_last_payout = 0;
        if self.current_balance <= DEPLETED_BALANCE {
            1
        } else {
            0
        }
    }

    /// Applies one trade: by the evaluation's rule until it is passed, by
    /// the funded rule after. Passing is one-way and reported once.
    pub fn process_trade(&mut self, trade: &Trade) -> (r: AccountStatus)
        requires
            old(self).wf(),
            old(self).balance_in_range(),
            trade.is_bounded(),
        ensures
            (*final(self), r) == old(self).spec_trade(*trade),
            r == AccountStatus::PassedEval ==> !old(self).passed_eval && final(self).passed_eval,
            old(self).passed_eval ==> final(self).passed_eval && r != AccountStatus::PassedEval,
            final(self).passed_eval == (old(self).passed_eval || r == AccountStatus::PassedEval),
    {
        if !self.passed_eval {
            self.trade_on_combine(trade)
        } else {
            self.trade_on_account(trade)
        }
    }

    pub fn update_end_of_day(&mut self, daily_pnl: i64)
        requires
            old(self).wf(),
            old(self).balance_in_range(),
            old(self).total_winning_days < u32::MAX,
            old(self).winning_days_since_last_payout < u32::MAX,
        ensures
            *final(self) == old(self).spec_end_of_day(daily_pnl),
            final(self).wf(),
    {
        self.update_loss_balance();
        self.try_add_trading_day(daily_pnl);
    }

    pub fn try_add_trading_day(&mut self, daily_pnl: i64)
        requires
            old(self).total_winning_days < u32::MAX,
            old(self).winning_days_since_last_payout < u32::MAX,
        ensures
            *final(self) == old(self).spec_add_trading_day(daily_pnl),
    {
        if self.passed_eval {
            if daily_pnl >= WINNING_DAY_TOPSTEP {
                self.total_winning_days = self.total_winning_days + 1;
                self.winning_days_since_last_payout = self.winning_days_since_last_payout + 1;
            }
            if daily_pnl > self.max_winning_day_profit {
                self.max_winning_day_profit = daily_pnl;
            }
        }
    }
}

/// How many of `trades`, applied in order to the account, pass its
/// evaluation.
pub open spec fn passes_in(a: TopstepAccount, trades: Seq<Trade>) -> nat
    decreases trades.len(),
{
    if trades.len() == 0 {
        0
    } else {
        let (b, r) = a.spec_trade(trades[0]);
        (if r == AccountStatus::PassedEval {
            1nat
        } else {
            0nat
        }) + passes_in(b, trades.drop_first())
    }
}

/// Passing the evaluation is one-way: over any run of trades it happens at
/// most once, and never on an account that has already passed.
pub proof fn lemma_evaluation_passed_at_most_once(a: TopstepAccount, trades: Seq<Trade>)
    ensures
        passes_in(a, trades) <= 1,
        a.passed_eval ==> passes_in(a, trades) == 0,
    decreases trades.len(),
{
    if trades.len() > 0 {
        let (b, r) = a.spec_trade(trades[0]);
        lemma_evaluation_passed_at_most_once(b, trades.drop_first());
    }
}

/// Once a trade has passed the evaluation, every later trade is applied by
/// the funded account's rule, never by the evaluation's.
pub proof fn lemma_funded_rule_after_passing(a: TopstepAccount, t: Trade, u: Trade)
    requires
        a.spec_trade(t).1 == AccountStatus::PassedEval,
    ensures
        a.spec_trade(t).0.passed_eval,
        a.spec_trade(t).0.spec_trade(u) == a.spec_trade(t).0.spec_trade_on_account(u),
        a.spec_trade(t).0.spec_trade(u).1 != AccountStatus::PassedEval,
{
}

} // verus!
