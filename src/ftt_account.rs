use vstd::prelude::*;

use crate::prop_account::{min_int, AccountStatus, BALANCE_LIMIT, TIER_LIMIT};
use crate::trade_data::Trade;

verus! {

/// A payout is refused while the best single day since the last payout made
/// more than a fifth of the balance.
pub const FTT_CONSISTENCY_DIVISOR: i64 = 5;

/// Qualifying trading days needed since the last payout before a withdrawal.
pub const FTT_MIN_TRADING_DAYS: u64 = 10;

/// Payouts after this many are capped by the larger cap.
pub const FTT_FIRST_PAYOUTS: u8 = 8;

/// The band of daily results that does not count as a real trading day.
#[derive(Clone, Copy, Debug, PartialEq, Eq)]
pub struct RealTradingDay {
    pub min_win: i64,
    pub min_loss: i64,
}

impl RealTradingDay {
    pub fn new(min_loss: i64, min_win: i64) -> (r: RealTradingDay)
        ensures
            r.min_loss == min_loss,
            r.min_win == min_win,
    {
        RealTradingDay { min_win, min_loss }
    }

    pub open spec fn spec_was_rtd(self, daily_return: int) -> bool {
        daily_return > self.min_win || daily_return < self.min_loss
    }

    /// Whether a day with this result counts toward the trading days.
    pub fn was_rtd(&self, daily_return: i64) -> (r: bool)
        ensures
            r == self.spec_was_rtd(daily_return as int),
    {
        (daily_return > self.min_win) || (daily_return < self.min_loss)
    }
}

/// Largest single payout: one cap for the first payouts, another after.
#[derive(Clone, Copy, Debug, PartialEq, Eq)]
pub struct PayoutCap {
    pub first_8_payouts: i64,
    pub payouts_9_to_12: i64,
}

/// The tiers of the drawdown-style program.
#[derive(Clone, Copy, Debug, PartialEq, Eq)]
pub enum FttAccountType {
    Rally,
    Daytona,
    GT,
    LeMans,
}

/// The state of an account in the drawdown-style program.
#[derive(Clone, Copy, Debug)]
pub struct FttAccount {
    pub current_balance: i64,
    /// Highest end-of-day balance so far.
    pub hwm_balance: i64,
    /// Distance of the loss threshold below the high-water mark; the
    /// threshold stops trailing once the mark reaches it.
    pub drawdown: i64,
    /// The account is blown when the balance falls below this.
    pub loss_balance: i64,
    pub payout_cap: PayoutCap,
    pub real_trading_day: RealTradingDay,
    pub payout_count: u8,
    pub min_balance_to_withdraw_first_payout: i64,
    pub min_balance_to_withdraw_subsequent_payouts: i64,
    pub min_balance_after_withdrawal: i64,
    /// Best daily result since the last payout.
    pub max_winning_day_profit: i64,
    /// Real trading days since the last payout.
    pub trading_days: u64,
    pub simulation_days: u64,
    pub account_type: FttAccountType,
}

impl FttAccountType {
    /// The rules of the tier, with a fresh account.
    pub open spec fn spec_initial(self) -> FttAccount {
        let (dd, cap1, cap2, min_loss, min_win, first, later, after) = match self {
            FttAccountType::Rally => (125_000i64, 150_000i64, 300_000i64, -6_250i64, 6_250i64, 150_000i64, 150_000i64, 125_000i64),
            FttAccountType::Daytona => (250_000, 200_000, 400_000, -12_500i64, 12_500, 275_000, 275_000, 250_000),
            FttAccountType::GT => (750_000, 300_000, 600_000, -18_750i64, 37_500, 750_000, 475_000, 450_000),
            FttAccountType::LeMans => (1_500_000, 400_000, 800_000, -30_000i64, 60_000, 1_500_000, 1_125_000, 1_100_000),
        };
        FttAccount {
            current_balance: 0,
            hwm_balance: 0,
            drawdown: dd,
            loss_balance: (-dd) as i64,
            payout_cap: PayoutCap { first_8_payouts: cap1, payouts_9_to_12: cap2 },
            real_trading_day: RealTradingDay { min_win, min_loss },
            payout_count: 0,
            min_balance_to_withdraw_first_payout: first,
            min_balance_to_withdraw_subsequent_payouts: later,
            min_balance_after_withdrawal: after,
            max_winning_day_profit: 0,
            trading_days: 0,
            simulation_days: 0,
            account_type: self,
        }
    }

    pub open spec fn spec_cost(self) -> i64 {
        match self {
            FttAccountType::Rally => 17_900,
            FttAccountType::Daytona => 44_900,
            FttAccountType::GT => 59_900,
            FttAccountType::LeMans => 79_900,
        }
    }

    fn initialize_account(&self) -> (r: FttAccount)
        ensures
            r == self.spec_initial(),
    {
        let (dd, cap1, cap2, min_loss, min_win, first, later, after) = match self {
            FttAccountType::Rally => (125_000i64, 150_000i64, 300_000i64, -6_250i64, 6_250i64, 150_000i64, 150_000i64, 125_000i64),
            FttAccountType::Daytona => (250_000, 200_000, 400_000, -12_500, 12_500, 275_000, 275_000, 250_000),
            FttAccountType::GT => (750_000, 300_000, 600_000, -18_750, 37_500, 750_000, 475_000, 450_000),
            FttAccountType::LeMans => (1_500_000, 400_000, 800_000, -30_000, 60_000, 1_500_000, 1_125_000, 1_100_000),
        };
        FttAccount {
            current_balance: 0,
            hwm_balance: 0,
            drawdown: dd,
            loss_balance: -dd,
            payout_cap: PayoutCap { first_8_payouts: cap1, payouts_9_to_12: cap2 },
            real_trading_day: RealTradingDay::new(min_loss, min_win),
            payout_count: 0,
            min_balance_to_withdraw_first_payout: first,
            min_balance_to_withdraw_subsequent_payouts: later,
            min_balance_after_withdrawal: after,
            max_winning_day_profit: 0,
            trading_days: 0,
            simulation_days: 0,
            account_type: *self,
        }
    }

    /// Purchase price of the tier, in cents.
    pub fn get_cost(&self) -> (r: i64)
        ensures
            r == self.spec_cost(),
    {
        match self {
            FttAccountType::Rally => 17_900,
            FttAccountType::Daytona => 44_900,
            FttAccountType::GT => 59_900,
            FttAccountType::LeMans => 79_900,
        }
    }
}

impl FttAccount {
    /// The account's invariant: the tier's amounts are in range, a payout is
    /// allowed only from a balance at or above what it must leave, the caps
    /// are positive, and the loss threshold trails the high-water mark by the
    /// drawdown, never above zero.
    pub open spec fn wf(self) -> bool {
        &&& 0 < self.drawdown <= TIER_LIMIT
        &&& 0 <= self.hwm_balance
        &&& self.loss_balance == min_int(self.hwm_balance - self.drawdown, 0)
        &&& 0 <= self.min_balance_after_withdrawal <= TIER_LIMIT
        &&& self.min_balance_after_withdrawal <= self.min_balance_to_withdraw_first_payout
            <= TIER_LIMIT
        &&& self.min_balance_after_withdrawal <= self.min_balance_to_withdraw_subsequent_payouts
            <= TIER_LIMIT
        &&& 0 < self.payout_cap.first_8_payouts <= TIER_LIMIT
        &&& 0 < self.payout_cap.payouts_9_to_12 <= TIER_LIMIT
    }

    /// The balance is small enough for one more trade or withdrawal.
    pub open spec fn balance_in_range(self) -> bool {
        &&& -BALANCE_LIMIT <= self.current_balance <= BALANCE_LIMIT
        &&& -BALANCE_LIMIT <= self.max_winning_day_profit <= BALANCE_LIMIT
    }

    pub open spec fn with_balance(self, balance: int) -> FttAccount {
        FttAccount { current_balance: balance as i64, ..self }
    }

    /// Applying one trade. A winner is checked against the threshold by its
    /// adverse excursion first; anything else by its return.
    pub open spec fn spec_trade(self, trade: Trade) -> (FttAccount, AccountStatus) {
        if trade.return_value > 0 {
            let low = self.current_balance + trade.max_opposite_excursion;
            if low < self.loss_balance {
                (self.with_balance(low), AccountStatus::Blown(trade.max_opposite_excursion))
            } else {
                (
                    self.with_balance(self.current_balance + trade.return_value),
                    AccountStatus::Active(trade.return_value),
                )
            }
        } else {
            let after = self.current_balance + trade.return_value;
            if after < self.loss_balance {
                (self.with_balance(after), AccountStatus::Blown(trade.return_value))
            } else {
                (self.with_balance(after), AccountStatus::Active(trade.return_value))
            }
        }
    }

    /// End-of-day trailing of the loss threshold.
    pub open spec fn spec_update_loss_balance(self) -> FttAccount {
        if self.hwm_balance < self.drawdown && self.current_balance > self.hwm_balance {
            FttAccount {
                loss_balance: min_int(self.current_balance - self.drawdown, 0) as i64,
                hwm_balance: self.current_balance,
                ..self
            }
        } else {
            self
        }
    }

    /// End-of-day bookkeeping of the day counters.
    pub open spec fn spec_add_trading_day(self, daily_pnl: i64) -> FttAccount {
        FttAccount {
            trading_days: if self.real_trading_day.spec_was_rtd(daily_pnl as int) {
                (self.trading_days + 1) as u64
            } else {
                self.trading_days
            },
            max_winning_day_profit: if daily_pnl > self.max_winning_day_profit {
                daily_pnl
            } else {
                self.max_winning_day_profit
            },
            ..self
        }
    }

    pub open spec fn spec_end_of_day(self, daily_pnl: i64) -> FttAccount {
        self.spec_update_loss_balance().spec_add_trading_day(daily_pnl)
    }

    /// No single day since the last payout made more than a fifth of the
    /// balance.
    pub open spec fn spec_consistent(self) -> bool {
        FTT_CONSISTENCY_DIVISOR * self.max_winning_day_profit <= self.current_balance
    }

    /// What may be withdrawn now: nothing before ten real trading days, nor
    /// below the tier's minimum balance, nor when the consistency rule fails;
    /// otherwise what lies above the minimum balance after withdrawal, up to
    /// the cap for the payout's rank.
    pub open spec fn spec_allowed_withdrawal(self) -> Option<i64> {
        let min_balance = if self.payout_count == 0 {
            self.min_balance_to_withdraw_first_payout
        } else {
            self.min_balance_to_withdraw_subsequent_payouts
        };
        let cap = if self.payout_count + 1 > FTT_FIRST_PAYOUTS {
            self.payout_cap.payouts_9_to_12
        } else {
            self.payout_cap.first_8_payouts
        };
        let above = self.current_balance - self.min_balance_after_withdrawal;
        if self.trading_days >= FTT_MIN_TRADING_DAYS && self.current_balance >= min_balance
            && self.spec_consistent() {
            Some(if above > cap { cap } else { above as i64 })
        } else {
            None
        }
    }

    pub open spec fn spec_withdraw(self, amount: i64) -> FttAccount {
        FttAccount {
            current_balance: (self.current_balance - amount) as i64,
            max_winning_day_profit: 0,
            trading_days: 0,
            payout_count: (self.payout_count + 1) as u8,
            ..self
        }
    }

    pub fn new(account_type: FttAccountType) -> (r: FttAccount)
        ensures
            r == account_type.spec_initial(),
            r.wf(),
            r.balance_in_range(),
    {
        account_type.initialize_account()
    }

    pub fn trade_on_account(&mut self, trade: &Trade) -> (r: AccountStatus)
        requires
            old(self).balance_in_range(),
            trade.is_bounded(),
        ensures
            (*final(self), r) == old(self).spec_trade(*trade),
            trade.return_value > 0 && old(self).current_balance + trade.max_opposite_excursion
                < old(self).loss_balance ==> r == AccountStatus::Blown(trade.max_opposite_excursion)
                && final(self).current_balance == old(self).current_balance
                + trade.max_opposite_excursion,
    {
        if trade.return_value > 0 {
            if self.current_balance + trade.max_opposite_excursion < self.loss_balance {
                // the trade closed as a winner, but its excursion breached first
                self.current_balance = self.current_balance + trade.max_opposite_excursion;
                AccountStatus::Blown(trade.max_opposite_excursion)
            } else {
                self.current_balance = self.current_balance + trade.return_value;
                AccountStatus::Active(trade.return_value)
            }
        } else {
            if self.current_balance + trade.return_value < self.loss_balance {
                self.current_balance = self.current_balance + trade.return_value;
                AccountStatus::Blown(trade.return_value)
            } else {
                self.current_balance = self.current_balance + trade.return_value;
                AccountStatus::Active(trade.return_value)
            }
        }
    }

    /// Trails the loss threshold up to a new high-water mark, until the mark
    /// reaches the drawdown.
    pub fn update_loss_balance(&mut self)
        requires
            old(self).wf(),
            old(self).balance_in_range(),
        ensures
            *final(self) == old(self).spec_update_loss_balance(),
            final(self).wf(),
            final(self).loss_balance >= old(self).loss_balance,
            final(self).loss_balance <= 0,
    {
        if self.hwm_balance < self.drawdown {
            if self.current_balance > self.hwm_balance {
                self.loss_balance = self.current_balance - self.drawdown;
                if self.loss_balance > 0 {
                    self.loss_balance = 0;
                }
                self.hwm_balance = self.current_balance;
            }
        }
    }

    pub fn passes_consistency_rule(&self) -> (r: bool)
        requires
            self.balance_in_range(),
        ensures
            r == self.spec_consistent(),
    {
        FTT_CONSISTENCY_DIVISOR * self.max_winning_day_profit <= self.current_balance
    }

    pub fn allowed_withdrawal_amount(&self) -> (r: Option<i64>)
        requires
            self.wf(),
            self.balance_in_range(),
        ensures
            r == self.spec_allowed_withdrawal(),
            r is Some ==> self.trading_days >= FTT_MIN_TRADING_DAYS && self.spec_consistent(),
            r is Some ==> 0 <= r->0 <= TIER_LIMIT,
            r is Some ==> self.current_balance - r->0 >= self.min_balance_after_withdrawal,
    {
        if self.trading_days >= FTT_MIN_TRADING_DAYS {
            if self.payout_count == 0 {
                if self.current_balance >= self.min_balance_to_withdraw_first_payout
                    && self.passes_consistency_rule() {
                    if self.current_balance - self.min_balance_after_withdrawal
                        > self.payout_cap.first_8_payouts {
                        return Some(self.payout_cap.first_8_payouts);
                    }
                    return Some(self.current_balance - self.min_balance_after_withdrawal);
                }
            } else {
                if self.current_balance >= self.min_balance_to_withdraw_subsequent_payouts
                    && self.passes_consistency_rule() {
                    if self.payout_count as u64 + 1 > FTT_FIRST_PAYOUTS as u64 {
                        if self.current_balance - self.min_balance_after_withdrawal
                            > self.payout_cap.payouts_9_to_12 {
                            return Some(self.payout_cap.payouts_9_to_12);
                        }
                    } else {
                        if self.current_balance - self.min_balance_after_withdrawal
                            > self.payout_cap.first_8_payouts {
                            return Some(self.payout_cap.first_8_payouts);
                        }
                    }
                    return Some(self.current_balance - self.min_balance_after_withdrawal);
                }
            }
        }
        None
    }

    /// Books a payout; returns the number of payouts made so far.
    pub fn make_withdrawal(&mut self, amount: i64) -> (r: u8)
        requires
            old(self).balance_in_range(),
            -BALANCE_LIMIT <= amount <= BALANCE_LIMIT,
            old(self).payout_count < u8::MAX,
        ensures
            *final(self) == old(self).spec_withdraw(amount),
            r == final(self).payout_count,
            r == old(self).payout_count + 1,
    {
        self.current_balance = self.current_balance - amount;
        // the consistency tracker restarts with every payout
        self.max_winning_day_profit = 0;
        self.trading_days = 0;
        self.payout_count = self.payout_count + 1;
        self.payout_count
    }

    pub fn process_trade(&mut self, trade: &Trade) -> (r: AccountStatus)
        requires
            old(self).balance_in_range(),
            trade.is_bounded(),
        ensures
            (*final(self), r) == old(self).spec_trade(*trade),
    {
        self.trade_on_account(trade)
    }

    pub fn update_end_of_day(&mut self, daily_pnl: i64)
        requires
            old(self).wf(),
            old(self).balance_in_range(),
            old(self).trading_days < u64::MAX,
        ensures
            *final(self) == old(self).spec_end_of_day(daily_pnl),
            final(self).wf(),
    {
        self.update_loss_balance();
        self.try_add_trading_day(daily_pnl);
    }

    pub fn try_add_trading_day(&mut self, daily_pnl: i64)
        requires
            old(self).trading_days < u64::MAX,
        ensures
            *final(self) == old(self).spec_add_trading_day(daily_pnl),
    {
        if self.real_trading_day.was_rtd(daily_pnl) {
            self.trading_days = self.trading_days + 1;
        }
        if daily_pnl > self.max_winning_day_profit {
            self.max_winning_day_profit = daily_pnl;
        }
    }
}

} // verus!
