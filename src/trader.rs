use vstd::prelude::*;

use crate::prop_account::{
    create_account, lemma_end_of_day_frame, lemma_process_trade_frame, lemma_withdrawal_frame,
    AccountStatus, AccountType, PropAccount, WithdrawalOutcome, TIER_LIMIT,
};
use crate::trade_data::{Trade, MAX_TRADE_VALUE};

verus! {

/// Most trades that one simulated day may hold.
pub const MAX_TRADES_IN_DAY: usize = 1000;

/// Most days that one trial may simulate.
pub const MAX_SIMULATION_DAYS: u64 = 100_000;

/// Most that a full day of trades can move a balance, in cents.
pub const DAY_SWING: i64 = 10_000_000_000;

/// Largest magnitude, in cents, of a trial's final bank balance.
pub const BANK_LIMIT: i64 = 2_000_000_000_000_000;

/// The trader's real-world cash: minus the purchase, plus the payouts.
#[derive(Clone, Copy, Debug, PartialEq, Eq)]
pub struct BankAccount {
    pub balance: i64,
}

/// How a trial ended.
#[derive(Clone, Copy, Debug, PartialEq, Eq, Hash)]
pub enum EndOfGame {
    Busted,
    TimeOut,
    MaxPayouts,
}

/// Which daily boundary, if any, a trade reached.
#[derive(Clone, Copy, Debug, PartialEq, Eq)]
pub enum DailyStopTPStatus {
    StopHit,
    TPHit,
    Neither,
}

/// How the trades of a day ended, before the end-of-day bookkeeping.
#[derive(Clone, Copy, Debug, PartialEq, Eq)]
pub enum DayEnd {
    /// The trades ran out, or a limit closed the day.
    Closed,
    /// A trade blew the account.
    Blown,
    /// A trade passed the evaluation.
    Passed,
}

#[derive(Clone, Copy, Debug, PartialEq, Eq)]
pub struct TradingDayResult {
    pub end_of_game: Option<EndOfGame>,
}

/// A trader with a bank ledger and one account, and the limits it trades by.
#[derive(Clone, Copy, Debug)]
pub struct Trader {
    pub bank_account: BankAccount,
    pub prop_account: PropAccount,
    pub max_trades_per_day: Option<u64>,
    /// Positive when set: the day stops once its profit reaches it.
    pub daily_profit_target: Option<i64>,
    /// Negative when set: the day stops once its loss reaches it.
    pub daily_stop_loss: Option<i64>,
    pub max_simulation_days: u64,
    pub max_payouts: u8,
}

/// A fresh trader: the account bought, its price debited from the ledger.
pub open spec fn spec_new_trader(
    account_type: AccountType,
    max_trades_per_day: Option<u64>,
    daily_profit_target: Option<i64>,
    daily_stop_loss: Option<i64>,
    max_simulation_days: u64,
    max_payouts: u8,
) -> Trader {
    Trader {
        bank_account: BankAccount { balance: (-account_type.spec_initial().spec_cost()) as i64 },
        prop_account: account_type.spec_initial(),
        max_trades_per_day,
        daily_profit_target,
        daily_stop_loss,
        max_simulation_days,
        max_payouts,
    }
}

/// Limits that a trader may be given.
pub open spec fn limits_valid(
    daily_profit_target: Option<i64>,
    daily_stop_loss: Option<i64>,
    max_simulation_days: u64,
) -> bool {
    &&& 1 <= max_simulation_days <= MAX_SIMULATION_DAYS
    &&& daily_limits_valid(daily_profit_target, daily_stop_loss)
}

/// A daily target, when set, is positive; a daily stop, when set, is
/// negative; neither lies beyond what a day can reach.
pub open spec fn daily_limits_valid(daily_profit_target: Option<i64>, daily_stop_loss: Option<i64>) -> bool {
    &&& daily_profit_target matches Some(p) ==> 0 < p <= DAY_SWING
    &&& daily_stop_loss matches Some(s) ==> -DAY_SWING <= s < 0
}

impl Trader {
    /// How far the trial has come: one step per simulated day, and one for
    /// passing an evaluation.
    pub open spec fn stage(self) -> int {
        self.prop_account.sim_days() + if self.prop_account.in_evaluation() {
            0int
        } else {
            1int
        }
    }

    /// Bounds on the two balances that grow by at most a day's swing per stage.
    pub open spec fn books_bounded(self) -> bool {
        let a = self.prop_account.balance() as int;
        let b = self.bank_account.balance as int;
        &&& -TIER_LIMIT <= a
        &&& a + b <= self.stage() * DAY_SWING
        &&& -(self.stage() + 1) * DAY_SWING <= b
        &&& -DAY_SWING <= self.prop_account.max_day_profit() <= DAY_SWING
    }

    /// The two traders trade by the same limits.
    pub open spec fn same_limits(self, other: Trader) -> bool {
        &&& self.max_trades_per_day == other.max_trades_per_day
        &&& self.daily_profit_target == other.daily_profit_target
        &&& self.daily_stop_loss == other.daily_stop_loss
        &&& self.max_simulation_days == other.max_simulation_days
        &&& self.max_payouts == other.max_payouts
    }

    /// The trader's invariant between days of a running trial.
    pub open spec fn wf(self) -> bool {
        &&& limits_valid(self.daily_profit_target, self.daily_stop_loss, self.max_simulation_days)
        &&& self.prop_account.wf()
        &&& self.books_bounded()
        &&& self.prop_account.sim_days() < self.max_simulation_days
        &&& self.prop_account.counters_within(self.prop_account.sim_days() as int)
        &&& self.prop_account.payout_count() == 0 || self.prop_account.payout_count()
            < self.max_payouts
    }

    /// A trade clipped against the daily stop and target, given the day's
    /// result before it. A trade that would carry the day past a boundary,
    /// by its return or by its excursion, books exactly the rest of the way
    /// to it.
    pub open spec fn spec_clip(self, trade: Trade, pnl: int) -> (Trade, DailyStopTPStatus) {
        let rv = trade.return_value;
        let ex = trade.max_opposite_excursion;
        if self.daily_stop_loss is Some && (rv + pnl <= self.daily_stop_loss->0 || ex + pnl
            <= self.daily_stop_loss->0) {
            (
                Trade { return_value: (self.daily_stop_loss->0 - pnl) as i64, ..trade },
                DailyStopTPStatus::StopHit,
            )
        } else if self.daily_profit_target is Some && rv + pnl >= self.daily_profit_target->0 {
            (
                Trade { return_value: (self.daily_profit_target->0 - pnl) as i64, ..trade },
                DailyStopTPStatus::TPHit,
            )
        } else if self.daily_profit_target is Some && ex + pnl >= self.daily_profit_target->0 {
            (
                Trade {
                    return_value: (self.daily_profit_target->0 - pnl) as i64,
                    max_opposite_excursion: rv,
                },
                DailyStopTPStatus::TPHit,
            )
        } else {
            (trade, DailyStopTPStatus::Neither)
        }
    }

    /// The trades of a day from the `i`-th on, with the account, the day's
    /// result and the trades as clipped so far: the account, result and
    /// trades at the end, and how the trades ended.
    pub open spec fn spec_day_trades(
        self,
        trades: Seq<Trade>,
        i: int,
        acct: PropAccount,
        pnl: i64,
        clipped: Seq<Trade>,
    ) -> (PropAccount, i64, Seq<Trade>, DayEnd)
        decreases trades.len() - i,
    {
        if i < 0 || i >= trades.len() || (self.max_trades_per_day is Some && i
            >= self.max_trades_per_day->0) {
            (acct, pnl, clipped, DayEnd::Closed)
        } else {
            let (t, hit) = self.spec_clip(trades[i], pnl as int);
            let clipped2 = clipped.update(i, t);
            let (acct2, status) = acct.spec_process_trade(t);
            match status {
                AccountStatus::Blown(_) => (acct2, pnl, clipped2, DayEnd::Blown),
                AccountStatus::PassedEval => (acct2, pnl, clipped2, DayEnd::Passed),
                AccountStatus::Active(x) => if hit != DailyStopTPStatus::Neither {
                    (acct2, (pnl + x) as i64, clipped2, DayEnd::Closed)
                } else {
                    self.spec_day_trades(trades, i + 1, acct2, (pnl + x) as i64, clipped2)
                },
            }
        }
    }

    /// The end of a day whose trades left the account `acct` with result
    /// `pnl`: end-of-day bookkeeping, one more simulated day, a withdrawal if
    /// one is allowed, and the checks that end the trial.
    pub open spec fn spec_close_day(self, acct: PropAccount, pnl: i64) -> (Trader, Option<EndOfGame>) {
        let a1 = acct.spec_end_of_day(pnl).spec_next_day();
        let timed_out = |a: PropAccount|
            if a.sim_days() >= self.max_simulation_days {
                Some(EndOfGame::TimeOut)
            } else {
                None
            };
        match a1.spec_allowed_withdrawal() {
            Some(amount) => {
                let (a2, outcome) = a1.spec_withdraw(amount);
                let t = Trader {
                    prop_account: a2,
                    bank_account: BankAccount {
                        balance: (self.bank_account.balance + amount) as i64,
                    },
                    ..self
                };
                (
                    t,
                    match outcome {
                        WithdrawalOutcome::Payouts(n) => if n >= self.max_payouts {
                            Some(EndOfGame::MaxPayouts)
                        } else {
                            timed_out(a2)
                        },
                        WithdrawalOutcome::AccountDepleted => Some(EndOfGame::Busted),
                        WithdrawalOutcome::AccountOpen => timed_out(a2),
                    },
                )
            },
            None => (Trader { prop_account: a1, ..self }, timed_out(a1)),
        }
    }

    /// One simulated day on the given trades: the trader after it, the
    /// trades as clipped, and the end of the trial if the day ended it.
    pub open spec fn spec_trade_day(self, trades: Seq<Trade>) -> (Trader, Seq<Trade>, Option<EndOfGame>) {
        let (acct, pnl, clipped, end) = self.spec_day_trades(trades, 0, self.prop_account, 0, trades);
        match end {
            DayEnd::Blown => (
                Trader { prop_account: acct, ..self },
                clipped,
                Some(EndOfGame::Busted),
            ),
            DayEnd::Passed => (
                Trader {
                    prop_account: acct,
                    bank_account: BankAccount {
                        balance: (self.bank_account.balance - acct.spec_funded_cost()) as i64,
                    },
                    ..self
                },
                clipped,
                None,
            ),
            DayEnd::Closed => {
                let (t, r) = self.spec_close_day(acct, pnl);
                (t, clipped, r)
            },
        }
    }

    /// The given days traded in order, until one of them ends the trial: the
    /// trader after the last day traded, and the end of the trial if a day
    /// ended it.
    pub open spec fn spec_trade_days(self, days: Seq<Seq<Trade>>) -> (Trader, Option<EndOfGame>)
        decreases days.len(),
    {
        if days.len() == 0 {
            (self, None)
        } else {
            let (t, _, end) = self.spec_trade_day(days[0]);
            if end is Some {
                (t, end)
            } else {
                t.spec_trade_days(days.drop_first())
            }
        }
    }

    pub fn new(
        account_type: AccountType,
        max_trades_per_day: Option<u64>,
        daily_profit_target: Option<i64>,
        daily_stop_loss: Option<i64>,
        max_simulation_days: u64,
        max_payouts: u8,
    ) -> (r: Trader)
        requires
            limits_valid(daily_profit_target, daily_stop_loss, max_simulation_days),
        ensures
            r == spec_new_trader(
                account_type,
                max_trades_per_day,
                daily_profit_target,
                daily_stop_loss,
                max_simulation_days,
                max_payouts,
            ),
            r.wf(),
    {
        let prop_account = create_account(account_type);
        // the purchase is the first entry of the ledger
        let bank_account = BankAccount { balance: -prop_account.get_cost() };
        Trader {
            bank_account,
            prop_account,
            max_trades_per_day,
            daily_profit_target,
            daily_stop_loss,
            max_simulation_days,
            max_payouts,
        }
    }

    /// Simulates one day on the given trades, clipping each in place against
    /// the daily stop and target. The day stops at the daily trade limit, at
    /// a daily boundary, when the account is blown (the trial ends busted) or
    /// when the evaluation is passed (the funded account's fee is paid and
    /// the day ends). Otherwise the account closes the day, a withdrawal is
    /// made if one is allowed, and the trial ends once the payouts or the
    /// days run out, or the funded account is drained.
    pub fn trade_day(&mut self, trades_today: &mut Vec<Trade>) -> (r: TradingDayResult)
        requires
            old(self).wf(),
            old(trades_today)@.len() <= MAX_TRADES_IN_DAY,
            forall|j: int| 0 <= j < old(trades_today)@.len() ==> #[trigger] old(trades_today)@[j].is_bounded(),
        ensures
            (*final(self), final(trades_today)@, r.end_of_game) == old(self).spec_trade_day(old(trades_today)@),
            final(self).same_limits(*old(self)),
            r.end_of_game is None ==> final(self).wf() && final(self).stage() == old(self).stage() + 1,
            r.end_of_game is Some ==> final(self).prop_account.sim_days() <= final(self).max_simulation_days,
            r.end_of_game is Some ==> -BANK_LIMIT <= final(self).bank_account.balance <= BANK_LIMIT,
    {
        let ghost start: Trader = *self;
        let ghost orig: Seq<Trade> = trades_today@;
        let ghost target = start.spec_day_trades(orig, 0, start.prop_account, 0, orig);
        let mut daily_pnl: i64 = 0;
        let n: usize = trades_today.len();
        let mut i: usize = 0;
        let mut done = false;
        let mut day_end = DayEnd::Closed;
        while i < n && !done
            invariant
                n == orig.len(),
                n <= MAX_TRADES_IN_DAY,
                0 <= i <= n,
                trades_today@.len() == n,
                forall|j: int| 0 <= j < n ==> #[trigger] orig[j].is_bounded(),
                forall|j: int| i <= j < n ==> trades_today@[j] == orig[j],
                start.wf(),
                *self == (Trader { prop_account: self.prop_account, ..start }),
                self.prop_account.trade_frame(start.prop_account),
                -(i * MAX_TRADE_VALUE) <= daily_pnl <= i * MAX_TRADE_VALUE,
                !done ==> day_end == DayEnd::Closed,
                day_end != DayEnd::Passed ==> self.prop_account.in_evaluation()
                    == start.prop_account.in_evaluation(),
                day_end == DayEnd::Closed ==> self.prop_account.balance()
                    == start.prop_account.balance() + daily_pnl,
                day_end == DayEnd::Closed ==> -TIER_LIMIT <= self.prop_account.balance(),
                day_end == DayEnd::Passed ==> {
                    &&& start.prop_account.in_evaluation()
                    &&& !self.prop_account.in_evaluation()
                    &&& 0 < self.prop_account.balance()
                    &&& self.prop_account.balance() <= start.prop_account.balance() + i
                        * MAX_TRADE_VALUE
                },
                !done ==> (self.daily_stop_loss matches Some(s) ==> daily_pnl > s),
                !done ==> (self.daily_profit_target matches Some(p) ==> daily_pnl < p),
                done ==> target == (self.prop_account, daily_pnl, trades_today@, day_end),
                !done ==> target == start.spec_day_trades(
                    orig,
                    i as int,
                    self.prop_account,
                    daily_pnl,
                    trades_today@,
                ),
            decreases 2 * (n - i) + if done { 0int } else { 1int },
        {
            if let Some(max_trades) = self.max_trades_per_day {
                if i as u64 >= max_trades {
                    done = true;
                    continue;
                }
            }
            let mut trade = trades_today[i];
            let hit = self.adj_trade_for_daily_stop_or_target(&mut trade, daily_pnl);
            trades_today[i] = trade;
            let ghost before = self.prop_account;
            let status = self.prop_account.process_trade(&trade);
            proof {
                lemma_process_trade_frame(before, trade);
            }
            match status {
                AccountStatus::Blown(_) => {
                    day_end = DayEnd::Blown;
                    done = true;
                },
                AccountStatus::Active(ret) => {
                    daily_pnl = daily_pnl + ret;
                    match hit {
                        DailyStopTPStatus::Neither => {},
                        _ => {
                            done = true;
                        },
                    }
                },
                AccountStatus::PassedEval => {
                    day_end = DayEnd::Passed;
                    done = true;
                },
            }
            i = i + 1;
        }
        match day_end {
            DayEnd::Blown => TradingDayResult { end_of_game: Some(EndOfGame::Busted) },
            DayEnd::Passed => {
                // the funded account is bought as soon as the evaluation is passed
                self.bank_account.balance = self.bank_account.balance
                    - self.prop_account.get_funded_acct_cost();
                TradingDayResult { end_of_game: None }
            },
            DayEnd::Closed => self.close_day(daily_pnl),
        }
    }

    /// The end of a day whose trades made `daily_pnl`.
    fn close_day(&mut self, daily_pnl: i64) -> (r: TradingDayResult)
        requires
            limits_valid(old(self).daily_profit_target, old(self).daily_stop_loss, old(self).max_simulation_days),
            old(self).prop_account.wf(),
            -TIER_LIMIT <= old(self).prop_account.balance(),
            old(self).prop_account.balance() + old(self).bank_account.balance <= (old(self).stage() + 1) * DAY_SWING,
            -(old(self).stage() + 1) * DAY_SWING <= old(self).bank_account.balance,
            -DAY_SWING <= old(self).prop_account.max_day_profit() <= DAY_SWING,
            -DAY_SWING <= daily_pnl <= DAY_SWING,
            old(self).prop_account.sim_days() < old(self).max_simulation_days,
            old(self).prop_account.counters_within(old(self).prop_account.sim_days() as int),
            old(self).prop_account.payout_count() == 0 || old(self).prop_account.payout_count() < old(self).max_payouts,
        ensures
            (*final(self), r.end_of_game) == old(self).spec_close_day(old(self).prop_account, daily_pnl),
            final(self).same_limits(*old(self)),
            r.end_of_game is None ==> final(self).wf() && final(self).stage() == old(self).stage() + 1,
            r.end_of_game is Some ==> final(self).prop_account.sim_days() <= final(self).max_simulation_days,
            r.end_of_game is Some ==> -BANK_LIMIT <= final(self).bank_account.balance <= BANK_LIMIT,
    {
        let ghost a0 = self.prop_account;
        proof {
            lemma_end_of_day_frame(a0, daily_pnl);
        }
        self.prop_account.update_end_of_day(daily_pnl);
        self.prop_account.increment_simulation_day();
        if let Some(amount) = self.prop_account.allowed_withdrawal_amount() {
            proof {
                lemma_withdrawal_frame(self.prop_account);
            }
            let outcome = self.prop_account.make_withdrawal(amount);
            self.bank_account.balance = self.bank_account.balance + amount;
            match outcome {
                WithdrawalOutcome::Payouts(n) => {
                    if n >= self.max_payouts {
                        return TradingDayResult { end_of_game: Some(EndOfGame::MaxPayouts) };
                    }
                },
                WithdrawalOutcome::AccountDepleted => {
                    return TradingDayResult { end_of_game: Some(EndOfGame::Busted) };
                },
                WithdrawalOutcome::AccountOpen => {},
            }
        }
        if self.prop_account.get_simulation_days() >= self.max_simulation_days {
            return TradingDayResult { end_of_game: Some(EndOfGame::TimeOut) };
        }
        TradingDayResult { end_of_game: None }
    }

    /// Clips `trade` against the daily stop and target, given the day's
    /// result before it. The day's result after the trade never passes a
    /// boundary that is set.
    pub fn adj_trade_for_daily_stop_or_target(&self, trade: &mut Trade, daily_pnl_pretrade: i64) -> (r: DailyStopTPStatus)
        requires
            daily_limits_valid(self.daily_profit_target, self.daily_stop_loss),
            -DAY_SWING <= daily_pnl_pretrade <= DAY_SWING,
        ensures
            (*final(trade), r) == self.spec_clip(*old(trade), daily_pnl_pretrade as int),
            self.daily_stop_loss is Some ==> daily_pnl_pretrade + final(trade).return_value
                >= self.daily_stop_loss->0,
            self.daily_profit_target is Some ==> daily_pnl_pretrade + final(trade).return_value
                <= self.daily_profit_target->0,
            r == DailyStopTPStatus::StopHit ==> daily_pnl_pretrade + final(trade).return_value
                == self.daily_stop_loss->0,
            r == DailyStopTPStatus::TPHit ==> daily_pnl_pretrade + final(trade).return_value
                == self.daily_profit_target->0,
            old(trade).is_bounded() && (self.daily_stop_loss matches Some(s) ==> daily_pnl_pretrade > s)
                && (self.daily_profit_target matches Some(p) ==> daily_pnl_pretrade < p)
                ==> final(trade).is_bounded(),
    {
        // in 128 bits, so that any trade values can be compared
        let pnl = daily_pnl_pretrade as i128;
        if let Some(daily_sl) = self.daily_stop_loss {
            if trade.return_value as i128 + pnl <= daily_sl as i128 {
                trade.return_value = daily_sl - daily_pnl_pretrade;
                return DailyStopTPStatus::StopHit;
            }
            if trade.max_opposite_excursion as i128 + pnl <= daily_sl as i128 {
                trade.return_value = daily_sl - daily_pnl_pretrade;
                return DailyStopTPStatus::StopHit;
            }
        }
        if let Some(daily_pt) = self.daily_profit_target {
            if trade.return_value as i128 + pnl >= daily_pt as i128 {
                trade.return_value = daily_pt - daily_pnl_pretrade;
                return DailyStopTPStatus::TPHit;
            }
            if trade.max_opposite_excursion as i128 + pnl >= daily_pt as i128 {
                // the target was touched before the trade settled: book the
                // target, and keep the settled return as the excursion
                trade.max_opposite_excursion = trade.return_value;
                trade.return_value = daily_pt - daily_pnl_pretrade;
                return DailyStopTPStatus::TPHit;
            }
        }
        DailyStopTPStatus::Neither
    }
}

/// Clipping is idempotent: clipping an already clipped trade against the
/// same day's result reaches the same boundary and changes nothing.
pub proof fn lemma_clip_idempotent(t: Trader, trade: Trade, pnl: int)
    requires
        daily_limits_valid(t.daily_profit_target, t.daily_stop_loss),
        -DAY_SWING <= pnl <= DAY_SWING,
    ensures
        t.spec_clip(t.spec_clip(trade, pnl).0, pnl) == t.spec_clip(trade, pnl),
{
}

/// Trading one more day after days that left the trial running.
pub proof fn lemma_trade_one_more_day(t: Trader, days: Seq<Seq<Trade>>, day: Seq<Trade>)
    requires
        t.spec_trade_days(days).1 is None,
    ensures
        t.spec_trade_days(days.push(day)) == ({
            let (v, _, end) = t.spec_trade_days(days).0.spec_trade_day(day);
            (v, end)
        }),
    decreases days.len(),
{
    assert(days.push(day).len() > 0);
    if days.len() > 0 {
        let (t1, _, end) = t.spec_trade_day(days[0]);
        assert(days.push(day)[0] == days[0]);
        assert(days.push(day).drop_first() =~= days.drop_first().push(day));
        lemma_trade_one_more_day(t1, days.drop_first(), day);
    } else {
        assert(days.push(day)[0] == day);
        assert(days.push(day).drop_first() =~= Seq::<Seq<Trade>>::empty());
        let (t1, _, end) = t.spec_trade_day(day);
        assert(t1.spec_trade_days(Seq::<Seq<Trade>>::empty()) == (t1, None::<EndOfGame>));
    }
}

} // verus!
