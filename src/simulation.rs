use rand::Rng;
use vstd::prelude::*;

use crate::prop_account::AccountType;
use crate::statistics::MAX_TRIALS;
use crate::trade_data::{Trade, MAX_TRADE_VALUE};
use crate::trader::{
    lemma_trade_one_more_day, limits_valid, spec_new_trader, EndOfGame, Trader, BANK_LIMIT,
    DAY_SWING, MAX_SIMULATION_DAYS, MAX_TRADES_IN_DAY,
};

verus! {

/// `rand`'s thread-local generator, carried opaque to `random_index`.
#[verifier::external_type_specification]
#[verifier::external_body]
pub struct ExThreadRng(rand::rngs::ThreadRng);

/// Relies on `rand::Rng::gen_range`: a value drawn from `0..len`; the range
/// must not be empty, or the call panics.
#[verifier::external_body]
fn random_index(rng: &mut rand::rngs::ThreadRng, len: usize) -> (r: usize)
    requires
        len > 0,
    ensures
        r < len,
{
    rng.gen_range(0..len)
}

/// The outcome of one trial.
#[derive(Clone, Copy, Debug, PartialEq, Eq)]
pub struct IterationResult {
    /// The bank ledger at the end, in cents.
    pub final_balance: i64,
    pub end_state: EndOfGame,
    pub simulation_length: u64,
}

/// The sampling pools that a trial may draw from.
pub open spec fn pools_valid(trades: Seq<Trade>, trades_per_day: Seq<usize>) -> bool {
    &&& trades.len() > 0
    &&& trades_per_day.len() > 0
    &&& forall|j: int| 0 <= j < trades.len() ==> #[trigger] trades[j].is_bounded()
    &&& forall|j: int| 0 <= j < trades_per_day.len() ==> #[trigger] trades_per_day[j]
        <= MAX_TRADES_IN_DAY
}

/// A day that the pools can give: as many trades as one of the day counts,
/// each one of the pool's trades.
pub open spec fn drawn_from(day: Seq<Trade>, trades: Seq<Trade>, trades_per_day: Seq<usize>) -> bool {
    &&& trades_per_day.contains(day.len() as usize)
    &&& forall|i: int| 0 <= i < day.len() ==> trades.contains(#[trigger] day[i])
}

/// Trading `days`, each of which the pools can give, takes the trader
/// `start` to the end of the trial that `r` reports. There are at most one
/// more of them than the days the trial may simulate: the day that passes
/// an evaluation is not counted.
pub open spec fn trial_gives(
    start: Trader,
    days: Seq<Seq<Trade>>,
    trades: Seq<Trade>,
    trades_per_day: Seq<usize>,
    r: IterationResult,
) -> bool {
    &&& days.len() <= start.max_simulation_days + 1
    &&& forall|i: int| 0 <= i < days.len() ==> drawn_from(#[trigger] days[i], trades, trades_per_day)
    &&& ({
        let (t, end) = start.spec_trade_days(days);
        &&& end == Some(r.end_state)
        &&& t.bank_account.balance == r.final_balance
        &&& t.prop_account.sim_days() == r.simulation_length
    })
}

/// Runs one trial to its end. Each day draws its number of trades from
/// `trades_per_day`, then that many trades from `trades`, uniformly and with
/// replacement, and trades them. The trial ends on exactly one terminal
/// state, within the configured number of days.
pub fn run_trial(
    trades: &Vec<Trade>,
    trades_per_day: &Vec<usize>,
    account_type: AccountType,
    max_trades_per_day: Option<u64>,
    daily_profit_target: Option<i64>,
    daily_stop_loss: Option<i64>,
    max_simulation_days: u64,
    max_payouts: u8,
    rng: &mut rand::rngs::ThreadRng,
) -> (r: IterationResult)
    requires
        pools_valid(trades@, trades_per_day@),
        limits_valid(daily_profit_target, daily_stop_loss, max_simulation_days),
    ensures
        r.simulation_length <= max_simulation_days,
        r.end_state == EndOfGame::TimeOut ==> r.simulation_length == max_simulation_days,
        -BANK_LIMIT <= r.final_balance <= BANK_LIMIT,
        exists|days: Seq<Seq<Trade>>|
            #[trigger] trial_gives(
                spec_new_trader(
                    account_type,
                    max_trades_per_day,
                    daily_profit_target,
                    daily_stop_loss,
                    max_simulation_days,
                    max_payouts,
                ),
                days,
                trades@,
                trades_per_day@,
                r,
            ),
{
    let mut trader = Trader::new(
        account_type,
        max_trades_per_day,
        daily_profit_target,
        daily_stop_loss,
        max_simulation_days,
        max_payouts,
    );
    let ghost start = trader;
    let ghost days: Seq<Seq<Trade>> = Seq::empty();
    loop
        invariant
            pools_valid(trades@, trades_per_day@),
            trader.wf(),
            trader.max_simulation_days == max_simulation_days,
            start == spec_new_trader(
                account_type,
                max_trades_per_day,
                daily_profit_target,
                daily_stop_loss,
                max_simulation_days,
                max_payouts,
            ),
            forall|i: int| 0 <= i < days.len() ==> drawn_from(#[trigger] days[i], trades@, trades_per_day@),
            start.spec_trade_days(days) == (trader, None::<EndOfGame>),
            days.len() + start.stage() == trader.stage(),
            start.stage() >= 0,
        decreases trader.max_simulation_days + 1 - trader.stage(),
    {
        let count_index = random_index(rng, trades_per_day.len());
        let num_trades_today = trades_per_day[count_index];
        let mut trades_today: Vec<Trade> = Vec::new();
        let mut k: usize = 0;
        while k < num_trades_today
            invariant
                pools_valid(trades@, trades_per_day@),
                num_trades_today <= MAX_TRADES_IN_DAY,
                k <= num_trades_today,
                trades_today@.len() == k,
                forall|j: int| 0 <= j < k ==> #[trigger] trades_today@[j].is_bounded(),
                forall|j: int| 0 <= j < k ==> trades@.contains(#[trigger] trades_today@[j]),
            decreases num_trades_today - k,
        {
            let index = random_index(rng, trades.len());
            let t = trades[index];
            assert(trades@[index as int] == t);
            trades_today.push(t);
            k = k + 1;
        }
        let ghost drawn = trades_today@;
        assert(trades_per_day@[count_index as int] == drawn.len());
        assert(drawn_from(drawn, trades@, trades_per_day@));
        proof {
            lemma_trade_one_more_day(start, days, drawn);
            days = days.push(drawn);
        }
        let day = trader.trade_day(&mut trades_today);
        if let Some(end_state) = day.end_of_game {
            let r = IterationResult {
                final_balance: trader.bank_account.balance,
                end_state,
                simulation_length: trader.prop_account.get_simulation_days(),
            };
            assert(trial_gives(start, days, trades@, trades_per_day@, r));
            return r;
        }
    }
}

/// Why a simulation cannot start.
#[derive(Clone, Copy, Debug, PartialEq, Eq)]
pub enum ConfigError {
    EmptyTradePool,
    EmptyTradesPerDay,
    /// A trade's return or excursion is beyond what the simulator accepts.
    TradeOutOfRange,
    /// A day holds more trades than the simulator accepts.
    TooManyTradesInDay,
    /// The daily profit target is not positive, or beyond a day's reach.
    InvalidDailyProfitTarget,
    /// The daily stop loss is not negative, or beyond a day's reach.
    InvalidDailyStopLoss,
    /// The number of days to simulate is zero or too large.
    InvalidMaxSimulationDays,
    /// More trials than the summary can hold.
    TooManyIterations,
}

/// Checks everything a simulation needs before any trial runs: non-empty
/// pools of values the simulator accepts, consistently signed daily limits,
/// and counts it can hold.
pub fn check_simulation_inputs(
    trades: &Vec<Trade>,
    trades_per_day: &Vec<usize>,
    daily_profit_target: Option<i64>,
    daily_stop_loss: Option<i64>,
    max_simulation_days: u64,
    iterations: usize,
) -> (r: Result<(), ConfigError>)
    ensures
        r is Ok <==> pools_valid(trades@, trades_per_day@) && limits_valid(
            daily_profit_target,
            daily_stop_loss,
            max_simulation_days,
        ) && iterations <= MAX_TRIALS,
{
    if trades.len() == 0 {
        return Err(ConfigError::EmptyTradePool);
    }
    if trades_per_day.len() == 0 {
        return Err(ConfigError::EmptyTradesPerDay);
    }
    let mut i: usize = 0;
    while i < trades.len()
        invariant
            i <= trades.len(),
            forall|j: int| 0 <= j < i ==> #[trigger] trades@[j].is_bounded(),
        decreases trades.len() - i,
    {
        let t = trades[i];
        if t.return_value < -MAX_TRADE_VALUE || t.return_value > MAX_TRADE_VALUE
            || t.max_opposite_excursion < -MAX_TRADE_VALUE || t.max_opposite_excursion
            > MAX_TRADE_VALUE {
            assert(!trades@[i as int].is_bounded());
            return Err(ConfigError::TradeOutOfRange);
        }
        i = i + 1;
    }
    let mut k: usize = 0;
    while k < trades_per_day.len()
        invariant
            k <= trades_per_day.len(),
            forall|j: int| 0 <= j < k ==> #[trigger] trades_per_day@[j] <= MAX_TRADES_IN_DAY,
        decreases trades_per_day.len() - k,
    {
        if trades_per_day[k] > MAX_TRADES_IN_DAY {
            assert(trades_per_day@[k as int] > MAX_TRADES_IN_DAY);
            return Err(ConfigError::TooManyTradesInDay);
        }
        k = k + 1;
    }
    if let Some(p) = daily_profit_target {
        if p <= 0 || p > DAY_SWING {
            return Err(ConfigError::InvalidDailyProfitTarget);
        }
    }
    if let Some(sl) = daily_stop_loss {
        if sl >= 0 || sl < -DAY_SWING {
            return Err(ConfigError::InvalidDailyStopLoss);
        }
    }
    if max_simulation_days == 0 || max_simulation_days > MAX_SIMULATION_DAYS {
        return Err(ConfigError::InvalidMaxSimulationDays);
    }
    if iterations > MAX_TRIALS {
        return Err(ConfigError::TooManyIterations);
    }
    Ok(())
}

} // verus!
