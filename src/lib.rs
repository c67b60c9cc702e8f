//! Monte Carlo evaluation of proprietary-trading "funded account" programs.
//!
//! A trial buys an account of one program and tier, trades days drawn from a
//! pool of historical or generated trades against the program's rules, and
//! ends busted, out of time, or out of payouts. The summary of many trials
//! says whether the program is worth its price. Amounts of money are whole
//! cents held in `i64`.

pub mod trade_data;
pub mod prop_account;
pub mod ftt_account;
pub mod topstep_account;
pub mod account_type;
pub mod trader;
pub mod simulation;
pub mod statistics;

pub use account_type::{AccountTypeError, EndStateCondition};
pub use ftt_account::{FttAccount, FttAccountType, PayoutCap, RealTradingDay};
pub use prop_account::{create_account, AccountStatus, AccountType, PropAccount, WithdrawalOutcome};
pub use simulation::{check_simulation_inputs, run_trial, ConfigError, IterationResult};
pub use statistics::{aggregate_results, AggregateError, EndStateCounts, SimulationResult};
pub use topstep_account::{TopstepAccount, TopstepAccountType};
pub use trade_data::{calculate_trades_per_day, Trade, TradeRecord};
pub use trader::{BankAccount, DailyStopTPStatus, EndOfGame, Trader, TradingDayResult};
