use prop_simulator::{
    calculate_trades_per_day, check_simulation_inputs, run_trial, AccountType, ConfigError,
    DailyStopTPStatus, EndOfGame, FttAccountType, PropAccount, TopstepAccountType, Trade,
    TradeRecord, Trader,
};
use rand::Rng;

fn gt_trader(max_days: u64) -> Trader {
    Trader::new(AccountType::Ftt(FttAccountType::GT), None, None, None, max_days, 12)
}

fn account_balance(t: &Trader) -> i64 {
    t.prop_account.get_current_balance()
}

#[test]
fn trader_starts_with_purchase_debited() {
    let t = gt_trader(365);
    assert_eq!(t.bank_account.balance, -59_900);
    assert_eq!(t.prop_account.get_simulation_days(), 0);
    let s = Trader::new(AccountType::TopStep(TopstepAccountType::OneFifty), None, None, None, 365, 12);
    assert_eq!(s.bank_account.balance, -14_900);
    assert_eq!(s.prop_account.get_funded_acct_cost(), 14_900);
    assert_eq!(t.prop_account.get_funded_acct_cost(), 0);
}

#[test]
fn blown_trade_busts_the_trial() {
    let mut t = gt_trader(365);
    let mut day = vec![Trade::new(-800_000, 0), Trade::new(10_000, 0)];
    let r = t.trade_day(&mut day);
    assert_eq!(r.end_of_game, Some(EndOfGame::Busted));
    assert_eq!(t.bank_account.balance, -59_900);
    assert_eq!(account_balance(&t), -800_000);
    assert_eq!(t.prop_account.get_simulation_days(), 0);
}

#[test]
fn daily_trade_limit_stops_the_day() {
    let mut t = Trader::new(AccountType::Ftt(FttAccountType::GT), Some(1), None, None, 365, 12);
    let mut day = vec![Trade::new(10_000, 0), Trade::new(20_000, 0)];
    let r = t.trade_day(&mut day);
    assert_eq!(r.end_of_game, None);
    assert_eq!(account_balance(&t), 10_000);
    assert_eq!(t.prop_account.get_simulation_days(), 1);
}

#[test]
fn daily_stop_clips_and_ends_the_day() {
    let mut t = Trader::new(AccountType::Ftt(FttAccountType::GT), None, None, Some(-10_000), 365, 12);
    let mut day = vec![Trade::new(-6_000, 0), Trade::new(-6_000, 0), Trade::new(-6_000, 0)];
    let r = t.trade_day(&mut day);
    assert_eq!(r.end_of_game, None);
    assert_eq!(account_balance(&t), -10_000);
    assert_eq!(day[1].return_value, -4_000);
    assert_eq!(day[2].return_value, -6_000);
}

#[test]
fn clipping_lands_exactly_on_the_boundary() {
    let t = Trader::new(AccountType::Ftt(FttAccountType::GT), None, Some(50_000), Some(-30_000), 365, 12);
    let mut a = Trade::new(-40_000, -40_000);
    assert_eq!(t.adj_trade_for_daily_stop_or_target(&mut a, 0), DailyStopTPStatus::StopHit);
    assert_eq!(a.return_value, -30_000);
    let mut b = Trade::new(5_000, -35_000);
    assert_eq!(t.adj_trade_for_daily_stop_or_target(&mut b, 0), DailyStopTPStatus::StopHit);
    assert_eq!(b.return_value, -30_000);
    let mut c = Trade::new(30_000, -1_000);
    assert_eq!(t.adj_trade_for_daily_stop_or_target(&mut c, 25_000), DailyStopTPStatus::TPHit);
    assert_eq!(c.return_value, 25_000);
    let mut d = Trade::new(-2_000, 60_000);
    assert_eq!(t.adj_trade_for_daily_stop_or_target(&mut d, 0), DailyStopTPStatus::TPHit);
    assert_eq!(d.return_value, 50_000);
    assert_eq!(d.max_opposite_excursion, -2_000);
    let mut e = Trade::new(1_000, -1_000);
    assert_eq!(t.adj_trade_for_daily_stop_or_target(&mut e, 0), DailyStopTPStatus::Neither);
    assert_eq!(e, Trade::new(1_000, -1_000));
}

#[test]
fn clipping_never_passes_a_boundary_on_random_inputs() {
    let mut rng = rand::thread_rng();
    for _ in 0..2_000 {
        let target: i64 = rng.gen_range(1..2_000_000);
        let stop: i64 = -rng.gen_range(1..2_000_000);
        let t = Trader::new(AccountType::Ftt(FttAccountType::GT), None, Some(target), Some(stop), 365, 12);
        let pnl: i64 = rng.gen_range(-5_000_000..5_000_000);
        let mut trade = Trade::new(rng.gen_range(-10_000_000..=10_000_000), rng.gen_range(-10_000_000..=10_000_000));
        let hit = t.adj_trade_for_daily_stop_or_target(&mut trade, pnl);
        let after = pnl + trade.return_value;
        assert!(stop <= after && after <= target);
        if hit == DailyStopTPStatus::StopHit {
            assert_eq!(after, stop);
        }
        if hit == DailyStopTPStatus::TPHit {
            assert_eq!(after, target);
        }
    }
}

#[test]
fn passing_the_evaluation_buys_the_funded_account() {
    let mut t = Trader::new(AccountType::TopStep(TopstepAccountType::Fifty), None, None, None, 365, 12);
    let mut day = vec![Trade::new(310_000, -10_000), Trade::new(10_000, 0)];
    let r = t.trade_day(&mut day);
    assert_eq!(r.end_of_game, None);
    assert_eq!(t.bank_account.balance, -4_900 - 14_900);
    assert_eq!(account_balance(&t), 300_000);
    assert_eq!(t.prop_account.get_simulation_days(), 0);
    match t.prop_account {
        PropAccount::Topstep(a) => assert!(a.passed_eval),
        _ => panic!("wrong program"),
    }
}

#[test]
fn last_day_times_out() {
    let mut t = gt_trader(2);
    assert_eq!(t.trade_day(&mut vec![Trade::new(1_000, 0)]).end_of_game, None);
    assert_eq!(t.trade_day(&mut vec![Trade::new(1_000, 0)]).end_of_game, Some(EndOfGame::TimeOut));
    assert_eq!(t.prop_account.get_simulation_days(), 2);
}

#[test]
fn payouts_end_the_trial_when_exhausted() {
    let mut t = Trader::new(AccountType::Ftt(FttAccountType::Rally), None, None, None, 365, 1);
    for _ in 0..9 {
        assert_eq!(t.trade_day(&mut vec![Trade::new(20_000, 0)]).end_of_game, None);
    }
    let r = t.trade_day(&mut vec![Trade::new(20_000, 0)]);
    assert_eq!(r.end_of_game, Some(EndOfGame::MaxPayouts));
    assert_eq!(t.bank_account.balance, -17_900 + 75_000);
    assert_eq!(account_balance(&t), 125_000);
}

#[test]
fn alternating_trades_then_losses_bust_before_any_payout() {
    let mut t = Trader::new(AccountType::Ftt(FttAccountType::GT), None, None, None, 365, 12);
    let mut realized: i64 = 0;
    for v in [40_000, -30_000, 40_000, -30_000] {
        assert_eq!(t.trade_day(&mut vec![Trade::new(v, 0)]).end_of_game, None);
        realized += v;
    }
    let mut end = None;
    let mut days = 0;
    while end.is_none() {
        end = t.trade_day(&mut vec![Trade::new(-30_000, 0)]).end_of_game;
        realized -= 30_000;
        days += 1;
    }
    assert_eq!(end, Some(EndOfGame::Busted));
    assert_eq!(days, 25);
    assert_eq!(t.bank_account.balance, -59_900);
    assert_eq!(account_balance(&t), realized);
    assert_eq!(realized, -730_000);
}

#[test]
fn trials_end_within_the_day_limit() {
    let trades = vec![
        Trade::new(40_000, -5_000),
        Trade::new(-30_000, 10_000),
        Trade::new(25_000, -20_000),
        Trade::new(-15_000, 5_000),
    ];
    let per_day = vec![1, 2, 3, 0];
    let mut rng = rand::thread_rng();
    for kind in [AccountType::Ftt(FttAccountType::Rally), AccountType::TopStep(TopstepAccountType::Fifty)] {
        for _ in 0..50 {
            let r = run_trial(&trades, &per_day, kind, Some(2), Some(50_000), Some(-40_000), 30, 12, &mut rng);
            assert!(r.simulation_length <= 30);
            if r.end_state == EndOfGame::TimeOut {
                assert_eq!(r.simulation_length, 30);
            }
        }
    }
}

#[test]
fn trades_are_counted_per_day() {
    let t = Trade::new(1, 0);
    let records = vec![
        TradeRecord { day: 738_000, trade: t },
        TradeRecord { day: 738_001, trade: t },
        TradeRecord { day: 738_000, trade: t },
    ];
    let counts = calculate_trades_per_day(&records);
    assert_eq!(counts.len(), 2);
    assert_eq!(counts[&738_000], 2);
    assert_eq!(counts[&738_001], 1);
    assert!(calculate_trades_per_day(&Vec::new()).is_empty());
}

#[test]
fn inputs_are_checked_before_any_trial() {
    let trades = vec![Trade::new(1_000, -500)];
    let per_day = vec![1];
    assert_eq!(check_simulation_inputs(&trades, &per_day, Some(10_000), Some(-10_000), 365, 10_000), Ok(()));
    assert_eq!(check_simulation_inputs(&Vec::new(), &per_day, None, None, 365, 1), Err(ConfigError::EmptyTradePool));
    assert_eq!(check_simulation_inputs(&trades, &Vec::new(), None, None, 365, 1), Err(ConfigError::EmptyTradesPerDay));
    assert_eq!(
        check_simulation_inputs(&vec![Trade::new(10_000_001, 0)], &per_day, None, None, 365, 1),
        Err(ConfigError::TradeOutOfRange)
    );
    assert_eq!(check_simulation_inputs(&trades, &vec![1_001], None, None, 365, 1), Err(ConfigError::TooManyTradesInDay));
    assert_eq!(check_simulation_inputs(&trades, &per_day, Some(0), None, 365, 1), Err(ConfigError::InvalidDailyProfitTarget));
    assert_eq!(check_simulation_inputs(&trades, &per_day, None, Some(5), 365, 1), Err(ConfigError::InvalidDailyStopLoss));
    assert_eq!(check_simulation_inputs(&trades, &per_day, None, None, 0, 1), Err(ConfigError::InvalidMaxSimulationDays));
    assert_eq!(check_simulation_inputs(&trades, &per_day, None, None, 365, 1_000_001), Err(ConfigError::TooManyIterations));
}

#[test]
fn one_outsized_day_blocks_the_payout_in_a_trial() {
    let mut t = Trader::new(AccountType::Ftt(FttAccountType::Rally), None, None, None, 365, 12);
    assert_eq!(t.trade_day(&mut vec![Trade::new(100_000, 0)]).end_of_game, None);
    for _ in 0..9 {
        assert_eq!(t.trade_day(&mut vec![Trade::new(10_000, 0)]).end_of_game, None);
    }
    assert_eq!(account_balance(&t), 190_000);
    assert_eq!(t.prop_account.allowed_withdrawal_amount(), None);
    assert_eq!(t.bank_account.balance, -17_900);
}

#[test]
fn clipping_twice_changes_nothing() {
    let t = Trader::new(AccountType::Ftt(FttAccountType::GT), None, Some(50_000), Some(-30_000), 365, 12);
    for (pnl, rv, ex) in [(0, -40_000, 0), (10_000, 45_000, -1_000), (0, -2_000, 60_000), (-45_000, 1_000, 0), (0, 1_000, -1_000)] {
        let mut once = Trade::new(rv, ex);
        let first = t.adj_trade_for_daily_stop_or_target(&mut once, pnl);
        let mut twice = once;
        let second = t.adj_trade_for_daily_stop_or_target(&mut twice, pnl);
        assert_eq!(first, second);
        assert_eq!(once, twice);
    }
}

#[test]
fn clipping_accepts_any_trade_values() {
    let t = Trader::new(AccountType::Ftt(FttAccountType::GT), None, Some(50_000), Some(-30_000), 365, 12);
    let mut big = Trade::new(i64::MAX, i64::MIN);
    assert_eq!(t.adj_trade_for_daily_stop_or_target(&mut big, 1_000), DailyStopTPStatus::StopHit);
    assert_eq!(big.return_value, -31_000);
    let mut up = Trade::new(i64::MAX, 0);
    assert_eq!(t.adj_trade_for_daily_stop_or_target(&mut up, 1_000), DailyStopTPStatus::TPHit);
    assert_eq!(up.return_value, 49_000);
}
