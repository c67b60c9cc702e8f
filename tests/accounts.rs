use prop_simulator::{
    AccountStatus, FttAccount, FttAccountType, RealTradingDay, TopstepAccount, TopstepAccountType,
    Trade,
};

#[test]
fn ftt_new_account_has_tier_rules() {
    let a = FttAccount::new(FttAccountType::GT);
    assert_eq!(a.current_balance, 0);
    assert_eq!(a.drawdown, 750_000);
    assert_eq!(a.loss_balance, -750_000);
    assert_eq!(a.payout_cap.first_8_payouts, 300_000);
    assert_eq!(a.payout_cap.payouts_9_to_12, 600_000);
    assert_eq!(a.min_balance_after_withdrawal, 450_000);
    assert_eq!(FttAccountType::GT.get_cost(), 59_900);
    assert_eq!(FttAccountType::Rally.get_cost(), 17_900);
    assert_eq!(FttAccountType::Daytona.get_cost(), 44_900);
    assert_eq!(FttAccountType::LeMans.get_cost(), 79_900);
}

#[test]
fn ftt_winner_is_blown_by_its_excursion() {
    let mut a = FttAccount::new(FttAccountType::GT);
    let status = a.trade_on_account(&Trade::new(40_000, -800_000));
    assert_eq!(status, AccountStatus::Blown(-800_000));
    assert_eq!(a.current_balance, -800_000);
}

#[test]
fn ftt_winner_within_threshold_books_its_return() {
    let mut a = FttAccount::new(FttAccountType::GT);
    let status = a.trade_on_account(&Trade::new(40_000, -700_000));
    assert_eq!(status, AccountStatus::Active(40_000));
    assert_eq!(a.current_balance, 40_000);
}

#[test]
fn ftt_loser_at_threshold_is_not_blown() {
    let mut a = FttAccount::new(FttAccountType::GT);
    assert_eq!(a.trade_on_account(&Trade::new(-750_000, 0)), AccountStatus::Active(-750_000));
    let mut b = FttAccount::new(FttAccountType::GT);
    assert_eq!(b.trade_on_account(&Trade::new(-750_001, 0)), AccountStatus::Blown(-750_001));
    assert_eq!(b.current_balance, -750_001);
}

#[test]
fn ftt_loss_threshold_trails_then_freezes() {
    let mut a = FttAccount::new(FttAccountType::GT);
    a.current_balance = 100_000;
    a.update_loss_balance();
    assert_eq!(a.loss_balance, -650_000);
    assert_eq!(a.hwm_balance, 100_000);
    a.current_balance = 50_000;
    a.update_loss_balance();
    assert_eq!(a.loss_balance, -650_000);
    a.current_balance = 900_000;
    a.update_loss_balance();
    assert_eq!(a.loss_balance, 0);
    assert_eq!(a.hwm_balance, 900_000);
    a.current_balance = 2_000_000;
    a.update_loss_balance();
    assert_eq!(a.loss_balance, 0);
    assert_eq!(a.hwm_balance, 900_000);
}

#[test]
fn real_trading_day_band() {
    let rtd = RealTradingDay::new(-18_750, 37_500);
    assert!(rtd.was_rtd(37_501));
    assert!(!rtd.was_rtd(37_500));
    assert!(rtd.was_rtd(-18_751));
    assert!(!rtd.was_rtd(-18_750));
    assert!(!rtd.was_rtd(0));
}

#[test]
fn ftt_trading_day_counts_and_tracks_best_day() {
    let mut a = FttAccount::new(FttAccountType::GT);
    a.try_add_trading_day(40_000);
    a.try_add_trading_day(10_000);
    a.try_add_trading_day(-20_000);
    assert_eq!(a.trading_days, 2);
    assert_eq!(a.max_winning_day_profit, 40_000);
}

fn ready_gt_account() -> FttAccount {
    let mut a = FttAccount::new(FttAccountType::GT);
    a.current_balance = 1_000_000;
    a.trading_days = 10;
    a.max_winning_day_profit = 100_000;
    a
}

#[test]
fn ftt_first_withdrawal_is_capped() {
    let a = ready_gt_account();
    assert!(a.passes_consistency_rule());
    assert_eq!(a.allowed_withdrawal_amount(), Some(300_000));
}

#[test]
fn ftt_withdrawal_needs_ten_trading_days() {
    let mut a = ready_gt_account();
    a.trading_days = 9;
    assert_eq!(a.allowed_withdrawal_amount(), None);
}

#[test]
fn ftt_one_outsized_day_blocks_withdrawal() {
    let mut a = ready_gt_account();
    a.max_winning_day_profit = 200_001;
    assert!(!a.passes_consistency_rule());
    assert_eq!(a.allowed_withdrawal_amount(), None);
    a.max_winning_day_profit = 200_000;
    assert!(a.passes_consistency_rule());
    assert_eq!(a.allowed_withdrawal_amount(), Some(300_000));
}

#[test]
fn ftt_first_withdrawal_needs_minimum_balance() {
    let mut a = ready_gt_account();
    a.current_balance = 749_999;
    a.max_winning_day_profit = 0;
    assert_eq!(a.allowed_withdrawal_amount(), None);
}

#[test]
fn ftt_later_withdrawal_leaves_minimum_balance() {
    let mut a = ready_gt_account();
    a.payout_count = 1;
    a.current_balance = 600_000;
    a.max_winning_day_profit = 0;
    assert_eq!(a.allowed_withdrawal_amount(), Some(150_000));
}

#[test]
fn ftt_ninth_payout_uses_larger_cap() {
    let mut a = ready_gt_account();
    a.current_balance = 1_200_000;
    a.max_winning_day_profit = 0;
    a.payout_count = 8;
    assert_eq!(a.allowed_withdrawal_amount(), Some(600_000));
    a.payout_count = 7;
    assert_eq!(a.allowed_withdrawal_amount(), Some(300_000));
}

#[test]
fn ftt_withdrawal_resets_counters() {
    let mut a = ready_gt_account();
    let n = a.make_withdrawal(300_000);
    assert_eq!(n, 1);
    assert_eq!(a.current_balance, 700_000);
    assert_eq!(a.trading_days, 0);
    assert_eq!(a.max_winning_day_profit, 0);
    assert_eq!(a.payout_count, 1);
}

#[test]
fn topstep_new_account_has_tier_rules() {
    let a = TopstepAccount::new(TopstepAccountType::OneHundred);
    assert_eq!(a.profit_target, 600_000);
    assert_eq!(a.loss_balance, -300_000);
    assert!(!a.passed_eval);
    assert_eq!(TopstepAccountType::Fifty.get_cost(), 4_900);
    assert_eq!(TopstepAccountType::OneHundred.get_cost(), 9_900);
    assert_eq!(TopstepAccountType::OneFifty.get_cost(), 14_900);
    assert_eq!(TopstepAccountType::funded_acct_cost(), 14_900);
}

#[test]
fn topstep_winner_reaching_target_passes_once() {
    let mut a = TopstepAccount::new(TopstepAccountType::Fifty);
    assert_eq!(a.process_trade(&Trade::new(310_000, -10_000)), AccountStatus::PassedEval);
    assert!(a.passed_eval);
    assert_eq!(a.current_balance, 300_000);
    // the funded rule applies from now on: reaching the target again passes nothing
    assert_eq!(a.process_trade(&Trade::new(400_000, -10_000)), AccountStatus::Active(400_000));
    assert_eq!(a.current_balance, 700_000);
}

#[test]
fn topstep_loser_touching_target_passes() {
    let mut a = TopstepAccount::new(TopstepAccountType::Fifty);
    assert_eq!(a.trade_on_combine(&Trade::new(-5_000, 305_000)), AccountStatus::PassedEval);
    assert_eq!(a.current_balance, 300_000);
}

#[test]
fn topstep_winner_is_blown_by_its_excursion() {
    let mut a = TopstepAccount::new(TopstepAccountType::Fifty);
    assert_eq!(a.trade_on_combine(&Trade::new(50_000, -200_000)), AccountStatus::Blown(-200_000));
    assert_eq!(a.current_balance, -200_000);
    let mut b = TopstepAccount::new(TopstepAccountType::Fifty);
    b.passed_eval = true;
    assert_eq!(b.trade_on_account(&Trade::new(50_000, -250_000)), AccountStatus::Blown(-250_000));
}

#[test]
fn topstep_winning_days_count_only_when_funded() {
    let mut a = TopstepAccount::new(TopstepAccountType::Fifty);
    a.try_add_trading_day(50_000);
    assert_eq!(a.total_winning_days, 0);
    a.passed_eval = true;
    a.try_add_trading_day(20_000);
    a.try_add_trading_day(19_999);
    assert_eq!(a.total_winning_days, 1);
    assert_eq!(a.winning_days_since_last_payout, 1);
    assert_eq!(a.max_winning_day_profit, 20_000);
}

#[test]
fn topstep_withdrawal_half_then_full() {
    let mut a = TopstepAccount::new(TopstepAccountType::Fifty);
    a.passed_eval = true;
    a.current_balance = 100_001;
    assert_eq!(a.allowed_withdrawal_amount(), None);
    a.winning_days_since_last_payout = 5;
    assert_eq!(a.allowed_withdrawal_amount(), Some(50_000));
    a.total_winning_days = 30;
    assert_eq!(a.allowed_withdrawal_amount(), Some(100_001));
    a.current_balance = -7;
    a.total_winning_days = 0;
    assert_eq!(a.allowed_withdrawal_amount(), None);
}

#[test]
fn topstep_outsized_day_blocks_withdrawal() {
    let mut a = TopstepAccount::new(TopstepAccountType::Fifty);
    a.passed_eval = true;
    a.current_balance = 100_000;
    a.total_winning_days = 30;
    a.max_winning_day_profit = 50_001;
    assert_eq!(a.allowed_withdrawal_amount(), None);
    a.max_winning_day_profit = 50_000;
    assert_eq!(a.allowed_withdrawal_amount(), Some(100_000));
    a.total_winning_days = 0;
    a.winning_days_since_last_payout = 5;
    assert_eq!(a.allowed_withdrawal_amount(), Some(50_000));
}

#[test]
fn topstep_withdrawal_reports_depletion() {
    let mut a = TopstepAccount::new(TopstepAccountType::Fifty);
    a.current_balance = 300;
    a.winning_days_since_last_payout = 5;
    assert_eq!(a.make_withdrawal(299), 1);
    assert_eq!(a.current_balance, 1);
    assert_eq!(a.winning_days_since_last_payout, 0);
    let mut b = TopstepAccount::new(TopstepAccountType::Fifty);
    b.current_balance = 300;
    assert_eq!(b.make_withdrawal(150), 0);
    assert_eq!(b.current_balance, 150);
}

#[test]
fn topstep_consistency_rule_is_half_the_balance() {
    let mut a = TopstepAccount::new(TopstepAccountType::Fifty);
    a.current_balance = 100_000;
    a.max_winning_day_profit = 50_000;
    assert!(a.passes_consistency_rule());
    a.max_winning_day_profit = 50_001;
    assert!(!a.passes_consistency_rule());
}
