use prop_simulator::{
    aggregate_results, AccountType, AccountTypeError, AggregateError, EndOfGame,
    EndStateCondition, FttAccountType, IterationResult, TopstepAccountType,
};

fn result(final_balance: i64, end_state: EndOfGame, simulation_length: u64) -> IterationResult {
    IterationResult { final_balance, end_state, simulation_length }
}

#[test]
fn summary_of_known_balances() {
    let results: Vec<IterationResult> = [-500, -100, 0, 200, 800]
        .iter()
        .map(|&b| result(b, EndOfGame::Busted, 10))
        .collect();
    let s = aggregate_results(&results, None).unwrap();
    assert_eq!(s.mean_balance, 80);
    assert_eq!(s.median_balance, 0);
    assert_eq!(s.iqr, 300);
    assert_eq!(s.std_dev, 476);
    assert_eq!(s.mad, 336);
    assert_eq!(s.mad_median, 200);
    assert_eq!(s.mean_days_hundredths, 1_000);
    assert_eq!(s.positive_balance_count, 2);
    assert_eq!(s.final_balances, vec![-500, -100, 0, 200, 800]);
    assert_eq!(s.end_state_counts.busted, 5);
}

#[test]
fn even_count_median_averages_the_middle_pair() {
    let results: Vec<IterationResult> =
        [4, 1, 3, 2].iter().map(|&b| result(b, EndOfGame::TimeOut, 5)).collect();
    let s = aggregate_results(&results, None).unwrap();
    assert_eq!(s.median_balance, 2);
    assert_eq!(s.mean_balance, 2);
    assert_eq!(s.iqr, 2);
    let neg: Vec<IterationResult> =
        [-3, -2].iter().map(|&b| result(b, EndOfGame::TimeOut, 5)).collect();
    let t = aggregate_results(&neg, None).unwrap();
    assert_eq!(t.median_balance, -3);
    assert_eq!(t.mean_balance, -3);
}

#[test]
fn single_trial_has_no_spread() {
    let s = aggregate_results(&vec![result(-59_900, EndOfGame::Busted, 3)], None).unwrap();
    assert_eq!(s.mean_balance, -59_900);
    assert_eq!(s.median_balance, -59_900);
    assert_eq!(s.std_dev, 0);
    assert_eq!(s.mad, 0);
    assert_eq!(s.iqr, 0);
    assert_eq!(s.mad_median, 0);
    assert_eq!(s.positive_balance_count, 0);
}

#[test]
fn summary_conditioned_on_end_state() {
    let results = vec![
        result(-10_000, EndOfGame::Busted, 4),
        result(50_000, EndOfGame::MaxPayouts, 40),
        result(30_000, EndOfGame::MaxPayouts, 21),
        result(5_000, EndOfGame::TimeOut, 365),
    ];
    let s = aggregate_results(&results, Some(EndOfGame::MaxPayouts)).unwrap();
    assert_eq!(s.final_balances, vec![50_000, 30_000]);
    assert_eq!(s.mean_balance, 40_000);
    assert_eq!(s.median_balance, 40_000);
    assert_eq!(s.mean_days_hundredths, 3_050);
    assert_eq!(s.std_dev, 14_142);
    assert_eq!(s.end_state_counts.busted, 1);
    assert_eq!(s.end_state_counts.max_payouts, 2);
    assert_eq!(s.end_state_counts.time_out, 1);
    assert_eq!(s.positive_balance_count, 2);
}

#[test]
fn empty_selection_is_an_error() {
    let results = vec![result(-10_000, EndOfGame::Busted, 4)];
    assert_eq!(aggregate_results(&results, Some(EndOfGame::MaxPayouts)).unwrap_err(), AggregateError::NoData);
    assert_eq!(aggregate_results(&Vec::new(), None).unwrap_err(), AggregateError::NoData);
}

#[test]
fn account_selectors_parse_in_any_case() {
    assert_eq!(AccountType::parse("FTT:GT"), Ok(AccountType::Ftt(FttAccountType::GT)));
    assert_eq!(AccountType::parse("ftt:lemans"), Ok(AccountType::Ftt(FttAccountType::LeMans)));
    assert_eq!(
        AccountType::parse("TopStep:OneFifty"),
        Ok(AccountType::TopStep(TopstepAccountType::OneFifty))
    );
    assert_eq!("topstep:fifty".parse::<AccountType>(), Ok(AccountType::TopStep(TopstepAccountType::Fifty)));
    assert_eq!("Daytona".parse::<FttAccountType>(), Ok(FttAccountType::Daytona));
    assert_eq!("RALLY".parse::<FttAccountType>(), Ok(FttAccountType::Rally));
    assert_eq!("onehundred".parse::<TopstepAccountType>(), Ok(TopstepAccountType::OneHundred));
}

#[test]
fn account_selectors_report_each_error() {
    assert_eq!(AccountType::parse("gt"), Err(AccountTypeError::InvalidFormat));
    assert_eq!(AccountType::parse("ftt:gt:x"), Err(AccountTypeError::InvalidFormat));
    assert_eq!(AccountType::parse("acme:gt"), Err(AccountTypeError::UnknownCompany));
    assert_eq!(AccountType::parse("ftt:indy"), Err(AccountTypeError::UnknownFttType));
    assert_eq!(AccountType::parse("topstep:gt"), Err(AccountTypeError::UnknownTopstepType));
    assert_eq!(FttAccountType::parse(""), Err(AccountTypeError::UnknownFttType));
}

#[test]
fn end_state_conditions_parse_leniently() {
    assert_eq!(EndStateCondition::parse("Busted"), EndStateCondition::Only(EndOfGame::Busted));
    assert_eq!(EndStateCondition::parse("TIMEOUT"), EndStateCondition::Only(EndOfGame::TimeOut));
    assert_eq!(EndStateCondition::parse("MaxPayouts"), EndStateCondition::Only(EndOfGame::MaxPayouts));
    assert_eq!(EndStateCondition::parse("All"), EndStateCondition::All);
    assert_eq!(EndStateCondition::parse("everything"), EndStateCondition::Unrecognized);
    assert_eq!(EndStateCondition::parse("everything").selected(), None);
    assert_eq!(EndStateCondition::parse("busted").selected(), Some(EndOfGame::Busted));
}
