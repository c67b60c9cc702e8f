use vstd::prelude::*;
use vstd::relations::{sorted_by, total_ordering};
use vstd::seq_lib::lemma_sorted_unique;
use vstd::arithmetic::div_mod::{lemma_div_denominator, lemma_fundamental_div_mod, lemma_fundamental_div_mod_converse};

use crate::simulation::IterationResult;
use crate::trader::{EndOfGame, BANK_LIMIT, MAX_SIMULATION_DAYS};

verus! {

/// Most trials whose results can be summarized at once.
pub const MAX_TRIALS: usize = 1_000_000;

/// How many trials ended in each terminal state.
#[derive(Clone, Copy, Debug, PartialEq, Eq)]
pub struct EndStateCounts {
    pub busted: usize,
    pub time_out: usize,
    pub max_payouts: usize,
}

/// Summary statistics of the final bank balances of the selected trials, in
/// cents, each rounded down to a whole cent.
#[derive(Clone, Debug)]
pub struct SimulationResult {
    /// The final balances of the selected trials, in the trials' order.
    pub final_balances: Vec<i64>,
    pub mean_balance: i64,
    pub median_balance: i64,
    /// Sample standard deviation.
    pub std_dev: i64,
    /// Mean absolute deviation from the mean.
    pub mad: i64,
    /// Interquartile range, between the medians of the lower and upper halves.
    pub iqr: i64,
    /// Median absolute deviation from the median.
    pub mad_median: i64,
    /// Mean length of the selected trials, in hundredths of a day.
    pub mean_days_hundredths: u64,
    /// Over all trials, not only the selected ones.
    pub end_state_counts: EndStateCounts,
    /// Selected trials that ended with money made.
    pub positive_balance_count: usize,
}

/// Why no summary could be made.
#[derive(Clone, Copy, Debug, PartialEq, Eq)]
pub enum AggregateError {
    /// No trial ended in the selected state.
    NoData,
}

pub open spec fn leq() -> spec_fn(i64, i64) -> bool {
    |a: i64, b: i64| a <= b
}

/// The values in ascending order.
pub open spec fn sorted_values(xs: Seq<i64>) -> Seq<i64> {
    xs.sort_by(leq())
}

pub open spec fn sum(xs: Seq<i64>) -> int
    decreases xs.len(),
{
    if xs.len() == 0 {
        0
    } else {
        sum(xs.drop_last()) + xs.last()
    }
}

/// Twice the median of ascending values: the middle value doubled, or the
/// two middle values added.
pub open spec fn median2(s: Seq<i64>) -> int {
    let m = (s.len() / 2) as int;
    if s.len() % 2 == 0 {
        s[m - 1] + s[m]
    } else {
        2 * s[m]
    }
}

/// The lower half of ascending values, with the middle one if there is one.
pub open spec fn lower_half(s: Seq<i64>) -> Seq<i64> {
    s.subrange(0, ((s.len() + 1) / 2) as int)
}

/// The upper half of ascending values, with the middle one if there is one.
pub open spec fn upper_half(s: Seq<i64>) -> Seq<i64> {
    s.subrange((s.len() / 2) as int, s.len() as int)
}

pub open spec fn keeps(r: IterationResult, condition: Option<EndOfGame>) -> bool {
    match condition {
        Some(state) => r.end_state == state,
        None => true,
    }
}

/// The final balances of the trials in the selected state, in order.
pub open spec fn selected_balances(rs: Seq<IterationResult>, condition: Option<EndOfGame>) -> Seq<i64>
    decreases rs.len(),
{
    if rs.len() == 0 {
        Seq::empty()
    } else if keeps(rs.last(), condition) {
        selected_balances(rs.drop_last(), condition).push(rs.last().final_balance)
    } else {
        selected_balances(rs.drop_last(), condition)
    }
}

/// The lengths of the trials in the selected state, in order.
pub open spec fn selected_days(rs: Seq<IterationResult>, condition: Option<EndOfGame>) -> Seq<u64>
    decreases rs.len(),
{
    if rs.len() == 0 {
        Seq::empty()
    } else if keeps(rs.last(), condition) {
        selected_days(rs.drop_last(), condition).push(rs.last().simulation_length)
    } else {
        selected_days(rs.drop_last(), condition)
    }
}

pub open spec fn count_state(rs: Seq<IterationResult>, state: EndOfGame) -> int
    decreases rs.len(),
{
    if rs.len() == 0 {
        0
    } else {
        count_state(rs.drop_last(), state) + if rs.last().end_state == state {
            1int
        } else {
            0int
        }
    }
}

pub open spec fn count_positive(xs: Seq<i64>) -> int
    decreases xs.len(),
{
    if xs.len() == 0 {
        0
    } else {
        count_positive(xs.drop_last()) + if xs.last() > 0 {
            1int
        } else {
            0int
        }
    }
}

pub open spec fn sum_days(ds: Seq<u64>) -> int
    decreases ds.len(),
{
    if ds.len() == 0 {
        0
    } else {
        sum_days(ds.drop_last()) + ds.last()
    }
}

/// Results that the summary can hold: few enough, with balances and lengths
/// that a trial can produce.
pub open spec fn results_valid(rs: Seq<IterationResult>) -> bool {
    &&& rs.len() <= MAX_TRIALS
    &&& forall|i: int| 0 <= i < rs.len() ==> -BANK_LIMIT <= #[trigger] rs[i].final_balance <= BANK_LIMIT
    &&& forall|i: int| 0 <= i < rs.len() ==> #[trigger] rs[i].simulation_length <= MAX_SIMULATION_DAYS
}

/// Values that the summary can hold: at least one, not too many, each a
/// balance that a trial can end with.
pub open spec fn values_valid(xs: Seq<i64>) -> bool {
    &&& xs.len() <= MAX_TRIALS
    &&& forall|i: int| 0 <= i < xs.len() ==> -BANK_LIMIT <= #[trigger] xs[i] <= BANK_LIMIT
}

pub open spec fn abs(x: int) -> int {
    if x < 0 { -x } else { x }
}

/// The sum of the squared distances of `a` times each value from `c`.
pub open spec fn sum_sq_dev(xs: Seq<i64>, a: int, c: int) -> int
    decreases xs.len(),
{
    if xs.len() == 0 {
        0
    } else {
        sum_sq_dev(xs.drop_last(), a, c) + (a * xs.last() - c) * (a * xs.last() - c)
    }
}

pub open spec fn sum_sq(xs: Seq<i64>) -> int
    decreases xs.len(),
{
    if xs.len() == 0 {
        0
    } else {
        sum_sq(xs.drop_last()) + xs.last() * xs.last()
    }
}

/// The sum of the distances of `a` times each value from `c`.
pub open spec fn sum_abs_dev(xs: Seq<i64>, a: int, c: int) -> int
    decreases xs.len(),
{
    if xs.len() == 0 {
        0
    } else {
        sum_abs_dev(xs.drop_last(), a, c) + abs(a * xs.last() - c)
    }
}

/// `r` is the sample standard deviation of the values, rounded down:
/// `r * r <= sum((x - mean)^2) / (n - 1) < (r + 1) * (r + 1)`, written with
/// `n * x - sum` in place of `x - mean`. A single value deviates by zero.
pub open spec fn is_sample_std_dev(xs: Seq<i64>, r: int) -> bool {
    let n = xs.len() as int;
    let ss = sum_sq_dev(xs, n, sum(xs));
    if n == 1 {
        r == 0
    } else {
        &&& r >= 0
        &&& r * r * (n * n * (n - 1)) <= ss
        &&& ss < (r + 1) * (r + 1) * (n * n * (n - 1))
    }
}

/// The distances of each value, doubled, from `c`.
pub open spec fn abs_devs(s: Seq<i64>, c: int) -> Seq<i64> {
    Seq::new(s.len(), |i: int| abs(2 * s[i] - c) as i64)
}

/// Relies on `slice::sort`: the values end in ascending order, as a
/// rearrangement of what they were.
#[verifier::external_body]
fn sort_values(v: &mut Vec<i64>)
    ensures
        final(v)@.to_multiset() == old(v)@.to_multiset(),
        sorted_by(final(v)@, leq()),
{
    v.sort();
}

proof fn lemma_leq_total()
    ensures
        total_ordering(leq()),
{
}

/// The values of `v`, sorted.
fn sorted_copy(v: &Vec<i64>) -> (r: Vec<i64>)
    ensures
        r@ == sorted_values(v@),
        r@.len() == v@.len(),
        forall|k: int| 0 <= k < r@.len() ==> v@.contains(#[trigger] r@[k]),
{
    let mut r = v.clone();
    sort_values(&mut r);
    proof {
        broadcast use vstd::seq_lib::group_to_multiset_ensures;

        lemma_leq_total();
        v@.lemma_sort_by_ensures(leq());
        lemma_sorted_unique(r@, sorted_values(v@), leq());
        assert(r@.len() == v@.len()) by {
            assert(r@.to_multiset().len() == v@.to_multiset().len());
        }
        assert forall|k: int| 0 <= k < r@.len() implies v@.contains(#[trigger] r@[k]) by {
            assert(r@.to_multiset().count(r@[k]) > 0);
        }
    }
    r
}

/// The final balances and lengths of the trials in the selected state.
pub fn select_results(results: &Vec<IterationResult>, condition: Option<EndOfGame>) -> (r: (Vec<i64>, Vec<u64>))
    ensures
        r.0@ == selected_balances(results@, condition),
        r.1@ == selected_days(results@, condition),
        results_valid(results@) ==> values_valid(r.0@),
        results_valid(results@) ==> forall|j: int| 0 <= j < r.1@.len() ==> #[trigger] r.1@[j] <= MAX_SIMULATION_DAYS,
        r.0@.len() == r.1@.len(),
{
    let mut balances: Vec<i64> = Vec::new();
    let mut days: Vec<u64> = Vec::new();
    let mut i: usize = 0;
    while i < results.len()
        invariant
            i <= results.len(),
            balances@ == selected_balances(results@.take(i as int), condition),
            days@ == selected_days(results@.take(i as int), condition),
            balances@.len() == days@.len(),
            balances@.len() <= i,
            results_valid(results@) ==> forall|j: int| 0 <= j < balances@.len() ==> -BANK_LIMIT <= #[trigger] balances@[j] <= BANK_LIMIT,
            results_valid(results@) ==> forall|j: int| 0 <= j < days@.len() ==> #[trigger] days@[j] <= MAX_SIMULATION_DAYS,
        decreases results.len() - i,
    {
        let r = results[i];
        proof {
            assert(results@.take(i + 1).drop_last() == results@.take(i as int));
        }
        let keep = match condition {
            Some(state) => match (r.end_state, state) {
                (EndOfGame::Busted, EndOfGame::Busted) => true,
                (EndOfGame::TimeOut, EndOfGame::TimeOut) => true,
                (EndOfGame::MaxPayouts, EndOfGame::MaxPayouts) => true,
                _ => false,
            },
            None => true,
        };
        if keep {
            balances.push(r.final_balance);
            days.push(r.simulation_length);
        }
        i = i + 1;
    }
    proof {
        assert(results@.take(results.len() as int) == results@);
    }
    (balances, days)
}

/// How many trials ended in each state.
pub fn count_end_states(results: &Vec<IterationResult>) -> (r: EndStateCounts)
    ensures
        r.busted == count_state(results@, EndOfGame::Busted),
        r.time_out == count_state(results@, EndOfGame::TimeOut),
        r.max_payouts == count_state(results@, EndOfGame::MaxPayouts),
{
    let mut counts = EndStateCounts { busted: 0, time_out: 0, max_payouts: 0 };
    let mut i: usize = 0;
    while i < results.len()
        invariant
            i <= results.len(),
            counts.busted == count_state(results@.take(i as int), EndOfGame::Busted),
            counts.time_out == count_state(results@.take(i as int), EndOfGame::TimeOut),
            counts.max_payouts == count_state(results@.take(i as int), EndOfGame::MaxPayouts),
            counts.busted + counts.time_out + counts.max_payouts == i,
        decreases results.len() - i,
    {
        proof {
            assert(results@.take(i + 1).drop_last() == results@.take(i as int));
        }
        match results[i].end_state {
            EndOfGame::Busted => counts.busted = counts.busted + 1,
            EndOfGame::TimeOut => counts.time_out = counts.time_out + 1,
            EndOfGame::MaxPayouts => counts.max_payouts = counts.max_payouts + 1,
        }
        i = i + 1;
    }
    proof {
        assert(results@.take(results.len() as int) == results@);
    }
    counts
}


proof fn lemma_take_last<T>(xs: Seq<T>, i: int)
    requires
        0 <= i < xs.len(),
    ensures
        xs.take(i + 1).drop_last() == xs.take(i),
        xs.take(i + 1).last() == xs[i],
{
    assert(xs.take(i + 1).drop_last() =~= xs.take(i));
}

/// The squared distances expand into a sum of squares and a plain sum.
proof fn lemma_sum_sq_dev_expand(xs: Seq<i64>, a: int, c: int)
    ensures
        sum_sq_dev(xs, a, c) == a * a * sum_sq(xs) - 2 * a * c * sum(xs) + xs.len() * c * c,
    decreases xs.len(),
{
    if xs.len() > 0 {
        lemma_sum_sq_dev_expand(xs.drop_last(), a, c);
        let x = xs.last() as int;
        let n1 = xs.drop_last().len() as int;
        assert((a * x - c) * (a * x - c) == a * a * (x * x) - 2 * a * c * x + c * c)
            by (nonlinear_arith);
        assert(n1 * c * c + c * c == (n1 + 1) * c * c) by (nonlinear_arith);
        assert(a * a * sum_sq(xs.drop_last()) + a * a * (x * x) == a * a * (sum_sq(xs.drop_last()) + x * x))
            by (nonlinear_arith);
        assert(2 * a * c * sum(xs.drop_last()) + 2 * a * c * x == 2 * a * c * (sum(xs.drop_last()) + x))
            by (nonlinear_arith);
    }
}

proof fn lemma_sum_sq_dev_nonneg(xs: Seq<i64>, a: int, c: int)
    ensures
        sum_sq_dev(xs, a, c) >= 0,
    decreases xs.len(),
{
    if xs.len() > 0 {
        lemma_sum_sq_dev_nonneg(xs.drop_last(), a, c);
        let d = a * xs.last() - c;
        assert(d * d >= 0) by (nonlinear_arith);
    }
}

/// The sum of the values.
fn sum_values(xs: &Vec<i64>) -> (r: i128)
    requires
        values_valid(xs@),
    ensures
        r == sum(xs@),
        -(xs.len() * BANK_LIMIT) <= r <= xs.len() * BANK_LIMIT,
{
    let mut acc: i128 = 0;
    let mut i: usize = 0;
    while i < xs.len()
        invariant
            values_valid(xs@),
            i <= xs.len(),
            acc == sum(xs@.take(i as int)),
            -(i * BANK_LIMIT) <= acc <= i * BANK_LIMIT,
        decreases xs.len() - i,
    {
        proof {
            lemma_take_last(xs@, i as int);
        }
        acc = acc + xs[i] as i128;
        i = i + 1;
    }
    proof {
        assert(xs@.take(xs.len() as int) == xs@);
    }
    acc
}

/// The mean of the values, rounded down.
pub fn mean_balance(xs: &Vec<i64>) -> (r: i64)
    requires
        values_valid(xs@),
        xs.len() > 0,
    ensures
        r == sum(xs@) / (xs.len() as int),
        -BANK_LIMIT <= r <= BANK_LIMIT,
        xs.len() * r <= sum(xs@) < xs.len() * (r + 1),
{
    let total = sum_values(xs);
    let n = xs.len() as i128;
    proof {
        let t = total as int;
        let nn = n as int;
        lemma_fundamental_div_mod(t, nn);
        let q = t / nn;
        assert(-BANK_LIMIT <= q <= BANK_LIMIT) by (nonlinear_arith)
            requires
                -(nn * BANK_LIMIT) <= t <= nn * BANK_LIMIT,
                nn > 0,
                t == nn * q + t % nn,
                0 <= t % nn < nn,
        ;
        assert(nn * q <= t < nn * (q + 1)) by (nonlinear_arith)
            requires
                t == nn * q + t % nn,
                0 <= t % nn < nn,
        ;
    }
    match total.checked_div_euclid(n) {
        Some(q) => q as i64,
        None => 0,
    }
}

/// Twice the median of the ascending values `s[lo..hi]`.
fn median2_of(s: &Vec<i64>, lo: usize, hi: usize) -> (r: i64)
    requires
        forall|i: int| 0 <= i < s@.len() ==> -4 * BANK_LIMIT <= #[trigger] s@[i] <= 4 * BANK_LIMIT,
        lo < hi <= s.len(),
    ensures
        r == median2(s@.subrange(lo as int, hi as int)),
{
    let len = hi - lo;
    let m = lo + len / 2;
    if len % 2 == 0 {
        s[m - 1] + s[m]
    } else {
        2 * s[m]
    }
}

/// Rounds down `x / d` for a positive `d`.
fn floor_div(x: i64, d: i64) -> (r: i64)
    requires
        d > 0,
        -8 * BANK_LIMIT <= x <= 8 * BANK_LIMIT,
    ensures
        r == x as int / d as int,
{
    proof {
        let xi = x as int;
        let di = d as int;
        lemma_fundamental_div_mod(xi, di);
        let q = xi / di;
        assert(-8 * BANK_LIMIT - 1 <= q <= 8 * BANK_LIMIT) by (nonlinear_arith)
            requires
                xi == di * q + xi % di,
                0 <= xi % di < di,
                di >= 1,
                -8 * BANK_LIMIT <= xi <= 8 * BANK_LIMIT,
        ;
    }
    match x.checked_div_euclid(d) {
        Some(q) => q,
        None => 0,
    }
}

/// The greatest `r` with `r * r <= v`.
fn floor_sqrt(v: u128) -> (r: u64)
    requires
        v <= 16_000_000_000_000_000_000_000_000_000_000_000_000,
    ensures
        r * r <= v < (r + 1) * (r + 1),
        r <= 4_000_000_000_000_000_000,
{
    let mut lo: u64 = 0;
    let mut hi: u64 = 4_000_000_000_000_000_001;
    assert(hi * hi > v) by (nonlinear_arith)
        requires
            hi == 4_000_000_000_000_000_001u64,
            v <= 16_000_000_000_000_000_000_000_000_000_000_000_000,
    ;
    while hi - lo > 1
        invariant
            lo < hi <= 4_000_000_000_000_000_001,
            lo * lo <= v < hi * hi,
        decreases hi - lo,
    {
        let mid = lo + (hi - lo) / 2;
        assert(mid * mid <= 16_000_000_000_000_000_008_000_000_000_000_000_001) by (nonlinear_arith)
            requires
                mid <= 4_000_000_000_000_000_001,
        ;
        if (mid as u128) * (mid as u128) <= v {
            lo = mid;
        } else {
            hi = mid;
        }
    }
    assert(hi == lo + 1);
    lo
}

/// The sample standard deviation of the values, rounded down.
pub fn sample_std_dev(xs: &Vec<i64>) -> (r: i64)
    requires
        values_valid(xs@),
        xs.len() > 0,
    ensures
        is_sample_std_dev(xs@, r as int),
{
    let n = xs.len();
    if n == 1 {
        return 0;
    }
    let total = sum_values(xs);
    let m = mean_balance(xs);
    let ghost nn = n as int;
    let ghost big_s = sum(xs@);
    // squared distances from the rounded-down mean
    let mut q: u128 = 0;
    let mut i: usize = 0;
    while i < n
        invariant
            values_valid(xs@),
            n == xs.len(),
            i <= n,
            -BANK_LIMIT <= m <= BANK_LIMIT,
            q == sum_sq_dev(xs@.take(i as int), 1, m as int),
            q <= i * 16_000_000_000_000_000_000_000_000_000_000,
        decreases n - i,
    {
        proof {
            lemma_take_last(xs@, i as int);
        }
        let d = (xs[i] as i128 - m as i128);
        let dd = if d < 0 { (-d) as u128 } else { d as u128 };
        assert(dd * dd <= 16_000_000_000_000_000_000_000_000_000_000) by (nonlinear_arith)
            requires
                dd <= 4_000_000_000_000_000,
        ;
        assert(dd * dd == (1 * xs[i as int] - m) * (1 * xs[i as int] - m)) by (nonlinear_arith)
            requires
                dd == abs(xs[i as int] - m),
        ;
        q = q + dd * dd;
        i = i + 1;
    }
    proof {
        assert(xs@.take(n as int) == xs@);
    }
    assert(-2_000_000_000_000_000_000_000 <= (n as int) * (m as int) <= 2_000_000_000_000_000_000_000) by (nonlinear_arith)
        requires
            n <= MAX_TRIALS,
            -BANK_LIMIT <= m <= BANK_LIMIT,
    ;
    // what the rounded-down mean left over
    let r0: u128 = (total - (n as i128) * (m as i128)) as u128;
    proof {
        assert((n as int) * (m + 1) == (n as int) * m + n) by (nonlinear_arith);
    }
    assert(0 <= r0 < n);
    assert(r0 * r0 < 1_000_000_000_000) by (nonlinear_arith)
        requires
            r0 < n,
            n <= MAX_TRIALS,
    ;
    let c: u128 = (r0 * r0 + (n as u128) - 1) / (n as u128);
    let ghost qq = q as int;
    let ghost rr = r0 as int;
    let ghost t = nn * qq - rr * rr;
    let ghost ss = sum_sq_dev(xs@, nn, big_s);
    proof {
        lemma_sum_sq_dev_expand(xs@, nn, big_s);
        lemma_sum_sq_dev_expand(xs@, 1, m as int);
        lemma_sum_sq_dev_nonneg(xs@, nn, big_s);
        let x2 = sum_sq(xs@);
        let mi = m as int;
        assert(ss == nn * nn * x2 - nn * big_s * big_s) by (nonlinear_arith)
            requires
                ss == nn * nn * x2 - 2 * nn * big_s * big_s + nn * big_s * big_s,
        ;
        assert(qq == x2 - 2 * mi * big_s + nn * mi * mi) by (nonlinear_arith)
            requires
                qq == 1 * 1 * x2 - 2 * 1 * mi * big_s + nn * mi * mi,
        ;
        assert(nn * qq == nn * x2 - 2 * nn * mi * big_s + nn * nn * mi * mi) by (nonlinear_arith)
            requires
                qq == x2 - 2 * mi * big_s + nn * mi * mi,
        ;
        assert(rr * rr == big_s * big_s - 2 * nn * mi * big_s + nn * nn * mi * mi) by (nonlinear_arith)
            requires
                rr == big_s - nn * mi,
        ;
        assert(t == nn * x2 - big_s * big_s);
        assert(ss == nn * t) by (nonlinear_arith)
            requires
                ss == nn * nn * x2 - nn * big_s * big_s,
                t == nn * x2 - big_s * big_s,
        ;
        assert(t >= 0) by (nonlinear_arith)
            requires
                ss == nn * t,
                ss >= 0,
                nn > 0,
        ;
        // t / n is q less rr * rr / n rounded up
        let y = rr * rr;
        lemma_fundamental_div_mod(y, nn);
        let yq = y / nn;
        let yr = y % nn;
        assert(t == (qq - yq) * nn - yr) by (nonlinear_arith)
            requires
                t == nn * qq - y,
                y == nn * yq + yr,
        ;
        if yr == 0 {
            lemma_fundamental_div_mod_converse(t, nn, qq - yq, 0);
            assert(y + nn - 1 == yq * nn + (nn - 1)) by (nonlinear_arith)
                requires
                    y == nn * yq + yr,
                    yr == 0,
            ;
            lemma_fundamental_div_mod_converse(y + nn - 1, nn, yq, nn - 1);
        } else {
            assert(t == (qq - yq - 1) * nn + (nn - yr)) by (nonlinear_arith)
                requires
                    t == (qq - yq) * nn - yr,
            ;
            lemma_fundamental_div_mod_converse(t, nn, qq - yq - 1, nn - yr);
            assert(y + nn - 1 == (yq + 1) * nn + (yr - 1)) by (nonlinear_arith)
                requires
                    y == nn * yq + yr,
            ;
            lemma_fundamental_div_mod_converse(y + nn - 1, nn, yq + 1, yr - 1);
        }
        assert(t / nn == qq - c);
    }
    let v: u128 = (q - c) / ((n - 1) as u128);
    assert(v <= q) by (nonlinear_arith)
        requires
            v as int == (q - c) / (n - 1) as int,
            c <= q,
            n >= 2,
    ;
    assert(q <= 16_000_000_000_000_000_000_000_000_000_000_000_000) by (nonlinear_arith)
        requires
            q <= n * 16_000_000_000_000_000_000_000_000_000_000,
            n <= MAX_TRIALS,
    ;
    let r = floor_sqrt(v);
    proof {
        lemma_div_denominator(t, nn, nn - 1);
        let vv = v as int;
        let k = nn * (nn - 1);
        assert(vv == t / k);
        let ri = r as int;
        lemma_fundamental_div_mod(t, k);
        assert(vv * k <= t < (vv + 1) * k) by (nonlinear_arith)
            requires
                t == k * vv + t % k,
                0 <= t % k < k,
        ;
        assert(ri * ri * (nn * nn * (nn - 1)) <= ss) by (nonlinear_arith)
            requires
                ri * ri <= vv,
                vv * k <= t,
                k == nn * (nn - 1),
                ss == nn * t,
                nn > 1,
        {
            assert(ri * ri * k <= vv * k);
        }
        assert(ss < (ri + 1) * (ri + 1) * (nn * nn * (nn - 1))) by (nonlinear_arith)
            requires
                vv < (ri + 1) * (ri + 1),
                t < (vv + 1) * k,
                k == nn * (nn - 1),
                ss == nn * t,
                nn > 1,
        {
            assert((vv + 1) * k <= (ri + 1) * (ri + 1) * k);
        }
    }
    r as i64
}


/// The mean absolute deviation from the mean, rounded down:
/// `sum(|n * x - sum|) / (n * n)`.
pub fn mean_abs_dev(xs: &Vec<i64>) -> (r: i64)
    requires
        values_valid(xs@),
        xs.len() > 0,
    ensures
        r == sum_abs_dev(xs@, xs.len() as int, sum(xs@)) / (xs.len() * xs.len()) as int,
{
    let n = xs.len();
    let total = sum_values(xs);
    let ghost nn = n as int;
    let ghost bound = 2 * nn * BANK_LIMIT;
    let mut acc: i128 = 0;
    let mut i: usize = 0;
    while i < n
        invariant
            values_valid(xs@),
            n == xs.len(),
            nn == n,
            n <= MAX_TRIALS,
            n > 0,
            i <= n,
            total == sum(xs@),
            -(nn * BANK_LIMIT) <= total <= nn * BANK_LIMIT,
            bound == 2 * nn * BANK_LIMIT,
            acc == sum_abs_dev(xs@.take(i as int), nn, total as int),
            0 <= acc <= i * bound,
        decreases n - i,
    {
        proof {
            lemma_take_last(xs@, i as int);
        }
        let x = xs[i];
        assert(-(nn * BANK_LIMIT) <= nn * x <= nn * BANK_LIMIT) by (nonlinear_arith)
            requires
                -BANK_LIMIT <= x <= BANK_LIMIT,
                nn >= 0,
        ;
        assert(nn * BANK_LIMIT <= 1_000_000 * BANK_LIMIT) by (nonlinear_arith)
            requires
                nn <= MAX_TRIALS,
        ;
        assert(i * bound + bound == (i + 1) * bound) by (nonlinear_arith);
        assert((i + 1) * bound <= nn * bound) by (nonlinear_arith)
            requires
                i + 1 <= nn,
                bound >= 0,
        ;
        assert(nn * bound <= 1_000_000 * 4_000_000_000_000_000_000_000) by (nonlinear_arith)
            requires
                0 <= nn <= 1_000_000,
                bound == 2 * nn * 2_000_000_000_000_000,
        ;
        let d = (n as i128) * (x as i128) - total;
        let ad = if d < 0 { -d } else { d };
        assert(ad == abs(nn * xs@.take(i + 1).last() - total)) by (nonlinear_arith)
            requires
                xs@.take(i + 1).last() == x,
                d == nn * x - total,
                ad == abs(d as int),
        ;
        acc = acc + ad;
        i = i + 1;
    }
    proof {
        assert(xs@.take(n as int) == xs@);
        assert(acc as int / (nn * nn) <= 2 * BANK_LIMIT) by (nonlinear_arith)
            requires
                0 <= acc <= nn * bound,
                bound == 2 * nn * BANK_LIMIT,
                nn > 0,
        {
            assert(nn * bound == (nn * nn) * (2 * BANK_LIMIT));
            vstd::arithmetic::div_mod::lemma_div_is_ordered(acc as int, (nn * nn) * (2 * BANK_LIMIT), nn * nn);
            vstd::arithmetic::div_mod::lemma_div_multiples_vanish(2 * BANK_LIMIT, nn * nn);
        }
        assert(acc as int / (nn * nn) >= 0) by (nonlinear_arith)
            requires
                acc >= 0,
                nn > 0,
        ;
    }
    assert(0 < nn * nn <= 1_000_000_000_000) by (nonlinear_arith)
        requires
            0 < nn <= 1_000_000,
    ;
    let nsq = (n as i128) * (n as i128);
    (acc / nsq) as i64
}

/// The median of the values' distances from their median, rounded down.
fn median_abs_dev(s: &Vec<i64>, med2: i64) -> (r: i64)
    requires
        values_valid(s@),
        s.len() > 0,
        -2 * BANK_LIMIT <= med2 <= 2 * BANK_LIMIT,
    ensures
        r == median2(sorted_values(abs_devs(s@, med2 as int))) / 4,
{
    let mut devs: Vec<i64> = Vec::new();
    let mut i: usize = 0;
    while i < s.len()
        invariant
            values_valid(s@),
            -2 * BANK_LIMIT <= med2 <= 2 * BANK_LIMIT,
            i <= s.len(),
            devs@ == abs_devs(s@, med2 as int).take(i as int),
        decreases s.len() - i,
    {
        let d = 2 * s[i] - med2;
        devs.push(if d < 0 { -d } else { d });
        proof {
            assert(devs@ =~= abs_devs(s@, med2 as int).take(i + 1));
        }
        i = i + 1;
    }
    proof {
        assert(devs@ =~= abs_devs(s@, med2 as int));
    }
    let sorted_devs = sorted_copy(&devs);
    proof {
        let sd = sorted_devs@;
        assert forall|k: int| 0 <= k < sd.len() implies -4 * BANK_LIMIT <= #[trigger] sd[k] <= 4
            * BANK_LIMIT by {
            assert(devs@.contains(sd[k]));
        }
        assert(sd.subrange(0, sd.len() as int) == sd);
    }
    let m2 = median2_of(&sorted_devs, 0, sorted_devs.len());
    floor_div(m2, 4)
}

/// How many values are positive.
fn positive_count(xs: &Vec<i64>) -> (r: usize)
    ensures
        r == count_positive(xs@),
{
    let mut count: usize = 0;
    let mut i: usize = 0;
    while i < xs.len()
        invariant
            i <= xs.len(),
            count == count_positive(xs@.take(i as int)),
            count <= i,
        decreases xs.len() - i,
    {
        proof {
            lemma_take_last(xs@, i as int);
        }
        if xs[i] > 0 {
            count = count + 1;
        }
        i = i + 1;
    }
    proof {
        assert(xs@.take(xs.len() as int) == xs@);
    }
    count
}

/// The mean of the lengths in hundredths of a day, rounded down.
fn mean_days_hundredths(ds: &Vec<u64>) -> (r: u64)
    requires
        ds.len() > 0,
        ds.len() <= MAX_TRIALS,
        forall|j: int| 0 <= j < ds@.len() ==> #[trigger] ds@[j] <= MAX_SIMULATION_DAYS,
    ensures
        r == 100 * sum_days(ds@) / ds.len() as int,
{
    let mut acc: u64 = 0;
    let mut i: usize = 0;
    while i < ds.len()
        invariant
            ds.len() <= MAX_TRIALS,
            forall|j: int| 0 <= j < ds@.len() ==> #[trigger] ds@[j] <= MAX_SIMULATION_DAYS,
            i <= ds.len(),
            acc == sum_days(ds@.take(i as int)),
            acc <= i * MAX_SIMULATION_DAYS,
        decreases ds.len() - i,
    {
        proof {
            lemma_take_last(ds@, i as int);
        }
        acc = acc + ds[i];
        i = i + 1;
    }
    proof {
        assert(ds@.take(ds.len() as int) == ds@);
    }
    assert(acc <= 1_000_000 * 100_000) by (nonlinear_arith)
        requires
            acc <= ds.len() * MAX_SIMULATION_DAYS,
            ds.len() <= 1_000_000,
            MAX_SIMULATION_DAYS == 100_000,
    ;
    (100 * acc) / (ds.len() as u64)
}

/// Summarizes the final balances of the trials that ended in `condition`,
/// or of all trials when it is `None`. Fails when no trial did.
pub fn aggregate_results(results: &Vec<IterationResult>, condition: Option<EndOfGame>) -> (r: Result<SimulationResult, AggregateError>)
    requires
        results_valid(results@),
    ensures
        r is Err <==> selected_balances(results@, condition).len() == 0,
        r matches Ok(summary) ==> {
            let xs = selected_balances(results@, condition);
            let s = sorted_values(xs);
            let n = xs.len() as int;
            &&& summary.final_balances@ == xs
            &&& summary.mean_balance == sum(xs) / n
            &&& summary.median_balance == median2(s) / 2
            &&& is_sample_std_dev(xs, summary.std_dev as int)
            &&& summary.mad == sum_abs_dev(xs, n, sum(xs)) / (n * n)
            &&& summary.iqr == (median2(upper_half(s)) - median2(lower_half(s))) / 2
            &&& summary.mad_median == median2(sorted_values(abs_devs(s, median2(s)))) / 4
            &&& summary.mean_days_hundredths == 100 * sum_days(selected_days(results@, condition))
                / n
            &&& summary.end_state_counts.busted == count_state(results@, EndOfGame::Busted)
            &&& summary.end_state_counts.time_out == count_state(results@, EndOfGame::TimeOut)
            &&& summary.end_state_counts.max_payouts == count_state(
                results@,
                EndOfGame::MaxPayouts,
            )
            &&& summary.positive_balance_count == count_positive(xs)
        },
{
    let (balances, days) = select_results(results, condition);
    if balances.len() == 0 {
        return Err(AggregateError::NoData);
    }
    let n = balances.len();
    let end_state_counts = count_end_states(results);
    let mean_balance = mean_balance(&balances);
    let std_dev = sample_std_dev(&balances);
    let mad = mean_abs_dev(&balances);
    let sorted = sorted_copy(&balances);
    proof {
        assert forall|k: int| 0 <= k < sorted@.len() implies -BANK_LIMIT <= #[trigger] sorted@[k]
            <= BANK_LIMIT by {
            assert(balances@.contains(sorted@[k]));
        }
    }
    let med2 = median2_of(&sorted, 0, n);
    let median_balance = floor_div(med2, 2);
    let lower2 = median2_of(&sorted, 0, (n + 1) / 2);
    let upper2 = median2_of(&sorted, n / 2, n);
    proof {
        assert(sorted@.subrange(0, n as int) == sorted@);
        assert(lower_half(sorted@) == sorted@.subrange(0, ((n + 1) / 2) as int));
        assert(upper_half(sorted@) == sorted@.subrange((n / 2) as int, n as int));
    }
    let iqr = floor_div(upper2 - lower2, 2);
    let mad_median = median_abs_dev(&sorted, med2);
    let mean_days_hundredths = mean_days_hundredths(&days);
    let positive_balance_count = positive_count(&balances);
    Ok(SimulationResult {
        final_balances: balances,
        mean_balance,
        median_balance,
        std_dev,
        mad,
        iqr,
        mad_median,
        mean_days_hundredths,
        end_state_counts,
        positive_balance_count,
    })
}

} // verus!
