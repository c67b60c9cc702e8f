use std::collections::HashMap;
use vstd::prelude::*;

verus! {

/// Largest magnitude, in cents, of a trade's return or excursion that the
/// simulator accepts (one hundred thousand dollars). It keeps every balance of
/// a trial well inside `i64`.
pub const MAX_TRADE_VALUE: i64 = 10_000_000;

/// One realized trade: its profit or loss and the worst move against it
/// before it settled, both in cents.
#[derive(Clone, Copy, Debug, PartialEq, Eq)]
pub struct Trade {
    pub return_value: i64,
    pub max_opposite_excursion: i64,
}

impl Trade {
    /// Both values lie within `MAX_TRADE_VALUE` of zero.
    pub open spec fn is_bounded(self) -> bool {
        &&& -MAX_TRADE_VALUE <= self.return_value <= MAX_TRADE_VALUE
        &&& -MAX_TRADE_VALUE <= self.max_opposite_excursion <= MAX_TRADE_VALUE
    }

    pub fn new(return_value: i64, max_opposite_excursion: i64) -> (r: Trade)
        ensures
            r.return_value == return_value,
            r.max_opposite_excursion == max_opposite_excursion,
    {
        Trade { return_value, max_opposite_excursion }
    }
}

/// A trade and the day it was made on, as a day number (days from the
/// start of the common era).
#[derive(Clone, Copy, Debug, PartialEq, Eq)]
pub struct TradeRecord {
    pub day: i32,
    pub trade: Trade,
}

/// How many of the records fall on day `d`.
pub open spec fn day_count(records: Seq<TradeRecord>, d: i32) -> nat
    decreases records.len(),
{
    if records.len() == 0 {
        0
    } else {
        day_count(records.drop_last(), d) + if records.last().day == d {
            1nat
        } else {
            0nat
        }
    }
}

/// The number of trades on each day that has any.
pub fn calculate_trades_per_day(trades: &Vec<TradeRecord>) -> (r: HashMap<i32, usize>)
    ensures
        forall|d: i32| #[trigger] r@.contains_key(d) <==> day_count(trades@, d) > 0,
        forall|d: i32| #[trigger] r@.contains_key(d) ==> r@[d] == day_count(trades@, d),
{
    broadcast use vstd::std_specs::hash::group_hash_axioms;

    let mut per_day: HashMap<i32, usize> = HashMap::new();
    let mut i: usize = 0;
    while i < trades.len()
        invariant
            i <= trades.len(),
            forall|d: i32| #[trigger] per_day@.contains_key(d) <==> day_count(trades@.take(i as int), d) > 0,
            forall|d: i32| #[trigger] per_day@.contains_key(d) ==> per_day@[d] == day_count(trades@.take(i as int), d),
            forall|d: i32| #[trigger] day_count(trades@.take(i as int), d) <= i,
        decreases trades.len() - i,
    {
        let day = trades[i].day;
        proof {
            assert(trades@.take(i + 1).drop_last() =~= trades@.take(i as int));
            assert(forall|d: i32| #[trigger] day_count(trades@.take(i + 1), d) == day_count(trades@.take(i as int), d) + if d == day { 1nat } else { 0nat });
        }
        let before = match per_day.get(&day) {
            Some(c) => *c,
            None => 0,
        };
        per_day.insert(day, before + 1);
        i = i + 1;
    }
    proof {
        assert(trades@.take(trades.len() as int) =~= trades@);
    }
    per_day
}

} // verus!
