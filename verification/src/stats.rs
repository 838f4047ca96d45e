//! Running statistics over probe attempts.
//!
//! One record call per attempt, in attempt order. Times are carried in
//! whole microseconds, so the millisecond renderings with three decimal
//! places are exact. The minimum starts at a sentinel larger than any
//! real time so the first success always lowers it; the sum runs over
//! successes only and lives in a 128-bit word, which the well-formedness
//! bound below keeps from overflowing.

use vstd::prelude::*;
use vstd::seq_lib::group_to_multiset_ensures;
use vstd::arithmetic::div_mod::{
    lemma_div_is_ordered,
    lemma_div_multiples_vanish,
    lemma_multiply_divide_lt,
};
use crate::render::{
    spec_dec,
    spec_div_round,
    spec_hundredths,
    spec_ms3,
    spec_rate_hundredths,
    u64_to_dec,
    us_to_ms3,
    hundredths_to_dec2,
};

verus! {

/// The mathematical state of the accumulator: attempt and success
/// counts, and minimum, maximum and sum of the successful times.
pub struct StatsModel {
    pub num: int,
    pub num_success: int,
    pub min_time: int,
    pub max_time: int,
    pub sum_time: int,
}

/// The state a freshly initialised accumulator models.
pub open spec fn init_model() -> StatsModel {
    StatsModel {
        num: 0,
        num_success: 0,
        min_time: u64::MAX as int,
        max_time: 0,
        sum_time: 0,
    }
}

/// One attempt folded into the model: every attempt counts; a success
/// also counts as a success, lowers the minimum, raises the maximum and
/// adds its time to the sum. A failure's time is ignored.
pub open spec fn record_spec(m: StatsModel, ok: bool, time: int) -> StatsModel {
    StatsModel {
        num: m.num + 1,
        num_success: if ok {
            m.num_success + 1
        } else {
            m.num_success
        },
        min_time: if ok && time < m.min_time {
            time
        } else {
            m.min_time
        },
        max_time: if ok && time > m.max_time {
            time
        } else {
            m.max_time
        },
        sum_time: if ok {
            m.sum_time + time
        } else {
            m.sum_time
        },
    }
}

/// A whole run of outcomes folded into the model, in order.
pub open spec fn record_all(m: StatsModel, outcomes: Seq<(bool, u64)>) -> StatsModel
    decreases outcomes.len(),
{
    if outcomes.len() == 0 {
        m
    } else {
        record_spec(
            record_all(m, outcomes.drop_last()),
            outcomes.last().0,
            outcomes.last().1 as int,
        )
    }
}

/// The bounds every reachable accumulator state satisfies.
pub open spec fn wf_model(m: StatsModel) -> bool {
    &&& 0 <= m.num_success <= m.num <= u64::MAX
    &&& 0 <= m.min_time <= u64::MAX
    &&& 0 <= m.max_time <= u64::MAX
    &&& 0 <= m.sum_time <= m.num_success * (u64::MAX as int)
}

/// Running statistics of a probe run.
#[derive(Clone, Copy, Debug)]
pub struct Stats {
    num: u64,
    num_success: u64,
    min_time: u64,
    max_time: u64,
    sum_time: u128,
}

impl View for Stats {
    type V = StatsModel;

    closed spec fn view(&self) -> StatsModel {
        StatsModel {
            num: self.num as int,
            num_success: self.num_success as int,
            min_time: self.min_time as int,
            max_time: self.max_time as int,
            sum_time: self.sum_time as int,
        }
    }
}

impl Stats {
    pub open spec fn wf(&self) -> bool {
        wf_model(self@)
    }

    /// A fresh accumulator: no attempts, sentinel minimum.
    pub fn new() -> (s: Stats)
        ensures
            s@ == init_model(),
            s.wf(),
    {
        Stats { num: 0, num_success: 0, min_time: u64::MAX, max_time: 0, sum_time: 0 }
    }

    /// Fold one attempt in. Mutated exactly once per attempt, in
    /// attempt order.
    pub fn add_ping(&mut self, is_ok: bool, time: u64)
        requires
            old(self).wf(),
            old(self)@.num < u64::MAX,
        ensures
            final(self).wf(),
            final(self)@ == record_spec(old(self)@, is_ok, time as int),
    {
        self.num = self.num + 1;
        if is_ok {
            self.num_success = self.num_success + 1;
            if time < self.min_time {
                self.min_time = time;
            }
            if time > self.max_time {
                self.max_time = time;
            }
            proof {
                let succ = old(self)@.num_success;
                let osum = old(self)@.sum_time;
                let t = time as int;
                let m = u64::MAX as int;
                assert(osum + t <= (succ + 1) * m) by (nonlinear_arith)
                    requires
                        osum <= succ * m,
                        t <= m,
                {
                }
                assert((succ + 1) * m <= m * m) by (nonlinear_arith)
                    requires
                        0 <= succ + 1 <= m,
                        0 <= m,
                {
                }
                assert((u64::MAX as int) * (u64::MAX as int) < u128::MAX as int)
                    by (nonlinear_arith);
            }
            self.sum_time = self.sum_time + time as u128;
        }
    }

    /// Whether every attempt so far succeeded; vacuously true on a
    /// fresh accumulator. The process exit status derives from this.
    pub fn is_ok(&self) -> (r: bool)
        ensures
            r == (self@.num == self@.num_success),
    {
        self.num == self.num_success
    }

    pub fn num(&self) -> (r: u64)
        ensures
            r as int == self@.num,
    {
        self.num
    }

    pub fn num_success(&self) -> (r: u64)
        ensures
            r as int == self@.num_success,
    {
        self.num_success
    }

    pub fn min_time(&self) -> (r: u64)
        ensures
            r as int == self@.min_time,
    {
        self.min_time
    }

    pub fn max_time(&self) -> (r: u64)
        ensures
            r as int == self@.max_time,
    {
        self.max_time
    }

    pub fn sum_time(&self) -> (r: u128)
        ensures
            r as int == self@.sum_time,
    {
        self.sum_time
    }
}

/// The summary block: attempt and success counts, the success rate as
/// a percentage rounded half up to two decimal places, and — when any
/// attempt succeeded — minimum, average and maximum time in
/// milliseconds to three decimal places; the average is the sum over
/// successes divided by the success count, rounded half up to the
/// microsecond. With no success the statistics lines are replaced by a
/// note and the rate by a plain zero.
pub open spec fn spec_summary(m: StatsModel) -> Seq<char> {
    if m.num_success > 0 {
        "\nSummary:\n    "@ + spec_dec(m.num) + " pings sent.\n    "@ + spec_dec(m.num_success)
            + " succesful. Success Rate: "@ + spec_hundredths(
            spec_rate_hundredths(m.num_success, m.num),
        ) + "%\nRTT statics:\n    min="@ + spec_ms3(m.min_time) + "ms, average="@ + spec_ms3(
            spec_div_round(m.sum_time, m.num_success),
        ) + "ms, max="@ + spec_ms3(m.max_time) + "ms\n               "@
    } else {
        "\nSummary:\n    "@ + spec_dec(m.num) + " pings sent.\n    "@ + spec_dec(m.num_success)
            + " succesful. Rate: 0%\nRTT statics:\n    Was unable to collect any statics :(\n               "@
    }
}

impl Stats {
    /// Render the point-in-time summary. A pure read: the text is a
    /// function of the recorded state alone, so a summary taken
    /// between two records reflects exactly the attempts folded in so
    /// far.
    pub fn summary(&self) -> (r: String)
        requires
            self.wf(),
        ensures
            r@ == spec_summary(self@),
    {
        let mut s = String::new();
        s.append("\nSummary:\n    ");
        let p = u64_to_dec(self.num);
        s.append(p.as_str());
        s.append(" pings sent.\n    ");
        let p = u64_to_dec(self.num_success);
        s.append(p.as_str());
        if self.num_success > 0 {
            s.append(" succesful. Success Rate: ");
            let rate = self.rate_hundredths();
            let p = hundredths_to_dec2(rate);
            s.append(p.as_str());
            s.append("%\nRTT statics:\n    min=");
            let p = us_to_ms3(self.min_time);
            s.append(p.as_str());
            s.append("ms, average=");
            let avg = self.average_us();
            let p = us_to_ms3(avg);
            s.append(p.as_str());
            s.append("ms, max=");
            let p = us_to_ms3(self.max_time);
            s.append(p.as_str());
            s.append("ms\n               ");
            proof {
                assert(s@ =~= spec_summary(self@));
            }
        } else {
            s.append(" succesful. Rate: 0%\nRTT statics:\n    Was unable to collect any statics :(\n               ");
            proof {
                assert(s@ =~= spec_summary(self@));
            }
        }
        s
    }

    /// The success rate in hundredths of a percent, rounded half up.
    fn rate_hundredths(&self) -> (r: u64)
        requires
            self.wf(),
            self@.num_success > 0,
        ensures
            r as int == spec_rate_hundredths(self@.num_success, self@.num),
            r <= 10000,
    {
        let succ = self.num_success;
        let num = self.num;
        proof {
            let si = succ as int;
            let ni = num as int;
            assert(si * 100000 <= ni * 100000) by (nonlinear_arith)
                requires
                    0 <= si <= ni,
            {
            }
            assert((u64::MAX as int) * 100000 < u128::MAX as int) by (nonlinear_arith);
            assert(si * 100000 <= (u64::MAX as int) * 100000) by (nonlinear_arith)
                requires
                    0 <= si <= u64::MAX as int,
            {
            }
            lemma_div_is_ordered(si * 100000, ni * 100000, ni);
            lemma_div_multiples_vanish(100000, ni);
            assert(ni * 100000 / ni == 100000);
            lemma_div_is_ordered(si * 100000 / ni + 5, 100005, 10);
        }
        let q = (succ as u128) * 100000 / (num as u128);
        let r = (q + 5) / 10;
        r as u64
    }

    /// The average time over successes in microseconds, rounded half
    /// up.
    fn average_us(&self) -> (r: u64)
        requires
            self.wf(),
            self@.num_success > 0,
        ensures
            r as int == spec_div_round(self@.sum_time, self@.num_success),
    {
        let succ = self.num_success;
        let half = (succ / 2) as u128;
        proof {
            let si = succ as int;
            let sum = self@.sum_time;
            let m = u64::MAX as int;
            assert(sum + half <= (si + 1) * m) by (nonlinear_arith)
                requires
                    sum <= si * m,
                    (half as int) <= m,
            {
            }
            assert((si + 1) * m <= (m + 1) * m) by (nonlinear_arith)
                requires
                    0 <= si <= m,
                    0 <= m,
            {
            }
            assert((u64::MAX as int + 1) * (u64::MAX as int) < u128::MAX as int)
                by (nonlinear_arith);
            assert(sum + half < si * (m + 1)) by (nonlinear_arith)
                requires
                    sum <= si * m,
                    (half as int) < si,
                    si >= 1,
            {
            }
            lemma_multiply_divide_lt(sum + half as int, si, m + 1);
        }
        let x = self.sum_time + half;
        let avg = x / (succ as u128);
        avg as u64
    }
}

/// A fresh accumulator is vacuously fully successful: zero attempts,
/// zero successes.
pub proof fn lemma_fresh_fully_successful()
    ensures
        init_model().num == init_model().num_success,
{
}

/// Recording two outcomes in either order leaves the same state: the
/// counts and the sum are additions, and minimum and maximum each
/// commute.
pub proof fn lemma_record_commutes(m: StatsModel, a: (bool, u64), b: (bool, u64))
    ensures
        record_spec(record_spec(m, a.0, a.1 as int), b.0, b.1 as int) == record_spec(
            record_spec(m, b.0, b.1 as int),
            a.0,
            a.1 as int,
        ),
{
}

/// Folding a run equals folding the run with one outcome taken out,
/// then that outcome: outcomes migrate freely to the end of the fold.
proof fn lemma_record_all_remove(m: StatsModel, s: Seq<(bool, u64)>, i: int)
    requires
        0 <= i < s.len(),
    ensures
        record_all(m, s) == record_spec(record_all(m, s.remove(i)), s[i].0, s[i].1 as int),
    decreases s.len(),
{
    if i == s.len() - 1 {
        assert(s.remove(i) =~= s.drop_last());
    } else {
        assert(s.remove(i).drop_last() =~= s.drop_last().remove(i));
        assert(s.remove(i).last() == s.last());
        lemma_record_all_remove(m, s.drop_last(), i);
        lemma_record_commutes(record_all(m, s.drop_last().remove(i)), s[i], s.last());
    }
}

/// Order independence of the accumulator: two runs that are
/// permutations of one another — the same multiset of outcomes, in any
/// processing order — fold to the very same state, so their summaries'
/// count, success count, minimum, maximum and sum (hence average) all
/// agree.
pub proof fn lemma_record_order_irrelevant(
    m: StatsModel,
    s1: Seq<(bool, u64)>,
    s2: Seq<(bool, u64)>,
)
    requires
        s1.to_multiset() == s2.to_multiset(),
    ensures
        record_all(m, s1) == record_all(m, s2),
    decreases s1.len(),
{
    broadcast use group_to_multiset_ensures;

    assert(s1.len() == s1.to_multiset().len());
    assert(s2.len() == s2.to_multiset().len());
    if s1.len() == 0 {
    } else {
        let x = s1.last();
        assert(s1.contains(x));
        assert(s2.to_multiset().count(x) > 0);
        assert(s2.contains(x));
        let i = choose|i: int| 0 <= i < s2.len() && s2[i] == x;
        assert(s1.drop_last() =~= s1.remove(s1.len() - 1));
        assert(s1.remove(s1.len() - 1).to_multiset() == s1.to_multiset().remove(x));
        assert(s2.remove(i).to_multiset() == s2.to_multiset().remove(x));
        lemma_record_order_irrelevant(m, s1.drop_last(), s2.remove(i));
        lemma_record_all_remove(m, s2, i);
    }
}

} // verus!
