//! Derived-statistics pipeline: duration and dps figures, the fixed interval
//! grid that rolling averages are sampled on, and the centered ten-second
//! damage window behind the rolling dps sequence.

use vstd::prelude::*;

verus! {

/// Seconds a fight of `duration_ms` milliseconds is billed for: floor
/// division by 1000, but never less than one second, so that rate figures
/// never divide by zero on sub-second fights.
pub open spec fn spec_duration_seconds(duration_ms: int) -> int {
    if duration_ms / 1000 < 1 {
        1
    } else {
        duration_ms / 1000
    }
}

/// Every dps figure is total damage over billed seconds, truncating.
pub open spec fn spec_dps(total_damage: int, duration_seconds: int) -> int
    recommends
        duration_seconds >= 1,
{
    total_damage / duration_seconds
}

pub fn duration_seconds(duration_ms: i64) -> (r: i64)
    requires
        0 <= duration_ms,
    ensures
        r == spec_duration_seconds(duration_ms as int),
        1 <= r,
{
    let s = duration_ms / 1000;
    if s < 1 {
        1
    } else {
        s
    }
}

pub fn dps(total_damage: i64, duration_seconds: i64) -> (r: i64)
    requires
        0 <= total_damage,
        1 <= duration_seconds,
    ensures
        r == spec_dps(total_damage as int, duration_seconds as int),
        0 <= r <= total_damage,
{
    total_damage / duration_seconds
}

/// The fixed grid of time offsets that rolling statistics are sampled on:
/// one offset every second from the start of the fight to its end,
/// inclusive; empty when the fight has no positive extent.
pub open spec fn spec_interval_count(fight_start: int, fight_end: int) -> int {
    if fight_start >= fight_end {
        0
    } else {
        (fight_end - fight_start) / 1000 + 1
    }
}

/// The grid as a sequence: offset `i` is the `i`-th second.
pub open spec fn spec_interval_grid(fight_start: int, fight_end: int) -> Seq<i64> {
    Seq::new(
        spec_interval_count(fight_start, fight_end) as nat,
        |i: int| (1000 * i) as i64,
    )
}

pub fn generate_intervals(fight_start: i64, fight_end: i64) -> (r: Vec<i64>)
    requires
        fight_start < fight_end ==> fight_end - fight_start <= i64::MAX,
    ensures
        r@.len() == spec_interval_count(fight_start as int, fight_end as int),
        forall|i: int| 0 <= i < r@.len() ==> r@[i] == 1000 * i,
        r@ == spec_interval_grid(fight_start as int, fight_end as int),
{
    let mut out: Vec<i64> = Vec::new();
    if fight_start >= fight_end {
        return out;
    }
    let span = fight_end - fight_start;
    let n = span / 1000 + 1;
    let mut i: i64 = 0;
    while i < n
        invariant
            0 <= i <= n,
            span == fight_end - fight_start,
            n == span / 1000 + 1,
            fight_start < fight_end,
            out@.len() == i,
            forall|j: int| 0 <= j < out@.len() ==> out@[j] == 1000 * j,
        decreases n - i,
    {
        proof {
            vstd::arithmetic::div_mod::lemma_fundamental_div_mod(span as int, 1000);
            vstd::arithmetic::div_mod::lemma_mod_bound(span as int, 1000);
            vstd::arithmetic::mul::lemma_mul_inequality(i as int, span as int / 1000, 1000);
        }
        out.push(i * 1000);
        i = i + 1;
    }
    proof {
        assert(out@ =~= spec_interval_grid(fight_start as int, fight_end as int));
    }
    out
}

/// Total damage of the events of `log` whose timestamps fall in `[lo, hi]`.
pub open spec fn spec_window_damage(log: Seq<(i64, i64)>, lo: int, hi: int) -> int
    decreases log.len(),
{
    if log.len() == 0 {
        0
    } else {
        spec_window_damage(log.drop_last(), lo, hi) + if lo <= log.last().0 <= hi {
            log.last().1 as int
        } else {
            0
        }
    }
}

/// Total damage of all events of `log`.
pub open spec fn spec_total_damage(log: Seq<(i64, i64)>) -> int
    decreases log.len(),
{
    if log.len() == 0 {
        0
    } else {
        spec_total_damage(log.drop_last()) + log.last().1 as int
    }
}

pub open spec fn spec_all_damage_nonneg(log: Seq<(i64, i64)>) -> bool {
    forall|i: int| 0 <= i < log.len() ==> log[i].1 >= 0
}

/// A window never holds more damage than the whole log, and never less than
/// none, when every event is non-negative.
pub proof fn lemma_window_damage_bounds(log: Seq<(i64, i64)>, lo: int, hi: int)
    requires
        spec_all_damage_nonneg(log),
    ensures
        0 <= spec_window_damage(log, lo, hi) <= spec_total_damage(log),
    decreases log.len(),
{
    if log.len() > 0 {
        assert(spec_all_damage_nonneg(log.drop_last()));
        lemma_window_damage_bounds(log.drop_last(), lo, hi);
    }
}

fn window_damage(log: &Vec<(i64, i64)>, lo: i64, hi: i64) -> (r: i64)
    requires
        spec_all_damage_nonneg(log@),
        spec_total_damage(log@) <= i64::MAX,
    ensures
        r == spec_window_damage(log@, lo as int, hi as int),
{
    let mut sum: i64 = 0;
    let mut i: usize = 0;
    while i < log.len()
        invariant
            0 <= i <= log@.len(),
            spec_all_damage_nonneg(log@),
            spec_total_damage(log@) <= i64::MAX,
            sum == spec_window_damage(log@.take(i as int), lo as int, hi as int),
        decreases log@.len() - i,
    {
        proof {
            assert(log@.take(i as int + 1).drop_last() =~= log@.take(i as int));
            assert(log@.take(i as int + 1).last() == log@[i as int]);
            lemma_window_damage_bounds(log@.take(i as int + 1), lo as int, hi as int);
            lemma_total_take_le(log@, i as int + 1);
        }
        let (t, d) = log[i];
        if lo <= t && t <= hi {
            sum = sum + d;
        }
        i = i + 1;
    }
    proof {
        assert(log@.take(log@.len() as int) =~= log@);
    }
    sum
}

/// Damage of a prefix never exceeds the damage of the whole log, when every
/// event is non-negative.
proof fn lemma_total_take_le(log: Seq<(i64, i64)>, n: int)
    requires
        spec_all_damage_nonneg(log),
        0 <= n <= log.len(),
    ensures
        spec_total_damage(log.take(n)) <= spec_total_damage(log),
        0 <= spec_total_damage(log.take(n)),
    decreases log.len() - n,
{
    assert(spec_all_damage_nonneg(log.take(n)));
    lemma_total_nonneg(log.take(n));
    if n == log.len() {
        assert(log.take(n) =~= log);
    } else {
        assert(log.take(n + 1).drop_last() =~= log.take(n));
        assert(log.take(n + 1).last() == log[n]);
        lemma_total_take_le(log, n + 1);
    }
}

proof fn lemma_total_nonneg(log: Seq<(i64, i64)>)
    requires
        spec_all_damage_nonneg(log),
    ensures
        0 <= spec_total_damage(log),
    decreases log.len(),
{
    if log.len() > 0 {
        assert(spec_all_damage_nonneg(log.drop_last()));
        lemma_total_nonneg(log.drop_last());
    }
}

/// The rolling dps entry for the interval offset `off`: damage of the events
/// within five seconds on either side of `fight_start + off`, divided by the
/// ten-second window length.
pub open spec fn spec_rolling_entry(log: Seq<(i64, i64)>, fight_start: int, off: int) -> int {
    spec_window_damage(log, fight_start + off - 5000, fight_start + off + 5000) / 10
}

/// One rolling-average entry per interval offset. Windows may extend before
/// the fight or past its end; events outside the log simply contribute zero.
pub fn rolling_dps_average(log: &Vec<(i64, i64)>, intervals: &Vec<i64>, fight_start: i64) -> (r:
    Vec<i64>)
    requires
        spec_all_damage_nonneg(log@),
        spec_total_damage(log@) <= i64::MAX,
        0 <= fight_start,
        forall|i: int| 0 <= i < intervals@.len() ==> 0 <= #[trigger] intervals@[i],
        forall|i: int|
            0 <= i < intervals@.len() ==> fight_start + #[trigger] intervals@[i] + 5000
                <= i64::MAX,
    ensures
        r@.len() == intervals@.len(),
        forall|i: int|
            0 <= i < r@.len() ==> r@[i] == spec_rolling_entry(
                log@,
                fight_start as int,
                intervals@[i] as int,
            ),
{
    let mut out: Vec<i64> = Vec::new();
    let mut i: usize = 0;
    while i < intervals.len()
        invariant
            0 <= i <= intervals@.len(),
            spec_all_damage_nonneg(log@),
            spec_total_damage(log@) <= i64::MAX,
            0 <= fight_start,
            forall|j: int| 0 <= j < intervals@.len() ==> 0 <= #[trigger] intervals@[j],
            forall|j: int|
                0 <= j < intervals@.len() ==> fight_start + #[trigger] intervals@[j] + 5000
                    <= i64::MAX,
            out@.len() == i,
            forall|j: int|
                0 <= j < out@.len() ==> out@[j] == spec_rolling_entry(
                    log@,
                    fight_start as int,
                    intervals@[j] as int,
                ),
        decreases intervals@.len() - i,
    {
        let off = intervals[i];
        let lo = fight_start + off - 5000;
        let hi = fight_start + off + 5000;
        let damage = window_damage(log, lo, hi);
        proof {
            lemma_window_damage_bounds(log@, lo as int, hi as int);
        }
        out.push(damage / 10);
        i = i + 1;
    }
    out
}

} // verus!
