//! Boss-stagger statistics: aggregates the completed stagger phases of one
//! encounter, folding in an unfinished phase carried over from the capture
//! process, into an average stagger rate and a staggers-per-minute figure.

use vstd::prelude::*;
use crate::text::spec_round_div;

verus! {

/// Aggregated stagger statistics. Rates are kept in hundredths, so the
/// two-decimal figures of the emitted document carry without floats.
#[derive(Debug, Clone, PartialEq)]
pub struct StaggerStats {
    /// Stagger dealt per unit time per unit of the boss's stagger bar,
    /// as a percentage in hundredths.
    pub average_hundredths: u64,
    /// Staggers per minute relative to the stagger bar, in hundredths.
    pub staggers_per_min_hundredths: u64,
    /// The raw sample log, carried into the emitted document unchanged.
    pub log: Vec<(i32, u64)>,
}

pub open spec fn spec_sum_time(iv: Seq<(i32, i32)>) -> int
    decreases iv.len(),
{
    if iv.len() == 0 {
        0
    } else {
        spec_sum_time(iv.drop_last()) + iv.last().0 as int
    }
}

pub open spec fn spec_sum_dealt(iv: Seq<(i32, i32)>) -> int
    decreases iv.len(),
{
    if iv.len() == 0 {
        0
    } else {
        spec_sum_dealt(iv.drop_last()) + iv.last().1 as int
    }
}

pub open spec fn spec_intervals_nonneg(iv: Seq<(i32, i32)>) -> bool {
    forall|i: int| 0 <= i < iv.len() ==> #[trigger] iv[i].0 >= 0 && iv[i].1 >= 0
}

/// The unfinished stagger phase implied by a carry-over value that differs
/// from the recorded maximum: its duration in whole seconds, paired with the
/// carried amount, when that duration is positive.
pub open spec fn spec_carry_interval(
    last_combat_packet: int,
    stagger_start: int,
    prev_stagger: int,
    max_stagger: int,
) -> Option<(int, int)> {
    if prev_stagger > 0 && prev_stagger != max_stagger {
        let d = last_combat_packet / 1000 - stagger_start / 1000;
        if d > 0 {
            Some((d, prev_stagger))
        } else {
            None
        }
    } else {
        None
    }
}

/// The rates one aggregation run yields, at the spec level: nothing for
/// an empty sample log or when no positive phase time meets a positive
/// stagger bar, else the average and per-minute rates.
pub open spec fn spec_stagger_outcome(
    log_len: int,
    last_combat_packet: int,
    stagger_start: int,
    max_stagger: int,
    prev_stagger: int,
    iv: Seq<(i32, i32)>,
) -> Option<(int, int)> {
    if log_len == 0 {
        None
    } else {
        let iv2 = match spec_carry_interval(
            last_combat_packet,
            stagger_start,
            prev_stagger,
            max_stagger,
        ) {
            Some(c) => iv.push((c.0 as i32, c.1 as i32)),
            None => iv,
        };
        let t = spec_sum_time(iv2);
        let d = spec_sum_dealt(iv2);
        if t > 0 && max_stagger > 0 {
            Some(
                (
                    spec_stagger_average(d, t, max_stagger),
                    spec_staggers_per_min(d, t, max_stagger),
                ),
            )
        } else {
            None
        }
    }
}

/// The average stagger rate as a percentage in hundredths.
pub open spec fn spec_stagger_average(dealt: int, time: int, max_stagger: int) -> int {
    spec_round_div(dealt * 10000, time * max_stagger)
}

/// Staggers per minute relative to the stagger bar, in hundredths.
pub open spec fn spec_staggers_per_min(dealt: int, time: int, max_stagger: int) -> int {
    spec_round_div(dealt * 6000, time * max_stagger)
}

proof fn lemma_sums_nonneg(iv: Seq<(i32, i32)>)
    requires
        spec_intervals_nonneg(iv),
    ensures
        0 <= spec_sum_time(iv),
        0 <= spec_sum_dealt(iv),
    decreases iv.len(),
{
    if iv.len() > 0 {
        assert(spec_intervals_nonneg(iv.drop_last()));
        lemma_sums_nonneg(iv.drop_last());
    }
}

/// Aggregates one encounter's stagger telemetry. An empty sample log means
/// no phase was ever observed and yields nothing; so does a log whose
/// aggregated phase time is zero. A positive carry-over value differing
/// from the recorded maximum is first appended as an unfinished phase.
pub fn create_stagger_stats(
    stagger_log: &Vec<(i32, u64)>,
    last_combat_packet: i64,
    stagger_start: i64,
    max_stagger: i32,
    prev_stagger: i32,
    stagger_intervals: &mut Vec<(i32, i32)>,
) -> (r: Option<StaggerStats>)
    requires
        0 <= last_combat_packet,
        0 <= stagger_start,
        spec_intervals_nonneg(old(stagger_intervals)@),
        spec_sum_time(old(stagger_intervals)@) + (last_combat_packet / 1000) <= i32::MAX,
        spec_sum_dealt(old(stagger_intervals)@) + (if prev_stagger > 0 {
            prev_stagger as int
        } else {
            0
        }) <= i32::MAX,
    ensures
        stagger_log@.len() == 0 ==> r is None && final(stagger_intervals)@ == old(
            stagger_intervals,
        )@,
        stagger_log@.len() > 0 ==> final(stagger_intervals)@ == (match spec_carry_interval(
            last_combat_packet as int,
            stagger_start as int,
            prev_stagger as int,
            max_stagger as int,
        ) {
            Some(c) => old(stagger_intervals)@.push((c.0 as i32, c.1 as i32)),
            None => old(stagger_intervals)@,
        }),
        (match r {
            Some(s) => spec_stagger_outcome(
                stagger_log@.len() as int,
                last_combat_packet as int,
                stagger_start as int,
                max_stagger as int,
                prev_stagger as int,
                old(stagger_intervals)@,
            ) == Some((s.average_hundredths as int, s.staggers_per_min_hundredths as int))
                && s.log@ == stagger_log@,
            None => spec_stagger_outcome(
                stagger_log@.len() as int,
                last_combat_packet as int,
                stagger_start as int,
                max_stagger as int,
                prev_stagger as int,
                old(stagger_intervals)@,
            ) is None,
        }),
        stagger_log@.len() > 0 ==> (match r {
            Some(s) => {
                &&& spec_sum_time(final(stagger_intervals)@) > 0
                &&& max_stagger > 0
                &&& s.average_hundredths == spec_stagger_average(
                    spec_sum_dealt(final(stagger_intervals)@),
                    spec_sum_time(final(stagger_intervals)@),
                    max_stagger as int,
                )
                &&& s.staggers_per_min_hundredths == spec_staggers_per_min(
                    spec_sum_dealt(final(stagger_intervals)@),
                    spec_sum_time(final(stagger_intervals)@),
                    max_stagger as int,
                )
                &&& s.log@ == stagger_log@
            },
            None => spec_sum_time(final(stagger_intervals)@) <= 0 || max_stagger <= 0,
        }),
{
    if stagger_log.len() == 0 {
        return None;
    }
    if prev_stagger > 0 && prev_stagger != max_stagger {
        let duration = last_combat_packet / 1000 - stagger_start / 1000;
        if duration > 0 {
            proof {
                lemma_sums_nonneg(stagger_intervals@);
                assert(stagger_start / 1000 >= 0);
                assert(duration <= last_combat_packet / 1000);
                assert(duration <= i32::MAX);
            }
            stagger_intervals.push((duration as i32, prev_stagger));
            proof {
                assert(stagger_intervals@.drop_last() =~= old(stagger_intervals)@);
                assert(forall|j: int|
                    0 <= j < old(stagger_intervals)@.len() ==> stagger_intervals@[j] == old(
                        stagger_intervals,
                    )@[j]);
                assert(stagger_intervals@.last().0 >= 0 && stagger_intervals@.last().1 >= 0);
            }
        }
    }
    let ghost iv = stagger_intervals@;
    let mut total_time: i64 = 0;
    let mut total_dealt: i64 = 0;
    let mut i: usize = 0;
    proof {
        assert(spec_intervals_nonneg(iv));
        assert(spec_sum_time(iv) <= i32::MAX);
        assert(spec_sum_dealt(iv) <= i32::MAX);
        lemma_sums_nonneg(iv);
    }
    while i < stagger_intervals.len()
        invariant
            0 <= i <= iv.len(),
            iv == stagger_intervals@,
            spec_intervals_nonneg(iv),
            spec_sum_time(iv) <= i32::MAX,
            spec_sum_dealt(iv) <= i32::MAX,
            total_time == spec_sum_time(iv.take(i as int)),
            total_dealt == spec_sum_dealt(iv.take(i as int)),
        decreases iv.len() - i,
    {
        proof {
            assert(iv.take(i as int + 1).drop_last() =~= iv.take(i as int));
            assert(iv.take(i as int + 1).last() == iv[i as int]);
            lemma_sum_take_bounds(iv, i as int + 1);
        }
        let (t, d) = stagger_intervals[i];
        total_time = total_time + t as i64;
        total_dealt = total_dealt + d as i64;
        i = i + 1;
    }
    proof {
        assert(iv.take(iv.len() as int) =~= iv);
        lemma_sums_nonneg(iv);
        assert(0 <= total_time <= i32::MAX);
        assert(0 <= total_dealt <= i32::MAX);
    }
    if total_time > 0 && max_stagger > 0 {
        proof {
            assert((total_time as int) * (max_stagger as int) < 0x4000000000000000) by (
            nonlinear_arith)
                requires
                    0 <= total_time <= 0x80000000,
                    0 <= max_stagger <= 0x80000000,
            ;
            assert(1 <= (total_time as int) * (max_stagger as int)) by (nonlinear_arith)
                requires
                    1 <= total_time,
                    1 <= max_stagger,
            ;
        }
        let average = crate::text::round_div_half_up(
            (total_dealt as u64) * 10000,
            (total_time as u64) * (max_stagger as u64),
        );
        let per_min = crate::text::round_div_half_up(
            (total_dealt as u64) * 6000,
            (total_time as u64) * (max_stagger as u64),
        );
        Some(
            StaggerStats {
                average_hundredths: average,
                staggers_per_min_hundredths: per_min,
                log: copy_log(stagger_log),
            },
        )
    } else {
        None
    }
}

fn copy_log(v: &Vec<(i32, u64)>) -> (r: Vec<(i32, u64)>)
    ensures
        r@ == v@,
{
    let mut out: Vec<(i32, u64)> = Vec::new();
    let mut i: usize = 0;
    while i < v.len()
        invariant
            0 <= i <= v@.len(),
            out@ =~= v@.take(i as int),
        decreases v@.len() - i,
    {
        out.push(v[i]);
        i = i + 1;
    }
    proof {
        assert(v@.take(v@.len() as int) =~= v@);
    }
    out
}

/// Prefix sums stay within the sums of the whole list when every entry is
/// non-negative.
proof fn lemma_sum_take_bounds(iv: Seq<(i32, i32)>, n: int)
    requires
        spec_intervals_nonneg(iv),
        0 <= n <= iv.len(),
    ensures
        0 <= spec_sum_time(iv.take(n)) <= spec_sum_time(iv),
        0 <= spec_sum_dealt(iv.take(n)) <= spec_sum_dealt(iv),
    decreases iv.len() - n,
{
    assert(spec_intervals_nonneg(iv.take(n)));
    lemma_sums_nonneg(iv.take(n));
    if n == iv.len() {
        assert(iv.take(n) =~= iv);
    } else {
        assert(iv.take(n + 1).drop_last() =~= iv.take(n));
        assert(iv.take(n + 1).last() == iv[n]);
        lemma_sum_take_bounds(iv, n + 1);
    }
}

/// The two emitted rates measure the same underlying quantity: before
/// rounding, staggers-per-minute is exactly three fifths of the average
/// percentage, and both are non-negative whenever any phase time was
/// recorded against a positive stagger bar.
pub proof fn lemma_stagger_rates_consistent(dealt: int, time: int, max_stagger: int)
    requires
        0 <= dealt,
        0 < time,
        0 < max_stagger,
    ensures
        0 <= spec_stagger_average(dealt, time, max_stagger),
        0 <= spec_staggers_per_min(dealt, time, max_stagger),
        5 * (dealt * 6000) == 3 * (dealt * 10000),
        spec_staggers_per_min(dealt, time, max_stagger) <= spec_stagger_average(
            dealt,
            time,
            max_stagger,
        ),
{
    assert(0 < 2 * (time * max_stagger)) by (nonlinear_arith)
        requires
            0 < time,
            0 < max_stagger,
    ;
    let den = 2 * (time * max_stagger);
    assert(0 <= dealt * 6000 && dealt * 6000 <= dealt * 10000) by (nonlinear_arith)
        requires
            0 <= dealt,
    ;
    vstd::arithmetic::div_mod::lemma_div_is_ordered(0, 2 * (dealt * 6000) + time * max_stagger, den);
    vstd::arithmetic::div_mod::lemma_div_is_ordered(
        2 * (dealt * 6000) + time * max_stagger,
        2 * (dealt * 10000) + time * max_stagger,
        den,
    );
}

} // verus!
