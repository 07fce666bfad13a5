//! Identity-gauge normalization for the local player. Gauge semantics are
//! class-dependent; the class resolves once to one of three shapes, and the
//! sample log is folded under that shape into a percentage log, an overall
//! average gain per second, and (for card classes) the counted card draws.

use vstd::prelude::*;
use crate::models::IdentityStats;
use crate::text::{spec_round_div, str_eq, round_div_half_up};

verus! {

/// The three identity-gauge shapes. A sample carries a gauge value and two
/// auxiliary slots; what the slots mean depends on the shape.
#[derive(Debug, Clone, Copy, PartialEq, Eq, Structural)]
pub enum IdentityShape {
    /// Card classes: the slots hold the two drawn card identifiers; draws
    /// of the designated neutral card are not counted.
    TwoCard { neutral_card: u32 },
    /// Charge classes: the first slot holds the bubble count, each bubble
    /// worth a full gauge.
    ThreeBubble { max_gauge: u32 },
    /// Plain gauge classes, with a class-specific maximum; the percentage
    /// is capped at one hundred when the gauge reaches it.
    SingleGauge { max_gauge: u32 },
}

impl IdentityShape {
    pub open spec fn spec_max(self) -> int {
        match self {
            IdentityShape::TwoCard { .. } => 10000,
            IdentityShape::ThreeBubble { max_gauge } => max_gauge as int,
            IdentityShape::SingleGauge { max_gauge } => max_gauge as int,
        }
    }

    pub fn max(&self) -> (r: u32)
        ensures
            r == self.spec_max(),
    {
        match self {
            IdentityShape::TwoCard { .. } => 10000,
            IdentityShape::ThreeBubble { max_gauge } => *max_gauge,
            IdentityShape::SingleGauge { max_gauge } => *max_gauge,
        }
    }
}

/// The shape a class name resolves to. Card and charge classes are named
/// here; every other class runs a single gauge whose maximum depends on the
/// class.
pub open spec fn spec_shape_of_class(class: Seq<char>) -> IdentityShape {
    if class == "Arcanist"@ {
        IdentityShape::TwoCard { neutral_card: 0 }
    } else if class == "Bard"@ || class == "Artist"@ || class == "Aeromancer"@ {
        IdentityShape::ThreeBubble { max_gauge: 10000 }
    } else if class == "Summoner"@ {
        IdentityShape::SingleGauge { max_gauge: 7000 }
    } else if class == "Souleater"@ {
        IdentityShape::SingleGauge { max_gauge: 3000 }
    } else {
        IdentityShape::SingleGauge { max_gauge: 10000 }
    }
}

pub fn resolve_identity_shape(class: &str) -> (r: IdentityShape)
    ensures
        r == spec_shape_of_class(class@),
{
    if str_eq(class, "Arcanist") {
        IdentityShape::TwoCard { neutral_card: 0 }
    } else if str_eq(class, "Bard") || str_eq(class, "Artist") || str_eq(class, "Aeromancer") {
        IdentityShape::ThreeBubble { max_gauge: 10000 }
    } else if str_eq(class, "Summoner") {
        IdentityShape::SingleGauge { max_gauge: 7000 }
    } else if str_eq(class, "Souleater") {
        IdentityShape::SingleGauge { max_gauge: 3000 }
    } else {
        IdentityShape::SingleGauge { max_gauge: 10000 }
    }
}

/// The combined gauge reading from a raw gauge `g` and the first auxiliary
/// slot `a`: bubbles count as whole gauges; otherwise the raw gauge stands.
pub open spec fn spec_combined_of(shape: IdentityShape, g: int, a: int) -> int {
    match shape {
        IdentityShape::ThreeBubble { max_gauge } => g + max_gauge as int * a,
        _ => g,
    }
}

/// The combined gauge value of one sample under a shape.
pub open spec fn spec_combined(shape: IdentityShape, s: (i64, (u32, u32, u32))) -> int {
    spec_combined_of(shape, s.1.0 as int, s.1.1 as int)
}

fn combined_of(shape: IdentityShape, g: u32, a: u32) -> (r: u64)
    requires
        g <= shape.spec_max(),
        shape is ThreeBubble ==> a <= 10,
        1 <= shape.spec_max() <= 100000,
    ensures
        r == spec_combined_of(shape, g as int, a as int),
        r <= 11 * shape.spec_max(),
{
    match shape {
        IdentityShape::ThreeBubble { max_gauge } => {
            proof {
                assert((max_gauge as int) * (a as int) <= (max_gauge as int) * 10) by (
                nonlinear_arith)
                    requires
                        a <= 10,
                        0 <= max_gauge as int,
                ;
                assert(0 <= (max_gauge as int) * (a as int)) by (nonlinear_arith)
                    requires
                        0 <= max_gauge as int,
                        0 <= a as int,
                ;
            }
            (g as u64) + (max_gauge as u64) * (a as u64)
        },
        _ => g as u64,
    }
}

/// The percentage (in hundredths) a sample reads at, capped at one hundred
/// for single-gauge classes.
pub open spec fn spec_percent_hundredths(shape: IdentityShape, s: (i64, (u32, u32, u32))) -> int {
    let raw = spec_round_div(spec_combined(shape, s) * 10000, shape.spec_max());
    match shape {
        IdentityShape::SingleGauge { .. } => if raw > 10000 {
            10000
        } else {
            raw
        },
        _ => raw,
    }
}

/// Total gauge gain over the log: a sample contributes its rise over its
/// predecessor only when time moved strictly forward and the gauge did not
/// fall; anything else is a reset or out-of-order artifact and is skipped.
pub open spec fn spec_total_gain(shape: IdentityShape, log: Seq<(i64, (u32, u32, u32))>) -> int
    decreases log.len(),
{
    if log.len() < 2 {
        0
    } else {
        let prev = log[log.len() - 2];
        let cur = log.last();
        spec_total_gain(shape, log.drop_last()) + if cur.0 > prev.0 && spec_combined(shape, cur)
            >= spec_combined(shape, prev) {
            spec_combined(shape, cur) - spec_combined(shape, prev)
        } else {
            0
        }
    }
}

/// The card draws one sample adds over its predecessor: a slot counts when
/// it changed and does not show the neutral card.
pub open spec fn spec_pair_draws(
    neutral: u32,
    prev: (i64, (u32, u32, u32)),
    cur: (i64, (u32, u32, u32)),
) -> Seq<u32> {
    (if cur.1.1 != prev.1.1 && cur.1.1 != neutral {
        seq![cur.1.1]
    } else {
        Seq::empty()
    }) + (if cur.1.2 != prev.1.2 && cur.1.2 != neutral {
        seq![cur.1.2]
    } else {
        Seq::empty()
    })
}

/// All counted card draws over the log, in order.
pub open spec fn spec_draws(neutral: u32, log: Seq<(i64, (u32, u32, u32))>) -> Seq<u32>
    decreases log.len(),
{
    if log.len() < 2 {
        Seq::empty()
    } else {
        spec_draws(neutral, log.drop_last()) + spec_pair_draws(
            neutral,
            log[log.len() - 2],
            log.last(),
        )
    }
}

/// Samples a shape can be folded without overflow: gauges within their
/// maximum, bubble counts small, timestamps non-negative.
pub open spec fn spec_samples_wf(shape: IdentityShape, log: Seq<(i64, (u32, u32, u32))>) -> bool {
    forall|i: int|
        0 <= i < log.len() ==> {
            &&& 0 <= #[trigger] log[i].0
            &&& log[i].1.0 <= shape.spec_max()
            &&& (shape is ThreeBubble ==> log[i].1.1 <= 10)
        }
}

proof fn lemma_combined_bounds(shape: IdentityShape, log: Seq<(i64, (u32, u32, u32))>, i: int)
    requires
        spec_samples_wf(shape, log),
        1 <= shape.spec_max(),
        0 <= i < log.len(),
    ensures
        0 <= spec_combined(shape, log[i]) <= 11 * shape.spec_max(),
{
    let m = shape.spec_max();
    assert(0 <= log[i].0);
    match shape {
        IdentityShape::ThreeBubble { max_gauge } => {
            assert(log[i].1.1 <= 10);
            assert(max_gauge as int * log[i].1.1 as int <= max_gauge as int * 10) by (
            nonlinear_arith)
                requires
                    log[i].1.1 <= 10,
                    0 <= max_gauge as int,
            ;
            assert(0 <= max_gauge as int * log[i].1.1 as int) by (nonlinear_arith)
                requires
                    0 <= max_gauge as int,
                    0 <= log[i].1.1 as int,
            ;
        },
        _ => {},
    }
}

proof fn lemma_gain_bounds(shape: IdentityShape, log: Seq<(i64, (u32, u32, u32))>)
    requires
        spec_samples_wf(shape, log),
        1 <= shape.spec_max(),
    ensures
        0 <= spec_total_gain(shape, log) <= 11 * shape.spec_max() * log.len(),
    decreases log.len(),
{
    if log.len() < 2 {
        assert(0 <= 11 * shape.spec_max() * log.len()) by (nonlinear_arith)
            requires
                1 <= shape.spec_max(),
                0 <= log.len(),
        ;
    } else {
        assert(spec_samples_wf(shape, log.drop_last()));
        lemma_gain_bounds(shape, log.drop_last());
        lemma_combined_bounds(shape, log, log.len() - 1);
        lemma_combined_bounds(shape, log, log.len() - 2);
        assert(11 * shape.spec_max() * (log.len() - 1) + 11 * shape.spec_max() == 11
            * shape.spec_max() * log.len()) by (nonlinear_arith);
    }
}

/// Folds the identity sample log of the local player under a shape.
/// Produces one log entry per sample at its own percentage, the counted
/// card draws for card classes, and the overall average gain per second as
/// a percentage in hundredths, rounded half up.
pub fn create_identity_stats(
    samples: &Vec<(i64, (u32, u32, u32))>,
    shape: IdentityShape,
    fight_start: i64,
    duration_seconds: i64,
) -> (r: IdentityStats)
    requires
        spec_samples_wf(shape, samples@),
        samples@.len() <= 0x8000000,
        1 <= shape.spec_max() <= 100000,
        1 <= duration_seconds,
        0 <= fight_start,
    ensures
        r.log@.len() == samples@.len(),
        forall|i: int|
            0 <= i < samples@.len() ==> #[trigger] r.log@[i] == (
            (samples@[i].0 - fight_start) as i64,
            spec_percent_hundredths(shape, samples@[i]) as u64,
            ),
        r.average_hundredths == spec_round_div(
            spec_total_gain(shape, samples@) * 10000,
            duration_seconds as int * shape.spec_max(),
        ),
        r.card_draws is Some <==> shape is TwoCard,
        shape matches IdentityShape::TwoCard { neutral_card } ==> (r.card_draws matches Some(d)
            && d@ == spec_draws(neutral_card, samples@)),
{
    let max = shape.max();
    let mut log: Vec<(i64, u64)> = Vec::new();
    let mut gain: u64 = 0;
    let mut draws: Vec<u32> = Vec::new();
    let mut i: usize = 0;
    let ghost sv = samples@;
    while i < samples.len()
        invariant
            0 <= i <= sv.len(),
            sv == samples@,
            sv.len() <= 0x8000000,
            spec_samples_wf(shape, sv),
            1 <= shape.spec_max() <= 100000,
            max == shape.spec_max(),
            0 <= fight_start,
            log@.len() == i,
            forall|j: int|
                0 <= j < i ==> #[trigger] log@[j] == (
                (sv[j].0 - fight_start) as i64,
                spec_percent_hundredths(shape, sv[j]) as u64,
                ),
            gain == spec_total_gain(shape, sv.take(i as int)),
            (match shape {
                IdentityShape::TwoCard { neutral_card } => draws@ == spec_draws(
                    neutral_card,
                    sv.take(i as int),
                ),
                _ => draws@.len() == 0,
            }),
        decreases sv.len() - i,
    {
        proof {
            assert(sv.take(i as int + 1).drop_last() =~= sv.take(i as int));
            assert(sv.take(i as int + 1).last() == sv[i as int]);
            lemma_combined_bounds(shape, sv, i as int);
            if i >= 1 {
                lemma_combined_bounds(shape, sv, i as int - 1);
            }
            assert(spec_samples_wf(shape, sv.take(i as int)));
            lemma_gain_bounds(shape, sv.take(i as int));
            assert(11 * shape.spec_max() * sv.take(i as int).len() <= 11 * 100000 * 0x8000000) by (
            nonlinear_arith)
                requires
                    1 <= shape.spec_max() <= 100000,
                    0 <= sv.take(i as int).len() <= 0x8000000,
            ;
        }
        let (t, (g, a, b)) = samples[i];
        let combined: u64 = combined_of(shape, g, a);
        let raw = round_div_half_up(combined * 10000, max as u64);
        let percent: u64 = match shape {
            IdentityShape::SingleGauge { .. } => if raw > 10000 {
                10000
            } else {
                raw
            },
            _ => raw,
        };
        log.push((t - fight_start, percent));
        if i >= 1 {
            let (pt, (pg, pa, pb)) = samples[i - 1];
            let prev_combined: u64 = combined_of(shape, pg, pa);
            if t > pt && combined >= prev_combined {
                gain = gain + (combined - prev_combined);
            }
            if let IdentityShape::TwoCard { neutral_card } = shape {
                if a != pa && a != neutral_card {
                    draws.push(a);
                }
                if b != pb && b != neutral_card {
                    draws.push(b);
                }
                proof {
                    assert(draws@ =~= spec_draws(neutral_card, sv.take(i as int)) + spec_pair_draws(
                        neutral_card,
                        sv[i as int - 1],
                        sv[i as int],
                    ));
                }
            }
        }
        i = i + 1;
    }
    proof {
        assert(sv.take(sv.len() as int) =~= sv);
        lemma_gain_bounds(shape, sv);
        assert(11 * shape.spec_max() * sv.len() <= 11 * 100000 * 0x8000000) by (nonlinear_arith)
            requires
                1 <= shape.spec_max() <= 100000,
                0 <= sv.len() <= 0x8000000,
        ;
        assert(duration_seconds as int * shape.spec_max() >= 1) by (nonlinear_arith)
            requires
                1 <= duration_seconds,
                1 <= shape.spec_max(),
        ;
        assert(duration_seconds as int * shape.spec_max() <= 0x7fffffffffffffff * 100000) by (
        nonlinear_arith)
            requires
                1 <= duration_seconds <= 0x7fffffffffffffff,
                1 <= shape.spec_max() <= 100000,
        ;
    }
    let den128: u128 = (duration_seconds as u128) * (max as u128);
    let avg128: u128 = (2 * (gain as u128) * 10000 + den128) / (2 * den128);
    proof {
        assert(avg128 == spec_round_div(
            spec_total_gain(shape, sv) * 10000,
            duration_seconds as int * shape.spec_max(),
        ));
        assert(avg128 as int <= (gain as int) * 10000) by (nonlinear_arith)
            requires
                1 <= den128 as int,
                0 <= gain as int,
                avg128 as int == (2 * (gain as int) * 10000 + den128 as int) / (2 * (
                den128 as int)),
        ;
    }
    let average: u64 = avg128 as u64;
    let card_draws: Option<Vec<u32>> = match shape {
        IdentityShape::TwoCard { .. } => Some(draws),
        _ => None,
    };
    IdentityStats { log, average_hundredths: average, card_draws }
}

} // verus!
