//! Cast-quality adjustment: from a skill's cast-by-cast hit log, a noise
//! filter at five percent of the average damage per cast keeps near-zero
//! glancing hits out of the crit-rate statistic, and the single
//! highest-damage cast is recorded.

use vstd::prelude::*;
use crate::models::{SkillCast, SkillHit};
use crate::text::spec_round_div;

verus! {

pub open spec fn spec_cast_damage(hits: Seq<SkillHit>) -> int
    decreases hits.len(),
{
    if hits.len() == 0 {
        0
    } else {
        spec_cast_damage(hits.drop_last()) + hits.last().damage as int
    }
}

pub open spec fn spec_total_cast_damage(casts: Seq<SkillCast>) -> int
    decreases casts.len(),
{
    if casts.len() == 0 {
        0
    } else {
        spec_total_cast_damage(casts.drop_last()) + spec_cast_damage(casts.last().hits@)
    }
}

pub open spec fn spec_max_cast_damage(casts: Seq<SkillCast>) -> int
    decreases casts.len(),
{
    if casts.len() == 0 {
        0
    } else {
        let rest = spec_max_cast_damage(casts.drop_last());
        let last = spec_cast_damage(casts.last().hits@);
        if last > rest {
            last
        } else {
            rest
        }
    }
}

/// Hits of one cast that pass the noise filter.
pub open spec fn spec_cast_adjusted(hits: Seq<SkillHit>, filter: int) -> int
    decreases hits.len(),
{
    if hits.len() == 0 {
        0
    } else {
        spec_cast_adjusted(hits.drop_last(), filter) + if hits.last().damage > filter {
            1int
        } else {
            0int
        }
    }
}

/// Critical hits of one cast that pass the noise filter.
pub open spec fn spec_cast_adjusted_crits(hits: Seq<SkillHit>, filter: int) -> int
    decreases hits.len(),
{
    if hits.len() == 0 {
        0
    } else {
        spec_cast_adjusted_crits(hits.drop_last(), filter) + if hits.last().damage > filter
            && hits.last().crit {
            1int
        } else {
            0int
        }
    }
}

pub open spec fn spec_adjusted(casts: Seq<SkillCast>, filter: int) -> int
    decreases casts.len(),
{
    if casts.len() == 0 {
        0
    } else {
        spec_adjusted(casts.drop_last(), filter) + spec_cast_adjusted(casts.last().hits@, filter)
    }
}

pub open spec fn spec_adjusted_crits(casts: Seq<SkillCast>, filter: int) -> int
    decreases casts.len(),
{
    if casts.len() == 0 {
        0
    } else {
        spec_adjusted_crits(casts.drop_last(), filter) + spec_cast_adjusted_crits(
            casts.last().hits@,
            filter,
        )
    }
}

pub open spec fn spec_total_hits(casts: Seq<SkillCast>) -> int
    decreases casts.len(),
{
    if casts.len() == 0 {
        0
    } else {
        spec_total_hits(casts.drop_last()) + casts.last().hits@.len() as int
    }
}

proof fn lemma_adjusted_le_hits(casts: Seq<SkillCast>, filter: int)
    ensures
        0 <= spec_adjusted_crits(casts, filter) <= spec_adjusted(casts, filter) <= spec_total_hits(
            casts,
        ),
    decreases casts.len(),
{
    if casts.len() > 0 {
        lemma_adjusted_le_hits(casts.drop_last(), filter);
        lemma_cast_adjusted_le(casts.last().hits@, filter);
    }
}

proof fn lemma_cast_adjusted_le(hits: Seq<SkillHit>, filter: int)
    ensures
        0 <= spec_cast_adjusted_crits(hits, filter) <= spec_cast_adjusted(hits, filter)
            <= hits.len(),
    decreases hits.len(),
{
    if hits.len() > 0 {
        lemma_cast_adjusted_le(hits.drop_last(), filter);
    }
}

proof fn lemma_hits_prefix_le(casts: Seq<SkillCast>, n: int)
    requires
        0 <= n <= casts.len(),
    ensures
        0 <= spec_total_hits(casts.take(n)) <= spec_total_hits(casts),
    decreases casts.len() - n,
{
    lemma_hits_nonneg(casts.take(n));
    if n == casts.len() {
        assert(casts.take(n) =~= casts);
    } else {
        assert(casts.take(n + 1).drop_last() =~= casts.take(n));
        assert(casts.take(n + 1).last() == casts[n]);
        lemma_hits_prefix_le(casts, n + 1);
    }
}

proof fn lemma_hits_nonneg(casts: Seq<SkillCast>)
    ensures
        0 <= spec_total_hits(casts),
    decreases casts.len(),
{
    if casts.len() > 0 {
        lemma_hits_nonneg(casts.drop_last());
    }
}

pub open spec fn spec_hits_nonneg(casts: Seq<SkillCast>) -> bool {
    forall|i: int, j: int|
        0 <= i < casts.len() && 0 <= j < casts[i].hits@.len() ==> #[trigger] casts[i].hits@[j].damage
            >= 0
}

/// The noise filter: five percent of the average damage per cast.
pub open spec fn spec_noise_filter(casts: Seq<SkillCast>) -> int
    recommends
        casts.len() > 0,
{
    (spec_total_cast_damage(casts) / casts.len() as int) / 20
}

proof fn lemma_cast_damage_nonneg(hits: Seq<SkillHit>)
    requires
        forall|j: int| 0 <= j < hits.len() ==> #[trigger] hits[j].damage >= 0,
    ensures
        0 <= spec_cast_damage(hits),
    decreases hits.len(),
{
    if hits.len() > 0 {
        lemma_cast_damage_nonneg(hits.drop_last());
    }
}

proof fn lemma_total_bounds(casts: Seq<SkillCast>, n: int)
    requires
        spec_hits_nonneg(casts),
        0 <= n <= casts.len(),
    ensures
        0 <= spec_total_cast_damage(casts.take(n)) <= spec_total_cast_damage(casts),
        spec_max_cast_damage(casts.take(n)) <= spec_total_cast_damage(casts),
        0 <= spec_max_cast_damage(casts.take(n)),
    decreases casts.len() - n,
{
    lemma_total_nonneg_max(casts.take(n));
    if n == casts.len() {
        assert(casts.take(n) =~= casts);
    } else {
        assert(casts.take(n + 1).drop_last() =~= casts.take(n));
        assert(casts.take(n + 1).last() == casts[n]);
        assert(forall|j: int| 0 <= j < casts[n].hits@.len() ==> casts[n].hits@[j].damage >= 0);
        lemma_cast_damage_nonneg(casts[n].hits@);
        lemma_total_bounds(casts, n + 1);
    }
}

proof fn lemma_total_nonneg_max(casts: Seq<SkillCast>)
    requires
        spec_hits_nonneg(casts),
    ensures
        0 <= spec_total_cast_damage(casts),
        0 <= spec_max_cast_damage(casts) <= spec_total_cast_damage(casts),
    decreases casts.len(),
{
    if casts.len() > 0 {
        assert(spec_hits_nonneg(casts.drop_last()));
        lemma_total_nonneg_max(casts.drop_last());
        assert(forall|j: int|
            0 <= j < casts.last().hits@.len() ==> casts.last().hits@[j].damage >= 0);
        lemma_cast_damage_nonneg(casts.last().hits@);
    }
}

fn cast_damage(hits: &Vec<SkillHit>) -> (r: i64)
    requires
        forall|j: int| 0 <= j < hits@.len() ==> #[trigger] hits@[j].damage >= 0,
        spec_cast_damage(hits@) <= i64::MAX,
    ensures
        r == spec_cast_damage(hits@),
{
    let mut sum: i64 = 0;
    let mut j: usize = 0;
    while j < hits.len()
        invariant
            0 <= j <= hits@.len(),
            forall|k: int| 0 <= k < hits@.len() ==> #[trigger] hits@[k].damage >= 0,
            spec_cast_damage(hits@) <= i64::MAX,
            sum == spec_cast_damage(hits@.take(j as int)),
        decreases hits@.len() - j,
    {
        proof {
            assert(hits@.take(j as int + 1).drop_last() =~= hits@.take(j as int));
            assert(hits@.take(j as int + 1).last() == hits@[j as int]);
            lemma_cast_prefix_le(hits@, j as int + 1);
        }
        sum = sum + hits[j].damage;
        j = j + 1;
    }
    proof {
        assert(hits@.take(hits@.len() as int) =~= hits@);
    }
    sum
}

proof fn lemma_cast_prefix_le(hits: Seq<SkillHit>, n: int)
    requires
        forall|j: int| 0 <= j < hits.len() ==> #[trigger] hits[j].damage >= 0,
        0 <= n <= hits.len(),
    ensures
        0 <= spec_cast_damage(hits.take(n)) <= spec_cast_damage(hits),
    decreases hits.len() - n,
{
    assert(forall|j: int| 0 <= j < n ==> #[trigger] hits.take(n)[j].damage >= 0);
    lemma_cast_damage_nonneg(hits.take(n));
    if n == hits.len() {
        assert(hits.take(n) =~= hits);
    } else {
        assert(hits.take(n + 1).drop_last() =~= hits.take(n));
        assert(hits.take(n + 1).last() == hits[n]);
        lemma_cast_prefix_le(hits, n + 1);
    }
}

/// Counts, within one cast, the hits over the filter and the criticals
/// among them.
fn cast_counts(hits: &Vec<SkillHit>, filter: i64) -> (r: (u64, u64))
    requires
        hits@.len() < 0x8000000000000000,
    ensures
        r.0 == spec_cast_adjusted(hits@, filter as int),
        r.1 == spec_cast_adjusted_crits(hits@, filter as int),
        r.1 <= r.0 <= hits@.len(),
{
    let mut adj: u64 = 0;
    let mut crits: u64 = 0;
    let mut j: usize = 0;
    while j < hits.len()
        invariant
            0 <= j <= hits@.len(),
            hits@.len() < 0x8000000000000000,
            adj == spec_cast_adjusted(hits@.take(j as int), filter as int),
            crits == spec_cast_adjusted_crits(hits@.take(j as int), filter as int),
            crits <= adj <= j,
        decreases hits@.len() - j,
    {
        proof {
            assert(hits@.take(j as int + 1).drop_last() =~= hits@.take(j as int));
            assert(hits@.take(j as int + 1).last() == hits@[j as int]);
        }
        if hits[j].damage > filter {
            adj = adj + 1;
            if hits[j].crit {
                crits = crits + 1;
            }
        }
        j = j + 1;
    }
    proof {
        assert(hits@.take(hits@.len() as int) =~= hits@);
    }
    (adj, crits)
}

/// The adjusted crit rate (in hundredths of a percent, absent when no hit
/// passes the noise filter) and the damage of the single highest-damage
/// cast.
pub fn cast_quality(casts: &Vec<SkillCast>) -> (r: (Option<u64>, i64))
    requires
        spec_hits_nonneg(casts@),
        spec_total_cast_damage(casts@) <= i64::MAX,
        spec_total_hits(casts@) < 0x8000000000000000,
        casts@.len() < 0x8000000000000000,
    ensures
        casts@.len() == 0 ==> r == (None::<u64>, 0i64),
        casts@.len() > 0 ==> {
            let filter = spec_noise_filter(casts@);
            let adj = spec_adjusted(casts@, filter);
            &&& r.1 == spec_max_cast_damage(casts@)
            &&& (adj == 0 ==> r.0 is None)
            &&& (adj > 0 ==> r.0 == Some(
                spec_round_div(spec_adjusted_crits(casts@, filter) * 10000, adj) as u64,
            ))
        },
{
    if casts.len() == 0 {
        return (None, 0);
    }
    let cv = casts;
    let ghost cs = casts@;
    let mut total: i64 = 0;
    let mut max_cast: i64 = 0;
    let mut i: usize = 0;
    while i < cv.len()
        invariant
            0 <= i <= cs.len(),
            cs == cv@,
            spec_hits_nonneg(cs),
            spec_total_cast_damage(cs) <= i64::MAX,
            total == spec_total_cast_damage(cs.take(i as int)),
            max_cast == spec_max_cast_damage(cs.take(i as int)),
        decreases cs.len() - i,
    {
        proof {
            assert(cs.take(i as int + 1).drop_last() =~= cs.take(i as int));
            assert(cs.take(i as int + 1).last() == cs[i as int]);
            assert(forall|j: int| 0 <= j < cs[i as int].hits@.len() ==> cs[i as int].hits@[j].damage
                >= 0);
            lemma_cast_damage_nonneg(cs[i as int].hits@);
            lemma_total_bounds(cs, i as int + 1);
            lemma_cast_prefix_le(cs[i as int].hits@, cs[i as int].hits@.len() as int);
        }
        let d = cast_damage(&cv[i].hits);
        total = total + d;
        if d > max_cast {
            max_cast = d;
        }
        i = i + 1;
    }
    proof {
        assert(cs.take(cs.len() as int) =~= cs);
        lemma_total_nonneg_max(cs);
    }
    let average = total / (cv.len() as i64);
    let filter = average / 20;
    let mut adj: u64 = 0;
    let mut crits: u64 = 0;
    let mut k: usize = 0;
    while k < cv.len()
        invariant
            0 <= k <= cs.len(),
            cs == cv@,
            spec_hits_nonneg(cs),
            spec_total_hits(cs) < 0x8000000000000000,
            adj == spec_adjusted(cs.take(k as int), filter as int),
            crits == spec_adjusted_crits(cs.take(k as int), filter as int),
            crits <= adj,
            adj <= spec_total_hits(cs.take(k as int)),
        decreases cs.len() - k,
    {
        proof {
            assert(cs.take(k as int + 1).drop_last() =~= cs.take(k as int));
            assert(cs.take(k as int + 1).last() == cs[k as int]);
            lemma_hits_prefix_le(cs, k as int + 1);
            lemma_cast_adjusted_le(cs[k as int].hits@, filter as int);
        }
        let (a, c) = cast_counts(&cv[k].hits, filter);
        adj = adj + a;
        crits = crits + c;
        k = k + 1;
    }
    proof {
        assert(cs.take(cs.len() as int) =~= cs);
    }
    if adj == 0 {
        (None, max_cast)
    } else {
        let rate128: u128 = (2 * (crits as u128) * 10000 + (adj as u128)) / (2 * (adj as u128));
        proof {
            assert(rate128 == spec_round_div(
                spec_adjusted_crits(cs, filter as int) * 10000,
                spec_adjusted(cs, filter as int),
            ));
            assert(rate128 as int <= 10000) by (nonlinear_arith)
                requires
                    1 <= adj as int,
                    0 <= crits as int <= adj as int,
                    rate128 as int == (2 * (crits as int) * 10000 + adj as int) / (2 * (
                    adj as int)),
            ;
        }
        (Some(rate128 as u64), max_cast)
    }
}

} // verus!
