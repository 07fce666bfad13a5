//! The JSON documents this crate persists: the encounter's misc metadata,
//! its stagger statistics, and the per-entity documents (skills, damage
//! stats, skill stats, engravings, ark-passive data, boss health timelines).
//! Each encoder states its exact output.

use vstd::prelude::*;
use vstd::string::StringExecFns;
use crate::json::{
    spec_json_string,
    spec_json_bool,
    append_json_string,
    append_json_bool,
    append_json_u64,
    append_json_i64,
};
use crate::text::{spec_udec, spec_idec, spec_dec2, u64_to_string, hundredths_to_string};
use crate::models::{
    ArkPassiveData,
    BossHpEntry,
    DamageStats,
    IdentityStats,
    Skill,
    SkillStats,
};
use crate::stagger::StaggerStats;

verus! {

pub open spec fn spec_null() -> Seq<char> {
    seq!['n', 'u', 'l', 'l']
}

pub open spec fn spec_opt_bool(b: Option<bool>) -> Seq<char> {
    match b {
        Some(v) => spec_json_bool(v),
        None => spec_null(),
    }
}

pub open spec fn spec_opt_string(s: Option<Seq<char>>) -> Seq<char> {
    match s {
        Some(v) => spec_json_string(v),
        None => spec_null(),
    }
}

pub open spec fn spec_opt_i64(v: Option<int>) -> Seq<char> {
    match v {
        Some(n) => spec_idec(n),
        None => spec_null(),
    }
}

pub open spec fn spec_opt_dec2(v: Option<int>) -> Seq<char> {
    match v {
        Some(n) => spec_dec2(n),
        None => spec_null(),
    }
}

fn append_null(out: &mut String)
    ensures
        final(out)@ == old(out)@ + spec_null(),
{
    proof {
        reveal_strlit("null");
    }
    out.append("null");
    proof {
        assert(final(out)@ =~= old(out)@ + spec_null());
    }
}

fn append_opt_bool(out: &mut String, b: Option<bool>)
    ensures
        final(out)@ == old(out)@ + spec_opt_bool(b),
{
    match b {
        Some(v) => append_json_bool(out, v),
        None => append_null(out),
    }
}

fn append_opt_string(out: &mut String, s: &Option<String>)
    ensures
        final(out)@ == old(out)@ + spec_opt_string(
            match s {
                Some(v) => Some(v@),
                None => None,
            },
        ),
{
    match s {
        Some(v) => append_json_string(out, v.as_str()),
        None => append_null(out),
    }
}

/// A JSON array of string literals.
pub open spec fn spec_string_array(xs: Seq<Seq<char>>) -> Seq<char> {
    seq!['['] + spec_string_items(xs) + seq![']']
}

pub open spec fn spec_string_items(xs: Seq<Seq<char>>) -> Seq<char>
    decreases xs.len(),
{
    if xs.len() == 0 {
        Seq::empty()
    } else if xs.len() == 1 {
        spec_json_string(xs[0])
    } else {
        spec_string_items(xs.drop_last()) + seq![','] + spec_json_string(xs.last())
    }
}

pub fn append_string_array(out: &mut String, xs: &Vec<String>)
    ensures
        final(out)@ == old(out)@ + spec_string_array(xs@.map_values(|s: String| s@)),
{
    proof {
        reveal_strlit("[");
        reveal_strlit("]");
    }
    let ghost xv = xs@.map_values(|s: String| s@);
    out.append("[");
    let mut i: usize = 0;
    while i < xs.len()
        invariant
            0 <= i <= xs@.len(),
            xv == xs@.map_values(|s: String| s@),
            out@ == old(out)@ + seq!['['] + spec_string_items(xv.take(i as int)),
        decreases xs@.len() - i,
    {
        proof {
            reveal_strlit(",");
        }
        if i > 0 {
            out.append(",");
        }
        append_json_string(out, xs[i].as_str());
        proof {
            assert(xv[i as int] == xs@[i as int]@);
            assert(xv.take(i as int + 1).drop_last() =~= xv.take(i as int));
            assert(xv.take(i as int + 1).last() == xv[i as int]);
            if i == 0 {
                assert(xv.take(0int) =~= Seq::<Seq<char>>::empty());
            }
            assert(out@ =~= old(out)@ + seq!['['] + spec_string_items(xv.take(i as int + 1)));
        }
        i = i + 1;
    }
    proof {
        reveal_strlit("]");
        assert(xv.take(xv.len() as int) =~= xv);
    }
    out.append("]");
    proof {
        assert(final(out)@ =~= old(out)@ + spec_string_array(xv));
    }
}

/// A JSON array of signed numbers.
pub open spec fn spec_i64_array(xs: Seq<i64>) -> Seq<char> {
    seq!['['] + spec_i64_items(xs) + seq![']']
}

pub open spec fn spec_i64_items(xs: Seq<i64>) -> Seq<char>
    decreases xs.len(),
{
    if xs.len() == 0 {
        Seq::empty()
    } else if xs.len() == 1 {
        spec_idec(xs[0] as int)
    } else {
        spec_i64_items(xs.drop_last()) + seq![','] + spec_idec(xs.last() as int)
    }
}

pub fn append_i64_array(out: &mut String, xs: &Vec<i64>)
    ensures
        final(out)@ == old(out)@ + spec_i64_array(xs@),
{
    proof {
        reveal_strlit("[");
    }
    out.append("[");
    let mut i: usize = 0;
    while i < xs.len()
        invariant
            0 <= i <= xs@.len(),
            out@ == old(out)@ + seq!['['] + spec_i64_items(xs@.take(i as int)),
        decreases xs@.len() - i,
    {
        proof {
            reveal_strlit(",");
        }
        if i > 0 {
            out.append(",");
        }
        append_json_i64(out, xs[i]);
        proof {
            assert(xs@.take(i as int + 1).drop_last() =~= xs@.take(i as int));
            assert(xs@.take(i as int + 1).last() == xs@[i as int]);
            if i == 0 {
                assert(xs@.take(0int) =~= Seq::<i64>::empty());
            }
            assert(out@ =~= old(out)@ + seq!['['] + spec_i64_items(xs@.take(i as int + 1)));
        }
        i = i + 1;
    }
    proof {
        reveal_strlit("]");
        assert(xs@.take(xs@.len() as int) =~= xs@);
    }
    out.append("]");
    proof {
        assert(final(out)@ =~= old(out)@ + spec_i64_array(xs@));
    }
}

/// A JSON array of signed 32-bit numbers.
pub open spec fn spec_i32_array(xs: Seq<i32>) -> Seq<char> {
    seq!['['] + spec_i32_items(xs) + seq![']']
}

pub open spec fn spec_i32_items(xs: Seq<i32>) -> Seq<char>
    decreases xs.len(),
{
    if xs.len() == 0 {
        Seq::empty()
    } else if xs.len() == 1 {
        spec_idec(xs[0] as int)
    } else {
        spec_i32_items(xs.drop_last()) + seq![','] + spec_idec(xs.last() as int)
    }
}

pub fn append_i32_array(out: &mut String, xs: &Vec<i32>)
    ensures
        final(out)@ == old(out)@ + spec_i32_array(xs@),
{
    proof {
        reveal_strlit("[");
    }
    out.append("[");
    let mut i: usize = 0;
    while i < xs.len()
        invariant
            0 <= i <= xs@.len(),
            out@ == old(out)@ + seq!['['] + spec_i32_items(xs@.take(i as int)),
        decreases xs@.len() - i,
    {
        proof {
            reveal_strlit(",");
        }
        if i > 0 {
            out.append(",");
        }
        append_json_i64(out, xs[i] as i64);
        proof {
            assert(xs@.take(i as int + 1).drop_last() =~= xs@.take(i as int));
            assert(xs@.take(i as int + 1).last() == xs@[i as int]);
            if i == 0 {
                assert(xs@.take(0int) =~= Seq::<i32>::empty());
            }
            assert(out@ =~= old(out)@ + seq!['['] + spec_i32_items(xs@.take(i as int + 1)));
        }
        i = i + 1;
    }
    proof {
        reveal_strlit("]");
        assert(xs@.take(xs@.len() as int) =~= xs@);
    }
    out.append("]");
    proof {
        assert(final(out)@ =~= old(out)@ + spec_i32_array(xs@));
    }
}

/// A JSON array of unsigned numbers.
pub open spec fn spec_u32_array(xs: Seq<u32>) -> Seq<char> {
    seq!['['] + spec_u32_items(xs) + seq![']']
}

pub open spec fn spec_u32_items(xs: Seq<u32>) -> Seq<char>
    decreases xs.len(),
{
    if xs.len() == 0 {
        Seq::empty()
    } else if xs.len() == 1 {
        spec_udec(xs[0] as int)
    } else {
        spec_u32_items(xs.drop_last()) + seq![','] + spec_udec(xs.last() as int)
    }
}

pub fn append_u32_array(out: &mut String, xs: &Vec<u32>)
    ensures
        final(out)@ == old(out)@ + spec_u32_array(xs@),
{
    proof {
        reveal_strlit("[");
    }
    out.append("[");
    let mut i: usize = 0;
    while i < xs.len()
        invariant
            0 <= i <= xs@.len(),
            out@ == old(out)@ + seq!['['] + spec_u32_items(xs@.take(i as int)),
        decreases xs@.len() - i,
    {
        proof {
            reveal_strlit(",");
        }
        if i > 0 {
            out.append(",");
        }
        append_json_u64(out, xs[i] as u64);
        proof {
            assert(xs@.take(i as int + 1).drop_last() =~= xs@.take(i as int));
            assert(xs@.take(i as int + 1).last() == xs@[i as int]);
            if i == 0 {
                assert(xs@.take(0int) =~= Seq::<u32>::empty());
            }
            assert(out@ =~= old(out)@ + seq!['['] + spec_u32_items(xs@.take(i as int + 1)));
        }
        i = i + 1;
    }
    proof {
        reveal_strlit("]");
        assert(xs@.take(xs@.len() as int) =~= xs@);
    }
    out.append("]");
    proof {
        assert(final(out)@ =~= old(out)@ + spec_u32_array(xs@));
    }
}

/// One point of a stagger or identity log: `[time, value]` with the value
/// written with two decimals.
pub open spec fn spec_pair_dec2(t: int, h: int) -> Seq<char> {
    seq!['['] + spec_idec(t) + seq![','] + spec_dec2(h) + seq![']']
}

pub open spec fn spec_pairs_dec2_i32(xs: Seq<(i32, u64)>) -> Seq<char>
    decreases xs.len(),
{
    if xs.len() == 0 {
        Seq::empty()
    } else if xs.len() == 1 {
        spec_pair_dec2(xs[0].0 as int, xs[0].1 as int)
    } else {
        spec_pairs_dec2_i32(xs.drop_last()) + seq![','] + spec_pair_dec2(
            xs.last().0 as int,
            xs.last().1 as int,
        )
    }
}

pub open spec fn spec_pairs_dec2_i64(xs: Seq<(i64, u64)>) -> Seq<char>
    decreases xs.len(),
{
    if xs.len() == 0 {
        Seq::empty()
    } else if xs.len() == 1 {
        spec_pair_dec2(xs[0].0 as int, xs[0].1 as int)
    } else {
        spec_pairs_dec2_i64(xs.drop_last()) + seq![','] + spec_pair_dec2(
            xs.last().0 as int,
            xs.last().1 as int,
        )
    }
}

fn append_pair_dec2(out: &mut String, t: i64, h: u64)
    ensures
        final(out)@ == old(out)@ + spec_pair_dec2(t as int, h as int),
{
    proof {
        reveal_strlit("[");
        reveal_strlit(",");
        reveal_strlit("]");
    }
    out.append("[");
    append_json_i64(out, t);
    out.append(",");
    let d = hundredths_to_string(h);
    out.append(d.as_str());
    out.append("]");
    proof {
        assert(final(out)@ =~= old(out)@ + spec_pair_dec2(t as int, h as int));
    }
}

/// The stagger-statistics document for given rates and samples: the two
/// rates with two decimals, and the raw sample log as `[second, value]`
/// pairs.
pub open spec fn spec_stagger_doc_parts(
    average_hundredths: int,
    staggers_per_min_hundredths: int,
    log: Seq<(i32, u64)>,
) -> Seq<char> {
    "{\"average\":"@ + spec_dec2(average_hundredths) + ",\"staggersPerMin\":"@ + spec_dec2(
        staggers_per_min_hundredths,
    ) + ",\"log\":["@ + spec_pairs_dec2_i32(log) + "]}"@
}

/// The stagger-statistics document of one aggregation result.
pub open spec fn spec_stagger_doc(s: StaggerStats) -> Seq<char> {
    spec_stagger_doc_parts(s.average_hundredths as int, s.staggers_per_min_hundredths as int, s.log@)
}

/// The stagger document, or `null` when no statistics were produced.
pub open spec fn spec_stagger_doc_opt(s: Option<StaggerStats>) -> Seq<char> {
    match s {
        Some(v) => spec_stagger_doc(v),
        None => spec_null(),
    }
}

pub fn encode_stagger_stats(s: &Option<StaggerStats>) -> (r: String)
    ensures
        r@ == spec_stagger_doc_opt(*s),
{
    let mut out = String::new();
    match s {
        None => {
            append_null(&mut out);
        },
        Some(v) => {
            proof {
                reveal_strlit("{\"average\":");
                reveal_strlit(",\"staggersPerMin\":");
                reveal_strlit(",\"log\":[");
                reveal_strlit("]}");
            }
            out.append("{\"average\":");
            let a = hundredths_to_string(v.average_hundredths);
            out.append(a.as_str());
            out.append(",\"staggersPerMin\":");
            let p = hundredths_to_string(v.staggers_per_min_hundredths);
            out.append(p.as_str());
            out.append(",\"log\":[");
            let mut i: usize = 0;
            while i < v.log.len()
                invariant
                    0 <= i <= v.log@.len(),
                    out@ == "{\"average\":"@ + spec_dec2(v.average_hundredths as int)
                        + ",\"staggersPerMin\":"@ + spec_dec2(v.staggers_per_min_hundredths as int)
                        + ",\"log\":["@ + spec_pairs_dec2_i32(v.log@.take(i as int)),
                decreases v.log@.len() - i,
            {
                proof {
                    reveal_strlit(",");
                }
                if i > 0 {
                    out.append(",");
                }
                let (t, h) = v.log[i];
                append_pair_dec2(&mut out, t as i64, h);
                proof {
                    assert(v.log@.take(i as int + 1).drop_last() =~= v.log@.take(i as int));
                    assert(v.log@.take(i as int + 1).last() == v.log@[i as int]);
                    if i == 0 {
                        assert(v.log@.take(0int) =~= Seq::<(i32, u64)>::empty());
                    }
                    assert(out@ =~= "{\"average\":"@ + spec_dec2(v.average_hundredths as int)
                        + ",\"staggersPerMin\":"@ + spec_dec2(v.staggers_per_min_hundredths as int)
                        + ",\"log\":["@ + spec_pairs_dec2_i32(v.log@.take(i as int + 1)));
                }
                i = i + 1;
            }
            proof {
                reveal_strlit("]}");
                assert(v.log@.take(v.log@.len() as int) =~= v.log@);
            }
            out.append("]}");
            proof {
                assert(out@ =~= spec_stagger_doc(*v));
            }
        },
    }
    out
}

/// The identity-statistics fragment of a skill-stats document.
pub open spec fn spec_identity_doc(s: IdentityStats) -> Seq<char> {
    "{\"log\":["@ + spec_pairs_dec2_i64(s.log@) + "],\"average\":"@ + spec_dec2(
        s.average_hundredths as int,
    ) + ",\"cardDraws\":"@ + (match s.card_draws {
        Some(d) => spec_u32_array(d@),
        None => spec_null(),
    }) + seq!['}']
}

pub fn encode_identity_stats(s: &IdentityStats) -> (r: String)
    ensures
        r@ == spec_identity_doc(*s),
{
    proof {
        reveal_strlit("{\"log\":[");
        reveal_strlit("],\"average\":");
        reveal_strlit(",\"cardDraws\":");
        reveal_strlit("}");
    }
    let mut out = String::new();
    out.append("{\"log\":[");
    let mut i: usize = 0;
    while i < s.log.len()
        invariant
            0 <= i <= s.log@.len(),
            out@ == "{\"log\":["@ + spec_pairs_dec2_i64(s.log@.take(i as int)),
        decreases s.log@.len() - i,
    {
        proof {
            reveal_strlit(",");
        }
        if i > 0 {
            out.append(",");
        }
        let (t, h) = s.log[i];
        append_pair_dec2(&mut out, t, h);
        proof {
            assert(s.log@.take(i as int + 1).drop_last() =~= s.log@.take(i as int));
            assert(s.log@.take(i as int + 1).last() == s.log@[i as int]);
            if i == 0 {
                assert(s.log@.take(0int) =~= Seq::<(i64, u64)>::empty());
            }
            assert(out@ =~= "{\"log\":["@ + spec_pairs_dec2_i64(s.log@.take(i as int + 1)));
        }
        i = i + 1;
    }
    proof {
        reveal_strlit("],\"average\":");
        reveal_strlit(",\"cardDraws\":");
        reveal_strlit("}");
        assert(s.log@.take(s.log@.len() as int) =~= s.log@);
    }
    out.append("],\"average\":");
    let a = hundredths_to_string(s.average_hundredths);
    out.append(a.as_str());
    out.append(",\"cardDraws\":");
    match &s.card_draws {
        Some(d) => append_u32_array(&mut out, d),
        None => append_null(&mut out),
    }
    out.append("}");
    proof {
        assert(out@ =~= spec_identity_doc(*s));
    }
    out
}

/// The skill-stats document of one entity.
pub open spec fn spec_skill_stats_doc(s: SkillStats) -> Seq<char> {
    "{\"casts\":"@ + spec_idec(s.casts as int) + ",\"hits\":"@ + spec_idec(s.hits as int)
        + ",\"crits\":"@ + spec_idec(s.crits as int) + ",\"identityStats\":"@ + (
    match s.identity_stats {
        Some(i) => spec_identity_doc(i),
        None => spec_null(),
    }) + seq!['}']
}

pub fn encode_skill_stats(s: &SkillStats) -> (r: String)
    ensures
        r@ == spec_skill_stats_doc(*s),
{
    proof {
        reveal_strlit("{\"casts\":");
        reveal_strlit(",\"hits\":");
        reveal_strlit(",\"crits\":");
        reveal_strlit(",\"identityStats\":");
        reveal_strlit("}");
    }
    let mut out = String::new();
    out.append("{\"casts\":");
    append_json_i64(&mut out, s.casts);
    out.append(",\"hits\":");
    append_json_i64(&mut out, s.hits);
    out.append(",\"crits\":");
    append_json_i64(&mut out, s.crits);
    out.append(",\"identityStats\":");
    match &s.identity_stats {
        Some(i) => {
            let doc = encode_identity_stats(i);
            out.append(doc.as_str());
        },
        None => append_null(&mut out),
    }
    out.append("}");
    proof {
        assert(out@ =~= spec_skill_stats_doc(*s));
    }
    out
}

/// The engraving document: the engraving names, or `null` when none were
/// captured.
pub open spec fn spec_engravings_doc(e: Option<Vec<String>>) -> Seq<char> {
    match e {
        Some(v) => spec_string_array(v@.map_values(|s: String| s@)),
        None => spec_null(),
    }
}

pub fn encode_engravings(e: &Option<Vec<String>>) -> (r: String)
    ensures
        r@ == spec_engravings_doc(*e),
{
    let mut out = String::new();
    match e {
        Some(v) => append_string_array(&mut out, v),
        None => append_null(&mut out),
    }
    out
}

/// The ark-passive document: the taken enlightenment nodes, or `null`.
pub open spec fn spec_ark_passive_doc(a: Option<ArkPassiveData>) -> Seq<char> {
    match a {
        Some(v) => "{\"enlightenment\":"@ + spec_u32_array(v.enlightenment@) + seq!['}'],
        None => spec_null(),
    }
}

pub fn encode_ark_passive(a: &Option<ArkPassiveData>) -> (r: String)
    ensures
        r@ == spec_ark_passive_doc(*a),
{
    let mut out = String::new();
    match a {
        Some(v) => {
            proof {
                reveal_strlit("{\"enlightenment\":");
                reveal_strlit("}");
            }
            out.append("{\"enlightenment\":");
            append_u32_array(&mut out, &v.enlightenment);
            out.append("}");
            proof {
                assert(out@ =~= spec_ark_passive_doc(*a));
            }
        },
        None => append_null(&mut out),
    }
    out
}

/// The damage-stats document of one entity.
pub open spec fn spec_damage_stats_doc(d: DamageStats) -> Seq<char> {
    "{\"damageDealt\":"@ + spec_idec(d.damage_dealt as int) + ",\"damageTaken\":"@ + spec_idec(
        d.damage_taken as int,
    ) + ",\"dps\":"@ + spec_idec(d.dps as int) + ",\"dpsRolling10sAvg\":"@ + spec_i64_array(
        d.dps_rolling_10s_avg@,
    ) + seq!['}']
}

pub fn encode_damage_stats(d: &DamageStats) -> (r: String)
    ensures
        r@ == spec_damage_stats_doc(*d),
{
    proof {
        reveal_strlit("{\"damageDealt\":");
        reveal_strlit(",\"damageTaken\":");
        reveal_strlit(",\"dps\":");
        reveal_strlit(",\"dpsRolling10sAvg\":");
        reveal_strlit("}");
    }
    let mut out = String::new();
    out.append("{\"damageDealt\":");
    append_json_i64(&mut out, d.damage_dealt);
    out.append(",\"damageTaken\":");
    append_json_i64(&mut out, d.damage_taken);
    out.append(",\"dps\":");
    append_json_i64(&mut out, d.dps);
    out.append(",\"dpsRolling10sAvg\":");
    append_i64_array(&mut out, &d.dps_rolling_10s_avg);
    out.append("}");
    proof {
        assert(out@ =~= spec_damage_stats_doc(*d));
    }
    out
}

/// One skill of the skills document.
pub open spec fn spec_skill_doc(s: Skill) -> Seq<char> {
    "{\"id\":"@ + spec_udec(s.id as int) + ",\"name\":"@ + spec_json_string(s.name@)
        + ",\"totalDamage\":"@ + spec_idec(s.total_damage as int) + ",\"dps\":"@ + spec_idec(
        s.dps as int,
    ) + ",\"castLog\":"@ + spec_i32_array(s.cast_log@) + ",\"adjustedCrit\":"@ + spec_opt_dec2(
        match s.adjusted_crit_hundredths {
            Some(h) => Some(h as int),
            None => None,
        },
    ) + ",\"maxDamageCast\":"@ + spec_idec(s.max_damage_cast as int) + ",\"gemDamageLevel\":"@
        + spec_opt_i64(
        match s.gem_damage_level {
            Some(l) => Some(l as int),
            None => None,
        },
    ) + ",\"gemCooldownLevel\":"@ + spec_opt_i64(
        match s.gem_cooldown_level {
            Some(l) => Some(l as int),
            None => None,
        },
    ) + seq!['}']
}

pub fn encode_skill(s: &Skill) -> (r: String)
    ensures
        r@ == spec_skill_doc(*s),
{
    proof {
        reveal_strlit("{\"id\":");
        reveal_strlit(",\"name\":");
        reveal_strlit(",\"totalDamage\":");
        reveal_strlit(",\"dps\":");
        reveal_strlit(",\"castLog\":");
        reveal_strlit(",\"adjustedCrit\":");
        reveal_strlit(",\"maxDamageCast\":");
        reveal_strlit(",\"gemDamageLevel\":");
        reveal_strlit(",\"gemCooldownLevel\":");
        reveal_strlit("}");
    }
    let mut out = String::new();
    out.append("{\"id\":");
    append_json_u64(&mut out, s.id as u64);
    out.append(",\"name\":");
    append_json_string(&mut out, s.name.as_str());
    out.append(",\"totalDamage\":");
    append_json_i64(&mut out, s.total_damage);
    out.append(",\"dps\":");
    append_json_i64(&mut out, s.dps);
    out.append(",\"castLog\":");
    append_i32_array(&mut out, &s.cast_log);
    out.append(",\"adjustedCrit\":");
    match s.adjusted_crit_hundredths {
        Some(h) => {
            let d = hundredths_to_string(h);
            out.append(d.as_str());
        },
        None => append_null(&mut out),
    }
    out.append(",\"maxDamageCast\":");
    append_json_i64(&mut out, s.max_damage_cast);
    out.append(",\"gemDamageLevel\":");
    match s.gem_damage_level {
        Some(l) => append_json_i64(&mut out, l as i64),
        None => append_null(&mut out),
    }
    out.append(",\"gemCooldownLevel\":");
    match s.gem_cooldown_level {
        Some(l) => append_json_i64(&mut out, l as i64),
        None => append_null(&mut out),
    }
    out.append("}");
    proof {
        assert(out@ =~= spec_skill_doc(*s));
    }
    out
}

/// The skills document: a map from skill id to the skill's record.
pub open spec fn spec_skills_doc(skills: Seq<Skill>) -> Seq<char> {
    seq!['{'] + spec_skills_items(skills) + seq!['}']
}

pub open spec fn spec_skills_items(skills: Seq<Skill>) -> Seq<char>
    decreases skills.len(),
{
    if skills.len() == 0 {
        Seq::empty()
    } else if skills.len() == 1 {
        spec_json_string(spec_udec(skills[0].id as int)) + seq![':'] + spec_skill_doc(skills[0])
    } else {
        spec_skills_items(skills.drop_last()) + seq![','] + spec_json_string(
            spec_udec(skills.last().id as int),
        ) + seq![':'] + spec_skill_doc(skills.last())
    }
}

pub fn encode_skills(skills: &Vec<Skill>) -> (r: String)
    ensures
        r@ == spec_skills_doc(skills@),
{
    proof {
        reveal_strlit("{");
    }
    let mut out = String::new();
    out.append("{");
    let mut i: usize = 0;
    while i < skills.len()
        invariant
            0 <= i <= skills@.len(),
            out@ == seq!['{'] + spec_skills_items(skills@.take(i as int)),
        decreases skills@.len() - i,
    {
        proof {
            reveal_strlit(",");
            reveal_strlit(":");
        }
        if i > 0 {
            out.append(",");
        }
        let key = u64_to_string(skills[i].id as u64);
        append_json_string(&mut out, key.as_str());
        out.append(":");
        let doc = encode_skill(&skills[i]);
        out.append(doc.as_str());
        proof {
            assert(skills@.take(i as int + 1).drop_last() =~= skills@.take(i as int));
            assert(skills@.take(i as int + 1).last() == skills@[i as int]);
            if i == 0 {
                assert(skills@.take(0int) =~= Seq::<Skill>::empty());
            }
            assert(out@ =~= seq!['{'] + spec_skills_items(skills@.take(i as int + 1)));
        }
        i = i + 1;
    }
    proof {
        reveal_strlit("}");
        assert(skills@.take(skills@.len() as int) =~= skills@);
    }
    out.append("}");
    proof {
        assert(out@ =~= spec_skills_doc(skills@));
    }
    out
}

/// One point of a boss health timeline.
pub open spec fn spec_boss_hp_entry(e: BossHpEntry) -> Seq<char> {
    "{\"time\":"@ + spec_idec(e.time as int) + ",\"hp\":"@ + spec_idec(e.hp as int) + ",\"p\":"@
        + spec_dec2(e.p_hundredths as int) + seq!['}']
}

pub open spec fn spec_boss_hp_entries(es: Seq<BossHpEntry>) -> Seq<char>
    decreases es.len(),
{
    if es.len() == 0 {
        Seq::empty()
    } else if es.len() == 1 {
        spec_boss_hp_entry(es[0])
    } else {
        spec_boss_hp_entries(es.drop_last()) + seq![','] + spec_boss_hp_entry(es.last())
    }
}

/// The boss health document: a map from boss name to its timeline.
pub open spec fn spec_boss_hp_doc(log: Seq<(Seq<char>, Seq<BossHpEntry>)>) -> Seq<char> {
    seq!['{'] + spec_boss_hp_items(log) + seq!['}']
}

pub open spec fn spec_boss_hp_items(log: Seq<(Seq<char>, Seq<BossHpEntry>)>) -> Seq<char>
    decreases log.len(),
{
    if log.len() == 0 {
        Seq::empty()
    } else if log.len() == 1 {
        spec_json_string(log[0].0) + seq![':', '['] + spec_boss_hp_entries(log[0].1) + seq![']']
    } else {
        spec_boss_hp_items(log.drop_last()) + seq![','] + spec_json_string(log.last().0) + seq![
            ':',
            '[',
        ] + spec_boss_hp_entries(log.last().1) + seq![']']
    }
}

fn encode_boss_hp_entry(out: &mut String, e: &BossHpEntry)
    ensures
        final(out)@ == old(out)@ + spec_boss_hp_entry(*e),
{
    proof {
        reveal_strlit("{\"time\":");
        reveal_strlit(",\"hp\":");
        reveal_strlit(",\"p\":");
        reveal_strlit("}");
    }
    out.append("{\"time\":");
    append_json_i64(out, e.time as i64);
    out.append(",\"hp\":");
    append_json_i64(out, e.hp);
    out.append(",\"p\":");
    let d = hundredths_to_string(e.p_hundredths);
    out.append(d.as_str());
    out.append("}");
    proof {
        assert(final(out)@ =~= old(out)@ + spec_boss_hp_entry(*e));
    }
}

pub fn encode_boss_hp_log(log: &Vec<(String, Vec<BossHpEntry>)>) -> (r: String)
    ensures
        r@ == spec_boss_hp_doc(
            log@.map_values(|p: (String, Vec<BossHpEntry>)| (p.0@, p.1@)),
        ),
{
    proof {
        reveal_strlit("{");
    }
    let ghost lv = log@.map_values(|p: (String, Vec<BossHpEntry>)| (p.0@, p.1@));
    let mut out = String::new();
    out.append("{");
    let mut i: usize = 0;
    while i < log.len()
        invariant
            0 <= i <= log@.len(),
            lv == log@.map_values(|p: (String, Vec<BossHpEntry>)| (p.0@, p.1@)),
            out@ == seq!['{'] + spec_boss_hp_items(lv.take(i as int)),
        decreases log@.len() - i,
    {
        proof {
            reveal_strlit(",");
            reveal_strlit(":[");
            reveal_strlit("]");
        }
        if i > 0 {
            out.append(",");
        }
        append_json_string(&mut out, log[i].0.as_str());
        out.append(":[");
        let ghost entries = log@[i as int].1@;
        let mut j: usize = 0;
        let ghost mid = out@;
        while j < log[i].1.len()
            invariant
                0 <= j <= entries.len(),
                0 <= i < log@.len(),
                entries == log@[i as int].1@,
                out@ == mid + spec_boss_hp_entries(entries.take(j as int)),
            decreases entries.len() - j,
        {
            proof {
                reveal_strlit(",");
            }
            if j > 0 {
                out.append(",");
            }
            encode_boss_hp_entry(&mut out, &log[i].1[j]);
            proof {
                assert(entries.take(j as int + 1).drop_last() =~= entries.take(j as int));
                assert(entries.take(j as int + 1).last() == entries[j as int]);
                if j == 0 {
                    assert(entries.take(0int) =~= Seq::<BossHpEntry>::empty());
                }
                assert(out@ =~= mid + spec_boss_hp_entries(entries.take(j as int + 1)));
            }
            j = j + 1;
        }
        proof {
            reveal_strlit("]");
            assert(entries.take(entries.len() as int) =~= entries);
        }
        out.append("]");
        proof {
            assert(lv[i as int] == (log@[i as int].0@, log@[i as int].1@));
            assert(lv.take(i as int + 1).drop_last() =~= lv.take(i as int));
            assert(lv.take(i as int + 1).last() == lv[i as int]);
            if i == 0 {
                assert(lv.take(0int) =~= Seq::<(Seq<char>, Seq<BossHpEntry>)>::empty());
            }
            assert(out@ =~= seq!['{'] + spec_boss_hp_items(lv.take(i as int + 1)));
        }
        i = i + 1;
    }
    proof {
        reveal_strlit("}");
        assert(lv.take(lv.len() as int) =~= lv);
    }
    out.append("}");
    proof {
        assert(out@ =~= spec_boss_hp_doc(lv));
    }
    out
}

/// One party of the misc document's party table, keyed by its index.
pub open spec fn spec_party_items(ps: Seq<Seq<Seq<char>>>, upto: int) -> Seq<char>
    recommends
        0 <= upto <= ps.len(),
    decreases upto,
{
    if upto <= 0 {
        Seq::empty()
    } else if upto == 1 {
        spec_json_string(spec_udec(0)) + seq![':'] + spec_string_array(ps[0])
    } else {
        spec_party_items(ps, upto - 1) + seq![','] + spec_json_string(spec_udec(upto - 1))
            + seq![':'] + spec_string_array(ps[upto - 1])
    }
}

/// The misc-metadata document. Every field stands, absent values as
/// `null`; the party table maps each party's index to its member names.
pub open spec fn spec_misc_doc(
    raid_clear: Option<bool>,
    party_info: Seq<Seq<Seq<char>>>,
    region: Option<Seq<char>>,
    version: Seq<char>,
    rdps_valid: bool,
    ntp_fight_start: int,
    manual_save: bool,
) -> Seq<char> {
    "{\"raidClear\":"@ + spec_opt_bool(raid_clear) + ",\"partyInfo\":"@ + (if party_info.len()
        == 0 {
        spec_null()
    } else {
        seq!['{'] + spec_party_items(party_info, party_info.len() as int) + seq!['}']
    }) + ",\"region\":"@ + spec_opt_string(region) + ",\"version\":"@ + spec_json_string(version)
        + ",\"rdpsValid\":"@ + spec_json_bool(rdps_valid) + ",\"rdpsMessage\":"@ + (if rdps_valid {
        spec_null()
    } else {
        spec_json_string("invalid_stats"@)
    }) + ",\"ntpFightStart\":"@ + spec_idec(ntp_fight_start) + ",\"manualSave\":"@ + spec_json_bool(
        manual_save,
    ) + seq!['}']
}

#[verifier::rlimit(100)]
#[verifier::spinoff_prover]
pub fn encode_misc(
    raid_clear: Option<bool>,
    party_info: &Vec<Vec<String>>,
    region: &Option<String>,
    version: &String,
    rdps_valid: bool,
    ntp_fight_start: i64,
    manual_save: bool,
) -> (r: String)
    ensures
        r@ == spec_misc_doc(
            raid_clear,
            party_info@.map_values(|p: Vec<String>| p@.map_values(|s: String| s@)),
            match region {
                Some(s) => Some(s@),
                None => None,
            },
            version@,
            rdps_valid,
            ntp_fight_start as int,
            manual_save,
        ),
{
    proof {
        reveal_strlit("{\"raidClear\":");
        reveal_strlit(",\"partyInfo\":");
        reveal_strlit(",\"region\":");
        reveal_strlit(",\"version\":");
        reveal_strlit(",\"rdpsValid\":");
        reveal_strlit(",\"rdpsMessage\":");
        reveal_strlit(",\"ntpFightStart\":");
        reveal_strlit(",\"manualSave\":");
        reveal_strlit("invalid_stats");
        reveal_strlit("{");
        reveal_strlit("}");
    }
    let ghost pv = party_info@.map_values(|p: Vec<String>| p@.map_values(|s: String| s@));
    let mut out = String::new();
    out.append("{\"raidClear\":");
    append_opt_bool(&mut out, raid_clear);
    out.append(",\"partyInfo\":");
    if party_info.len() == 0 {
        append_null(&mut out);
    } else {
        out.append("{");
        let ghost mid = out@;
        let mut i: usize = 0;
        while i < party_info.len()
            invariant
                0 <= i <= party_info@.len(),
                pv == party_info@.map_values(|p: Vec<String>| p@.map_values(|s: String| s@)),
                out@ == mid + spec_party_items(pv, i as int),
            decreases party_info@.len() - i,
        {
            proof {
                reveal_strlit(",");
                reveal_strlit(":");
            }
            if i > 0 {
                out.append(",");
            }
            let key = u64_to_string(i as u64);
            append_json_string(&mut out, key.as_str());
            out.append(":");
            append_string_array(&mut out, &party_info[i]);
            proof {
                assert(pv[i as int] == party_info@[i as int]@.map_values(|s: String| s@));
                assert(out@ =~= mid + spec_party_items(pv, i as int + 1));
            }
            i = i + 1;
        }
        proof {
            reveal_strlit("}");
        }
        out.append("}");
    }
    out.append(",\"region\":");
    append_opt_string(&mut out, region);
    out.append(",\"version\":");
    append_json_string(&mut out, version.as_str());
    out.append(",\"rdpsValid\":");
    append_json_bool(&mut out, rdps_valid);
    out.append(",\"rdpsMessage\":");
    if rdps_valid {
        append_null(&mut out);
    } else {
        let mut tmp = String::new();
        append_json_string(&mut tmp, "invalid_stats");
        out.append(tmp.as_str());
    }
    out.append(",\"ntpFightStart\":");
    append_json_i64(&mut out, ntp_fight_start);
    out.append(",\"manualSave\":");
    append_json_bool(&mut out, manual_save);
    out.append("}");
    proof {
        assert(out@ =~= spec_misc_doc(
            raid_clear,
            pv,
            match region {
                Some(s) => Some(s@),
                None => None,
            },
            version@,
            rdps_valid,
            ntp_fight_start as int,
            manual_save,
        ));
    }
    out
}

} // verus!
