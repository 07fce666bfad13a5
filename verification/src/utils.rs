//! The record assembler's per-entity work: folding the raw logs into each
//! combatant's statistics (dps figures, rolling averages, cast quality,
//! identity stats, gem overlays, spec resolution) and flattening the result
//! into a storage-ready entity row.

use vstd::prelude::*;
use crate::models::{
    EncounterEntity,
    EntityDb,
    EntityType,
    DamageStats,
    IdentityStats,
    PlayerStats,
    Skill,
    SkillCast,
    SkillStats,
};
use crate::stats::{
    spec_dps,
    spec_all_damage_nonneg,
    spec_total_damage,
    spec_rolling_entry,
    rolling_dps_average,
    dps,
};
use crate::identity::{
    spec_shape_of_class,
    spec_samples_wf,
    spec_total_gain,
    resolve_identity_shape,
    create_identity_stats,
};
use crate::text::spec_round_div;
use crate::cast_quality::{
    spec_hits_nonneg,
    spec_total_hits,
    spec_total_cast_damage,
    spec_noise_filter,
    spec_adjusted,
    spec_adjusted_crits,
    spec_max_cast_damage,
    cast_quality,
};
use crate::text::{spec_dec2, str_eq, hundredths_to_string};
use crate::docs::{
    spec_skill_stats_doc,
    spec_engravings_doc,
    spec_ark_passive_doc,
    spec_damage_stats_doc,
    spec_skills_doc,
    encode_skill_stats,
    encode_engravings,
    encode_ark_passive,
    encode_damage_stats,
    encode_skills,
};
use crate::sqlite::{gzip_of, compress_doc};

verus! {

/// First value under a string key, scanning left to right.
pub open spec fn spec_lookup_str<T>(s: Seq<(Seq<char>, T)>, key: Seq<char>) -> Option<T>
    decreases s.len(),
{
    if s.len() == 0 {
        None
    } else if s[0].0 == key {
        Some(s[0].1)
    } else {
        spec_lookup_str(s.skip(1), key)
    }
}

/// First value under a numeric key, scanning left to right.
pub open spec fn spec_lookup_u32<T>(s: Seq<(u32, T)>, key: u32) -> Option<T>
    decreases s.len(),
{
    if s.len() == 0 {
        None
    } else if s[0].0 == key {
        Some(s[0].1)
    } else {
        spec_lookup_u32(s.skip(1), key)
    }
}

pub open spec fn spec_lookup_u64<T>(s: Seq<(u64, T)>, key: u64) -> Option<T>
    decreases s.len(),
{
    if s.len() == 0 {
        None
    } else if s[0].0 == key {
        Some(s[0].1)
    } else {
        spec_lookup_u64(s.skip(1), key)
    }
}

/// The damage-log entries keyed by entity name, at the spec level.
pub open spec fn spec_damage_map(log: Seq<(String, Vec<(i64, i64)>)>) -> Seq<
    (Seq<char>, Seq<(i64, i64)>),
> {
    log.map_values(|p: (String, Vec<(i64, i64)>)| (p.0@, p.1@))
}

fn find_damage_log<'a>(log: &'a Vec<(String, Vec<(i64, i64)>)>, name: &str) -> (r: Option<
    &'a Vec<(i64, i64)>,
>)
    ensures
        (match r {
            Some(v) => spec_lookup_str(spec_damage_map(log@), name@) == Some(v@) && exists|k: int|
                0 <= k < log@.len() && (#[trigger] log@[k]).1@ == v@,
            None => spec_lookup_str(spec_damage_map(log@), name@) is None,
        }),
{
    let ghost lv = spec_damage_map(log@);
    let mut i: usize = 0;
    proof {
        assert(lv.skip(0) =~= lv);
    }
    while i < log.len()
        invariant
            0 <= i <= log@.len(),
            lv == spec_damage_map(log@),
            spec_lookup_str(lv, name@) == spec_lookup_str(lv.skip(i as int), name@),
        decreases log@.len() - i,
    {
        proof {
            assert(lv.skip(i as int)[0] == lv[i as int]);
            assert(lv[i as int] == (log@[i as int].0@, log@[i as int].1@));
            assert(lv.skip(i as int).skip(1) =~= lv.skip(i as int + 1));
        }
        if str_eq(log[i].0.as_str(), name) {
            proof {
                assert(log@[i as int].1@ == log@[i as int].1@);
            }
            return Some(&log[i].1);
        }
        i = i + 1;
    }
    proof {
        assert(lv.skip(lv.len() as int) =~= Seq::<(Seq<char>, Seq<(i64, i64)>)>::empty());
    }
    None
}

/// The identity-log entries keyed by entity name, at the spec level.
pub open spec fn spec_identity_map(log: Seq<(String, Vec<(i64, (u32, u32, u32))>)>) -> Seq<
    (Seq<char>, Seq<(i64, (u32, u32, u32))>),
> {
    log.map_values(|p: (String, Vec<(i64, (u32, u32, u32))>)| (p.0@, p.1@))
}

fn find_identity_log<'a>(log: &'a Vec<(String, Vec<(i64, (u32, u32, u32))>)>, name: &str) -> (r:
    Option<&'a Vec<(i64, (u32, u32, u32))>>)
    ensures
        (match r {
            Some(v) => spec_lookup_str(spec_identity_map(log@), name@) == Some(v@) && exists|
                k: int,
            | 0 <= k < log@.len() && (#[trigger] log@[k]).0@ == name@ && log@[k].1@ == v@,
            None => spec_lookup_str(spec_identity_map(log@), name@) is None,
        }),
{
    let ghost lv = spec_identity_map(log@);
    let mut i: usize = 0;
    proof {
        assert(lv.skip(0) =~= lv);
    }
    while i < log.len()
        invariant
            0 <= i <= log@.len(),
            lv == spec_identity_map(log@),
            spec_lookup_str(lv, name@) == spec_lookup_str(lv.skip(i as int), name@),
        decreases log@.len() - i,
    {
        proof {
            assert(lv.skip(i as int)[0] == lv[i as int]);
            assert(lv[i as int] == (log@[i as int].0@, log@[i as int].1@));
            assert(lv.skip(i as int).skip(1) =~= lv.skip(i as int + 1));
        }
        if str_eq(log[i].0.as_str(), name) {
            proof {
                assert(log@[i as int].0@ == name@);
            }
            return Some(&log[i].1);
        }
        i = i + 1;
    }
    proof {
        assert(lv.skip(lv.len() as int) =~= Seq::<(Seq<char>, Seq<(i64, (u32, u32, u32))>)>::empty());
    }
    None
}

/// The cast-timestamp entries keyed by entity name, at the spec level.
pub open spec fn spec_cast_entries_map(log: Seq<(String, Vec<(u32, Vec<i32>)>)>) -> Seq<
    (Seq<char>, Vec<(u32, Vec<i32>)>),
> {
    log.map_values(|p: (String, Vec<(u32, Vec<i32>)>)| (p.0@, p.1))
}

fn find_cast_log<'a>(log: &'a Vec<(String, Vec<(u32, Vec<i32>)>)>, name: &str) -> (r: Option<
    &'a Vec<(u32, Vec<i32>)>,
>)
    ensures
        (match r {
            Some(v) => spec_lookup_str(spec_cast_entries_map(log@), name@) == Some(*v),
            None => spec_lookup_str(spec_cast_entries_map(log@), name@) is None,
        }),
{
    let ghost lv = spec_cast_entries_map(log@);
    let mut i: usize = 0;
    proof {
        assert(lv.skip(0) =~= lv);
    }
    while i < log.len()
        invariant
            0 <= i <= log@.len(),
            lv == spec_cast_entries_map(log@),
            spec_lookup_str(lv, name@) == spec_lookup_str(lv.skip(i as int), name@),
        decreases log@.len() - i,
    {
        proof {
            assert(lv.skip(i as int)[0] == lv[i as int]);
            assert(lv[i as int] == (log@[i as int].0@, log@[i as int].1));
            assert(lv.skip(i as int).skip(1) =~= lv.skip(i as int + 1));
        }
        if str_eq(log[i].0.as_str(), name) {
            return Some(&log[i].1);
        }
        i = i + 1;
    }
    proof {
        assert(lv.skip(lv.len() as int) =~= Seq::<(Seq<char>, Vec<(u32, Vec<i32>)>)>::empty());
    }
    None
}

/// The player-info entries keyed by player name, at the spec level.
pub open spec fn spec_player_map(info: Seq<(String, PlayerStats)>) -> Seq<(Seq<char>, PlayerStats)> {
    info.map_values(|p: (String, PlayerStats)| (p.0@, p.1))
}

fn find_player_info<'a>(info: &'a Vec<(String, PlayerStats)>, name: &str) -> (r: Option<
    &'a PlayerStats,
>)
    ensures
        (match r {
            Some(v) => spec_lookup_str(spec_player_map(info@), name@) == Some(*v),
            None => spec_lookup_str(spec_player_map(info@), name@) is None,
        }),
{
    let ghost lv = spec_player_map(info@);
    let mut i: usize = 0;
    proof {
        assert(lv.skip(0) =~= lv);
    }
    while i < info.len()
        invariant
            0 <= i <= info@.len(),
            lv == spec_player_map(info@),
            spec_lookup_str(lv, name@) == spec_lookup_str(lv.skip(i as int), name@),
        decreases info@.len() - i,
    {
        proof {
            assert(lv.skip(i as int)[0] == lv[i as int]);
            assert(lv[i as int] == (info@[i as int].0@, info@[i as int].1));
            assert(lv.skip(i as int).skip(1) =~= lv.skip(i as int + 1));
        }
        if str_eq(info[i].0.as_str(), name) {
            return Some(&info[i].1);
        }
        i = i + 1;
    }
    proof {
        assert(lv.skip(lv.len() as int) =~= Seq::<(Seq<char>, PlayerStats)>::empty());
    }
    None
}

/// The player-info entry for a name, if any was captured at all.
pub open spec fn spec_player_lookup(
    player_info: Option<Vec<(String, PlayerStats)>>,
    name: Seq<char>,
) -> Option<PlayerStats> {
    match player_info {
        Some(list) => spec_lookup_str(spec_player_map(list@), name),
        None => None,
    }
}

/// The resolution rule applied to one player's captured info.
pub open spec fn spec_resolved_for(current: Option<String>, pi: PlayerStats) -> Option<Seq<char>> {
    spec_resolved(
        match current {
            Some(c) => Some(c@),
            None => None,
        },
        pi.ark_passive_enabled,
        match pi.ark_passive_data {
            Some(d) => Some(d.enlightenment@),
            None => None,
        },
        match pi.engravings {
            Some(es) => Some(es@.map_values(|e: String| e@)),
            None => None,
        },
    )
}

fn find_entity_casts<'a>(log: &'a Vec<(u64, Vec<(u32, Vec<SkillCast>)>)>, id: u64) -> (r: Option<
    &'a Vec<(u32, Vec<SkillCast>)>,
>)
    ensures
        (match r {
            Some(v) => spec_lookup_u64(log@, id) == Some(*v) && exists|k: int|
                0 <= k < log@.len() && (#[trigger] log@[k]).1 == *v,
            None => spec_lookup_u64(log@, id) is None,
        }),
{
    let mut i: usize = 0;
    proof {
        assert(log@.skip(0) =~= log@);
    }
    while i < log.len()
        invariant
            0 <= i <= log@.len(),
            spec_lookup_u64(log@, id) == spec_lookup_u64(log@.skip(i as int), id),
        decreases log@.len() - i,
    {
        proof {
            assert(log@.skip(i as int)[0] == log@[i as int]);
            assert(log@.skip(i as int).skip(1) =~= log@.skip(i as int + 1));
        }
        if log[i].0 == id {
            return Some(&log[i].1);
        }
        i = i + 1;
    }
    proof {
        assert(log@.skip(log@.len() as int) =~= Seq::<(u64, Vec<(u32, Vec<SkillCast>)>)>::empty());
    }
    None
}

/// The per-skill cast entries of one combatant, at the spec level.
pub open spec fn spec_cast_map(entries: Seq<(u32, Vec<SkillCast>)>) -> Seq<(u32, Seq<SkillCast>)> {
    entries.map_values(|p: (u32, Vec<SkillCast>)| (p.0, p.1@))
}

fn find_skill_entry_casts<'a>(entries: &'a Vec<(u32, Vec<SkillCast>)>, id: u32) -> (r: Option<
    &'a Vec<SkillCast>,
>)
    ensures
        (match r {
            Some(v) => spec_lookup_u32(spec_cast_map(entries@), id) == Some(v@) && exists|k: int|
                0 <= k < entries@.len() && (#[trigger] entries@[k]).1 == *v,
            None => spec_lookup_u32(spec_cast_map(entries@), id) is None,
        }),
{
    let ghost lv = spec_cast_map(entries@);
    let mut i: usize = 0;
    proof {
        assert(lv.skip(0) =~= lv);
    }
    while i < entries.len()
        invariant
            0 <= i <= entries@.len(),
            lv == spec_cast_map(entries@),
            spec_lookup_u32(lv, id) == spec_lookup_u32(lv.skip(i as int), id),
        decreases entries@.len() - i,
    {
        proof {
            assert(lv.skip(i as int)[0] == lv[i as int]);
            assert(lv[i as int] == (entries@[i as int].0, entries@[i as int].1@));
            assert(lv.skip(i as int).skip(1) =~= lv.skip(i as int + 1));
        }
        if entries[i].0 == id {
            return Some(&entries[i].1);
        }
        i = i + 1;
    }
    proof {
        assert(lv.skip(lv.len() as int) =~= Seq::<(u32, Seq<SkillCast>)>::empty());
    }
    None
}

/// The per-skill cast timestamps of one combatant, at the spec level.
pub open spec fn spec_cast_log_map(entries: Seq<(u32, Vec<i32>)>) -> Seq<(u32, Seq<i32>)> {
    entries.map_values(|p: (u32, Vec<i32>)| (p.0, p.1@))
}

fn find_skill_entry_logs<'a>(entries: &'a Vec<(u32, Vec<i32>)>, id: u32) -> (r: Option<
    &'a Vec<i32>,
>)
    ensures
        (match r {
            Some(v) => spec_lookup_u32(spec_cast_log_map(entries@), id) == Some(v@),
            None => spec_lookup_u32(spec_cast_log_map(entries@), id) is None,
        }),
{
    let ghost lv = spec_cast_log_map(entries@);
    let mut i: usize = 0;
    proof {
        assert(lv.skip(0) =~= lv);
    }
    while i < entries.len()
        invariant
            0 <= i <= entries@.len(),
            lv == spec_cast_log_map(entries@),
            spec_lookup_u32(lv, id) == spec_lookup_u32(lv.skip(i as int), id),
        decreases entries@.len() - i,
    {
        proof {
            assert(lv.skip(i as int)[0] == lv[i as int]);
            assert(lv[i as int] == (entries@[i as int].0, entries@[i as int].1@));
            assert(lv.skip(i as int).skip(1) =~= lv.skip(i as int + 1));
        }
        if entries[i].0 == id {
            return Some(&entries[i].1);
        }
        i = i + 1;
    }
    proof {
        assert(lv.skip(lv.len() as int) =~= Seq::<(u32, Seq<i32>)>::empty());
    }
    None
}

fn copy_i32_vec(v: &Vec<i32>) -> (r: Vec<i32>)
    ensures
        r@ == v@,
{
    let mut out: Vec<i32> = Vec::new();
    let mut i: usize = 0;
    while i < v.len()
        invariant
            0 <= i <= v@.len(),
            out@ =~= v@.take(i as int),
        decreases v@.len() - i,
    {
        out.push(v[i]);
        i = i + 1;
    }
    proof {
        assert(v@.take(v@.len() as int) =~= v@);
    }
    out
}

/// The damage or cooldown level a gem of a tier and value confers: the
/// crate's fixed level table.
pub open spec fn spec_gem_level(tier: u32, value: u32) -> u8 {
    if tier >= 4 {
        if value > 8 {
            10
        } else {
            (value + 2) as u8
        }
    } else {
        if value > 10 {
            10
        } else {
            value as u8
        }
    }
}

pub fn gem_level(tier: u32, value: u32) -> (r: u8)
    ensures
        r == spec_gem_level(tier, value),
{
    if tier >= 4 {
        if value > 8 {
            10
        } else {
            (value + 2) as u8
        }
    } else {
        if value > 10 {
            10
        } else {
            value as u8
        }
    }
}

/// Whether a gem boosts a skill's damage level: plain damage gems and the
/// support identity gems both do.
pub open spec fn spec_is_damage_gem(gem_type: u32) -> bool {
    gem_type == 1 || gem_type == 3
}

/// Whether a gem boosts a skill's cooldown level.
pub open spec fn spec_is_cooldown_gem(gem_type: u32) -> bool {
    gem_type == 2
}

/// The class specializations an ark-passive enlightenment node implies:
/// the crate's fixed node table.
pub open spec fn spec_node_spec(node: u32) -> Option<Seq<char>> {
    if node == 2070100 {
        Some("Berserker Technique"@)
    } else if node == 2070200 {
        Some("Mayhem"@)
    } else if node == 2140100 {
        Some("Pinnacle"@)
    } else if node == 2140200 {
        Some("Control"@)
    } else if node == 2360100 {
        Some("Desperate Salvation"@)
    } else if node == 2360200 {
        Some("Full Bloom"@)
    } else {
        None
    }
}

pub fn enlightenment_spec(node: u32) -> (r: Option<&'static str>)
    ensures
        (match r {
            Some(n) => spec_node_spec(node) == Some(n@),
            None => spec_node_spec(node) is None,
        }),
{
    match node {
        2070100 => Some("Berserker Technique"),
        2070200 => Some("Mayhem"),
        2140100 => Some("Pinnacle"),
        2140200 => Some("Control"),
        2360100 => Some("Desperate Salvation"),
        2360200 => Some("Full Bloom"),
        _ => None,
    }
}

/// The first enlightenment node with a known specialization.
pub open spec fn spec_first_node_spec(nodes: Seq<u32>) -> Option<Seq<char>>
    decreases nodes.len(),
{
    if nodes.len() == 0 {
        None
    } else {
        match spec_node_spec(nodes[0]) {
            Some(n) => Some(n),
            None => spec_first_node_spec(nodes.skip(1)),
        }
    }
}

/// Whether an engraving is a class engraving, naming a playstyle variant:
/// the crate's fixed engraving table.
pub open spec fn spec_is_class_engraving(name: Seq<char>) -> bool {
    ||| name == "Berserker Technique"@
    ||| name == "Mayhem"@
    ||| name == "Pinnacle"@
    ||| name == "Control"@
    ||| name == "Desperate Salvation"@
    ||| name == "Full Bloom"@
    ||| name == "Igniter"@
    ||| name == "Reflux"@
}

pub fn is_class_engraving(name: &str) -> (r: bool)
    ensures
        r == spec_is_class_engraving(name@),
{
    str_eq(name, "Berserker Technique") || str_eq(name, "Mayhem") || str_eq(name, "Pinnacle")
        || str_eq(name, "Control") || str_eq(name, "Desperate Salvation") || str_eq(
        name,
        "Full Bloom",
    ) || str_eq(name, "Igniter") || str_eq(name, "Reflux")
}

/// The class engravings among a player's engravings, in order.
pub open spec fn spec_class_engravings(es: Seq<Seq<char>>) -> Seq<Seq<char>>
    decreases es.len(),
{
    if es.len() == 0 {
        Seq::empty()
    } else {
        spec_class_engravings(es.drop_last()) + (if spec_is_class_engraving(es.last()) {
            seq![es.last()]
        } else {
            Seq::empty()
        })
    }
}

/// Whether a spec is already known, rather than absent or the unknown
/// placeholder.
pub open spec fn spec_known_spec(current: Option<Seq<char>>) -> bool {
    match current {
        Some(s) => s != "Unknown"@,
        None => false,
    }
}

/// The resolution rule: a known spec stands; otherwise an explicit
/// ark-passive enlightenment-node match wins; otherwise a single
/// unambiguous class-engraving match; otherwise the spec stands as it
/// came.
pub open spec fn spec_resolved(
    current: Option<Seq<char>>,
    ark_enabled: bool,
    nodes: Option<Seq<u32>>,
    engravings: Option<Seq<Seq<char>>>,
) -> Option<Seq<char>> {
    if spec_known_spec(current) {
        current
    } else if ark_enabled && (nodes matches Some(ns) && spec_first_node_spec(ns) is Some) {
        spec_first_node_spec(nodes->Some_0)
    } else if engravings matches Some(es) && spec_class_engravings(es).len() == 1 {
        Some(spec_class_engravings(engravings->Some_0)[0])
    } else {
        current
    }
}

/// Resolves a player's spec from ark-passive or engraving data when it is
/// not already known.
pub fn resolve_spec(current: &Option<String>, info: &PlayerStats) -> (r: Option<String>)
    ensures
        (match r {
            Some(s) => spec_resolved(
                match current {
                    Some(c) => Some(c@),
                    None => None,
                },
                info.ark_passive_enabled,
                match info.ark_passive_data {
                    Some(d) => Some(d.enlightenment@),
                    None => None,
                },
                match info.engravings {
                    Some(es) => Some(es@.map_values(|e: String| e@)),
                    None => None,
                },
            ) == Some(s@),
            None => spec_resolved(
                match current {
                    Some(c) => Some(c@),
                    None => None,
                },
                info.ark_passive_enabled,
                match info.ark_passive_data {
                    Some(d) => Some(d.enlightenment@),
                    None => None,
                },
                match info.engravings {
                    Some(es) => Some(es@.map_values(|e: String| e@)),
                    None => None,
                },
            ) is None,
        }),
{
    match current {
        Some(s) => {
            if !str_eq(s.as_str(), "Unknown") {
                return Some(s.clone());
            }
        },
        None => {},
    }
    if info.ark_passive_enabled {
        match &info.ark_passive_data {
            Some(data) => {
                let nodes = &data.enlightenment;
                let mut i: usize = 0;
                proof {
                    assert(nodes@.skip(0) =~= nodes@);
                }
                while i < nodes.len()
                    invariant
                        0 <= i <= nodes@.len(),
                        !spec_known_spec(
                            match current {
                                Some(c) => Some(c@),
                                None => None,
                            },
                        ),
                        info.ark_passive_enabled,
                        (info.ark_passive_data matches Some(d) && nodes@ == d.enlightenment@),
                        spec_first_node_spec(nodes@) == spec_first_node_spec(
                            nodes@.skip(i as int),
                        ),
                    decreases nodes@.len() - i,
                {
                    proof {
                        assert(nodes@.skip(i as int)[0] == nodes@[i as int]);
                        assert(nodes@.skip(i as int).skip(1) =~= nodes@.skip(i as int + 1));
                    }
                    match enlightenment_spec(nodes[i]) {
                        Some(name) => {
                            return Some(name.to_owned());
                        },
                        None => {},
                    }
                    i = i + 1;
                }
                proof {
                    assert(nodes@.skip(nodes@.len() as int) =~= Seq::<u32>::empty());
                }
            },
            None => {},
        }
    }
    match &info.engravings {
        Some(engravings) => {
            let ghost ev = engravings@.map_values(|e: String| e@);
            let mut found: Option<String> = None;
            let mut count: usize = 0;
            let mut i: usize = 0;
            proof {
                assert(ev.take(0int) =~= Seq::<Seq<char>>::empty());
            }
            while i < engravings.len()
                invariant
                    0 <= i <= engravings@.len(),
                    ev == engravings@.map_values(|e: String| e@),
                    (info.engravings matches Some(es) && ev == es@.map_values(|e: String| e@)),
                    count == spec_class_engravings(ev.take(i as int)).len(),
                    count >= 1 ==> (found matches Some(f) && f@ == spec_class_engravings(
                        ev.take(i as int),
                    )[0]),
                    count == 0 ==> found is None,
                    count <= i,
                decreases engravings@.len() - i,
            {
                proof {
                    assert(ev[i as int] == engravings@[i as int]@);
                    assert(ev.take(i as int + 1).drop_last() =~= ev.take(i as int));
                    assert(ev.take(i as int + 1).last() == ev[i as int]);
                }
                if is_class_engraving(engravings[i].as_str()) {
                    if count == 0 {
                        found = Some(engravings[i].clone());
                    }
                    count = count + 1;
                }
                i = i + 1;
            }
            proof {
                assert(ev.take(ev.len() as int) =~= ev);
            }
            if count == 1 {
                return found;
            }
        },
        None => {},
    }
    match current {
        Some(s) => Some(s.clone()),
        None => None,
    }
}

/// Casts safe to aggregate: non-negative hits whose totals fit the
/// machine's arithmetic.
pub open spec fn spec_casts_wf(cs: Seq<SkillCast>) -> bool {
    &&& spec_hits_nonneg(cs)
    &&& spec_total_cast_damage(cs) <= i64::MAX
    &&& spec_total_hits(cs) < 0x8000000000000000
    &&& cs.len() < 0x8000000000000000
}

/// An entity whose numbers the assembler can fold without overflow.
pub open spec fn spec_entity_wf(e: EncounterEntity) -> bool {
    &&& e.damage_stats.damage_dealt >= 0
    &&& e.damage_stats.damage_taken >= 0
    &&& e.gear_score_hundredths >= 0
    &&& e.character_id <= i64::MAX
    &&& forall|j: int| 0 <= j < e.skills@.len() ==> (#[trigger] e.skills@[j]).total_damage >= 0
}

/// One skill folded: its dps from the fight duration, its cast log from
/// the capture's per-name cast log, its cast quality from the per-entity
/// cast log.
fn update_skill(
    skill: &Skill,
    duration_seconds: i64,
    cast_entries: &Option<&Vec<(u32, Vec<i32>)>>,
    skill_casts: &Option<&Vec<(u32, Vec<SkillCast>)>>,
) -> (r: Skill)
    requires
        1 <= duration_seconds,
        skill.total_damage >= 0,
        (match skill_casts {
            Some(entries) => forall|j: int|
                0 <= j < entries@.len() ==> spec_casts_wf((#[trigger] entries@[j]).1@),
            None => true,
        }),
    ensures
        r.id == skill.id,
        r.name == skill.name,
        r.total_damage == skill.total_damage,
        r.dps == spec_dps(skill.total_damage as int, duration_seconds as int),
        r.gem_damage_level == skill.gem_damage_level,
        r.gem_cooldown_level == skill.gem_cooldown_level,
        r.cast_log@ == (match cast_entries {
            Some(entries) => match spec_lookup_u32(spec_cast_log_map(entries@), skill.id) {
                Some(l) => l,
                None => skill.cast_log@,
            },
            None => skill.cast_log@,
        }),
        (match skill_casts {
            Some(entries) => match spec_lookup_u32(spec_cast_map(entries@), skill.id) {
                Some(cs) => {
                    let filter = spec_noise_filter(cs);
                    let adj = spec_adjusted(cs, filter);
                    &&& r.max_damage_cast == (if cs.len() == 0 {
                        0int
                    } else {
                        spec_max_cast_damage(cs)
                    })
                    &&& (cs.len() == 0 || adj == 0 ==> r.adjusted_crit_hundredths is None)
                    &&& (cs.len() > 0 && adj > 0 ==> r.adjusted_crit_hundredths == Some(
                        crate::text::spec_round_div(
                            spec_adjusted_crits(cs, filter) * 10000,
                            adj,
                        ) as u64,
                    ))
                },
                None => r.adjusted_crit_hundredths == skill.adjusted_crit_hundredths
                    && r.max_damage_cast == skill.max_damage_cast,
            },
            None => r.adjusted_crit_hundredths == skill.adjusted_crit_hundredths
                && r.max_damage_cast == skill.max_damage_cast,
        }),
{
    let new_dps = dps(skill.total_damage, duration_seconds);
    let cast_log: Vec<i32> = match cast_entries {
        Some(entries) => match find_skill_entry_logs(entries, skill.id) {
            Some(l) => copy_i32_vec(l),
            None => copy_i32_vec(&skill.cast_log),
        },
        None => copy_i32_vec(&skill.cast_log),
    };
    let mut adjusted_crit = skill.adjusted_crit_hundredths;
    let mut max_damage_cast = skill.max_damage_cast;
    match skill_casts {
        Some(entries) => {
            match find_skill_entry_casts(entries, skill.id) {
                Some(cs) => {
                    let (ac, md) = cast_quality(cs);
                    adjusted_crit = ac;
                    max_damage_cast = md;
                },
                None => {},
            }
        },
        None => {},
    }
    Skill {
        id: skill.id,
        name: skill.name.clone(),
        total_damage: skill.total_damage,
        dps: new_dps,
        cast_log,
        adjusted_crit_hundredths: adjusted_crit,
        max_damage_cast,
        gem_damage_level: skill.gem_damage_level,
        gem_cooldown_level: skill.gem_cooldown_level,
    }
}

/// The damage level the gear gems confer on a skill: the last matching
/// gem wins, as the gems are read in order.
pub open spec fn spec_gem_damage_override(gems: Seq<crate::models::Gem>, skill_id: u32) -> Option<
    u8,
>
    decreases gems.len(),
{
    if gems.len() == 0 {
        None
    } else {
        let g = gems.last();
        if g.skill_id == skill_id && spec_is_damage_gem(g.gem_type) {
            Some(spec_gem_level(g.tier, g.value))
        } else {
            spec_gem_damage_override(gems.drop_last(), skill_id)
        }
    }
}

/// The cooldown level the gear gems confer on a skill: the last matching
/// gem wins.
pub open spec fn spec_gem_cooldown_override(gems: Seq<crate::models::Gem>, skill_id: u32) -> Option<
    u8,
>
    decreases gems.len(),
{
    if gems.len() == 0 {
        None
    } else {
        let g = gems.last();
        if g.skill_id == skill_id && spec_is_cooldown_gem(g.gem_type) {
            Some(spec_gem_level(g.tier, g.value))
        } else {
            spec_gem_cooldown_override(gems.drop_last(), skill_id)
        }
    }
}

/// The gem-conferred damage level for a skill, or the fallback when no gem
/// matches.
fn gem_damage_level_for(info: &PlayerStats, skill_id: u32, fallback: Option<u8>) -> (r: Option<u8>)
    ensures
        r == (match spec_gem_damage_override(info.gems@, skill_id) {
            Some(l) => Some(l),
            None => fallback,
        }),
{
    let ghost gv = info.gems@;
    let mut result = fallback;
    let mut i: usize = 0;
    proof {
        assert(gv.take(0int) =~= Seq::<crate::models::Gem>::empty());
    }
    while i < info.gems.len()
        invariant
            0 <= i <= gv.len(),
            gv == info.gems@,
            result == (match spec_gem_damage_override(gv.take(i as int), skill_id) {
                Some(l) => Some(l),
                None => fallback,
            }),
        decreases gv.len() - i,
    {
        proof {
            assert(gv.take(i as int + 1).drop_last() =~= gv.take(i as int));
            assert(gv.take(i as int + 1).last() == gv[i as int]);
        }
        let gem = &info.gems[i];
        if gem.skill_id == skill_id && (gem.gem_type == 1 || gem.gem_type == 3) {
            result = Some(gem_level(gem.tier, gem.value));
        }
        i = i + 1;
    }
    proof {
        assert(gv.take(gv.len() as int) =~= gv);
    }
    result
}

/// The gem-conferred cooldown level for a skill, or the fallback when no
/// gem matches.
fn gem_cooldown_level_for(info: &PlayerStats, skill_id: u32, fallback: Option<u8>) -> (r: Option<
    u8,
>)
    ensures
        r == (match spec_gem_cooldown_override(info.gems@, skill_id) {
            Some(l) => Some(l),
            None => fallback,
        }),
{
    let ghost gv = info.gems@;
    let mut result = fallback;
    let mut i: usize = 0;
    proof {
        assert(gv.take(0int) =~= Seq::<crate::models::Gem>::empty());
    }
    while i < info.gems.len()
        invariant
            0 <= i <= gv.len(),
            gv == info.gems@,
            result == (match spec_gem_cooldown_override(gv.take(i as int), skill_id) {
                Some(l) => Some(l),
                None => fallback,
            }),
        decreases gv.len() - i,
    {
        proof {
            assert(gv.take(i as int + 1).drop_last() =~= gv.take(i as int));
            assert(gv.take(i as int + 1).last() == gv[i as int]);
        }
        let gem = &info.gems[i];
        if gem.skill_id == skill_id && gem.gem_type == 2 {
            result = Some(gem_level(gem.tier, gem.value));
        }
        i = i + 1;
    }
    proof {
        assert(gv.take(gv.len() as int) =~= gv);
    }
    result
}

/// What folding promises of one skill: dps from the fight duration, the
/// cast log overlaid from the capture's per-name cast log (existing skills
/// only), cast quality from the per-entity cast log, and gem levels from
/// the player's gear; everything else carries over.
pub open spec fn spec_skill_updated(
    s2: Skill,
    s1: Skill,
    e: EncounterEntity,
    player_info: Option<Vec<(String, PlayerStats)>>,
    duration_seconds: int,
    skill_cast_log: Seq<(u64, Vec<(u32, Vec<SkillCast>)>)>,
    cast_log: Seq<(String, Vec<(u32, Vec<i32>)>)>,
) -> bool {
    &&& s2.id == s1.id
    &&& s2.name == s1.name
    &&& s2.total_damage == s1.total_damage
    &&& s2.dps == spec_dps(s1.total_damage as int, duration_seconds)
    &&& s2.cast_log@ == (match spec_lookup_str(spec_cast_entries_map(cast_log), e.name@) {
        Some(entries) => match spec_lookup_u32(spec_cast_log_map(entries@), s1.id) {
            Some(l) => l,
            None => s1.cast_log@,
        },
        None => s1.cast_log@,
    })
    &&& (match spec_lookup_u64(skill_cast_log, e.id) {
        Some(centries) => match spec_lookup_u32(spec_cast_map(centries@), s1.id) {
            Some(cs) => {
                let filter = spec_noise_filter(cs);
                let adj = spec_adjusted(cs, filter);
                &&& s2.max_damage_cast == (if cs.len() == 0 {
                    0int
                } else {
                    spec_max_cast_damage(cs)
                })
                &&& (cs.len() == 0 || adj == 0 ==> s2.adjusted_crit_hundredths is None)
                &&& (cs.len() > 0 && adj > 0 ==> s2.adjusted_crit_hundredths == Some(
                    crate::text::spec_round_div(
                        spec_adjusted_crits(cs, filter) * 10000,
                        adj,
                    ) as u64,
                ))
            },
            None => s2.adjusted_crit_hundredths == s1.adjusted_crit_hundredths
                && s2.max_damage_cast == s1.max_damage_cast,
        },
        None => s2.adjusted_crit_hundredths == s1.adjusted_crit_hundredths && s2.max_damage_cast
            == s1.max_damage_cast,
    })
    &&& s2.gem_damage_level == (match spec_player_lookup(player_info, e.name@) {
        Some(pi) => match spec_gem_damage_override(pi.gems@, s1.id) {
            Some(l) => Some(l),
            None => s1.gem_damage_level,
        },
        None => s1.gem_damage_level,
    })
    &&& s2.gem_cooldown_level == (match spec_player_lookup(player_info, e.name@) {
        Some(pi) => match spec_gem_cooldown_override(pi.gems@, s1.id) {
            Some(l) => Some(l),
            None => s1.gem_cooldown_level,
        },
        None => s1.gem_cooldown_level,
    })
}

/// Everything folding promises of one combatant: the combatant's identity
/// and unrebuilt fields carry over unchanged, the dps figures derive from
/// the fight duration, and each statistic is wired to its log through the
/// lookups.
pub open spec fn spec_entity_updated(
    u: EncounterEntity,
    e: EncounterEntity,
    damage_log: Seq<(String, Vec<(i64, i64)>)>,
    intervals: Seq<i64>,
    identity_log: Seq<(String, Vec<(i64, (u32, u32, u32))>)>,
    fight_start: int,
    player_info: Option<Vec<(String, PlayerStats)>>,
    local_player: Seq<char>,
    duration_seconds: int,
    skill_cast_log: Seq<(u64, Vec<(u32, Vec<SkillCast>)>)>,
    cast_log: Seq<(String, Vec<(u32, Vec<i32>)>)>,
) -> bool {
    &&& u.id == e.id
    &&& u.character_id == e.character_id
    &&& u.npc_id == e.npc_id
    &&& u.name == e.name
    &&& u.entity_type == e.entity_type
    &&& u.class_id == e.class_id
    &&& u.class == e.class
    &&& u.gear_score_hundredths == e.gear_score_hundredths
    &&& u.current_hp == e.current_hp
    &&& u.max_hp == e.max_hp
    &&& u.current_shield == e.current_shield
    &&& u.is_dead == e.is_dead
    &&& u.engraving_data == e.engraving_data
    &&& u.gear_hash == e.gear_hash
    &&& u.ark_passive_active == e.ark_passive_active
    &&& u.ark_passive_data == e.ark_passive_data
    &&& u.damage_stats.damage_dealt == e.damage_stats.damage_dealt
    &&& u.damage_stats.damage_taken == e.damage_stats.damage_taken
    &&& u.damage_stats.dps == spec_dps(e.damage_stats.damage_dealt as int, duration_seconds)
    &&& u.skill_stats.casts == e.skill_stats.casts
    &&& u.skill_stats.hits == e.skill_stats.hits
    &&& u.skill_stats.crits == e.skill_stats.crits
    &&& (e.entity_type != EntityType::Player ==> u.damage_stats.dps_rolling_10s_avg
        == e.damage_stats.dps_rolling_10s_avg)
    &&& (e.entity_type == EntityType::Player ==> (match spec_lookup_str(
        spec_damage_map(damage_log),
        e.name@,
    ) {
        Some(events) => {
            &&& u.damage_stats.dps_rolling_10s_avg@.len() == intervals.len()
            &&& forall|k: int|
                0 <= k < intervals.len() ==> #[trigger] u.damage_stats.dps_rolling_10s_avg@[k]
                    == spec_rolling_entry(events, fight_start, intervals[k] as int)
        },
        None => u.damage_stats.dps_rolling_10s_avg@.len() == 0,
    }))
    &&& (match spec_player_lookup(player_info, e.name@) {
        Some(pi) => match u.spec {
            Some(s) => spec_resolved_for(e.spec, pi) == Some(s@),
            None => spec_resolved_for(e.spec, pi) is None,
        },
        None => u.spec == e.spec,
    })
    &&& (match spec_lookup_str(spec_identity_map(identity_log), e.name@) {
        Some(samples) => {
            if e.name@ == local_player && samples.len() >= 2 {
                u.skill_stats.identity_stats matches Some(st) && {
                    let shape = spec_shape_of_class(e.class@);
                    &&& st.log@.len() == samples.len()
                    &&& st.average_hundredths == spec_round_div(
                        spec_total_gain(shape, samples) * 10000,
                        duration_seconds * shape.spec_max(),
                    )
                    &&& (st.card_draws is Some <==> shape is TwoCard)
                }
            } else {
                u.skill_stats.identity_stats == e.skill_stats.identity_stats
            }
        },
        None => u.skill_stats.identity_stats == e.skill_stats.identity_stats,
    })
    &&& u.skills@.len() == e.skills@.len()
    &&& (forall|j: int|
        0 <= j < u.skills@.len() ==> spec_skill_updated(
            #[trigger] u.skills@[j],
            e.skills@[j],
            e,
            player_info,
            duration_seconds,
            skill_cast_log,
            cast_log,
        ))
}

/// Folds the raw logs into one combatant. Pure and total over well-formed
/// input: a log that is empty or too short for a statistic yields the
/// absent statistic, never an error.
pub fn update_entity(
    entity: EncounterEntity,
    damage_log: &Vec<(String, Vec<(i64, i64)>)>,
    intervals: &Vec<i64>,
    identity_log: &Vec<(String, Vec<(i64, (u32, u32, u32))>)>,
    fight_start: i64,
    player_info: &Option<Vec<(String, PlayerStats)>>,
    local_player: &str,
    duration_seconds: i64,
    skill_cast_log: &Vec<(u64, Vec<(u32, Vec<SkillCast>)>)>,
    cast_log: &Vec<(String, Vec<(u32, Vec<i32>)>)>,
) -> (r: EncounterEntity)
    requires
        1 <= duration_seconds,
        0 <= fight_start,
        spec_entity_wf(entity),
        forall|i: int|
            0 <= i < damage_log@.len() ==> spec_all_damage_nonneg(
                (#[trigger] damage_log@[i]).1@,
            ) && spec_total_damage(damage_log@[i].1@) <= i64::MAX,
        forall|i: int|
            0 <= i < intervals@.len() ==> 0 <= #[trigger] intervals@[i] && fight_start
                + intervals@[i] + 5000 <= i64::MAX,
        forall|i: int|
            0 <= i < identity_log@.len() && (#[trigger] identity_log@[i]).0@ == entity.name@
                ==> spec_samples_wf(
                spec_shape_of_class(entity.class@),
                identity_log@[i].1@,
            ) && identity_log@[i].1@.len() <= 0x8000000,
        forall|i: int, j: int|
            0 <= i < skill_cast_log@.len() && 0 <= j < skill_cast_log@[i].1@.len()
                ==> spec_casts_wf(((#[trigger] skill_cast_log@[i].1@[j])).1@),
    ensures
        spec_entity_updated(
            r,
            entity,
            damage_log@,
            intervals@,
            identity_log@,
            fight_start as int,
            *player_info,
            local_player@,
            duration_seconds as int,
            skill_cast_log@,
            cast_log@,
        ),
{
    let is_player = entity.entity_type == EntityType::Player;
    let is_local = str_eq(entity.name.as_str(), local_player);

    let entity_dps = dps(entity.damage_stats.damage_dealt, duration_seconds);

    // Per-skill folding.
    let cast_entries = find_cast_log(cast_log, entity.name.as_str());
    let skill_casts = find_entity_casts(skill_cast_log, entity.id);
    let info: Option<&PlayerStats> = match player_info {
        Some(list) => find_player_info(list, entity.name.as_str()),
        None => None,
    };
    let mut skills: Vec<Skill> = Vec::new();
    let mut j: usize = 0;
    while j < entity.skills.len()
        invariant
            0 <= j <= entity.skills@.len(),
            1 <= duration_seconds,
            spec_entity_wf(entity),
            (match cast_entries {
                Some(v) => spec_lookup_str(spec_cast_entries_map(cast_log@), entity.name@)
                    == Some(*v),
                None => spec_lookup_str(spec_cast_entries_map(cast_log@), entity.name@) is None,
            }),
            (match skill_casts {
                Some(v) => spec_lookup_u64(skill_cast_log@, entity.id) == Some(*v) && (forall|
                    k: int,
                |
                    0 <= k < v@.len() ==> spec_casts_wf((#[trigger] v@[k]).1@)),
                None => spec_lookup_u64(skill_cast_log@, entity.id) is None,
            }),
            (match info {
                Some(pi) => spec_player_lookup(*player_info, entity.name@) == Some(*pi),
                None => spec_player_lookup(*player_info, entity.name@) is None,
            }),
            skills@.len() == j,
            forall|k: int|
                0 <= k < skills@.len() ==> spec_skill_updated(
                    #[trigger] skills@[k],
                    entity.skills@[k],
                    entity,
                    *player_info,
                    duration_seconds as int,
                    skill_cast_log@,
                    cast_log@,
                ),
        decreases entity.skills@.len() - j,
    {
        let mut s = update_skill(&entity.skills[j], duration_seconds, &cast_entries, &skill_casts);
        match info {
            Some(pi) => {
                s.gem_damage_level = gem_damage_level_for(pi, s.id, s.gem_damage_level);
                s.gem_cooldown_level = gem_cooldown_level_for(pi, s.id, s.gem_cooldown_level);
            },
            None => {},
        }
        proof {
            assert(spec_skill_updated(
                s,
                entity.skills@[j as int],
                entity,
                *player_info,
                duration_seconds as int,
                skill_cast_log@,
                cast_log@,
            ));
        }
        skills.push(s);
        j = j + 1;
    }

    // Rolling dps over the interval grid, for players with a damage log.
    let rolling: Vec<i64> = if is_player {
        match find_damage_log(damage_log, entity.name.as_str()) {
            Some(events) => rolling_dps_average(events, intervals, fight_start),
            None => Vec::new(),
        }
    } else {
        entity.damage_stats.dps_rolling_10s_avg
    };

    // Identity statistics for the local player with at least two samples.
    let identity: Option<IdentityStats> = if is_local {
        match find_identity_log(identity_log, entity.name.as_str()) {
            Some(samples) => {
                if samples.len() >= 2 {
                    let shape = resolve_identity_shape(entity.class.as_str());
                    proof {
                        assert(1 <= shape.spec_max() <= 100000);
                        let k = choose|k: int|
                            0 <= k < identity_log@.len() && (#[trigger] identity_log@[k]).0@
                                == entity.name@ && identity_log@[k].1@ == samples@;
                        assert(spec_samples_wf(spec_shape_of_class(entity.class@), samples@));
                        assert(samples@.len() <= 0x8000000);
                    }
                    Some(create_identity_stats(samples, shape, fight_start, duration_seconds))
                } else {
                    None
                }
            },
            None => None,
        }
    } else {
        None
    };
    let identity_stats: Option<IdentityStats> = match identity {
        Some(st) => Some(st),
        None => entity.skill_stats.identity_stats,
    };

    // Spec resolution for players with captured info.
    let resolved_spec: Option<String> = match info {
        Some(pi) => resolve_spec(&entity.spec, pi),
        None => entity.spec,
    };

    EncounterEntity {
        id: entity.id,
        character_id: entity.character_id,
        npc_id: entity.npc_id,
        name: entity.name,
        entity_type: entity.entity_type,
        class_id: entity.class_id,
        class: entity.class,
        gear_score_hundredths: entity.gear_score_hundredths,
        current_hp: entity.current_hp,
        max_hp: entity.max_hp,
        current_shield: entity.current_shield,
        is_dead: entity.is_dead,
        skills,
        damage_stats: DamageStats {
            damage_dealt: entity.damage_stats.damage_dealt,
            damage_taken: entity.damage_stats.damage_taken,
            dps: entity_dps,
            dps_rolling_10s_avg: rolling,
        },
        skill_stats: SkillStats {
            casts: entity.skill_stats.casts,
            hits: entity.skill_stats.hits,
            crits: entity.skill_stats.crits,
            identity_stats,
        },
        engraving_data: entity.engraving_data,
        gear_hash: entity.gear_hash,
        ark_passive_active: entity.ark_passive_active,
        ark_passive_data: entity.ark_passive_data,
        spec: resolved_spec,
    }
}

/// What flattening promises of one storage-ready row: every structured
/// field carries the folded combatant's value, the documents are the exact
/// encodings of those values, and the blobs are the named compression of
/// the skills and damage-stats documents.
pub open spec fn spec_entity_row(db: EntityDb, u: EncounterEntity) -> bool {
    &&& db.id == u.id
    &&& db.character_id == u.character_id
    &&& db.npc_id == u.npc_id
    &&& db.name == u.name
    &&& db.entity_type@ == u.entity_type.spec_label()
    &&& db.class_id == u.class_id
    &&& db.class == u.class
    &&& db.gear_score_text@ == spec_dec2(u.gear_score_hundredths as int)
    &&& db.current_hp == u.current_hp
    &&& db.max_hp == u.max_hp
    &&& db.current_shield == u.current_shield
    &&& db.is_dead == u.is_dead
    &&& db.damage_stats == u.damage_stats
    &&& db.skill_stats == u.skill_stats
    &&& db.engraving_data == u.engraving_data
    &&& db.gear_hash == u.gear_hash
    &&& db.ark_passive_active == u.ark_passive_active
    &&& db.ark_passive_data == u.ark_passive_data
    &&& db.spec == u.spec
    &&& db.skill_stats_json@ == spec_skill_stats_doc(u.skill_stats)
    &&& db.engraving_data_json@ == spec_engravings_doc(u.engraving_data)
    &&& db.ark_passive_data_json@ == spec_ark_passive_doc(u.ark_passive_data)
    &&& db.compressed_skills@ == gzip_of(spec_skills_doc(u.skills@))
    &&& db.compressed_damage_stats@ == gzip_of(spec_damage_stats_doc(u.damage_stats))
}

/// Flattens one folded combatant into its storage-ready row. The larger
/// structures go through the compression codec; the rest are emitted as
/// JSON documents whose exact text the contracts state.
pub fn entity_to_db(entity: EncounterEntity) -> (db: EntityDb)
    requires
        0 <= entity.gear_score_hundredths,
    ensures
        spec_entity_row(db, entity),
{
    let skills_doc = encode_skills(&entity.skills);
    let compressed_skills = compress_doc(skills_doc.as_str());
    let damage_doc = encode_damage_stats(&entity.damage_stats);
    let compressed_damage_stats = compress_doc(damage_doc.as_str());
    let skill_stats_json = encode_skill_stats(&entity.skill_stats);
    let engraving_data_json = encode_engravings(&entity.engraving_data);
    let ark_passive_data_json = encode_ark_passive(&entity.ark_passive_data);
    let entity_type = entity.entity_type.label().to_owned();
    let gear_score_text = hundredths_to_string(entity.gear_score_hundredths as u64);
    EntityDb {
        id: entity.id,
        character_id: entity.character_id,
        npc_id: entity.npc_id,
        name: entity.name,
        entity_type,
        class_id: entity.class_id,
        class: entity.class,
        gear_score_text,
        current_hp: entity.current_hp,
        max_hp: entity.max_hp,
        current_shield: entity.current_shield,
        is_dead: entity.is_dead,
        damage_stats: entity.damage_stats,
        skill_stats: entity.skill_stats,
        engraving_data: entity.engraving_data,
        gear_hash: entity.gear_hash,
        ark_passive_active: entity.ark_passive_active,
        ark_passive_data: entity.ark_passive_data,
        spec: entity.spec,
        compressed_damage_stats,
        compressed_skills,
        skill_stats_json,
        engraving_data_json,
        ark_passive_data_json,
    }
}

/// Row i of the output is the flattening of combatant i, folded under the
/// given logs: some folded combatant links them through
/// `spec_entity_updated` and `spec_entity_row`.
pub open spec fn spec_rows_built(
    rows: Seq<EntityDb>,
    combatants: Seq<EncounterEntity>,
    damage_log: Seq<(String, Vec<(i64, i64)>)>,
    intervals: Seq<i64>,
    identity_log: Seq<(String, Vec<(i64, (u32, u32, u32))>)>,
    fight_start: int,
    player_info: Option<Vec<(String, PlayerStats)>>,
    local_player: Seq<char>,
    duration_seconds: int,
    skill_cast_log: Seq<(u64, Vec<(u32, Vec<SkillCast>)>)>,
    cast_log: Seq<(String, Vec<(u32, Vec<i32>)>)>,
) -> bool {
    exists|ws: Seq<EncounterEntity>|
        #![trigger ws.len()]
        {
            &&& ws.len() == rows.len()
            &&& rows.len() == combatants.len()
            &&& forall|i: int|
                0 <= i < rows.len() ==> spec_entity_updated(
                    #[trigger] ws[i],
                    combatants[i],
                    damage_log,
                    intervals,
                    identity_log,
                    fight_start,
                    player_info,
                    local_player,
                    duration_seconds,
                    skill_cast_log,
                    cast_log,
                ) && spec_entity_row(rows[i], ws[i])
        }
}

/// Folds every retained combatant and flattens it into its storage-ready
/// row, in the order the filter produced: row i is built from combatant i
/// through `spec_entity_updated` and `spec_entity_row`.
pub fn to_entities_db(
    filtered: Vec<EncounterEntity>,
    damage_log: &Vec<(String, Vec<(i64, i64)>)>,
    intervals: &Vec<i64>,
    identity_log: &Vec<(String, Vec<(i64, (u32, u32, u32))>)>,
    fight_start: i64,
    player_info: &Option<Vec<(String, PlayerStats)>>,
    local_player: &str,
    duration_seconds: i64,
    skill_cast_log: &Vec<(u64, Vec<(u32, Vec<SkillCast>)>)>,
    cast_log: &Vec<(String, Vec<(u32, Vec<i32>)>)>,
) -> (r: Vec<EntityDb>)
    requires
        1 <= duration_seconds,
        0 <= fight_start,
        forall|i: int| 0 <= i < filtered@.len() ==> spec_entity_wf(#[trigger] filtered@[i]),
        forall|i: int|
            0 <= i < damage_log@.len() ==> spec_all_damage_nonneg(
                (#[trigger] damage_log@[i]).1@,
            ) && spec_total_damage(damage_log@[i].1@) <= i64::MAX,
        forall|i: int|
            0 <= i < intervals@.len() ==> 0 <= #[trigger] intervals@[i] && fight_start
                + intervals@[i] + 5000 <= i64::MAX,
        forall|e: int, i: int|
            0 <= e < filtered@.len() && 0 <= i < identity_log@.len() && (
            #[trigger] identity_log@[i]).0@ == (#[trigger] filtered@[e]).name@
                ==> spec_samples_wf(
                spec_shape_of_class(filtered@[e].class@),
                identity_log@[i].1@,
            ) && identity_log@[i].1@.len() <= 0x8000000,
        forall|i: int, j: int|
            0 <= i < skill_cast_log@.len() && 0 <= j < skill_cast_log@[i].1@.len()
                ==> spec_casts_wf(((#[trigger] skill_cast_log@[i].1@[j])).1@),
    ensures
        r@.len() == filtered@.len(),
        spec_rows_built(
            r@,
            filtered@,
            damage_log@,
            intervals@,
            identity_log@,
            fight_start as int,
            *player_info,
            local_player@,
            duration_seconds as int,
            skill_cast_log@,
            cast_log@,
        ),
        forall|i: int|
            0 <= i < r@.len() ==> {
                let db = #[trigger] r@[i];
                let e = filtered@[i];
                &&& db.id == e.id
                &&& db.name@ == e.name@
                &&& db.class_id == e.class_id
                &&& db.class@ == e.class@
                &&& db.npc_id == e.npc_id
                &&& db.character_id == e.character_id
                &&& db.current_hp == e.current_hp
                &&& db.max_hp == e.max_hp
                &&& db.current_shield == e.current_shield
                &&& db.is_dead == e.is_dead
                &&& db.entity_type@ == e.entity_type.spec_label()
                &&& db.gear_score_text@ == spec_dec2(e.gear_score_hundredths as int)
                &&& db.gear_hash == e.gear_hash
                &&& db.engraving_data == e.engraving_data
                &&& db.ark_passive_active == e.ark_passive_active
                &&& db.ark_passive_data == e.ark_passive_data
                &&& db.damage_stats.damage_dealt == e.damage_stats.damage_dealt
                &&& db.damage_stats.damage_taken == e.damage_stats.damage_taken
                &&& db.damage_stats.dps == spec_dps(
                    e.damage_stats.damage_dealt as int,
                    duration_seconds as int,
                )
            },
{
    let ghost orig = filtered@;
    let mut src = filtered;
    let mut rows: Vec<EntityDb> = Vec::new();
    let ghost mut wits: Seq<EncounterEntity> = Seq::empty();
    proof {
        assert(orig.skip(0int) =~= orig);
    }
    while src.len() > 0
        invariant
            rows@.len() + src@.len() == orig.len(),
            src@ =~= orig.skip(rows@.len() as int),
            1 <= duration_seconds,
            0 <= fight_start,
            forall|k: int| 0 <= k < orig.len() ==> spec_entity_wf(#[trigger] orig[k]),
            forall|k: int|
                0 <= k < damage_log@.len() ==> spec_all_damage_nonneg(
                    (#[trigger] damage_log@[k]).1@,
                ) && spec_total_damage(damage_log@[k].1@) <= i64::MAX,
            forall|k: int|
                0 <= k < intervals@.len() ==> 0 <= #[trigger] intervals@[k] && fight_start
                    + intervals@[k] + 5000 <= i64::MAX,
            forall|e: int, k: int|
                0 <= e < orig.len() && 0 <= k < identity_log@.len() && (
                #[trigger] identity_log@[k]).0@ == (#[trigger] orig[e]).name@ ==> spec_samples_wf(
                    spec_shape_of_class(orig[e].class@),
                    identity_log@[k].1@,
                ) && identity_log@[k].1@.len() <= 0x8000000,
            forall|k: int, j: int|
                0 <= k < skill_cast_log@.len() && 0 <= j < skill_cast_log@[k].1@.len()
                    ==> spec_casts_wf(((#[trigger] skill_cast_log@[k].1@[j])).1@),
            wits.len() == rows@.len(),
            forall|k: int|
                0 <= k < rows@.len() ==> spec_entity_updated(
                    #[trigger] wits[k],
                    orig[k],
                    damage_log@,
                    intervals@,
                    identity_log@,
                    fight_start as int,
                    *player_info,
                    local_player@,
                    duration_seconds as int,
                    skill_cast_log@,
                    cast_log@,
                ) && spec_entity_row(rows@[k], wits[k]),
            forall|k: int|
                0 <= k < rows@.len() ==> {
                    let db = #[trigger] rows@[k];
                    let e = orig[k];
                    &&& db.id == e.id
                    &&& db.name@ == e.name@
                    &&& db.class_id == e.class_id
                    &&& db.class@ == e.class@
                    &&& db.npc_id == e.npc_id
                    &&& db.character_id == e.character_id
                    &&& db.current_hp == e.current_hp
                    &&& db.max_hp == e.max_hp
                    &&& db.current_shield == e.current_shield
                    &&& db.is_dead == e.is_dead
                    &&& db.entity_type@ == e.entity_type.spec_label()
                    &&& db.gear_score_text@ == spec_dec2(e.gear_score_hundredths as int)
                    &&& db.gear_hash == e.gear_hash
                    &&& db.engraving_data == e.engraving_data
                    &&& db.ark_passive_active == e.ark_passive_active
                    &&& db.ark_passive_data == e.ark_passive_data
                    &&& db.damage_stats.damage_dealt == e.damage_stats.damage_dealt
                    &&& db.damage_stats.damage_taken == e.damage_stats.damage_taken
                    &&& db.damage_stats.dps == spec_dps(
                        e.damage_stats.damage_dealt as int,
                        duration_seconds as int,
                    )
                },
        decreases src@.len(),
    {
        let ghost i = rows@.len();
        let e = src.remove(0);
        proof {
            assert(e == orig[i as int]);
            assert(src@ =~= orig.skip(i as int + 1));
            assert(forall|k: int|
                0 <= k < identity_log@.len() && (#[trigger] identity_log@[k]).0@ == e.name@
                    ==> spec_samples_wf(
                    spec_shape_of_class(e.class@),
                    identity_log@[k].1@,
                ) && identity_log@[k].1@.len() <= 0x8000000) by {
                assert(0 <= i < orig.len());
                assert(orig[i as int] == e);
            }
        }
        let updated = update_entity(
            e,
            damage_log,
            intervals,
            identity_log,
            fight_start,
            player_info,
            local_player,
            duration_seconds,
            skill_cast_log,
            cast_log,
        );
        let ghost gu = updated;
        let db = entity_to_db(updated);
        proof {
            assert(spec_entity_updated(
                gu,
                orig[i as int],
                damage_log@,
                intervals@,
                identity_log@,
                fight_start as int,
                *player_info,
                local_player@,
                duration_seconds as int,
                skill_cast_log@,
                cast_log@,
            ));
            assert(spec_entity_row(db, gu));
        }
        let ghost pre_rows = rows@;
        rows.push(db);
        proof {
            wits = wits.push(gu);
            assert(rows@[i as int] == db);
            assert(wits[i as int] == gu);
            assert(forall|k: int| 0 <= k < pre_rows.len() ==> rows@[k] == pre_rows[k]);
        }
    }
    proof {
        assert(rows@.len() == orig.len());
        assert(spec_rows_built(
            rows@,
            orig,
            damage_log@,
            intervals@,
            identity_log@,
            fight_start as int,
            *player_info,
            local_player@,
            duration_seconds as int,
            skill_cast_log@,
            cast_log@,
        )) by {
            assert(wits.len() == rows@.len());
        }
    }
    rows
}

} // verus!