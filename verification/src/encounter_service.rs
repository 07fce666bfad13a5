//! The record assembler and the persistence entry point: `create` turns one
//! finished encounter payload into the three storage-ready record shapes and
//! writes them atomically through the repository.

use vstd::prelude::*;
use crate::models::{
    CreateEncounter,
    EncounterDb,
    EncounterEntity,
    EncounterPreviewDb,
    EntityDb,
    StoreError,
};
use crate::stats::{
    spec_duration_seconds,
    spec_dps,
    spec_all_damage_nonneg,
    spec_total_damage,
    spec_interval_grid,
    duration_seconds,
    dps,
    generate_intervals,
};
use crate::stagger::{
    spec_intervals_nonneg,
    spec_sum_time,
    spec_sum_dealt,
    spec_stagger_outcome,
    create_stagger_stats,
};
use crate::docs::{
    spec_misc_doc,
    spec_boss_hp_doc,
    spec_null,
    spec_stagger_doc_parts,
    encode_misc,
    encode_boss_hp_log,
    encode_stagger_stats,
};
use crate::sqlite::{gzip_of, compress_doc};
use crate::sorting::{spec_sorted_desc, sort_by_damage_desc};
use crate::players::{spec_players_join, join_players};
use crate::utils::{spec_entity_wf, spec_casts_wf, spec_rows_built, to_entities_db};
use crate::identity::{spec_shape_of_class, spec_samples_wf};
use crate::repository::{spec_encounter_db_insertable, spec_entities_insertable, Repository};

verus! {

/// The schema generation written into each encounter row.
pub const DB_VERSION: i32 = 5;

/// The combatants kept for persistence, in their incoming order.
pub open spec fn spec_relevant(entities: Seq<EncounterEntity>, local: Seq<char>) -> Seq<
    EncounterEntity,
>
    decreases entities.len(),
{
    if entities.len() == 0 {
        Seq::empty()
    } else {
        spec_relevant(entities.drop_last(), local) + (
        if entities.last().spec_is_relevant_combat_entity(local) {
            seq![entities.last()]
        } else {
            Seq::empty()
        })
    }
}

/// The active players, in their incoming order.
pub open spec fn spec_actives(entities: Seq<EncounterEntity>, local: Seq<char>) -> Seq<
    EncounterEntity,
>
    decreases entities.len(),
{
    if entities.len() == 0 {
        Seq::empty()
    } else {
        spec_actives(entities.drop_last(), local) + (if entities.last().spec_is_active_player(
            local,
        ) {
            seq![entities.last()]
        } else {
            Seq::empty()
        })
    }
}

/// The local player's dps as the capture recorded it: the first active
/// player under the local name, or zero.
pub open spec fn spec_local_player_dps(entities: Seq<EncounterEntity>, local: Seq<char>) -> int
    decreases entities.len(),
{
    if entities.len() == 0 {
        0
    } else if entities[0].spec_is_active_player(local) && entities[0].name@ == local {
        entities[0].damage_stats.dps as int
    } else {
        spec_local_player_dps(entities.skip(1), local)
    }
}

/// A payload whose numbers the assembler can fold without overflow and
/// whose clocks are ordered.
pub open spec fn spec_payload_wf(p: CreateEncounter) -> bool {
    &&& 0 <= p.encounter.fight_start
    &&& p.encounter.fight_start <= p.encounter.last_combat_packet
    &&& p.encounter.last_combat_packet <= i64::MAX - 5000
    &&& p.encounter.encounter_damage_stats.total_damage_dealt >= 0
    &&& p.encounter.encounter_damage_stats.total_shielding <= i64::MAX
    &&& p.encounter.encounter_damage_stats.total_effective_shielding <= i64::MAX
    &&& 0 <= p.encounter.encounter_damage_stats.stagger_start
    &&& forall|i: int|
        0 <= i < p.encounter.entities@.len() ==> spec_entity_wf(#[trigger] p.encounter.entities@[i])
    &&& forall|i: int|
        0 <= i < p.damage_log@.len() ==> spec_all_damage_nonneg((#[trigger] p.damage_log@[i]).1@)
            && spec_total_damage(p.damage_log@[i].1@) <= i64::MAX
    &&& forall|e: int, i: int|
        0 <= e < p.encounter.entities@.len() && 0 <= i < p.identity_log@.len() && (
        #[trigger] p.identity_log@[i]).0@ == (#[trigger] p.encounter.entities@[e]).name@
            ==> spec_samples_wf(
            spec_shape_of_class(p.encounter.entities@[e].class@),
            p.identity_log@[i].1@,
        ) && p.identity_log@[i].1@.len() <= 0x8000000
    &&& forall|i: int, j: int|
        0 <= i < p.skill_cast_log@.len() && 0 <= j < p.skill_cast_log@[i].1@.len()
            ==> spec_casts_wf(((#[trigger] p.skill_cast_log@[i].1@[j])).1@)
    &&& spec_intervals_nonneg(p.stagger_intervals@)
    &&& spec_sum_time(p.stagger_intervals@) + (p.encounter.last_combat_packet / 1000) <= i32::MAX
    &&& spec_sum_dealt(p.stagger_intervals@) + (if p.prev_stagger > 0 {
        p.prev_stagger as int
    } else {
        0
    }) <= i32::MAX
}

/// The three storage-ready record shapes for one encounter.
pub struct AssembledEncounter {
    pub encounter: EncounterDb,
    pub preview: EncounterPreviewDb,
    pub entities: Vec<EntityDb>,
}

/// Keeps the combatants relevant to combat, in order, consuming the list.
fn filter_relevant(entities: Vec<EncounterEntity>, local: &str) -> (r: Vec<EncounterEntity>)
    ensures
        r@ == spec_relevant(entities@, local@),
{
    let ghost orig = entities@;
    let mut src = entities;
    let mut out: Vec<EncounterEntity> = Vec::new();
    proof {
        assert(orig.take(0int) =~= Seq::<EncounterEntity>::empty());
        assert(orig.skip(0int) =~= orig);
    }
    while src.len() > 0
        invariant
            src@.len() <= orig.len(),
            src@ =~= orig.skip(orig.len() - src@.len()),
            out@ == spec_relevant(orig.take(orig.len() - src@.len()), local@),
        decreases src@.len(),
    {
        let ghost i = orig.len() - src@.len();
        let e = src.remove(0);
        proof {
            assert(e == orig[i as int]);
            assert(src@ =~= orig.skip(i as int + 1));
            assert(orig.take(i as int + 1).drop_last() =~= orig.take(i as int));
            assert(orig.take(i as int + 1).last() == orig[i as int]);
        }
        if e.is_relevant_combat_entity(local) {
            out.push(e);
        }
        proof {
            assert(out@ =~= spec_relevant(orig.take(i as int + 1), local@));
        }
    }
    proof {
        assert(orig.take(orig.len() as int) =~= orig);
    }
    out
}

/// The (class id, name, damage dealt) of each active player, in order.
fn collect_actives(entities: &Vec<EncounterEntity>, local: &str) -> (r: Vec<(u32, String, i64)>)
    ensures
        r@ == spec_actives(entities@, local@).map_values(
            |e: EncounterEntity| (e.class_id, e.name, e.damage_stats.damage_dealt),
        ),
{
    let ghost target = spec_actives(entities@, local@).map_values(
        |e: EncounterEntity| (e.class_id, e.name, e.damage_stats.damage_dealt),
    );
    let mut out: Vec<(u32, String, i64)> = Vec::new();
    let mut i: usize = 0;
    while i < entities.len()
        invariant
            0 <= i <= entities@.len(),
            out@ == spec_actives(entities@.take(i as int), local@).map_values(
                |e: EncounterEntity| (e.class_id, e.name, e.damage_stats.damage_dealt),
            ),
        decreases entities@.len() - i,
    {
        proof {
            assert(entities@.take(i as int + 1).drop_last() =~= entities@.take(i as int));
            assert(entities@.take(i as int + 1).last() == entities@[i as int]);
        }
        if entities[i].is_active_player(local) {
            out.push(
                (entities[i].class_id, entities[i].name.clone(), entities[i].damage_stats.damage_dealt),
            );
        }
        proof {
            assert(out@ =~= spec_actives(entities@.take(i as int + 1), local@).map_values(
                |e: EncounterEntity| (e.class_id, e.name, e.damage_stats.damage_dealt),
            ));
        }
        i = i + 1;
    }
    proof {
        assert(entities@.take(entities@.len() as int) =~= entities@);
    }
    out
}

/// The local player's recorded dps, straight off the snapshot.
fn local_player_dps(entities: &Vec<EncounterEntity>, local: &str) -> (r: i64)
    ensures
        r == spec_local_player_dps(entities@, local@),
{
    let mut i: usize = 0;
    proof {
        assert(entities@.skip(0) =~= entities@);
    }
    while i < entities.len()
        invariant
            0 <= i <= entities@.len(),
            spec_local_player_dps(entities@, local@) == spec_local_player_dps(
                entities@.skip(i as int),
                local@,
            ),
        decreases entities@.len() - i,
    {
        proof {
            assert(entities@.skip(i as int)[0] == entities@[i as int]);
            assert(entities@.skip(i as int).skip(1) =~= entities@.skip(i as int + 1));
        }
        if entities[i].is_active_player(local) && crate::text::str_eq(
            entities[i].name.as_str(),
            local,
        ) {
            return entities[i].damage_stats.dps;
        }
        i = i + 1;
    }
    proof {
        assert(entities@.skip(entities@.len() as int) =~= Seq::<EncounterEntity>::empty());
    }
    0
}

/// Turns the pairs out of the sorted triples.
fn triples_to_pairs(v: &Vec<(u32, String, i64)>) -> (r: Vec<(u32, String)>)
    ensures
        r@ == v@.map_values(|t: (u32, String, i64)| (t.0, t.1)),
{
    let mut out: Vec<(u32, String)> = Vec::new();
    let mut i: usize = 0;
    while i < v.len()
        invariant
            0 <= i <= v@.len(),
            out@ =~= v@.map_values(|t: (u32, String, i64)| (t.0, t.1)).take(i as int),
        decreases v@.len() - i,
    {
        out.push((v[i].0, v[i].1.clone()));
        proof {
            assert(v@.map_values(|t: (u32, String, i64)| (t.0, t.1))[i as int] == (
            v@[i as int].0,
            v@[i as int].1,
            ));
        }
        i = i + 1;
    }
    proof {
        assert(v@.map_values(|t: (u32, String, i64)| (t.0, t.1)).take(v@.len() as int)
            =~= v@.map_values(|t: (u32, String, i64)| (t.0, t.1)));
    }
    out
}

/// Assembles the three storage-ready record shapes from one payload: the
/// derived statistics, the documents, the compressed blobs, the ordered
/// preview player string and the filtered entity rows. Assembly is total:
/// the documents are encoded by total verified functions and the
/// compression codec cannot fail.
#[verifier::rlimit(100)]
#[verifier::spinoff_prover]
pub fn assemble_encounter(payload: CreateEncounter) -> (a: AssembledEncounter)
    requires
        spec_payload_wf(payload),
    ensures
        ({
            let p = payload;
            let dur = p.encounter.last_combat_packet - p.encounter.fight_start;
            let dur_s = spec_duration_seconds(dur as int);
            &&& a.encounter.last_combat_packet == p.encounter.last_combat_packet
            &&& a.encounter.total_damage_dealt
                == p.encounter.encounter_damage_stats.total_damage_dealt
            &&& a.encounter.top_damage_dealt
                == p.encounter.encounter_damage_stats.top_damage_dealt
            &&& a.encounter.total_damage_taken
                == p.encounter.encounter_damage_stats.total_damage_taken
            &&& a.encounter.top_damage_taken
                == p.encounter.encounter_damage_stats.top_damage_taken
            &&& a.encounter.dps == spec_dps(
                p.encounter.encounter_damage_stats.total_damage_dealt as int,
                dur_s,
            )
            &&& a.encounter.total_shielding
                == p.encounter.encounter_damage_stats.total_shielding
            &&& a.encounter.total_effective_shielding
                == p.encounter.encounter_damage_stats.total_effective_shielding
            &&& a.encounter.db_version == DB_VERSION
            &&& a.encounter.compressed_buffs@ == gzip_of(
                p.encounter.encounter_damage_stats.buffs_doc@,
            )
            &&& a.encounter.compressed_debuffs@ == gzip_of(
                p.encounter.encounter_damage_stats.debuffs_doc@,
            )
            &&& a.encounter.compressed_shields@ == gzip_of(
                p.encounter.encounter_damage_stats.applied_shield_buffs_doc@,
            )
            &&& a.encounter.compressed_boss_hp@ == gzip_of(
                spec_boss_hp_doc(
                    p.boss_hp_log@.map_values(
                        |b: (String, Vec<crate::models::BossHpEntry>)| (b.0@, b.1@),
                    ),
                ),
            )
            &&& a.encounter.misc_json@ == spec_misc_doc(
                if p.raid_clear {
                    Some(true)
                } else {
                    None
                },
                p.party_info@.map_values(
                    |party: Vec<String>| party@.map_values(|s: String| s@),
                ),
                match p.region {
                    Some(s) => Some(s@),
                    None => None,
                },
                p.version@,
                p.rdps_valid,
                p.ntp_fight_start as int,
                p.manual,
            )
            &&& a.encounter.stagger_stats_json@ == (match spec_stagger_outcome(
                p.stagger_log@.len() as int,
                p.encounter.last_combat_packet as int,
                p.encounter.encounter_damage_stats.stagger_start as int,
                p.encounter.encounter_damage_stats.max_stagger as int,
                p.prev_stagger as int,
                p.stagger_intervals@,
            ) {
                Some(rates) => spec_stagger_doc_parts(rates.0, rates.1, p.stagger_log@),
                None => spec_null(),
            })
            &&& a.preview.fight_start == p.encounter.fight_start
            &&& a.preview.current_boss_name@ == p.encounter.current_boss_name@
            &&& a.preview.duration == dur
            &&& a.preview.raid_difficulty@ == p.raid_difficulty@
            &&& a.preview.local_player@ == p.encounter.local_player@
            &&& a.preview.local_player_dps == spec_local_player_dps(
                p.encounter.entities@,
                p.encounter.local_player@,
            )
            &&& a.preview.raid_clear == (if p.raid_clear {
                Some(true)
            } else {
                None::<bool>
            })
            &&& a.preview.boss_only_damage == p.encounter.boss_only_damage
            &&& (exists|sorted: Seq<(u32, String, i64)>|
                {
                    &&& (#[trigger] sorted.to_multiset()) == spec_actives(
                        p.encounter.entities@,
                        p.encounter.local_player@,
                    ).map_values(
                        |e: EncounterEntity| (e.class_id, e.name, e.damage_stats.damage_dealt),
                    ).to_multiset()
                    &&& spec_sorted_desc(sorted)
                    &&& a.preview.preview_players@ == spec_players_join(
                        sorted.map_values(|t: (u32, String, i64)| (t.0, t.1@)),
                    )
                })
            &&& a.entities@.len() == spec_relevant(
                p.encounter.entities@,
                p.encounter.local_player@,
            ).len()
            &&& spec_rows_built(
                a.entities@,
                spec_relevant(p.encounter.entities@, p.encounter.local_player@),
                p.damage_log@,
                spec_interval_grid(
                    p.encounter.fight_start as int,
                    p.encounter.last_combat_packet as int,
                ),
                p.identity_log@,
                p.encounter.fight_start as int,
                p.player_info,
                p.encounter.local_player@,
                dur_s,
                p.skill_cast_log@,
                p.cast_log@,
            )
            &&& spec_encounter_db_insertable(a.encounter)
            &&& spec_entities_insertable(a.entities@)
        }),
{
    let encounter = payload.encounter;
    let local_player = encounter.local_player;
    let eds = encounter.encounter_damage_stats;
    let fight_start = encounter.fight_start;
    let last_combat_packet = encounter.last_combat_packet;
    let duration = last_combat_packet - fight_start;
    let dur_s = duration_seconds(duration);
    let encounter_dps = dps(eds.total_damage_dealt, dur_s);

    let misc_json = encode_misc(
        if payload.raid_clear {
            Some(true)
        } else {
            None
        },
        &payload.party_info,
        &payload.region,
        &payload.version,
        payload.rdps_valid,
        payload.ntp_fight_start,
        payload.manual,
    );

    let mut stagger_intervals = payload.stagger_intervals;
    let stagger_stats = create_stagger_stats(
        &payload.stagger_log,
        last_combat_packet,
        eds.stagger_start,
        eds.max_stagger,
        payload.prev_stagger,
        &mut stagger_intervals,
    );
    let stagger_stats_json = encode_stagger_stats(&stagger_stats);

    let boss_hp_doc = encode_boss_hp_log(&payload.boss_hp_log);
    let compressed_boss_hp = compress_doc(boss_hp_doc.as_str());
    let compressed_buffs = compress_doc(eds.buffs_doc.as_str());
    let compressed_debuffs = compress_doc(eds.debuffs_doc.as_str());
    let compressed_shields = compress_doc(eds.applied_shield_buffs_doc.as_str());

    let actives = collect_actives(&encounter.entities, local_player.as_str());
    let my_dps = local_player_dps(&encounter.entities, local_player.as_str());
    let sorted = sort_by_damage_desc(actives);
    let ghost sorted_view = sorted@;
    let pairs = triples_to_pairs(&sorted);
    let preview_players = join_players(&pairs);
    proof {
        assert(pairs@.map_values(|q: (u32, String)| (q.0, q.1@)) =~= sorted_view.map_values(
            |t: (u32, String, i64)| (t.0, t.1@),
        ));
    }

    let intervals = generate_intervals(fight_start, last_combat_packet);
    let filtered = filter_relevant(encounter.entities, local_player.as_str());
    let ghost filtered_view = filtered@;
    proof {
        assert(forall|i: int|
            0 <= i < filtered@.len() ==> spec_entity_wf(#[trigger] filtered@[i])) by {
            lemma_relevant_membership(
                payload.encounter.entities@,
                payload.encounter.local_player@,
            );
        }
        assert(forall|e: int, k: int|
            0 <= e < filtered@.len() && 0 <= k < payload.identity_log@.len() && (
            #[trigger] payload.identity_log@[k]).0@ == (#[trigger] filtered@[e]).name@
                ==> spec_samples_wf(
                spec_shape_of_class(filtered@[e].class@),
                payload.identity_log@[k].1@,
            ) && payload.identity_log@[k].1@.len() <= 0x8000000) by {
            lemma_relevant_membership(
                payload.encounter.entities@,
                payload.encounter.local_player@,
            );
        }
        assert(intervals@ == spec_interval_grid(fight_start as int, last_combat_packet as int));
    }
    let entities = to_entities_db(
        filtered,
        &payload.damage_log,
        &intervals,
        &payload.identity_log,
        fight_start,
        &payload.player_info,
        local_player.as_str(),
        dur_s,
        &payload.skill_cast_log,
        &payload.cast_log,
    );

    let encounter_db = EncounterDb {
        last_combat_packet,
        total_damage_dealt: eds.total_damage_dealt,
        top_damage_dealt: eds.top_damage_dealt,
        total_damage_taken: eds.total_damage_taken,
        top_damage_taken: eds.top_damage_taken,
        dps: encounter_dps,
        compressed_buffs,
        compressed_debuffs,
        total_shielding: eds.total_shielding,
        total_effective_shielding: eds.total_effective_shielding,
        compressed_shields,
        misc_json,
        db_version: DB_VERSION,
        compressed_boss_hp,
        stagger_stats_json,
    };
    let preview = EncounterPreviewDb {
        fight_start,
        current_boss_name: encounter.current_boss_name,
        duration,
        preview_players,
        raid_difficulty: payload.raid_difficulty,
        local_player,
        local_player_dps: my_dps,
        raid_clear: if payload.raid_clear {
            Some(true)
        } else {
            None
        },
        boss_only_damage: encounter.boss_only_damage,
    };
    proof {
        assert(spec_entities_insertable(entities@));
    }
    AssembledEncounter { encounter: encounter_db, preview, entities }
}

/// Every retained combatant is one of the snapshot's combatants.
proof fn lemma_relevant_membership(entities: Seq<EncounterEntity>, local: Seq<char>)
    ensures
        forall|i: int|
            0 <= i < spec_relevant(entities, local).len() ==> exists|k: int|
                0 <= k < entities.len() && #[trigger] spec_relevant(entities, local)[i]
                    == entities[k],
    decreases entities.len(),
{
    if entities.len() > 0 {
        lemma_relevant_membership(entities.drop_last(), local);
        assert(forall|k: int|
            0 <= k < entities.drop_last().len() ==> entities.drop_last()[k] == entities[k]);
        let r = spec_relevant(entities, local);
        let rd = spec_relevant(entities.drop_last(), local);
        assert(forall|i: int| 0 <= i < rd.len() ==> r[i] == rd[i]);
        if entities.last().spec_is_relevant_combat_entity(local) {
            assert(r.last() == entities[entities.len() - 1]);
        }
    }
}

/// Writes one encounter and serves one paginated listing.
pub trait EncounterService: Sized {
    /// Derives the statistics, assembles the records and persists them
    /// atomically; the new encounter's id on success. Assembly is total,
    /// so every failure comes from the pool or the storage engine.
    fn create(&self, payload: CreateEncounter) -> (r: Result<i64, StoreError>)
        requires
            spec_payload_wf(payload),
        ensures
            r matches Err(e) ==> e is ConnectionAcquisition || e is ConstraintViolation
                || e is Database,
    ;
}

pub struct DefaultEncounterService<R: Repository> {
    repository: R,
}

impl<R: Repository> EncounterService for DefaultEncounterService<R> {
    fn create(&self, payload: CreateEncounter) -> (r: Result<i64, StoreError>) {
        let assembled = assemble_encounter(payload);
        self.insert_encounter_and_entities(
            assembled.encounter,
            assembled.preview,
            assembled.entities,
        )
    }
}

impl<R: Repository> DefaultEncounterService<R> {
    pub fn new(repository: R) -> (r: Self) {
        DefaultEncounterService { repository }
    }

    /// One pooled connection, one transaction: the encounter row, every
    /// entity row, then the preview row, committed as a unit; any failure
    /// rolls the whole write back.
    fn insert_encounter_and_entities(
        &self,
        encounter: EncounterDb,
        encounter_preview: EncounterPreviewDb,
        entities: Vec<EntityDb>,
    ) -> (r: Result<i64, StoreError>)
        requires
            spec_encounter_db_insertable(encounter),
            spec_entities_insertable(entities@),
        ensures
            r matches Err(e) ==> e is ConnectionAcquisition || e is ConstraintViolation
                || e is Database,
    {
        let mut pooled = match self.repository.get_connection() {
            Ok(c) => c,
            Err(e) => {
                return Err(e);
            },
        };
        let conn = crate::sqlite::connection_of(&mut pooled);
        let tx = match crate::sqlite::begin_transaction(conn) {
            Ok(t) => t,
            Err(e) => {
                return Err(
                    StoreError::Database(crate::sqlite::sqlite_error_text(&e)),
                );
            },
        };
        let c = crate::sqlite::tx_connection(&tx);
        let encounter_id = match self.repository.insert_encounter(c, encounter) {
            Ok(id) => id,
            Err(e) => {
                return Err(e);
            },
        };
        match self.repository.insert_entities(c, encounter_id, &entities) {
            Ok(()) => {},
            Err(e) => {
                return Err(e);
            },
        }
        match self.repository.insert_encounter_preview(c, encounter_id, encounter_preview) {
            Ok(()) => {},
            Err(e) => {
                return Err(e);
            },
        }
        match crate::sqlite::commit(tx) {
            Ok(()) => Ok(encounter_id),
            Err(e) => Err(StoreError::Database(crate::sqlite::sqlite_error_text(&e))),
        }
    }
}

} // verus!
