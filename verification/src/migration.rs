//! The schema-evolution engine's pure core. The database carries no version
//! counter: its state is inferred from table and column existence, modelled
//! here as `SchemaState`. A deterministic planner selects the minimal DDL
//! steps that bring any supported state to the current schema, and the
//! lemmas below show the plan converges and is idempotent.

use vstd::prelude::*;

verus! {

/// Which tables and individually-patched columns exist. `enc_core` stands
/// for the denormalized encounter columns (fight start, boss name,
/// duration, local player, favorite and cleared flags live with their own
/// fields below); `enc_logs` for the boss-health and stagger blob columns
/// the search migration adds.
#[derive(Debug, Clone, Copy, PartialEq, Eq, Structural)]
pub struct SchemaState {
    pub encounter_table: bool,
    pub entity_table: bool,
    pub preview_table: bool,
    pub sync_logs_table: bool,
    /// fight_start, current_boss, duration, local_player
    pub enc_core: bool,
    pub enc_misc: bool,
    pub enc_difficulty: bool,
    /// favorite and cleared, which come and go together
    pub enc_fvc: bool,
    pub enc_version: bool,
    pub enc_boss_only_damage: bool,
    /// total_shielding, total_effective_shielding, applied_shield_buffs
    pub enc_shielding: bool,
    /// boss_hp_log, stagger_log
    pub enc_logs: bool,
    pub ent_dps: bool,
    pub ent_character_id: bool,
    pub ent_engravings: bool,
    pub ent_gear_hash: bool,
    /// spec, ark_passive_active, ark_passive_data
    pub ent_spec: bool,
}

/// One migration step; each carries a fixed DDL batch.
#[derive(Debug, Clone, Copy, PartialEq, Eq, Structural)]
pub enum MigrationStep {
    CreateEncounterTable,
    CreateEntityTable,
    AddEncounterMisc,
    AddEncounterDifficulty,
    AddEncounterFavorite,
    AddEncounterBossOnlyDamage,
    AddEncounterShielding,
    FixClearedData,
    AddEntityDps,
    AddEntityCharacterId,
    AddEntityEngravings,
    AddEntityGearHash,
    FixDpsData,
    FullTextSearch,
    CreateSyncLogs,
    AddEntitySpec,
}

/// The states this engine accepts: a brand-new database, one created by
/// any prior version of this schema, or one already current. Columns exist
/// only with their table; before the search migration the denormalized
/// columns stand and the blob columns do not; after it, the reverse.
pub open spec fn spec_wf(s: SchemaState) -> bool {
    &&& (!s.encounter_table ==> !s.enc_core && !s.enc_misc && !s.enc_difficulty && !s.enc_fvc
        && !s.enc_version && !s.enc_boss_only_damage && !s.enc_shielding && !s.enc_logs
        && !s.preview_table)
    &&& (!s.entity_table ==> !s.ent_dps && !s.ent_character_id && !s.ent_engravings
        && !s.ent_gear_hash && !s.ent_spec && !s.preview_table)
    &&& (s.encounter_table && !s.preview_table ==> s.enc_core && !s.enc_logs && (s.enc_fvc
        <==> s.enc_version))
    &&& (s.preview_table ==> s.encounter_table && s.entity_table && !s.enc_core
        && !s.enc_difficulty && !s.enc_fvc && s.enc_version && !s.enc_boss_only_damage
        && s.enc_misc && s.enc_shielding && s.enc_logs)
}

/// The current schema: every table present, the encounter table holding
/// only its post-search columns.
pub open spec fn spec_current() -> SchemaState {
    SchemaState {
        encounter_table: true,
        entity_table: true,
        preview_table: true,
        sync_logs_table: true,
        enc_core: false,
        enc_misc: true,
        enc_difficulty: false,
        enc_fvc: false,
        enc_version: true,
        enc_boss_only_damage: false,
        enc_shielding: true,
        enc_logs: true,
        ent_dps: true,
        ent_character_id: true,
        ent_engravings: true,
        ent_gear_hash: true,
        ent_spec: true,
    }
}

/// A brand-new, empty database.
pub open spec fn spec_empty() -> SchemaState {
    SchemaState {
        encounter_table: false,
        entity_table: false,
        preview_table: false,
        sync_logs_table: false,
        enc_core: false,
        enc_misc: false,
        enc_difficulty: false,
        enc_fvc: false,
        enc_version: false,
        enc_boss_only_damage: false,
        enc_shielding: false,
        enc_logs: false,
        ent_dps: false,
        ent_character_id: false,
        ent_engravings: false,
        ent_gear_hash: false,
        ent_spec: false,
    }
}

/// What one step does to the schema.
pub open spec fn spec_apply_step(s: SchemaState, step: MigrationStep) -> SchemaState {
    match step {
        MigrationStep::CreateEncounterTable => SchemaState {
            encounter_table: true,
            enc_core: true,
            enc_misc: true,
            enc_difficulty: true,
            enc_fvc: true,
            enc_version: true,
            enc_boss_only_damage: true,
            enc_shielding: true,
            ..s
        },
        MigrationStep::CreateEntityTable => SchemaState {
            entity_table: true,
            ent_dps: true,
            ent_character_id: true,
            ent_engravings: true,
            ..s
        },
        MigrationStep::AddEncounterMisc => SchemaState { enc_misc: true, ..s },
        MigrationStep::AddEncounterDifficulty => SchemaState { enc_difficulty: true, ..s },
        MigrationStep::AddEncounterFavorite => SchemaState { enc_fvc: true, enc_version: true, ..s },
        MigrationStep::AddEncounterBossOnlyDamage => SchemaState {
            enc_boss_only_damage: true,
            ..s
        },
        MigrationStep::AddEncounterShielding => SchemaState { enc_shielding: true, ..s },
        MigrationStep::FixClearedData => s,
        MigrationStep::AddEntityDps => SchemaState { ent_dps: true, ..s },
        MigrationStep::AddEntityCharacterId => SchemaState { ent_character_id: true, ..s },
        MigrationStep::AddEntityEngravings => SchemaState { ent_engravings: true, ..s },
        MigrationStep::AddEntityGearHash => SchemaState { ent_gear_hash: true, ..s },
        MigrationStep::FixDpsData => s,
        MigrationStep::FullTextSearch => SchemaState {
            preview_table: true,
            enc_core: false,
            enc_difficulty: false,
            enc_fvc: false,
            enc_boss_only_damage: false,
            enc_logs: true,
            ..s
        },
        MigrationStep::CreateSyncLogs => SchemaState { sync_logs_table: true, ..s },
        MigrationStep::AddEntitySpec => SchemaState { ent_spec: true, ..s },
    }
}

pub open spec fn spec_apply_plan(s: SchemaState, steps: Seq<MigrationStep>) -> SchemaState
    decreases steps.len(),
{
    if steps.len() == 0 {
        s
    } else {
        spec_apply_step(spec_apply_plan(s, steps.drop_last()), steps.last())
    }
}

pub open spec fn spec_step_if(cond: bool, step: MigrationStep) -> Seq<MigrationStep> {
    if cond {
        seq![step]
    } else {
        Seq::empty()
    }
}

/// The minimal plan for a state: create what is missing, patch the columns
/// a pre-search encounter or entity table lacks, run the search migration,
/// the sync table and the spec columns where absent, with the two data
/// backfills the legacy repairs carry.
pub open spec fn spec_plan(s: SchemaState) -> Seq<MigrationStep> {
    spec_step_if(!s.encounter_table, MigrationStep::CreateEncounterTable) + spec_step_if(
        !s.entity_table,
        MigrationStep::CreateEntityTable,
    ) + spec_step_if(s.encounter_table && !s.enc_misc, MigrationStep::AddEncounterMisc)
        + spec_step_if(
        s.encounter_table && !s.enc_difficulty && !s.preview_table,
        MigrationStep::AddEncounterDifficulty,
    ) + spec_step_if(
        s.encounter_table && !s.enc_fvc && !s.preview_table,
        MigrationStep::AddEncounterFavorite,
    ) + spec_step_if(
        s.encounter_table && !s.enc_boss_only_damage && !s.preview_table,
        MigrationStep::AddEncounterBossOnlyDamage,
    ) + spec_step_if(
        s.encounter_table && !s.enc_shielding,
        MigrationStep::AddEncounterShielding,
    ) + spec_step_if(!s.preview_table, MigrationStep::FixClearedData) + spec_step_if(
        s.entity_table && !s.ent_dps,
        MigrationStep::AddEntityDps,
    ) + spec_step_if(
        s.entity_table && !s.ent_character_id,
        MigrationStep::AddEntityCharacterId,
    ) + spec_step_if(
        s.entity_table && !s.ent_engravings,
        MigrationStep::AddEntityEngravings,
    ) + spec_step_if(!s.ent_gear_hash, MigrationStep::AddEntityGearHash)
        + seq![MigrationStep::FixDpsData] + spec_step_if(
        !s.preview_table,
        MigrationStep::FullTextSearch,
    ) + spec_step_if(!s.sync_logs_table, MigrationStep::CreateSyncLogs) + spec_step_if(
        !s.ent_spec,
        MigrationStep::AddEntitySpec,
    )
}

/// The schema after one migration run on `s`.
pub open spec fn spec_migrate(s: SchemaState) -> SchemaState {
    spec_apply_plan(s, spec_plan(s))
}

/// A plan applies piecewise over concatenation.
proof fn lemma_apply_plan_concat(s: SchemaState, a: Seq<MigrationStep>, b: Seq<MigrationStep>)
    ensures
        spec_apply_plan(s, a + b) == spec_apply_plan(spec_apply_plan(s, a), b),
    decreases b.len(),
{
    if b.len() == 0 {
        assert(a + b =~= a);
    } else {
        assert((a + b).drop_last() =~= a + b.drop_last());
        assert((a + b).last() == b.last());
        lemma_apply_plan_concat(s, a, b.drop_last());
    }
}

/// A conditional singleton applies as the conditional of the step.
proof fn lemma_apply_step_if(s: SchemaState, c: bool, st: MigrationStep)
    ensures
        spec_apply_plan(s, spec_step_if(c, st)) == (if c {
            spec_apply_step(s, st)
        } else {
            s
        }),
{
    if c {
        assert(spec_step_if(c, st) == seq![st]);
        assert(seq![st].drop_last() =~= Seq::<MigrationStep>::empty());
        assert(seq![st].last() == st);
        assert(spec_apply_plan(s, seq![st].drop_last()) == s);
        assert(spec_apply_plan(s, seq![st]) == spec_apply_step(s, st));
    } else {
        assert(spec_step_if(c, st) == Seq::<MigrationStep>::empty());
        assert(spec_apply_plan(s, Seq::<MigrationStep>::empty()) == s);
    }
}

/// Every supported state converges to the current schema in one run.
#[verifier::rlimit(100)]
pub proof fn lemma_migration_converges(s: SchemaState)
    requires
        spec_wf(s),
    ensures
        spec_migrate(s) == spec_current(),
{
    let seg1 = spec_step_if(!s.encounter_table, MigrationStep::CreateEncounterTable);
    let seg2 = spec_step_if(!s.entity_table, MigrationStep::CreateEntityTable);
    let seg3 = spec_step_if(s.encounter_table && !s.enc_misc, MigrationStep::AddEncounterMisc);
    let seg4 = spec_step_if(
        s.encounter_table && !s.enc_difficulty && !s.preview_table,
        MigrationStep::AddEncounterDifficulty,
    );
    let seg5 = spec_step_if(
        s.encounter_table && !s.enc_fvc && !s.preview_table,
        MigrationStep::AddEncounterFavorite,
    );
    let seg6 = spec_step_if(
        s.encounter_table && !s.enc_boss_only_damage && !s.preview_table,
        MigrationStep::AddEncounterBossOnlyDamage,
    );
    let seg7 = spec_step_if(
        s.encounter_table && !s.enc_shielding,
        MigrationStep::AddEncounterShielding,
    );
    let seg8 = spec_step_if(!s.preview_table, MigrationStep::FixClearedData);
    let seg9 = spec_step_if(s.entity_table && !s.ent_dps, MigrationStep::AddEntityDps);
    let seg10 = spec_step_if(
        s.entity_table && !s.ent_character_id,
        MigrationStep::AddEntityCharacterId,
    );
    let seg11 = spec_step_if(
        s.entity_table && !s.ent_engravings,
        MigrationStep::AddEntityEngravings,
    );
    let seg12 = spec_step_if(!s.ent_gear_hash, MigrationStep::AddEntityGearHash);
    let seg13 = seq![MigrationStep::FixDpsData];
    let seg14 = spec_step_if(!s.preview_table, MigrationStep::FullTextSearch);
    let seg15 = spec_step_if(!s.sync_logs_table, MigrationStep::CreateSyncLogs);
    let seg16 = spec_step_if(!s.ent_spec, MigrationStep::AddEntitySpec);
    let a1 = seg1;
    let a2 = a1 + seg2;
    let a3 = a2 + seg3;
    let a4 = a3 + seg4;
    let a5 = a4 + seg5;
    let a6 = a5 + seg6;
    let a7 = a6 + seg7;
    let a8 = a7 + seg8;
    let a9 = a8 + seg9;
    let a10 = a9 + seg10;
    let a11 = a10 + seg11;
    let a12 = a11 + seg12;
    let a13 = a12 + seg13;
    let a14 = a13 + seg14;
    let a15 = a14 + seg15;
    let a16 = a15 + seg16;
    assert(spec_plan(s) == a16);
    lemma_apply_plan_concat(s, a1, seg2);
    lemma_apply_plan_concat(s, a2, seg3);
    lemma_apply_plan_concat(s, a3, seg4);
    lemma_apply_plan_concat(s, a4, seg5);
    lemma_apply_plan_concat(s, a5, seg6);
    lemma_apply_plan_concat(s, a6, seg7);
    lemma_apply_plan_concat(s, a7, seg8);
    lemma_apply_plan_concat(s, a8, seg9);
    lemma_apply_plan_concat(s, a9, seg10);
    lemma_apply_plan_concat(s, a10, seg11);
    lemma_apply_plan_concat(s, a11, seg12);
    lemma_apply_plan_concat(s, a12, seg13);
    lemma_apply_plan_concat(s, a13, seg14);
    lemma_apply_plan_concat(s, a14, seg15);
    lemma_apply_plan_concat(s, a15, seg16);
    lemma_apply_step_if(s, !s.encounter_table, MigrationStep::CreateEncounterTable);
    let s1 = spec_apply_plan(s, a1);
    lemma_apply_step_if(s1, !s.entity_table, MigrationStep::CreateEntityTable);
    let s2 = spec_apply_plan(s, a2);
    lemma_apply_step_if(s2, s.encounter_table && !s.enc_misc, MigrationStep::AddEncounterMisc);
    let s3 = spec_apply_plan(s, a3);
    lemma_apply_step_if(
        s3,
        s.encounter_table && !s.enc_difficulty && !s.preview_table,
        MigrationStep::AddEncounterDifficulty,
    );
    let s4 = spec_apply_plan(s, a4);
    lemma_apply_step_if(
        s4,
        s.encounter_table && !s.enc_fvc && !s.preview_table,
        MigrationStep::AddEncounterFavorite,
    );
    let s5 = spec_apply_plan(s, a5);
    lemma_apply_step_if(
        s5,
        s.encounter_table && !s.enc_boss_only_damage && !s.preview_table,
        MigrationStep::AddEncounterBossOnlyDamage,
    );
    let s6 = spec_apply_plan(s, a6);
    lemma_apply_step_if(
        s6,
        s.encounter_table && !s.enc_shielding,
        MigrationStep::AddEncounterShielding,
    );
    let s7 = spec_apply_plan(s, a7);
    lemma_apply_step_if(s7, !s.preview_table, MigrationStep::FixClearedData);
    let s8 = spec_apply_plan(s, a8);
    lemma_apply_step_if(s8, s.entity_table && !s.ent_dps, MigrationStep::AddEntityDps);
    let s9 = spec_apply_plan(s, a9);
    lemma_apply_step_if(
        s9,
        s.entity_table && !s.ent_character_id,
        MigrationStep::AddEntityCharacterId,
    );
    let s10 = spec_apply_plan(s, a10);
    lemma_apply_step_if(
        s10,
        s.entity_table && !s.ent_engravings,
        MigrationStep::AddEntityEngravings,
    );
    let s11 = spec_apply_plan(s, a11);
    lemma_apply_step_if(s11, !s.ent_gear_hash, MigrationStep::AddEntityGearHash);
    let s12 = spec_apply_plan(s, a12);
    assert(spec_apply_plan(s12, seg13) == s12) by {
        assert(seg13.drop_last() =~= Seq::<MigrationStep>::empty());
        assert(seg13.last() == MigrationStep::FixDpsData);
        assert(spec_apply_plan(s12, seg13.drop_last()) == s12);
        assert(spec_apply_step(s12, MigrationStep::FixDpsData) == s12);
    }
    let s13 = spec_apply_plan(s, a13);
    lemma_apply_step_if(s13, !s.preview_table, MigrationStep::FullTextSearch);
    let s14 = spec_apply_plan(s, a14);
    lemma_apply_step_if(s14, !s.sync_logs_table, MigrationStep::CreateSyncLogs);
    let s15 = spec_apply_plan(s, a15);
    lemma_apply_step_if(s15, !s.ent_spec, MigrationStep::AddEntitySpec);
    assert(spec_apply_plan(s, a16) == spec_current());
}

/// Migration idempotence: a second run on an already-migrated database
/// changes nothing.
pub proof fn lemma_migration_idempotent(s: SchemaState)
    requires
        spec_wf(s),
    ensures
        spec_migrate(spec_migrate(s)) == spec_migrate(s),
{
    lemma_migration_converges(s);
    assert(spec_wf(spec_current()));
    lemma_migration_converges(spec_current());
}

/// On the current schema the plan carries no DDL: only the entity dps
/// backfill, which changes no schema, remains.
pub proof fn lemma_plan_on_current_is_noop()
    ensures
        spec_plan(spec_current()) =~= seq![MigrationStep::FixDpsData],
        spec_migrate(spec_current()) == spec_current(),
{
    assert(spec_plan(spec_current()) =~= seq![MigrationStep::FixDpsData]);
    assert(spec_wf(spec_current()));
    lemma_migration_converges(spec_current());
}

/// A brand-new database and any legacy database end at the same schema.
pub proof fn lemma_empty_and_legacy_converge(s: SchemaState)
    requires
        spec_wf(s),
    ensures
        spec_migrate(spec_empty()) == spec_migrate(s),
{
    assert(spec_wf(spec_empty()));
    lemma_migration_converges(spec_empty());
    lemma_migration_converges(s);
}

/// Whether a schema state is one this engine supports.
pub fn is_supported(s: &SchemaState) -> (r: bool)
    ensures
        r == spec_wf(*s),
{
    (!s.encounter_table || s.preview_table || (s.enc_core && !s.enc_logs && (s.enc_fvc
        == s.enc_version))) && (s.encounter_table || (!s.enc_core && !s.enc_misc
        && !s.enc_difficulty && !s.enc_fvc && !s.enc_version && !s.enc_boss_only_damage
        && !s.enc_shielding && !s.enc_logs && !s.preview_table)) && (s.entity_table || (!s.ent_dps
        && !s.ent_character_id && !s.ent_engravings && !s.ent_gear_hash && !s.ent_spec
        && !s.preview_table)) && (!s.preview_table || (s.encounter_table && s.entity_table
        && !s.enc_core && !s.enc_difficulty && !s.enc_fvc && s.enc_version
        && !s.enc_boss_only_damage && s.enc_misc && s.enc_shielding && s.enc_logs))
}

/// Appends `step` when `cond` holds.
fn push_if(out: &mut Vec<MigrationStep>, cond: bool, step: MigrationStep)
    ensures
        final(out)@ == old(out)@ + spec_step_if(cond, step),
{
    if cond {
        out.push(step);
        proof {
            assert(final(out)@ =~= old(out)@ + spec_step_if(cond, step));
        }
    } else {
        proof {
            assert(final(out)@ =~= old(out)@ + spec_step_if(cond, step));
        }
    }
}

/// Computes the plan for a state.
#[verifier::rlimit(100)]
#[verifier::spinoff_prover]
pub fn plan(s: &SchemaState) -> (r: Vec<MigrationStep>)
    ensures
        r@ == spec_plan(*s),
{
    let mut out: Vec<MigrationStep> = Vec::new();
    let ghost mut acc: Seq<MigrationStep> = Seq::empty();
    push_if(&mut out, !s.encounter_table, MigrationStep::CreateEncounterTable);
    proof {
        acc = spec_step_if(!s.encounter_table, MigrationStep::CreateEncounterTable);
        assert(out@ =~= acc);
    }
    push_if(&mut out, !s.entity_table, MigrationStep::CreateEntityTable);
    proof {
        acc = acc + spec_step_if(!s.entity_table, MigrationStep::CreateEntityTable);
        assert(out@ == acc);
    }
    push_if(&mut out, s.encounter_table && !s.enc_misc, MigrationStep::AddEncounterMisc);
    proof {
        acc = acc + spec_step_if(s.encounter_table && !s.enc_misc, MigrationStep::AddEncounterMisc);
        assert(out@ == acc);
    }
    push_if(
        &mut out,
        s.encounter_table && !s.enc_difficulty && !s.preview_table,
        MigrationStep::AddEncounterDifficulty,
    );
    proof {
        acc = acc + spec_step_if(
            s.encounter_table && !s.enc_difficulty && !s.preview_table,
            MigrationStep::AddEncounterDifficulty,
        );
        assert(out@ == acc);
    }
    push_if(
        &mut out,
        s.encounter_table && !s.enc_fvc && !s.preview_table,
        MigrationStep::AddEncounterFavorite,
    );
    proof {
        acc = acc + spec_step_if(
            s.encounter_table && !s.enc_fvc && !s.preview_table,
            MigrationStep::AddEncounterFavorite,
        );
        assert(out@ == acc);
    }
    push_if(
        &mut out,
        s.encounter_table && !s.enc_boss_only_damage && !s.preview_table,
        MigrationStep::AddEncounterBossOnlyDamage,
    );
    proof {
        acc = acc + spec_step_if(
            s.encounter_table && !s.enc_boss_only_damage && !s.preview_table,
            MigrationStep::AddEncounterBossOnlyDamage,
        );
        assert(out@ == acc);
    }
    push_if(&mut out, s.encounter_table && !s.enc_shielding, MigrationStep::AddEncounterShielding);
    proof {
        acc = acc + spec_step_if(
            s.encounter_table && !s.enc_shielding,
            MigrationStep::AddEncounterShielding,
        );
        assert(out@ == acc);
    }
    push_if(&mut out, !s.preview_table, MigrationStep::FixClearedData);
    proof {
        acc = acc + spec_step_if(!s.preview_table, MigrationStep::FixClearedData);
        assert(out@ == acc);
    }
    push_if(&mut out, s.entity_table && !s.ent_dps, MigrationStep::AddEntityDps);
    proof {
        acc = acc + spec_step_if(s.entity_table && !s.ent_dps, MigrationStep::AddEntityDps);
        assert(out@ == acc);
    }
    push_if(&mut out, s.entity_table && !s.ent_character_id, MigrationStep::AddEntityCharacterId);
    proof {
        acc = acc + spec_step_if(
            s.entity_table && !s.ent_character_id,
            MigrationStep::AddEntityCharacterId,
        );
        assert(out@ == acc);
    }
    push_if(&mut out, s.entity_table && !s.ent_engravings, MigrationStep::AddEntityEngravings);
    proof {
        acc = acc + spec_step_if(
            s.entity_table && !s.ent_engravings,
            MigrationStep::AddEntityEngravings,
        );
        assert(out@ == acc);
    }
    push_if(&mut out, !s.ent_gear_hash, MigrationStep::AddEntityGearHash);
    proof {
        acc = acc + spec_step_if(!s.ent_gear_hash, MigrationStep::AddEntityGearHash);
        assert(out@ == acc);
    }
    out.push(MigrationStep::FixDpsData);
    proof {
        acc = acc + seq![MigrationStep::FixDpsData];
        assert(out@ =~= acc);
    }
    push_if(&mut out, !s.preview_table, MigrationStep::FullTextSearch);
    proof {
        acc = acc + spec_step_if(!s.preview_table, MigrationStep::FullTextSearch);
        assert(out@ == acc);
    }
    push_if(&mut out, !s.sync_logs_table, MigrationStep::CreateSyncLogs);
    proof {
        acc = acc + spec_step_if(!s.sync_logs_table, MigrationStep::CreateSyncLogs);
        assert(out@ == acc);
    }
    push_if(&mut out, !s.ent_spec, MigrationStep::AddEntitySpec);
    proof {
        acc = acc + spec_step_if(!s.ent_spec, MigrationStep::AddEntitySpec);
        assert(out@ == acc);
        assert(acc == spec_plan(*s));
    }
    out
}

} // verus!
