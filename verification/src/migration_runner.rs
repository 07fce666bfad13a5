//! The schema-evolution engine's runner: introspects the database's tables
//! and columns into a `SchemaState`, lets the pure planner pick the steps,
//! and applies their DDL inside one transaction, all or nothing.

use vstd::prelude::*;
use crate::migration::{plan, is_supported, MigrationStep, SchemaState};
use crate::models::StoreError;
use crate::sqlite::{
    DbPool,
    pool_get,
    connection_of,
    begin_transaction,
    tx_connection,
    prepare,
    statement_exists,
    execute_batch,
    commit,
    pool_error_text,
    sqlite_error_text,
};

verus! {

/// The DDL batches of the migration steps.
pub const CREATE_ENCOUNTER_TABLE_SQL: &'static str = "
            CREATE TABLE IF NOT EXISTS encounter (
                id INTEGER PRIMARY KEY,
                last_combat_packet INTEGER,
                fight_start INTEGER,
                local_player TEXT,
                current_boss TEXT,
                duration INTEGER,
                total_damage_dealt INTEGER,
                top_damage_dealt INTEGER,
                total_damage_taken INTEGER,
                top_damage_taken INTEGER,
                dps INTEGER,
                buffs TEXT,
                debuffs TEXT,
                total_shielding INTEGER DEFAULT 0,
                total_effective_shielding INTEGER DEFAULT 0,
                applied_shield_buffs TEXT,
                misc TEXT,
                difficulty TEXT,
                favorite BOOLEAN NOT NULL DEFAULT 0,
                cleared BOOLEAN,
                version INTEGER NOT NULL DEFAULT 5,
                boss_only_damage BOOLEAN NOT NULL DEFAULT 0
            );
            CREATE INDEX IF NOT EXISTS encounter_fight_start_index ON encounter (fight_start desc);
            CREATE INDEX IF NOT EXISTS encounter_current_boss_index ON encounter (current_boss);
            ";

pub const CREATE_ENTITY_TABLE_SQL: &'static str = "
            CREATE TABLE IF NOT EXISTS entity (
                name TEXT,
                character_id INTEGER,
                encounter_id INTEGER NOT NULL,
                npc_id INTEGER,
                entity_type TEXT,
                class_id INTEGER,
                class TEXT,
                gear_score REAL,
                current_hp INTEGER,
                max_hp INTEGER,
                is_dead INTEGER,
                skills TEXT,
                damage_stats TEXT,
                dps INTEGER,
                skill_stats TEXT,
                last_update INTEGER,
                engravings TEXT,
                PRIMARY KEY (name, encounter_id),
                FOREIGN KEY (encounter_id) REFERENCES encounter (id) ON DELETE CASCADE
            );
            CREATE INDEX IF NOT EXISTS entity_encounter_id_index ON entity (encounter_id desc);
            CREATE INDEX IF NOT EXISTS entity_name_index ON entity (name);
            CREATE INDEX IF NOT EXISTS entity_class_index ON entity (class);
            ";

pub const ADD_ENCOUNTER_MISC_SQL: &'static str = "ALTER TABLE encounter ADD COLUMN misc TEXT;";

pub const ADD_ENCOUNTER_DIFFICULTY_SQL: &'static str = "ALTER TABLE encounter ADD COLUMN difficulty TEXT;";

pub const ADD_ENCOUNTER_FAVORITE_SQL: &'static str = "
            ALTER TABLE encounter ADD COLUMN favorite BOOLEAN DEFAULT 0;
            ALTER TABLE encounter ADD COLUMN version INTEGER DEFAULT 5;
            ALTER TABLE encounter ADD COLUMN cleared BOOLEAN;
            ";

pub const ADD_ENCOUNTER_BOSS_ONLY_DAMAGE_SQL: &'static str = "ALTER TABLE encounter ADD COLUMN boss_only_damage BOOLEAN NOT NULL DEFAULT 0;";

pub const ADD_ENCOUNTER_SHIELDING_SQL: &'static str = "
            ALTER TABLE encounter ADD COLUMN total_shielding INTEGER DEFAULT 0;
            ALTER TABLE encounter ADD COLUMN total_effective_shielding INTEGER DEFAULT 0;
            ALTER TABLE encounter ADD COLUMN applied_shield_buffs TEXT;
            ";

pub const FIX_CLEARED_DATA_SQL: &'static str = "UPDATE encounter SET cleared = coalesce(json_extract(misc, '$.raidClear'), 0) WHERE cleared IS NULL;";

pub const ADD_ENTITY_DPS_SQL: &'static str = "ALTER TABLE entity ADD COLUMN dps INTEGER;";

pub const ADD_ENTITY_CHARACTER_ID_SQL: &'static str = "ALTER TABLE entity ADD COLUMN character_id INTEGER;";

pub const ADD_ENTITY_ENGRAVINGS_SQL: &'static str = "ALTER TABLE entity ADD COLUMN engravings TEXT;";

pub const ADD_ENTITY_GEAR_HASH_SQL: &'static str = "ALTER TABLE entity ADD COLUMN gear_hash TEXT;";

pub const FIX_DPS_DATA_SQL: &'static str = "UPDATE entity SET dps = coalesce(json_extract(damage_stats, '$.dps'), 0) WHERE dps IS NULL;";

pub const FULL_TEXT_SEARCH_SQL: &'static str = "
            CREATE TABLE encounter_preview (
                id INTEGER PRIMARY KEY,
                fight_start INTEGER,
                current_boss TEXT,
                duration INTEGER,
                players TEXT,
                difficulty TEXT,
                local_player TEXT,
                my_dps INTEGER,
                favorite BOOLEAN NOT NULL DEFAULT 0,
                cleared BOOLEAN,
                boss_only_damage BOOLEAN NOT NULL DEFAULT 0,
                FOREIGN KEY (id) REFERENCES encounter(id) ON DELETE CASCADE
            );

            INSERT INTO encounter_preview SELECT
                id, fight_start, current_boss, duration,
                (
                    SELECT GROUP_CONCAT(class_id || ':' || name ORDER BY dps DESC)
                    FROM entity
                    WHERE encounter_id = encounter.id AND entity_type = 'PLAYER'
                ) AS players,
                difficulty, local_player,
                (
                    SELECT dps
                    FROM entity
                    WHERE encounter_id = encounter.id AND name = encounter.local_player
                ) AS my_dps,
                favorite, cleared, boss_only_damage
            FROM encounter;

            DROP INDEX IF EXISTS encounter_fight_start_index;
            DROP INDEX IF EXISTS encounter_current_boss_index;
            DROP INDEX IF EXISTS encounter_favorite_index;
            DROP INDEX IF EXISTS entity_name_index;
            DROP INDEX IF EXISTS entity_class_index;

            ALTER TABLE encounter DROP COLUMN fight_start;
            ALTER TABLE encounter DROP COLUMN current_boss;
            ALTER TABLE encounter DROP COLUMN duration;
            ALTER TABLE encounter DROP COLUMN difficulty;
            ALTER TABLE encounter DROP COLUMN local_player;
            ALTER TABLE encounter DROP COLUMN favorite;
            ALTER TABLE encounter DROP COLUMN cleared;
            ALTER TABLE encounter DROP COLUMN boss_only_damage;

            ALTER TABLE encounter ADD COLUMN boss_hp_log BLOB;
            ALTER TABLE encounter ADD COLUMN stagger_log TEXT;

            CREATE INDEX encounter_preview_favorite_index ON encounter_preview(favorite);
            CREATE INDEX encounter_preview_fight_start_index ON encounter_preview(fight_start);
            CREATE INDEX encounter_preview_my_dps_index ON encounter_preview(my_dps);
            CREATE INDEX encounter_preview_duration_index ON encounter_preview(duration);

            CREATE VIRTUAL TABLE encounter_search USING fts5(
                current_boss, players, columnsize=0, detail=full,
                tokenize='trigram remove_diacritics 1',
                content=encounter_preview, content_rowid=id
            );
            INSERT INTO encounter_search(encounter_search) VALUES('rebuild');
            CREATE TRIGGER encounter_preview_ai AFTER INSERT ON encounter_preview BEGIN
                INSERT INTO encounter_search(rowid, current_boss, players)
                VALUES (new.id, new.current_boss, new.players);
            END;
            CREATE TRIGGER encounter_preview_ad AFTER DELETE ON encounter_preview BEGIN
                INSERT INTO encounter_search(encounter_search, rowid, current_boss, players)
                VALUES('delete', old.id, old.current_boss, old.players);
            END;
            CREATE TRIGGER encounter_preview_au AFTER UPDATE OF current_boss, players ON encounter_preview BEGIN
                INSERT INTO encounter_search(encounter_search, rowid, current_boss, players)
                VALUES('delete', old.id, old.current_boss, old.players);
                INSERT INTO encounter_search(rowid, current_boss, players)
                VALUES (new.id, new.current_boss, new.players);
            END;
            ";

pub const CREATE_SYNC_LOGS_SQL: &'static str = "
            CREATE TABLE IF NOT EXISTS sync_logs (
                encounter_id INTEGER PRIMARY KEY,
                upstream_id TEXT,
                failed BOOLEAN NOT NULL DEFAULT 0,
                FOREIGN KEY (encounter_id) REFERENCES encounter (id) ON DELETE CASCADE
            );";

pub const ADD_ENTITY_SPEC_SQL: &'static str = "
            ALTER TABLE entity ADD COLUMN spec TEXT;
            ALTER TABLE entity ADD COLUMN ark_passive_active BOOLEAN;
            ALTER TABLE entity ADD COLUMN ark_passive_data TEXT;
            ";

/// The DDL batch of one migration step.
pub open spec fn spec_step_sql(step: MigrationStep) -> Seq<char> {
    match step {
        MigrationStep::CreateEncounterTable => CREATE_ENCOUNTER_TABLE_SQL@,
        MigrationStep::CreateEntityTable => CREATE_ENTITY_TABLE_SQL@,
        MigrationStep::AddEncounterMisc => ADD_ENCOUNTER_MISC_SQL@,
        MigrationStep::AddEncounterDifficulty => ADD_ENCOUNTER_DIFFICULTY_SQL@,
        MigrationStep::AddEncounterFavorite => ADD_ENCOUNTER_FAVORITE_SQL@,
        MigrationStep::AddEncounterBossOnlyDamage => ADD_ENCOUNTER_BOSS_ONLY_DAMAGE_SQL@,
        MigrationStep::AddEncounterShielding => ADD_ENCOUNTER_SHIELDING_SQL@,
        MigrationStep::FixClearedData => FIX_CLEARED_DATA_SQL@,
        MigrationStep::AddEntityDps => ADD_ENTITY_DPS_SQL@,
        MigrationStep::AddEntityCharacterId => ADD_ENTITY_CHARACTER_ID_SQL@,
        MigrationStep::AddEntityEngravings => ADD_ENTITY_ENGRAVINGS_SQL@,
        MigrationStep::AddEntityGearHash => ADD_ENTITY_GEAR_HASH_SQL@,
        MigrationStep::FixDpsData => FIX_DPS_DATA_SQL@,
        MigrationStep::FullTextSearch => FULL_TEXT_SEARCH_SQL@,
        MigrationStep::CreateSyncLogs => CREATE_SYNC_LOGS_SQL@,
        MigrationStep::AddEntitySpec => ADD_ENTITY_SPEC_SQL@,
    }
}

pub fn step_sql(step: MigrationStep) -> (r: &'static str)
    ensures
        r@ == spec_step_sql(step),
{
    match step {
        MigrationStep::CreateEncounterTable => CREATE_ENCOUNTER_TABLE_SQL,
        MigrationStep::CreateEntityTable => CREATE_ENTITY_TABLE_SQL,
        MigrationStep::AddEncounterMisc => ADD_ENCOUNTER_MISC_SQL,
        MigrationStep::AddEncounterDifficulty => ADD_ENCOUNTER_DIFFICULTY_SQL,
        MigrationStep::AddEncounterFavorite => ADD_ENCOUNTER_FAVORITE_SQL,
        MigrationStep::AddEncounterBossOnlyDamage => ADD_ENCOUNTER_BOSS_ONLY_DAMAGE_SQL,
        MigrationStep::AddEncounterShielding => ADD_ENCOUNTER_SHIELDING_SQL,
        MigrationStep::FixClearedData => FIX_CLEARED_DATA_SQL,
        MigrationStep::AddEntityDps => ADD_ENTITY_DPS_SQL,
        MigrationStep::AddEntityCharacterId => ADD_ENTITY_CHARACTER_ID_SQL,
        MigrationStep::AddEntityEngravings => ADD_ENTITY_ENGRAVINGS_SQL,
        MigrationStep::AddEntityGearHash => ADD_ENTITY_GEAR_HASH_SQL,
        MigrationStep::FixDpsData => FIX_DPS_DATA_SQL,
        MigrationStep::FullTextSearch => FULL_TEXT_SEARCH_SQL,
        MigrationStep::CreateSyncLogs => CREATE_SYNC_LOGS_SQL,
        MigrationStep::AddEntitySpec => ADD_ENTITY_SPEC_SQL,
    }
}

fn migration_err(e: rusqlite::Error) -> (r: StoreError)
    ensures
        r is Migration,
{
    StoreError::Migration(sqlite_error_text(&e))
}

/// Reads which tables and columns exist.
fn introspect_schema(conn: &rusqlite::Connection) -> (r: Result<SchemaState, StoreError>)
    ensures
        r matches Err(e) ==> e is Migration,
{
    let mut tables = match prepare(conn, "SELECT 1 FROM sqlite_master WHERE type=? AND name=?") {
        Ok(s) => s,
        Err(e) => {
            return Err(migration_err(e));
        },
    };
    let encounter_table = match statement_exists(&mut tables, "table", "encounter") {
        Ok(b) => b,
        Err(e) => {
            return Err(migration_err(e));
        },
    };
    let entity_table = match statement_exists(&mut tables, "table", "entity") {
        Ok(b) => b,
        Err(e) => {
            return Err(migration_err(e));
        },
    };
    let preview_table = match statement_exists(&mut tables, "table", "encounter_preview") {
        Ok(b) => b,
        Err(e) => {
            return Err(migration_err(e));
        },
    };
    let sync_logs_table = match statement_exists(&mut tables, "table", "sync_logs") {
        Ok(b) => b,
        Err(e) => {
            return Err(migration_err(e));
        },
    };
    let mut columns = match prepare(conn, "SELECT 1 FROM pragma_table_info(?) WHERE name=?") {
        Ok(s) => s,
        Err(e) => {
            return Err(migration_err(e));
        },
    };
    let enc_core = match statement_exists(&mut columns, "encounter", "fight_start") {
        Ok(b) => b,
        Err(e) => {
            return Err(migration_err(e));
        },
    };
    let enc_misc = match statement_exists(&mut columns, "encounter", "misc") {
        Ok(b) => b,
        Err(e) => {
            return Err(migration_err(e));
        },
    };
    let enc_difficulty = match statement_exists(&mut columns, "encounter", "difficulty") {
        Ok(b) => b,
        Err(e) => {
            return Err(migration_err(e));
        },
    };
    let enc_fvc = match statement_exists(&mut columns, "encounter", "favorite") {
        Ok(b) => b,
        Err(e) => {
            return Err(migration_err(e));
        },
    };
    let enc_version = match statement_exists(&mut columns, "encounter", "version") {
        Ok(b) => b,
        Err(e) => {
            return Err(migration_err(e));
        },
    };
    let enc_boss_only_damage = match statement_exists(&mut columns, "encounter", "boss_only_damage")
    {
        Ok(b) => b,
        Err(e) => {
            return Err(migration_err(e));
        },
    };
    let enc_shielding = match statement_exists(&mut columns, "encounter", "total_shielding") {
        Ok(b) => b,
        Err(e) => {
            return Err(migration_err(e));
        },
    };
    let enc_logs = match statement_exists(&mut columns, "encounter", "boss_hp_log") {
        Ok(b) => b,
        Err(e) => {
            return Err(migration_err(e));
        },
    };
    let ent_dps = match statement_exists(&mut columns, "entity", "dps") {
        Ok(b) => b,
        Err(e) => {
            return Err(migration_err(e));
        },
    };
    let ent_character_id = match statement_exists(&mut columns, "entity", "character_id") {
        Ok(b) => b,
        Err(e) => {
            return Err(migration_err(e));
        },
    };
    let ent_engravings = match statement_exists(&mut columns, "entity", "engravings") {
        Ok(b) => b,
        Err(e) => {
            return Err(migration_err(e));
        },
    };
    let ent_gear_hash = match statement_exists(&mut columns, "entity", "gear_hash") {
        Ok(b) => b,
        Err(e) => {
            return Err(migration_err(e));
        },
    };
    let ent_spec = match statement_exists(&mut columns, "entity", "spec") {
        Ok(b) => b,
        Err(e) => {
            return Err(migration_err(e));
        },
    };
    Ok(
        SchemaState {
            encounter_table,
            entity_table,
            preview_table,
            sync_logs_table,
            enc_core,
            enc_misc,
            enc_difficulty,
            enc_fvc,
            enc_version,
            enc_boss_only_damage,
            enc_shielding,
            enc_logs,
            ent_dps,
            ent_character_id,
            ent_engravings,
            ent_gear_hash,
            ent_spec,
        },
    )
}

/// Brings any supported database to the current schema, inside one
/// transaction. Safe on a brand-new file, on any prior version of this
/// schema, and on a current one, where it is a pure no-op.
pub struct MigrationRunner {
    pool: DbPool,
}

impl MigrationRunner {
    pub fn new(pool: DbPool) -> (r: Self) {
        MigrationRunner { pool }
    }

    /// Runs the planned migration steps; any failure aborts the whole
    /// transaction, so a half-migrated database is never observable.
    pub fn run(&self) -> (r: Result<(), StoreError>)
        ensures
            r matches Err(e) ==> e is Migration || e is ConnectionAcquisition,
    {
        let mut pooled = match pool_get(&self.pool) {
            Ok(c) => c,
            Err(e) => {
                return Err(StoreError::ConnectionAcquisition(pool_error_text(&e)));
            },
        };
        let conn = connection_of(&mut pooled);
        let tx = match begin_transaction(conn) {
            Ok(t) => t,
            Err(e) => {
                return Err(migration_err(e));
            },
        };
        let c = tx_connection(&tx);
        let state = match introspect_schema(c) {
            Ok(s) => s,
            Err(e) => {
                return Err(e);
            },
        };
        if !is_supported(&state) {
            proof {
                reveal_strlit("database holds an unsupported schema layout");
            }
            return Err(
                StoreError::Migration("database holds an unsupported schema layout".to_owned()),
            );
        }
        let steps = plan(&state);
        let mut i: usize = 0;
        while i < steps.len()
            invariant
                0 <= i <= steps@.len(),
            decreases steps@.len() - i,
        {
            match execute_batch(c, step_sql(steps[i])) {
                Ok(()) => {},
                Err(e) => {
                    return Err(migration_err(e));
                },
            }
            i = i + 1;
        }
        match commit(tx) {
            Ok(()) => Ok(()),
            Err(e) => Err(migration_err(e)),
        }
    }
}

} // verus!
