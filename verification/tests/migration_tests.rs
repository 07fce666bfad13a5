use encounter_store::migration_runner::MigrationRunner;
use encounter_store::sqlite::{clone_pool, connection_of, open_memory_pool, pool_get, DbPool};

fn table_names(pool: &DbPool) -> Vec<String> {
    let mut pooled = pool_get(pool).unwrap();
    let conn = connection_of(&mut pooled);
    let mut statement = conn
        .prepare("SELECT name FROM sqlite_master WHERE type IN ('table', 'trigger') ORDER BY name")
        .unwrap();
    let names = statement
        .query_map([], |row| row.get::<usize, String>(0))
        .unwrap()
        .collect::<Result<Vec<_>, _>>()
        .unwrap();
    names
}

fn column_names(pool: &DbPool, table: &str) -> Vec<String> {
    let mut pooled = pool_get(pool).unwrap();
    let conn = connection_of(&mut pooled);
    let mut statement = conn
        .prepare("SELECT name FROM pragma_table_info(?) ORDER BY name")
        .unwrap();
    let names = statement
        .query_map([table], |row| row.get::<usize, String>(0))
        .unwrap()
        .collect::<Result<Vec<_>, _>>()
        .unwrap();
    names
}

#[test]
fn should_create_new_database() {
    let connection_pool = open_memory_pool().unwrap();
    let migration_runner = MigrationRunner::new(connection_pool);

    migration_runner.run().unwrap();
}

#[test]
fn migration_is_idempotent() {
    let pool = open_memory_pool().unwrap();
    let runner = MigrationRunner::new(clone_pool(&pool));

    runner.run().unwrap();
    let tables_after_first = table_names(&pool);
    let encounter_cols_first = column_names(&pool, "encounter");
    let entity_cols_first = column_names(&pool, "entity");
    let preview_cols_first = column_names(&pool, "encounter_preview");

    runner.run().unwrap();
    assert_eq!(table_names(&pool), tables_after_first);
    assert_eq!(column_names(&pool, "encounter"), encounter_cols_first);
    assert_eq!(column_names(&pool, "entity"), entity_cols_first);
    assert_eq!(column_names(&pool, "encounter_preview"), preview_cols_first);
}

#[test]
fn empty_and_legacy_databases_converge() {
    // From empty.
    let fresh = open_memory_pool().unwrap();
    MigrationRunner::new(clone_pool(&fresh)).run().unwrap();

    // From a legacy database: the pre-search schema without the later
    // column patches.
    let legacy = open_memory_pool().unwrap();
    {
        let mut pooled = pool_get(&legacy).unwrap();
        let conn = connection_of(&mut pooled);
        conn.execute_batch(
            "
            CREATE TABLE encounter (
                id INTEGER PRIMARY KEY,
                last_combat_packet INTEGER,
                fight_start INTEGER,
                local_player TEXT,
                current_boss TEXT,
                duration INTEGER,
                total_damage_dealt INTEGER,
                top_damage_dealt INTEGER,
                total_damage_taken INTEGER,
                top_damage_taken INTEGER,
                dps INTEGER,
                buffs TEXT,
                debuffs TEXT
            );
            CREATE TABLE entity (
                name TEXT,
                encounter_id INTEGER NOT NULL,
                npc_id INTEGER,
                entity_type TEXT,
                class_id INTEGER,
                class TEXT,
                gear_score REAL,
                current_hp INTEGER,
                max_hp INTEGER,
                is_dead INTEGER,
                skills TEXT,
                damage_stats TEXT,
                skill_stats TEXT,
                last_update INTEGER,
                PRIMARY KEY (name, encounter_id)
            );
            ",
        )
        .unwrap();
    }
    MigrationRunner::new(clone_pool(&legacy)).run().unwrap();

    assert_eq!(
        column_names(&fresh, "encounter"),
        column_names(&legacy, "encounter")
    );
    assert_eq!(
        column_names(&fresh, "encounter_preview"),
        column_names(&legacy, "encounter_preview")
    );
    assert_eq!(
        column_names(&fresh, "sync_logs"),
        column_names(&legacy, "sync_logs")
    );
    // The legacy entity table keeps its historical column order but must
    // hold the same column set.
    let mut fresh_entity = column_names(&fresh, "entity");
    let mut legacy_entity = column_names(&legacy, "entity");
    fresh_entity.sort();
    legacy_entity.sort();
    assert_eq!(fresh_entity, legacy_entity);
}

#[test]
fn migrated_database_accepts_preview_rows() {
    let pool = open_memory_pool().unwrap();
    MigrationRunner::new(clone_pool(&pool)).run().unwrap();

    let mut pooled = pool_get(&pool).unwrap();
    let conn = connection_of(&mut pooled);
    conn.execute(
        "INSERT INTO encounter (last_combat_packet, total_damage_dealt, dps) VALUES (1, 2, 3)",
        [],
    )
    .unwrap();
    conn.execute(
        "INSERT INTO encounter_preview (id, fight_start, current_boss, duration, players, difficulty, local_player, my_dps, cleared, boss_only_damage)
         VALUES (1, 10, 'Narok the Butcher', 100, '102:test', 'Hard', 'test', 10, 1, 0)",
        [],
    )
    .unwrap();
    let indexed: i64 = conn
        .query_row(
            "SELECT COUNT(*) FROM encounter_search WHERE encounter_search MATCH '\"Narok\"'",
            [],
            |row| row.get(0),
        )
        .unwrap();
    assert_eq!(indexed, 1);
}
