use encounter_store::migration_runner::MigrationRunner;
use encounter_store::models::{EncounterDb, EncounterPreviewDb, SearchFilter};
use encounter_store::repository::{Repository, SqliteRepository};
use encounter_store::sqlite::{clone_pool, connection_of, open_memory_pool};

fn sample_encounter_db(last_combat_packet: i64) -> EncounterDb {
    EncounterDb {
        last_combat_packet,
        total_damage_dealt: 0,
        top_damage_dealt: 0,
        total_damage_taken: 0,
        top_damage_taken: 0,
        dps: 0,
        compressed_buffs: Vec::new(),
        compressed_debuffs: Vec::new(),
        total_shielding: 0,
        total_effective_shielding: 0,
        compressed_shields: Vec::new(),
        misc_json: "\"\"".to_string(),
        db_version: 5,
        compressed_boss_hp: Vec::new(),
        stagger_stats_json: "\"\"".to_string(),
    }
}

#[test]
fn should_return_encounter() {
    let pool = open_memory_pool().unwrap();
    let repository = SqliteRepository::new(clone_pool(&pool));
    let migration_runner = MigrationRunner::new(pool);

    migration_runner.run().unwrap();

    let fight_start: i64 = 1_700_000_000_000;
    let last_combat_packet = fight_start + 10 * 60 * 1000;

    let encounter = sample_encounter_db(last_combat_packet);
    let encounter_preview = EncounterPreviewDb {
        fight_start: 10000,
        current_boss_name: "Narok the Butcher".to_string(),
        duration: 100,
        preview_players: "test".to_string(),
        raid_difficulty: "Hard".to_string(),
        local_player: "test".to_string(),
        local_player_dps: 10,
        raid_clear: Some(true),
        boss_only_damage: true,
    };
    let mut pooled = repository.get_connection().unwrap();
    let connection = connection_of(&mut pooled);
    let encounter_id = repository.insert_encounter(connection, encounter).unwrap();
    repository
        .insert_encounter_preview(connection, encounter_id, encounter_preview)
        .unwrap();
    drop(pooled);

    let filter = SearchFilter {
        sort: "fight_start".to_string(),
        ..Default::default()
    };

    let result = repository
        .load_encounters_preview(0, 10, "".to_string(), filter)
        .unwrap();
    assert_eq!(result.encounters.len(), 1);
}

#[test]
fn filters_by_duration_floor() {
    let pool = open_memory_pool().unwrap();
    let repository = SqliteRepository::new(clone_pool(&pool));
    MigrationRunner::new(pool).run().unwrap();

    let mut pooled = repository.get_connection().unwrap();
    let connection = connection_of(&mut pooled);
    let id = repository
        .insert_encounter(connection, sample_encounter_db(1000))
        .unwrap();
    let preview = EncounterPreviewDb {
        fight_start: 10,
        current_boss_name: "Short Fight".to_string(),
        duration: 30_000,
        preview_players: "102:test".to_string(),
        raid_difficulty: "Normal".to_string(),
        local_player: "test".to_string(),
        local_player_dps: 1,
        raid_clear: None,
        boss_only_damage: false,
    };
    repository
        .insert_encounter_preview(connection, id, preview)
        .unwrap();
    drop(pooled);

    // A floor of 60 seconds hides the 30-second fight.
    let mut filter = SearchFilter {
        sort: "fight_start".to_string(),
        ..Default::default()
    };
    filter.min_duration = 60;
    let hidden = repository
        .load_encounters_preview(1, 10, "".to_string(), filter.clone())
        .unwrap();
    assert_eq!(hidden.encounters.len(), 0);
    assert_eq!(hidden.total_encounters, 0);

    filter.min_duration = 10;
    let shown = repository
        .load_encounters_preview(1, 10, "".to_string(), filter)
        .unwrap();
    assert_eq!(shown.encounters.len(), 1);
}

#[test]
fn malformed_player_token_maps_to_unknown() {
    let pool = open_memory_pool().unwrap();
    let repository = SqliteRepository::new(clone_pool(&pool));
    MigrationRunner::new(pool).run().unwrap();

    let mut pooled = repository.get_connection().unwrap();
    let connection = connection_of(&mut pooled);
    let id = repository
        .insert_encounter(connection, sample_encounter_db(1000))
        .unwrap();
    let preview = EncounterPreviewDb {
        fight_start: 10,
        current_boss_name: "Boss".to_string(),
        duration: 100_000,
        preview_players: "notanumber:alice,102:bob,garbled".to_string(),
        raid_difficulty: "Hard".to_string(),
        local_player: "alice".to_string(),
        local_player_dps: 1,
        raid_clear: Some(true),
        boss_only_damage: false,
    };
    repository
        .insert_encounter_preview(connection, id, preview)
        .unwrap();
    drop(pooled);

    let filter = SearchFilter {
        sort: "fight_start".to_string(),
        ..Default::default()
    };
    let overview = repository
        .load_encounters_preview(1, 10, "".to_string(), filter)
        .unwrap();
    let entry = &overview.encounters[0];
    assert_eq!(entry.classes, vec![101, 102, 101]);
    assert_eq!(
        entry.names,
        vec!["alice".to_string(), "bob".to_string(), "Unknown".to_string()]
    );
}
