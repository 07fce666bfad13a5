use encounter_store::encounter_service::{DefaultEncounterService, EncounterService};
use encounter_store::migration_runner::MigrationRunner;
use encounter_store::models::{
    CreateEncounter, DamageStats, Encounter, EncounterDamageStats, EncounterEntity, EntityType,
    SearchFilter, SkillStats, StoreError,
};
use encounter_store::repository::{Repository, SqliteRepository};
use encounter_store::sqlite::{clone_pool, open_memory_pool};

fn boss_entity(name: &str, max_hp: i64, damage_dealt: i64) -> EncounterEntity {
    EncounterEntity {
        id: 1,
        character_id: 0,
        npc_id: 1,
        name: name.to_string(),
        entity_type: EntityType::Boss,
        class_id: 0,
        class: "Unknown".to_string(),
        gear_score_hundredths: 0,
        current_hp: 0,
        max_hp,
        current_shield: 0,
        is_dead: true,
        skills: Vec::new(),
        damage_stats: DamageStats {
            damage_dealt,
            damage_taken: 0,
            dps: 0,
            dps_rolling_10s_avg: Vec::new(),
        },
        skill_stats: SkillStats {
            casts: 0,
            hits: 0,
            crits: 0,
            identity_stats: None,
        },
        engraving_data: None,
        gear_hash: None,
        ark_passive_active: None,
        ark_passive_data: None,
        spec: Some("Unknown".to_string()),
    }
}

fn player_entity(name: &str, class_id: u32, damage_dealt: i64) -> EncounterEntity {
    EncounterEntity {
        id: 100 + class_id as u64,
        character_id: 7,
        npc_id: 0,
        name: name.to_string(),
        entity_type: EntityType::Player,
        class_id,
        class: "Berserker".to_string(),
        gear_score_hundredths: 162_000,
        current_hp: 100,
        max_hp: 200,
        current_shield: 0,
        is_dead: false,
        skills: Vec::new(),
        damage_stats: DamageStats {
            damage_dealt,
            damage_taken: 5,
            dps: 2,
            dps_rolling_10s_avg: Vec::new(),
        },
        skill_stats: SkillStats {
            casts: 3,
            hits: 5,
            crits: 1,
            identity_stats: None,
        },
        engraving_data: None,
        gear_hash: None,
        ark_passive_active: None,
        ark_passive_data: None,
        spec: None,
    }
}

fn base_payload(entities: Vec<EncounterEntity>) -> CreateEncounter {
    let fight_start: i64 = 1_700_000_000_000;
    let last_combat_packet = fight_start + 10 * 60 * 1000;
    CreateEncounter {
        encounter: Encounter {
            last_combat_packet,
            fight_start,
            local_player: "test".to_string(),
            entities,
            current_boss_name: "Narok the Butcher".to_string(),
            encounter_damage_stats: EncounterDamageStats {
                total_damage_dealt: 100,
                top_damage_dealt: 10,
                total_damage_taken: 100,
                top_damage_taken: 10,
                dps: 2,
                total_shielding: 0,
                total_effective_shielding: 0,
                max_stagger: 0,
                stagger_start: 0,
                buffs_doc: "{}".to_string(),
                debuffs_doc: "{}".to_string(),
                applied_shield_buffs_doc: "{}".to_string(),
            },
            duration: last_combat_packet - fight_start,
            boss_only_damage: true,
        },
        prev_stagger: 0,
        damage_log: Vec::new(),
        identity_log: Vec::new(),
        cast_log: Vec::new(),
        boss_hp_log: Vec::new(),
        stagger_log: Vec::new(),
        stagger_intervals: Vec::new(),
        raid_clear: true,
        party_info: vec![
            vec![
                "player_1".to_string(),
                "player_2".to_string(),
                "player_3".to_string(),
                "player_4".to_string(),
            ],
            vec![
                "player_5".to_string(),
                "player_6".to_string(),
                "player_7".to_string(),
                "player_8".to_string(),
            ],
        ],
        raid_difficulty: "Hard".to_string(),
        region: Some("EUC".to_string()),
        player_info: None,
        version: "0.0.1".to_string(),
        ntp_fight_start: 0,
        rdps_valid: false,
        manual: false,
        skill_cast_log: Vec::new(),
    }
}

#[test]
fn should_create_new_encounter() {
    let pool = open_memory_pool().unwrap();
    let repository = SqliteRepository::new(clone_pool(&pool));
    let migration_runner = MigrationRunner::new(pool);
    let service = DefaultEncounterService::new(repository);

    migration_runner.run().unwrap();

    let payload = base_payload(Vec::new());
    service.create(payload).unwrap();
}

#[test]
fn end_to_end_insert_then_list() {
    let pool = open_memory_pool().unwrap();
    let repository = SqliteRepository::new(clone_pool(&pool));
    let migration_runner = MigrationRunner::new(clone_pool(&pool));
    let service = DefaultEncounterService::new(SqliteRepository::new(clone_pool(&pool)));

    migration_runner.run().unwrap();

    let mut entities = vec![boss_entity("Narok the Butcher", 1_000_000, 0)];
    entities.push(player_entity("test", 102, 100));
    let payload = base_payload(entities);
    let id = service.create(payload).unwrap();
    assert!(id > 0);

    let filter = SearchFilter {
        sort: "fight_start".to_string(),
        ..Default::default()
    };
    let overview = repository
        .load_encounters_preview(1, 10, "".to_string(), filter)
        .unwrap();
    assert_eq!(overview.encounters.len(), 1);
    assert_eq!(overview.total_encounters, 1);
    let entry = &overview.encounters[0];
    assert_eq!(entry.boss_name, "Narok the Butcher");
    assert!(entry.cleared);
    assert_eq!(entry.my_dps, 2);
    assert_eq!(entry.classes, vec![102]);
    assert_eq!(entry.names, vec!["test".to_string()]);
}

#[test]
fn rollback_leaves_no_partial_encounter() {
    let pool = open_memory_pool().unwrap();
    let repository = SqliteRepository::new(clone_pool(&pool));
    let migration_runner = MigrationRunner::new(clone_pool(&pool));
    let service = DefaultEncounterService::new(SqliteRepository::new(clone_pool(&pool)));

    migration_runner.run().unwrap();

    // Two combatants under the same name violate the entity table's
    // composite key, so the second insert fails mid-write.
    let entities = vec![
        player_entity("twin", 102, 50),
        player_entity("twin", 103, 60),
    ];
    let payload = base_payload(entities);
    let result = service.create(payload);
    assert!(matches!(result, Err(StoreError::ConstraintViolation(_))));

    let filter = SearchFilter {
        sort: "fight_start".to_string(),
        ..Default::default()
    };
    let overview = repository
        .load_encounters_preview(1, 10, "".to_string(), filter)
        .unwrap();
    assert_eq!(overview.encounters.len(), 0);
    assert_eq!(overview.total_encounters, 0);

    // No encounter or entity row is visible either.
    let mut pooled = repository.get_connection().unwrap();
    let conn = encounter_store::sqlite::connection_of(&mut pooled);
    let encounters: i64 = conn
        .query_row("SELECT COUNT(*) FROM encounter", [], |row| row.get(0))
        .unwrap();
    let entity_rows: i64 = conn
        .query_row("SELECT COUNT(*) FROM entity", [], |row| row.get(0))
        .unwrap();
    assert_eq!(encounters, 0);
    assert_eq!(entity_rows, 0);
}

#[test]
fn rejects_unlisted_sort_column() {
    let pool = open_memory_pool().unwrap();
    let repository = SqliteRepository::new(clone_pool(&pool));
    let migration_runner = MigrationRunner::new(pool);
    migration_runner.run().unwrap();

    let filter = SearchFilter {
        sort: "players; DROP TABLE encounter".to_string(),
        ..Default::default()
    };
    let result = repository.load_encounters_preview(1, 10, "".to_string(), filter);
    assert!(matches!(result, Err(StoreError::QueryBuild(_))));
}

#[test]
fn full_text_search_finds_boss_name() {
    let pool = open_memory_pool().unwrap();
    let repository = SqliteRepository::new(clone_pool(&pool));
    let migration_runner = MigrationRunner::new(clone_pool(&pool));
    let service = DefaultEncounterService::new(SqliteRepository::new(clone_pool(&pool)));

    migration_runner.run().unwrap();
    let payload = base_payload(vec![player_entity("test", 102, 100)]);
    service.create(payload).unwrap();

    let filter = SearchFilter {
        sort: "fight_start".to_string(),
        ..Default::default()
    };
    let found = repository
        .load_encounters_preview(1, 10, "Narok".to_string(), filter.clone())
        .unwrap();
    assert_eq!(found.encounters.len(), 1);

    let missed = repository
        .load_encounters_preview(1, 10, "Valtan".to_string(), filter)
        .unwrap();
    assert_eq!(missed.encounters.len(), 0);
}
