use encounter_store::models::{
    ArkPassiveData, CreateEncounter, DamageStats, Encounter, EncounterDamageStats,
    EncounterEntity, EntityType, Gem, PlayerStats, Skill, SkillStats,
};
use encounter_store::utils::{
    enlightenment_spec, gem_level, is_class_engraving, resolve_spec, to_entities_db,
};

fn player_stats() -> PlayerStats {
    PlayerStats {
        gems: Vec::new(),
        engravings: None,
        ark_passive_enabled: false,
        ark_passive_data: None,
    }
}

#[test]
fn known_spec_is_kept() {
    let info = player_stats();
    assert_eq!(
        resolve_spec(&Some("Mayhem".to_string()), &info),
        Some("Mayhem".to_string())
    );
}

#[test]
fn enlightenment_node_overrides_unknown_spec() {
    let mut info = player_stats();
    info.ark_passive_enabled = true;
    info.ark_passive_data = Some(ArkPassiveData {
        enlightenment: vec![999, 2070200],
    });
    assert_eq!(
        resolve_spec(&Some("Unknown".to_string()), &info),
        Some("Mayhem".to_string())
    );
}

#[test]
fn single_class_engraving_resolves_spec() {
    let mut info = player_stats();
    info.engravings = Some(vec![
        "Grudge".to_string(),
        "Igniter".to_string(),
        "Adrenaline".to_string(),
    ]);
    assert_eq!(resolve_spec(&None, &info), Some("Igniter".to_string()));

    // Two class engravings are ambiguous, so nothing resolves.
    info.engravings = Some(vec!["Igniter".to_string(), "Reflux".to_string()]);
    assert_eq!(resolve_spec(&None, &info), None);
}

#[test]
fn gem_level_table() {
    assert_eq!(gem_level(3, 7), 7);
    assert_eq!(gem_level(3, 12), 10);
    assert_eq!(gem_level(4, 8), 10);
    assert_eq!(gem_level(4, 9), 10);
    assert_eq!(gem_level(4, 5), 7);
    assert!(is_class_engraving("Full Bloom"));
    assert!(!is_class_engraving("Grudge"));
    assert_eq!(enlightenment_spec(2140100), Some("Pinnacle"));
    assert_eq!(enlightenment_spec(1), None);
}

#[test]
fn entity_rows_carry_derived_dps_and_gems() {
    let skill = Skill {
        id: 777,
        name: "Red Dust".to_string(),
        total_damage: 900,
        dps: 0,
        cast_log: Vec::new(),
        adjusted_crit_hundredths: None,
        max_damage_cast: 0,
        gem_damage_level: None,
        gem_cooldown_level: None,
    };
    let entity = EncounterEntity {
        id: 11,
        character_id: 22,
        npc_id: 0,
        name: "alice".to_string(),
        entity_type: EntityType::Player,
        class_id: 102,
        class: "Berserker".to_string(),
        gear_score_hundredths: 160_000,
        current_hp: 1,
        max_hp: 2,
        current_shield: 0,
        is_dead: false,
        skills: vec![skill],
        damage_stats: DamageStats {
            damage_dealt: 900,
            damage_taken: 0,
            dps: 0,
            dps_rolling_10s_avg: Vec::new(),
        },
        skill_stats: SkillStats {
            casts: 1,
            hits: 1,
            crits: 0,
            identity_stats: None,
        },
        engraving_data: None,
        gear_hash: None,
        ark_passive_active: None,
        ark_passive_data: None,
        spec: None,
    };
    let player_info = Some(vec![(
        "alice".to_string(),
        PlayerStats {
            gems: vec![
                Gem { skill_id: 777, gem_type: 1, tier: 3, value: 7 },
                Gem { skill_id: 777, gem_type: 2, tier: 4, value: 5 },
            ],
            engravings: Some(vec!["Mayhem".to_string()]),
            ark_passive_enabled: false,
            ark_passive_data: None,
        },
    )]);
    let rows = to_entities_db(
        vec![entity],
        &Vec::new(),
        &Vec::new(),
        &Vec::new(),
        0,
        &player_info,
        "alice",
        90,
        &Vec::new(),
        &Vec::new(),
    );
    assert_eq!(rows.len(), 1);
    let row = &rows[0];
    // 900 damage over 90 seconds.
    assert_eq!(row.damage_stats.dps, 10);
    assert_eq!(row.entity_type, "PLAYER");
    assert_eq!(row.gear_score_text, "1600.00");
    // The single class engraving resolves the missing spec.
    assert_eq!(row.spec, Some("Mayhem".to_string()));
}

#[test]
fn assembler_preview_orders_players_by_damage() {
    let mk = |name: &str, class_id: u32, damage: i64| EncounterEntity {
        id: class_id as u64,
        character_id: 1,
        npc_id: 0,
        name: name.to_string(),
        entity_type: EntityType::Player,
        class_id,
        class: "Berserker".to_string(),
        gear_score_hundredths: 0,
        current_hp: 1,
        max_hp: 2,
        current_shield: 0,
        is_dead: false,
        skills: Vec::new(),
        damage_stats: DamageStats {
            damage_dealt: damage,
            damage_taken: 0,
            dps: damage,
            dps_rolling_10s_avg: Vec::new(),
        },
        skill_stats: SkillStats {
            casts: 0,
            hits: 0,
            crits: 0,
            identity_stats: None,
        },
        engraving_data: None,
        gear_hash: None,
        ark_passive_active: None,
        ark_passive_data: None,
        spec: None,
    };
    let fight_start: i64 = 1_000;
    let payload = CreateEncounter {
        encounter: Encounter {
            last_combat_packet: fight_start + 60_000,
            fight_start,
            local_player: "mid".to_string(),
            entities: vec![mk("low", 102, 10), mk("high", 103, 900), mk("mid", 104, 500)],
            current_boss_name: "Boss".to_string(),
            encounter_damage_stats: EncounterDamageStats {
                total_damage_dealt: 1410,
                top_damage_dealt: 900,
                total_damage_taken: 0,
                top_damage_taken: 0,
                dps: 0,
                total_shielding: 0,
                total_effective_shielding: 0,
                max_stagger: 0,
                stagger_start: 0,
                buffs_doc: "{}".to_string(),
                debuffs_doc: "{}".to_string(),
                applied_shield_buffs_doc: "{}".to_string(),
            },
            duration: 60_000,
            boss_only_damage: false,
        },
        prev_stagger: 0,
        damage_log: Vec::new(),
        identity_log: Vec::new(),
        cast_log: Vec::new(),
        boss_hp_log: Vec::new(),
        stagger_log: Vec::new(),
        stagger_intervals: Vec::new(),
        raid_clear: false,
        party_info: Vec::new(),
        raid_difficulty: "Normal".to_string(),
        region: None,
        player_info: None,
        version: "1".to_string(),
        ntp_fight_start: 0,
        rdps_valid: true,
        manual: false,
        skill_cast_log: Vec::new(),
    };
    let assembled = encounter_store::encounter_service::assemble_encounter(payload);
    assert_eq!(
        assembled.preview.preview_players,
        "103:high,104:mid,102:low"
    );
    assert_eq!(assembled.preview.local_player_dps, 500);
    assert_eq!(assembled.encounter.dps, 23);
    assert_eq!(assembled.entities.len(), 3);
    assert_eq!(assembled.preview.raid_clear, None);
}
