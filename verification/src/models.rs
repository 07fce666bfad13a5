//! The record shapes this crate consumes and persists: the raw encounter
//! snapshot handed over by the capture process, and the three flat,
//! storage-ready record shapes the assembler produces from it.

use vstd::prelude::*;

verus! {

/// Failure taxonomy of the persistence and query layers. Statistics
/// derivation and record assembly are total and never fail: the documents
/// are encoded by total verified functions and the compression codec
/// cannot fail over a memory buffer, so every failure comes from the pool,
/// the storage engine, or an invalid query filter.
#[derive(Debug, Clone)]
pub enum StoreError {
    ConnectionAcquisition(String),
    Migration(String),
    ConstraintViolation(String),
    Database(String),
    QueryBuild(String),
}

#[derive(Debug, Clone, Copy, PartialEq, Eq, Structural)]
pub enum EntityType {
    Unknown,
    Player,
    Npc,
    Boss,
    Esther,
}

impl EntityType {
    /// The label the entity type is stored under.
    pub open spec fn spec_label(self) -> Seq<char> {
        match self {
            EntityType::Unknown => seq!['U', 'N', 'K', 'N', 'O', 'W', 'N'],
            EntityType::Player => seq!['P', 'L', 'A', 'Y', 'E', 'R'],
            EntityType::Npc => seq!['N', 'P', 'C'],
            EntityType::Boss => seq!['B', 'O', 'S', 'S'],
            EntityType::Esther => seq!['E', 'S', 'T', 'H', 'E', 'R'],
        }
    }

    pub fn label(&self) -> (r: &'static str)
        ensures
            r@ == self.spec_label(),
    {
        proof {
            reveal_strlit("UNKNOWN");
            reveal_strlit("PLAYER");
            reveal_strlit("NPC");
            reveal_strlit("BOSS");
            reveal_strlit("ESTHER");
        }
        let r = match self {
            EntityType::Unknown => "UNKNOWN",
            EntityType::Player => "PLAYER",
            EntityType::Npc => "NPC",
            EntityType::Boss => "BOSS",
            EntityType::Esther => "ESTHER",
        };
        proof {
            assert(r@ =~= self.spec_label());
        }
        r
    }
}

/// One hit of one cast of a skill.
#[derive(Debug, Clone, Copy, PartialEq, Eq, Structural)]
pub struct SkillHit {
    pub damage: i64,
    pub crit: bool,
}

/// One cast of a skill with its hit-by-hit damage log.
#[derive(Debug, Clone, PartialEq)]
pub struct SkillCast {
    pub timestamp: i64,
    pub hits: Vec<SkillHit>,
}

#[derive(Debug, Clone, PartialEq)]
pub struct Skill {
    pub id: u32,
    pub name: String,
    pub total_damage: i64,
    pub dps: i64,
    pub cast_log: Vec<i32>,
    /// Crit rate in hundredths of a percent among hits that pass the noise
    /// filter; absent when no hit passes it.
    pub adjusted_crit_hundredths: Option<u64>,
    /// Damage of the single highest-damage cast.
    pub max_damage_cast: i64,
    pub gem_damage_level: Option<u8>,
    pub gem_cooldown_level: Option<u8>,
}

#[derive(Debug, Clone, PartialEq)]
pub struct DamageStats {
    pub damage_dealt: i64,
    pub damage_taken: i64,
    pub dps: i64,
    pub dps_rolling_10s_avg: Vec<i64>,
}

/// Identity-gauge statistics for the local player: the emitted per-sample
/// log (relative milliseconds, percentage in hundredths), the overall
/// average gain per second (in hundredths of a percent), and for card
/// classes the counted card draws, in order.
#[derive(Debug, Clone, PartialEq)]
pub struct IdentityStats {
    pub log: Vec<(i64, u64)>,
    pub average_hundredths: u64,
    pub card_draws: Option<Vec<u32>>,
}

#[derive(Debug, Clone, PartialEq)]
pub struct SkillStats {
    pub casts: i64,
    pub hits: i64,
    pub crits: i64,
    pub identity_stats: Option<IdentityStats>,
}

#[derive(Debug, Clone, PartialEq)]
pub struct ArkPassiveData {
    /// Identifiers of the taken enlightenment nodes.
    pub enlightenment: Vec<u32>,
}

#[derive(Debug, Clone, PartialEq)]
pub struct Gem {
    pub skill_id: u32,
    pub gem_type: u32,
    pub tier: u32,
    pub value: u32,
}

/// Gear and progression snapshot for one player, as the capture process
/// hands it over.
#[derive(Debug, Clone, PartialEq)]
pub struct PlayerStats {
    pub gems: Vec<Gem>,
    pub engravings: Option<Vec<String>>,
    pub ark_passive_enabled: bool,
    pub ark_passive_data: Option<ArkPassiveData>,
}

#[derive(Debug, Clone, PartialEq)]
pub struct EncounterEntity {
    pub id: u64,
    pub character_id: u64,
    pub npc_id: u32,
    pub name: String,
    pub entity_type: EntityType,
    pub class_id: u32,
    pub class: String,
    /// Gear score in hundredths, so fractional scores carry without floats.
    pub gear_score_hundredths: i64,
    pub current_hp: i64,
    pub max_hp: i64,
    pub current_shield: u64,
    pub is_dead: bool,
    pub skills: Vec<Skill>,
    pub damage_stats: DamageStats,
    pub skill_stats: SkillStats,
    pub engraving_data: Option<Vec<String>>,
    pub gear_hash: Option<String>,
    pub ark_passive_active: Option<bool>,
    pub ark_passive_data: Option<ArkPassiveData>,
    pub spec: Option<String>,
}

impl EncounterEntity {
    /// A player that took part in the fight: the local player always, any
    /// other player once it dealt damage and carries a recognised class.
    pub open spec fn spec_is_active_player(self, local_player: Seq<char>) -> bool {
        &&& self.entity_type == EntityType::Player
        &&& self.class_id > 0
        &&& (self.damage_stats.damage_dealt > 0 || self.name@ == local_player)
    }

    pub fn is_active_player(&self, local_player: &str) -> (r: bool)
        ensures
            r == self.spec_is_active_player(local_player@),
    {
        self.entity_type == EntityType::Player && self.class_id > 0 && (
        self.damage_stats.damage_dealt > 0 || crate::text::str_eq(self.name.as_str(), local_player))
    }

    /// A participant worth persisting: an active player, or anything that
    /// dealt or received tracked damage.
    pub open spec fn spec_is_relevant_combat_entity(self, local_player: Seq<char>) -> bool {
        ||| self.spec_is_active_player(local_player)
        ||| self.damage_stats.damage_dealt > 0
        ||| self.damage_stats.damage_taken > 0
    }

    pub fn is_relevant_combat_entity(&self, local_player: &str) -> (r: bool)
        ensures
            r == self.spec_is_relevant_combat_entity(local_player@),
    {
        self.is_active_player(local_player) || self.damage_stats.damage_dealt > 0
            || self.damage_stats.damage_taken > 0
    }
}

#[derive(Debug, Clone, PartialEq)]
pub struct EncounterDamageStats {
    pub total_damage_dealt: i64,
    pub top_damage_dealt: i64,
    pub total_damage_taken: i64,
    pub top_damage_taken: i64,
    pub dps: i64,
    pub total_shielding: u64,
    pub total_effective_shielding: u64,
    pub max_stagger: i32,
    pub stagger_start: i64,
    /// Buff, debuff and shield timelines pass through this crate untouched,
    /// already encoded as JSON documents; they are only compressed here.
    pub buffs_doc: String,
    pub debuffs_doc: String,
    pub applied_shield_buffs_doc: String,
}

#[derive(Debug, Clone, PartialEq)]
pub struct Encounter {
    pub last_combat_packet: i64,
    pub fight_start: i64,
    pub local_player: String,
    pub entities: Vec<EncounterEntity>,
    pub current_boss_name: String,
    pub encounter_damage_stats: EncounterDamageStats,
    pub duration: i64,
    pub boss_only_damage: bool,
}

/// One point of a boss health timeline: relative time, absolute health, and
/// the health percentage in hundredths.
#[derive(Debug, Clone, PartialEq)]
pub struct BossHpEntry {
    pub time: i32,
    pub hp: i64,
    pub p_hundredths: u64,
}

/// The full payload of one finished encounter, as handed to `create`.
#[derive(Debug, Clone)]
pub struct CreateEncounter {
    pub encounter: Encounter,
    /// Stagger carried over from an unfinished stagger phase, in the same
    /// unit as the stagger intervals.
    pub prev_stagger: i32,
    pub damage_log: Vec<(String, Vec<(i64, i64)>)>,
    pub identity_log: Vec<(String, Vec<(i64, (u32, u32, u32))>)>,
    pub cast_log: Vec<(String, Vec<(u32, Vec<i32>)>)>,
    pub boss_hp_log: Vec<(String, Vec<BossHpEntry>)>,
    /// Boss stagger samples: relative second, stagger dealt.
    pub stagger_log: Vec<(i32, u64)>,
    /// Completed stagger phases: duration in seconds, stagger dealt.
    pub stagger_intervals: Vec<(i32, i32)>,
    pub raid_clear: bool,
    pub party_info: Vec<Vec<String>>,
    pub raid_difficulty: String,
    pub region: Option<String>,
    pub player_info: Option<Vec<(String, PlayerStats)>>,
    pub version: String,
    pub ntp_fight_start: i64,
    pub rdps_valid: bool,
    pub manual: bool,
    pub skill_cast_log: Vec<(u64, Vec<(u32, Vec<SkillCast>)>)>,
}

/// The storage-ready encounter row.
#[derive(Debug, Clone)]
pub struct EncounterDb {
    pub last_combat_packet: i64,
    pub total_damage_dealt: i64,
    pub top_damage_dealt: i64,
    pub total_damage_taken: i64,
    pub top_damage_taken: i64,
    pub dps: i64,
    pub compressed_buffs: Vec<u8>,
    pub compressed_debuffs: Vec<u8>,
    pub total_shielding: u64,
    pub total_effective_shielding: u64,
    pub compressed_shields: Vec<u8>,
    pub misc_json: String,
    pub db_version: i32,
    pub compressed_boss_hp: Vec<u8>,
    pub stagger_stats_json: String,
}

/// The storage-ready preview row, denormalized for list views.
#[derive(Debug, Clone)]
pub struct EncounterPreviewDb {
    pub fight_start: i64,
    pub current_boss_name: String,
    pub duration: i64,
    pub preview_players: String,
    pub raid_difficulty: String,
    pub local_player: String,
    pub local_player_dps: i64,
    pub raid_clear: Option<bool>,
    pub boss_only_damage: bool,
}

/// One storage-ready combatant row.
#[derive(Debug, Clone)]
pub struct EntityDb {
    pub id: u64,
    pub character_id: u64,
    pub npc_id: u32,
    pub name: String,
    pub entity_type: String,
    pub class_id: u32,
    pub class: String,
    /// Gear score as two-decimal text; the storage engine coerces it to its
    /// numeric column.
    pub gear_score_text: String,
    pub current_hp: i64,
    pub max_hp: i64,
    pub current_shield: u64,
    pub is_dead: bool,
    pub damage_stats: DamageStats,
    pub skill_stats: SkillStats,
    pub engraving_data: Option<Vec<String>>,
    pub gear_hash: Option<String>,
    pub ark_passive_active: Option<bool>,
    pub ark_passive_data: Option<ArkPassiveData>,
    pub spec: Option<String>,
    pub compressed_damage_stats: Vec<u8>,
    pub compressed_skills: Vec<u8>,
    pub skill_stats_json: String,
    pub engraving_data_json: String,
    pub ark_passive_data_json: String,
}

/// The structured filter of a preview query.
#[derive(Debug, Clone)]
pub struct SearchFilter {
    /// Duration floor in seconds.
    pub min_duration: i32,
    pub bosses: Vec<String>,
    pub cleared: bool,
    pub favorite: bool,
    pub boss_only_damage: bool,
    /// Exact difficulty to match; empty means no difficulty filter.
    pub difficulty: String,
    /// Sort column name; must be one of the allow-listed columns.
    pub sort: String,
    /// Sort direction: 1 ascending, 0 descending; any other value is
    /// rejected.
    pub order: i32,
}

impl core::default::Default for SearchFilter {
    /// No filters beyond the always-present duration floor of zero, sorted
    /// by fight start, descending.
    fn default() -> (r: SearchFilter)
        ensures
            r.min_duration == 0,
            r.bosses@.len() == 0,
            !r.cleared,
            !r.favorite,
            !r.boss_only_damage,
            r.difficulty@.len() == 0,
            r.sort@ == "fight_start"@,
            r.order == 0,
    {
        proof {
            reveal_strlit("fight_start");
        }
        SearchFilter {
            min_duration: 0,
            bosses: Vec::new(),
            cleared: false,
            favorite: false,
            boss_only_damage: false,
            difficulty: String::new(),
            sort: "fight_start".to_owned(),
            order: 0,
        }
    }
}

/// One row of a preview listing, with the player string parsed back into
/// parallel class-id and name lists.
#[derive(Debug, Clone, PartialEq)]
pub struct EncounterPreview {
    pub id: i64,
    pub fight_start: i64,
    pub boss_name: String,
    pub duration: i64,
    pub classes: Vec<i32>,
    pub names: Vec<String>,
    pub difficulty: String,
    pub favorite: bool,
    pub cleared: bool,
    pub local_player: String,
    pub my_dps: i64,
}

/// One page of preview rows plus the unpaginated total.
#[derive(Debug, Clone)]
pub struct EncountersOverview {
    pub encounters: Vec<EncounterPreview>,
    pub total_encounters: i32,
}

} // verus!
