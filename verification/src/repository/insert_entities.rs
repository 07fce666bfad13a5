//! Inserting one row per retained combatant.

use vstd::prelude::*;
use crate::models::{EntityDb, StoreError};
use crate::sqlite::{
    prepare,
    bind_i64,
    bind_text,
    bind_blob,
    bind_bool,
    bind_opt_bool,
    bind_opt_text,
    raw_execute,
};
use super::{db_err, spec_entities_insertable, SqliteRepository};
use super::insert_encounter::check;
use super::queries::INSERT_ENTITIES;

verus! {

impl SqliteRepository {
    /// One prepared statement, executed once per combatant in the order
    /// the assembler produced.
    pub(crate) fn insert_entities_inner(
        &self,
        connection: &rusqlite::Connection,
        encounter_id: i64,
        entities: &Vec<EntityDb>,
    ) -> (r: Result<(), StoreError>)
        requires
            spec_entities_insertable(entities@),
        ensures
            r matches Err(e) ==> e is ConstraintViolation || e is Database,
    {
        let mut statement = match prepare(connection, INSERT_ENTITIES) {
            Ok(s) => s,
            Err(e) => {
                return Err(db_err(e));
            },
        };
        let mut i: usize = 0;
        while i < entities.len()
            invariant
                0 <= i <= entities@.len(),
                spec_entities_insertable(entities@),
            decreases entities@.len() - i,
        {
            let entity = &entities[i];
            proof {
                assert(entities@[i as int].character_id <= i64::MAX);
            }
            check(bind_text(&mut statement, 1, entity.name.as_str()))?;
            check(bind_i64(&mut statement, 2, encounter_id))?;
            check(bind_i64(&mut statement, 3, entity.npc_id as i64))?;
            check(bind_text(&mut statement, 4, entity.entity_type.as_str()))?;
            check(bind_i64(&mut statement, 5, entity.class_id as i64))?;
            check(bind_text(&mut statement, 6, entity.class.as_str()))?;
            check(bind_text(&mut statement, 7, entity.gear_score_text.as_str()))?;
            check(bind_i64(&mut statement, 8, entity.current_hp))?;
            check(bind_i64(&mut statement, 9, entity.max_hp))?;
            check(bind_bool(&mut statement, 10, entity.is_dead))?;
            check(bind_blob(&mut statement, 11, &entity.compressed_skills))?;
            check(bind_blob(&mut statement, 12, &entity.compressed_damage_stats))?;
            check(bind_text(&mut statement, 13, entity.skill_stats_json.as_str()))?;
            check(bind_i64(&mut statement, 14, entity.damage_stats.dps))?;
            check(bind_i64(&mut statement, 15, entity.character_id as i64))?;
            check(bind_text(&mut statement, 16, entity.engraving_data_json.as_str()))?;
            check(bind_opt_text(&mut statement, 17, &entity.gear_hash))?;
            check(bind_opt_bool(&mut statement, 18, entity.ark_passive_active))?;
            check(bind_opt_text(&mut statement, 19, &entity.spec))?;
            check(bind_text(&mut statement, 20, entity.ark_passive_data_json.as_str()))?;
            match raw_execute(&mut statement) {
                Ok(_) => {},
                Err(e) => {
                    return Err(db_err(e));
                },
            }
            i = i + 1;
        }
        Ok(())
    }
}

} // verus!
