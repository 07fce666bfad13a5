//! Inserting the encounter row.

use vstd::prelude::*;
use crate::models::{EncounterDb, StoreError};
use crate::sqlite::{prepare, bind_i64, bind_text, bind_blob, raw_execute, last_insert_rowid};
use super::{db_err, spec_encounter_db_insertable, SqliteRepository};
use super::queries::INSERT_ENCOUNTER;

verus! {

/// Folds an engine-level bind or execute result into the crate's taxonomy.
pub(crate) fn check(r: Result<(), rusqlite::Error>) -> (out: Result<(), StoreError>)
    ensures
        out matches Err(e) ==> e is ConstraintViolation || e is Database,
        r is Ok <==> out is Ok,
{
    match r {
        Ok(()) => Ok(()),
        Err(e) => Err(db_err(e)),
    }
}

impl SqliteRepository {
    /// Binds and runs the encounter insert, then reads the assigned id
    /// back off the connection.
    pub(crate) fn insert_encounter_inner(
        &self,
        connection: &rusqlite::Connection,
        encounter: EncounterDb,
    ) -> (r: Result<i64, StoreError>)
        requires
            spec_encounter_db_insertable(encounter),
        ensures
            r matches Err(e) ==> e is ConstraintViolation || e is Database,
    {
        let mut statement = match prepare(connection, INSERT_ENCOUNTER) {
            Ok(s) => s,
            Err(e) => {
                return Err(db_err(e));
            },
        };
        check(bind_i64(&mut statement, 1, encounter.last_combat_packet))?;
        check(bind_i64(&mut statement, 2, encounter.total_damage_dealt))?;
        check(bind_i64(&mut statement, 3, encounter.top_damage_dealt))?;
        check(bind_i64(&mut statement, 4, encounter.total_damage_taken))?;
        check(bind_i64(&mut statement, 5, encounter.top_damage_taken))?;
        check(bind_i64(&mut statement, 6, encounter.dps))?;
        check(bind_blob(&mut statement, 7, &encounter.compressed_buffs))?;
        check(bind_blob(&mut statement, 8, &encounter.compressed_debuffs))?;
        check(bind_i64(&mut statement, 9, encounter.total_shielding as i64))?;
        check(bind_i64(&mut statement, 10, encounter.total_effective_shielding as i64))?;
        check(bind_blob(&mut statement, 11, &encounter.compressed_shields))?;
        check(bind_text(&mut statement, 12, encounter.misc_json.as_str()))?;
        check(bind_i64(&mut statement, 13, encounter.db_version as i64))?;
        check(bind_blob(&mut statement, 14, &encounter.compressed_boss_hp))?;
        check(bind_text(&mut statement, 15, encounter.stagger_stats_json.as_str()))?;
        match raw_execute(&mut statement) {
            Ok(_) => {},
            Err(e) => {
                return Err(db_err(e));
            },
        }
        Ok(last_insert_rowid(connection))
    }
}

} // verus!
