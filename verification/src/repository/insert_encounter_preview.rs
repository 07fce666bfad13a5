//! Inserting the denormalized preview row; the search index follows it
//! through its insert trigger.

use vstd::prelude::*;
use crate::models::{EncounterPreviewDb, StoreError};
use crate::sqlite::{prepare, bind_i64, bind_text, bind_bool, bind_opt_bool, raw_execute};
use super::{db_err, SqliteRepository};
use super::insert_encounter::check;
use super::queries::INSERT_ENCOUNTER_PREVIEW;

verus! {

impl SqliteRepository {
    pub(crate) fn insert_encounter_preview_inner(
        &self,
        connection: &rusqlite::Connection,
        encounter_id: i64,
        encounter_preview: EncounterPreviewDb,
    ) -> (r: Result<(), StoreError>)
        ensures
            r matches Err(e) ==> e is ConstraintViolation || e is Database,
    {
        let mut statement = match prepare(connection, INSERT_ENCOUNTER_PREVIEW) {
            Ok(s) => s,
            Err(e) => {
                return Err(db_err(e));
            },
        };
        check(bind_i64(&mut statement, 1, encounter_id))?;
        check(bind_i64(&mut statement, 2, encounter_preview.fight_start))?;
        check(bind_text(&mut statement, 3, encounter_preview.current_boss_name.as_str()))?;
        check(bind_i64(&mut statement, 4, encounter_preview.duration))?;
        check(bind_text(&mut statement, 5, encounter_preview.preview_players.as_str()))?;
        check(bind_text(&mut statement, 6, encounter_preview.raid_difficulty.as_str()))?;
        check(bind_text(&mut statement, 7, encounter_preview.local_player.as_str()))?;
        check(bind_i64(&mut statement, 8, encounter_preview.local_player_dps))?;
        check(bind_opt_bool(&mut statement, 9, encounter_preview.raid_clear))?;
        check(bind_bool(&mut statement, 10, encounter_preview.boss_only_damage))?;
        match raw_execute(&mut statement) {
            Ok(_) => Ok(()),
            Err(e) => Err(db_err(e)),
        }
    }
}

} // verus!
