//! The transactional persistence and query engine over the storage file:
//! the repository interface, its SQLite-backed implementation, and the
//! mapping from engine errors to this crate's failure taxonomy.

pub mod queries;
mod insert_encounter;
mod insert_entities;
mod insert_encounter_preview;
mod load_encounters_preview;

use vstd::prelude::*;
use crate::models::{
    EncounterDb,
    EncounterPreviewDb,
    EncountersOverview,
    EntityDb,
    SearchFilter,
    StoreError,
};
use crate::query::spec_sort_column_of;
use crate::sqlite::{DbConnection, DbPool};

verus! {

/// An encounter row whose unsigned totals fit the engine's signed storage.
pub open spec fn spec_encounter_db_insertable(e: EncounterDb) -> bool {
    &&& e.total_shielding <= i64::MAX
    &&& e.total_effective_shielding <= i64::MAX
}

/// Entity rows whose unsigned ids fit the engine's signed storage.
pub open spec fn spec_entities_insertable(es: Seq<EntityDb>) -> bool {
    forall|i: int| 0 <= i < es.len() ==> (#[trigger] es[i]).character_id <= i64::MAX
}

/// Turns an engine error into this crate's taxonomy: constraint
/// violations are told apart from other database failures.
pub fn db_err(e: rusqlite::Error) -> (r: StoreError)
    ensures
        r is ConstraintViolation || r is Database,
{
    if crate::sqlite::is_constraint_violation(&e) {
        StoreError::ConstraintViolation(crate::sqlite::sqlite_error_text(&e))
    } else {
        StoreError::Database(crate::sqlite::sqlite_error_text(&e))
    }
}

/// What the persistence pipeline asks of its storage backend.
pub trait Repository: Sized {
    /// One pooled connection, or a connection-acquisition failure.
    fn get_connection(&self) -> (r: Result<DbConnection, StoreError>)
        ensures
            r matches Err(e) ==> e is ConnectionAcquisition,
    ;

    /// One page of previews plus the unpaginated total. A sort column
    /// outside the allow-list, or a sort direction outside the enumerated
    /// two, is rejected as a query-build failure; that failure arises from
    /// nothing else.
    fn load_encounters_preview(
        &self,
        page: i32,
        page_size: i32,
        search: String,
        filter: SearchFilter,
    ) -> (r: Result<EncountersOverview, StoreError>)
        ensures
            (spec_sort_column_of(filter.sort@) is None || !crate::query::spec_valid_order(
                filter.order as int,
            )) <==> (r matches Err(e) && e is QueryBuild),
            r matches Err(e) ==> e is QueryBuild || e is ConnectionAcquisition || e is Database
                || e is ConstraintViolation,
    ;

    /// Inserts the encounter row; the engine-assigned id on success.
    fn insert_encounter(&self, connection: &rusqlite::Connection, encounter: EncounterDb) -> (r:
        Result<i64, StoreError>)
        requires
            spec_encounter_db_insertable(encounter),
        ensures
            r matches Err(e) ==> e is ConstraintViolation || e is Database,
    ;

    /// Inserts one row per combatant, in the order given.
    fn insert_entities(
        &self,
        connection: &rusqlite::Connection,
        encounter_id: i64,
        entities: &Vec<EntityDb>,
    ) -> (r: Result<(), StoreError>)
        requires
            spec_entities_insertable(entities@),
        ensures
            r matches Err(e) ==> e is ConstraintViolation || e is Database,
    ;

    /// Inserts the preview row under the encounter's id; this write feeds
    /// the search index through its trigger.
    fn insert_encounter_preview(
        &self,
        connection: &rusqlite::Connection,
        encounter_id: i64,
        encounter_preview: EncounterPreviewDb,
    ) -> (r: Result<(), StoreError>)
        ensures
            r matches Err(e) ==> e is ConstraintViolation || e is Database,
    ;
}

/// The SQLite-backed repository over one connection pool.
pub struct SqliteRepository {
    pub(crate) pool: DbPool,
}

impl Repository for SqliteRepository {
    fn get_connection(&self) -> (r: Result<DbConnection, StoreError>) {
        match crate::sqlite::pool_get(&self.pool) {
            Ok(c) => Ok(c),
            Err(e) => Err(StoreError::ConnectionAcquisition(crate::sqlite::pool_error_text(&e))),
        }
    }

    fn load_encounters_preview(
        &self,
        page: i32,
        page_size: i32,
        search: String,
        filter: SearchFilter,
    ) -> (r: Result<EncountersOverview, StoreError>) {
        self.load_encounters_preview_inner(page, page_size, search, filter)
    }

    fn insert_encounter(&self, connection: &rusqlite::Connection, encounter: EncounterDb) -> (r:
        Result<i64, StoreError>) {
        self.insert_encounter_inner(connection, encounter)
    }

    fn insert_entities(
        &self,
        connection: &rusqlite::Connection,
        encounter_id: i64,
        entities: &Vec<EntityDb>,
    ) -> (r: Result<(), StoreError>) {
        self.insert_entities_inner(connection, encounter_id, entities)
    }

    fn insert_encounter_preview(
        &self,
        connection: &rusqlite::Connection,
        encounter_id: i64,
        encounter_preview: EncounterPreviewDb,
    ) -> (r: Result<(), StoreError>) {
        self.insert_encounter_preview_inner(connection, encounter_id, encounter_preview)
    }
}

impl SqliteRepository {
    pub fn new(pool: DbPool) -> (r: Self) {
        SqliteRepository { pool }
    }
}

} // verus!
