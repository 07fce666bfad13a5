//! Serving one paginated, filtered, optionally full-text-searched page of
//! encounter previews, plus the unpaginated total.

use vstd::prelude::*;
use crate::models::{EncounterPreview, EncountersOverview, SearchFilter, StoreError};
use crate::players::parse_players;
use crate::query::{spec_sort_column_of, build_query};
use crate::sqlite::{
    connection_of,
    pool_get,
    prepare,
    bind_text,
    raw_query,
    rows_next,
    row_i64,
    row_i32,
    row_string,
    row_opt_string,
    row_bool,
    row_opt_bool,
    pool_error_text,
};
use super::{db_err, SqliteRepository};

verus! {

/// One preview row mapped back into its structured form: the player
/// string parses into parallel class and name lists of one entry per
/// token; absent optional columns degrade to defaults.
fn map_to_row(row: &rusqlite::Row<'_>) -> (r: Result<EncounterPreview, StoreError>)
    ensures
        r matches Ok(p) ==> p.classes@.len() == p.names@.len(),
        r matches Err(e) ==> e is ConstraintViolation || e is Database,
{
    let players: String = match row_string(row, 9) {
        Ok(s) => s,
        Err(_) => String::new(),
    };
    let (classes, names) = parse_players(players.as_str());
    let id = match row_i64(row, 0) {
        Ok(v) => v,
        Err(e) => {
            return Err(db_err(e));
        },
    };
    let fight_start = match row_i64(row, 1) {
        Ok(v) => v,
        Err(e) => {
            return Err(db_err(e));
        },
    };
    let boss_name = match row_string(row, 2) {
        Ok(v) => v,
        Err(e) => {
            return Err(db_err(e));
        },
    };
    let duration = match row_i64(row, 3) {
        Ok(v) => v,
        Err(e) => {
            return Err(db_err(e));
        },
    };
    let difficulty = match row_opt_string(row, 4) {
        Ok(Some(v)) => v,
        Ok(None) => String::new(),
        Err(e) => {
            return Err(db_err(e));
        },
    };
    let favorite = match row_bool(row, 5) {
        Ok(v) => v,
        Err(e) => {
            return Err(db_err(e));
        },
    };
    let cleared = match row_opt_bool(row, 6) {
        Ok(Some(v)) => v,
        Ok(None) => false,
        Err(e) => {
            return Err(db_err(e));
        },
    };
    let local_player = match row_opt_string(row, 7) {
        Ok(Some(v)) => v,
        Ok(None) => String::new(),
        Err(e) => {
            return Err(db_err(e));
        },
    };
    let my_dps = match row_i64(row, 8) {
        Ok(v) => v,
        Err(_) => 0,
    };
    Ok(
        EncounterPreview {
            id,
            fight_start,
            boss_name,
            duration,
            classes,
            names,
            difficulty,
            favorite,
            cleared,
            local_player,
            my_dps,
        },
    )
}

impl SqliteRepository {
    /// Builds the page and count statements for the filter, binds their
    /// shared parameters, and maps each returned row. A sort column or
    /// direction outside the enumerated sets is rejected before any
    /// statement is built.
    pub(crate) fn load_encounters_preview_inner(
        &self,
        page: i32,
        page_size: i32,
        search: String,
        filter: SearchFilter,
    ) -> (r: Result<EncountersOverview, StoreError>)
        ensures
            (spec_sort_column_of(filter.sort@) is None || !crate::query::spec_valid_order(
                filter.order as int,
            )) <==> (r matches Err(e) && e is QueryBuild),
            r matches Err(e) ==> e is QueryBuild || e is ConnectionAcquisition || e is Database
                || e is ConstraintViolation,
    {
        let plan = match build_query(search.as_str(), &filter, page, page_size) {
            Ok(p) => p,
            Err(e) => {
                return Err(e);
            },
        };
        let mut pooled = match pool_get(&self.pool) {
            Ok(c) => c,
            Err(e) => {
                return Err(StoreError::ConnectionAcquisition(pool_error_text(&e)));
            },
        };
        let conn = connection_of(&mut pooled);

        let mut encounters: Vec<EncounterPreview> = Vec::new();
        {
            let mut statement = match prepare(conn, plan.list_sql.as_str()) {
                Ok(s) => s,
                Err(e) => {
                    return Err(db_err(e));
                },
            };
            let mut i: usize = 0;
            while i < plan.list_params.len()
                invariant
                    0 <= i <= plan.list_params@.len(),
                    spec_sort_column_of(filter.sort@) is Some,
                    crate::query::spec_valid_order(filter.order as int),
                decreases plan.list_params@.len() - i,
            {
                match crate::sqlite::bind_text(&mut statement, i + 1, plan.list_params[i].as_str()) {
                    Ok(()) => {},
                    Err(e) => {
                        return Err(db_err(e));
                    },
                }
                i = i + 1;
            }
            let mut rows = raw_query(&mut statement);
            let mut guard: usize = 0;
            while guard < usize::MAX
                invariant
                    0 <= guard <= usize::MAX,
                    spec_sort_column_of(filter.sort@) is Some,
                    crate::query::spec_valid_order(filter.order as int),
                decreases usize::MAX - guard,
            {
                guard = guard + 1;
                let next = rows_next(&mut rows);
                match next {
                    Err(e) => {
                        return Err(db_err(e));
                    },
                    Ok(None) => {
                        break ;
                    },
                    Ok(Some(row)) => {
                        let preview = match map_to_row(row) {
                            Ok(p) => p,
                            Err(e) => {
                                return Err(e);
                            },
                        };
                        encounters.push(preview);
                    },
                }
            }
        }

        let total = {
            let mut statement = match prepare(conn, plan.count_sql.as_str()) {
                Ok(s) => s,
                Err(e) => {
                    return Err(db_err(e));
                },
            };
            let mut i: usize = 0;
            while i < plan.count_params.len()
                invariant
                    0 <= i <= plan.count_params@.len(),
                    spec_sort_column_of(filter.sort@) is Some,
                    crate::query::spec_valid_order(filter.order as int),
                decreases plan.count_params@.len() - i,
            {
                match crate::sqlite::bind_text(&mut statement, i + 1, plan.count_params[i].as_str())
                {
                    Ok(()) => {},
                    Err(e) => {
                        return Err(db_err(e));
                    },
                }
                i = i + 1;
            }
            let mut rows = raw_query(&mut statement);
            match rows_next(&mut rows) {
                Err(e) => {
                    return Err(db_err(e));
                },
                Ok(None) => 0,
                Ok(Some(row)) => match row_i32(row, 0) {
                    Ok(v) => v,
                    Err(e) => {
                        return Err(db_err(e));
                    },
                },
            }
        };

        Ok(EncountersOverview { encounters, total_encounters: total })
    }
}

} // verus!
