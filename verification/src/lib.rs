//! Persists finished combat encounters into a local SQLite file and serves
//! paginated, filtered, full-text-searchable summaries of past encounters.
//!
//! The crate is organised around three parts: the derived-statistics pipeline
//! (pure functions over raw telemetry), the schema-evolution engine (a pure
//! migration planner plus a runner that applies the planned DDL), and the
//! transactional persistence and query engine over the preview table.

pub mod stats;
pub mod text;
pub mod json;
pub mod models;
pub mod stagger;
pub mod identity;
pub mod cast_quality;
pub mod players;
pub mod docs;
pub mod migration;
pub mod sqlite;
pub mod query;
pub mod sorting;
pub mod utils;
pub mod repository;
pub mod encounter_service;
pub mod migration_runner;
