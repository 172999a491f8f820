//! Schema migration, replica synchronisation and storage planning for a
//! memory store kept in a turso database.
pub mod config;
pub mod db;
pub mod embed;
pub mod migrations;
pub mod remote;
pub mod text;
