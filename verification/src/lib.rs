//! Offline Docker service updater: the verified core.
//!
//! This crate holds the decisions of the updater: catalog and manifest
//! validation, package archive inspection, the service update and rollback
//! state machines, health evaluation and the local state layout. The I/O that
//! feeds these decisions (files, Docker, Compose, the terminal) lives around it.

pub mod text;
pub mod ids;
pub mod clock;
pub mod version;
pub mod domain;

pub mod config;
pub mod health;
pub mod audit;
pub mod update;
pub mod archive;
pub mod manifest;
pub mod intake;
pub mod import;
pub mod persistence;
pub mod compose;
pub mod report;
pub mod flow;
