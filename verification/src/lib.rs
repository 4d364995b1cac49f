//! Verified core of a disk relocation tool: profile catalog normalisation and
//! validation, relocation planning, and the decision logic of migration,
//! rollback, health checking, reconciliation and startup recovery.

pub mod text;
pub mod profiles;
pub mod validation;
pub mod catalog;
pub mod models;
pub mod records;
pub mod ids;
pub mod health;
pub mod plans;
pub mod paths;
pub mod reconcile;
pub mod fsops;
pub mod recovery;
pub mod planning;
pub mod prechecks;
pub mod workflow;
pub mod rollback;
pub mod requests;
pub mod listings;
pub mod icons;
