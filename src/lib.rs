//! A policy-enforcement agent for desktop workstations: browser policy
//! reconciliation, applied-state bookkeeping and per-child screen-time
//! accounting, with the decisions verified and the side effects left to the
//! caller.

pub mod browser;
pub mod clock;
pub mod config;
pub mod state;
pub mod policy;
pub mod registry;
pub mod reconcile;
pub mod diff;
pub mod apply;
pub mod privileges;
pub mod agent;
pub mod limits_config;
pub mod usage;
pub mod schedule;
pub mod auth;
pub mod enforcement;
pub mod tracker;
