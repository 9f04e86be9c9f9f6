//! Verified core of the Runory agent runtime: run and fleet state machines,
//! approval binding, command classification, fleet scheduling and the
//! bounded text helpers they rest on.

pub mod state;
pub mod text;
pub mod decision;
pub mod ids;
pub mod encoding;
pub mod clock;
pub mod approval;
pub mod command;
pub mod tool_error;
pub mod fleet_target;
pub mod fleet_run;
pub mod fleet_digest;
pub mod fleet_control;
pub mod fleet_coordinator;
pub mod run;
pub mod metrics;
pub mod event;
pub mod checkpoint;
pub mod repository;
pub mod reasoner;
pub mod gate;
pub mod changeset;
pub mod dispatch;
pub mod controller;
pub mod routing;
pub mod artifact;
pub mod reasoner_planning;
pub mod recovery;
pub mod facts;
pub mod fleet_facts;
pub mod fleet_changeset;
pub mod persistence;
pub mod fleet_store;
pub mod recorder;
