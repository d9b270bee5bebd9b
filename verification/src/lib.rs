//! The durable event store of a coding agent: what may be recorded, and what follows from it.

pub mod text;
pub mod identity;
pub mod clock;
pub mod json;
pub mod error;
pub mod digest;
pub mod artifact;
pub mod contract;
pub mod run;
pub mod planning;
pub mod snapshot;
pub mod cleanup;
pub mod child_outcome;
pub mod planner_turn;
pub mod child;
pub mod event;
pub mod history;
pub mod retained;
pub mod planner_prompt;
pub mod claim_history;
pub mod artifact_references;
pub mod lifecycle;
pub mod lifecycle_identity;
pub mod store;
pub mod planning_ground;
pub mod root_planning_state;
pub mod root_planning_stage;
pub mod root_planning_failure;
pub mod root_planning_prompt;
pub mod inference_identity;
pub mod root_planning_inference;
pub mod root_planning_review;
pub mod root_planning_decision;
pub mod child_replay;
pub mod planner_v2_terminal;
pub mod planner_v2_sources;
pub mod planner_v2_evidence;
pub mod planner_v2_base;
pub mod planner_v2_request;
pub mod planner_v2_history;
pub mod planner_v2_delegates;
pub mod planner_v2_replay_projection;
pub mod planner_v2_preparation;
pub mod planner_v2_prepared;
pub mod planner_v2_classification;
pub mod planner_v2_directive;
pub mod planner_v2_resolution;
pub mod planner_v2_decision;
pub mod planner_v2_decided;

pub mod event_admission;
pub mod cleanup_v2;
pub mod cleanup_preflight;
pub mod recon_bundle;
pub mod recon_pair;
pub mod recon_recovery;
pub mod parallel_recon_bootstrap;
pub mod recon_bootstrap_laws;
pub mod schema_support;
pub mod name_listing;
pub mod schema_objects;
pub mod schema_canon;
pub mod schema_shape;
pub mod projection_validation;
pub mod schema_validation;
pub mod legacy_inventory;
pub mod legacy_emit;
pub mod legacy_batch;
pub mod legacy_scan;
pub mod legacy_migration;
pub mod migration_coordinator;
