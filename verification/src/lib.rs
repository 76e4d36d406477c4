//! Verification orchestration core.
//!
//! This library drives a container-based program-verification toolchain: a
//! registry of named verification steps, a deterministic addressing scheme
//! that binds a step to a project, and a container lifecycle manager that
//! turns a "run step X for project Y" request into an idempotently
//! restartable container execution with pollable status and collectable
//! logs.
//!
//! All container-engine traffic goes through the [`engine::ContainerAPIClient`]
//! capability trait; an in-memory engine in this crate implements it for
//! tests, and a Docker-backed implementation can be supplied by a host
//! program.

pub mod container;
pub mod docker;
pub mod engine;
pub mod error;
pub mod follow_up;
pub mod manifest;
pub mod memory;
pub mod plan;
pub mod runtime;
pub mod step;
pub mod value_object;
pub mod verification;
