//! A compilation job orchestrator: it plans a build from a project
//! tree, rewrites the entry file to carry a license-validation
//! bootstrap under a strict backup and restore discipline, drives
//! the packaging tool while reporting bounded monotone progress,
//! and defines the embedded validation protocol that the produced
//! executable enforces at its own start.
pub mod backend;
pub mod digits;
pub mod fragments;
pub mod frontend;
pub mod instrument;
pub mod job;
pub mod plan;
pub mod progress;
pub mod protocol;
pub mod remote;
pub mod text;
pub mod tools;
