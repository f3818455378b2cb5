//! Orchestration of a local multi-service environment: the manifests that
//! describe each repository, the choice of architecture-specific build files,
//! and the assembly of one compose invocation over every repository.
pub mod cpu_data;
pub mod paths;
pub mod compose;
pub mod wedding_invite;
pub mod commands;
pub mod dependency;
pub mod runner;
pub mod seating_plan;
pub mod install;
pub mod dress_rehearsal;
pub mod subcommand;
