//! The git commands that materialise a repository, and the handling of a
//! running command's output.
pub mod checkout_branch;
pub mod clone_repo;
pub mod command_runner;
