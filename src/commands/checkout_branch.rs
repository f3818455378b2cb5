//! Checking out a branch in a repository of the venue.
use vstd::prelude::*;
use vstd::string::*;
use crate::paths::{join_path, path_join};

verus! {

/// A command that checks out `branch_name` in the repository `repo_name`
/// under `path_to_repo`.
#[derive(Debug)]
pub struct CheckoutBranchCommand {
    pub branch_name: String,
    pub path_to_repo: String,
    pub repo_name: String,
}

/// The shell command that checks out `branch` in the repository `name` under
/// `path`.
pub open spec fn checkout_command(path: Seq<char>, name: Seq<char>, branch: Seq<char>) -> Seq<char> {
    "cd "@ + path_join(path, name) + " && git checkout "@ + branch
}

impl CheckoutBranchCommand {
    pub fn new(branch_name: String, path_to_repo: String, repo_name: String) -> (r: Self)
        ensures
            r.branch_name == branch_name,
            r.path_to_repo == path_to_repo,
            r.repo_name == repo_name,
    {
        Self { branch_name, path_to_repo, repo_name }
    }

    /// The shell command that the checkout runs.
    pub open spec fn spec_command_line(&self) -> Seq<char> {
        checkout_command(self.path_to_repo@, self.repo_name@, self.branch_name@)
    }

    /// The shell command that the checkout runs.
    pub fn command_line(&self) -> (r: String)
        ensures
            r@ == self.spec_command_line(),
    {
        let root_path = join_path(self.path_to_repo.as_str(), self.repo_name.as_str());
        let mut r = "cd ".to_owned();
        r.append(root_path.as_str());
        r.append(" && git checkout ");
        r.append(self.branch_name.as_str());
        r
    }
}

} // verus!
