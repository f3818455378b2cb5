//! Cloning a repository into the venue.
use vstd::prelude::*;
use vstd::string::*;

verus! {

/// A command that clones the repository at `repo_url` into the directory
/// `path_to_repo`.
#[derive(Debug)]
pub struct CloneRepoCommand {
    pub repo_url: String,
    pub path_to_repo: String,
}

/// The shell command that clones `url` into the directory `path`.
pub open spec fn clone_command(path: Seq<char>, url: Seq<char>) -> Seq<char> {
    "cd "@ + path + " && git clone "@ + url
}

impl CloneRepoCommand {
    pub fn new(repo_url: String, path_to_repo: String) -> (r: Self)
        ensures
            r.repo_url == repo_url,
            r.path_to_repo == path_to_repo,
    {
        Self { repo_url, path_to_repo }
    }

    /// The shell command that the clone runs.
    pub open spec fn spec_command_line(&self) -> Seq<char> {
        clone_command(self.path_to_repo@, self.repo_url@)
    }

    /// The shell command that the clone runs.
    pub fn command_line(&self) -> (r: String)
        ensures
            r@ == self.spec_command_line(),
    {
        let mut r = "cd ".to_owned();
        r.append(self.path_to_repo.as_str());
        r.append(" && git clone ");
        r.append(self.repo_url.as_str());
        r
    }
}

} // verus!
