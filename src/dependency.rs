//! A repository that the seating plan lists: where it lives in the venue, the
//! commands that materialise it, and the reading of its manifest.
use vstd::prelude::*;
use vstd::string::*;
use crate::commands::checkout_branch::CheckoutBranchCommand;
use crate::commands::clone_repo::CloneRepoCommand;
use crate::paths::{join_path, path_join};
use crate::wedding_invite::WeddingInvite;

verus! {

/// One repository of the seating plan. Its checkout lives at `<venue>/<name>`.
#[derive(Debug)]
pub struct Dependency {
    pub name: String,
    pub url: String,
    pub branch: String,
}

/// What was found at the place of a repository's manifest.
#[derive(Debug)]
pub enum InviteFile {
    /// No file is there.
    Missing,
    /// A file is there, but it could not be read as a manifest, for the
    /// reason given.
    Unreadable(String),
    /// The manifest that the file holds.
    Parsed(WeddingInvite),
}

/// The checkout of the repository `name` in the venue.
pub open spec fn repo_path(venue: Seq<char>, name: Seq<char>) -> Seq<char> {
    path_join(venue, name)
}

/// The manifest file of the repository `name` in the venue.
pub open spec fn invite_path(venue: Seq<char>, name: Seq<char>) -> Seq<char> {
    path_join(repo_path(venue, name), "wedding_invite.yml"@)
}

/// The error that reading the manifest of the repository `name` gives, or
/// `None` when the manifest was read.
pub open spec fn invite_error(venue: Seq<char>, name: Seq<char>, file: InviteFile) -> Option<Seq<char>> {
    match file {
        InviteFile::Missing => Some(invite_path(venue, name) + " does not exist"@),
        InviteFile::Unreadable(reason) => Some("Could not read values: "@ + reason@),
        InviteFile::Parsed(_) => None,
    }
}

/// The clone command that materialising the repository runs, if any: none
/// when its checkout is already in the venue.
pub open spec fn clone_plan(d: Dependency, venue: Seq<char>, materialized: bool) -> Option<Seq<char>> {
    if materialized {
        None
    } else {
        Some(crate::commands::clone_repo::clone_command(venue, d.url@))
    }
}

/// How many commands a plan runs.
pub open spec fn commands_run(plan: Option<Seq<char>>) -> nat {
    if plan is Some {
        1
    } else {
        0
    }
}

/// Cloning is idempotent. A clone leaves the checkout in the venue, and a
/// clone of a repository whose checkout is there runs nothing; so two clones
/// in a row run the clone command at most once, whatever the venue held
/// before the first.
pub proof fn clone_runs_at_most_once(d: Dependency, venue: Seq<char>, materialized_before: bool)
    ensures
        clone_plan(d, venue, true) is None,
        commands_run(clone_plan(d, venue, materialized_before)) + commands_run(
            clone_plan(d, venue, true),
        ) <= 1,
{
}

impl Dependency {
    /// The checkout of this repository in the venue.
    pub fn repo_path(&self, venue_path: &String) -> (r: String)
        ensures
            r@ == repo_path(venue_path@, self.name@),
    {
        join_path(venue_path.as_str(), self.name.as_str())
    }

    /// The manifest file of this repository in the venue.
    pub fn invite_path(&self, venue_path: &String) -> (r: String)
        ensures
            r@ == invite_path(venue_path@, self.name@),
    {
        let repo = self.repo_path(venue_path);
        join_path(repo.as_str(), "wedding_invite.yml")
    }

    /// The clone that materialises this repository in the venue, `None` when
    /// its checkout is already there.
    pub fn clone_github_repo(&self, venue_path: &String, materialized: bool) -> (r: Option<
        CloneRepoCommand,
    >)
        ensures
            match r {
                Some(c) => {
                    &&& clone_plan(*self, venue_path@, materialized) == Some(c.spec_command_line())
                    &&& c.repo_url == self.url
                    &&& c.path_to_repo == *venue_path
                },
                None => clone_plan(*self, venue_path@, materialized) is None,
            },
    {
        if materialized {
            None
        } else {
            Some(CloneRepoCommand::new(self.url.clone(), venue_path.clone()))
        }
    }

    /// The checkout of this repository's branch.
    pub fn checkout_branch(&self, venue_path: &String) -> (r: CheckoutBranchCommand)
        ensures
            r.branch_name == self.branch,
            r.path_to_repo == *venue_path,
            r.repo_name == self.name,
    {
        CheckoutBranchCommand::new(self.branch.clone(), venue_path.clone(), self.name.clone())
    }

    /// The manifest of this repository, given what was found at its place
    /// (see `invite_path`), or why there is none.
    pub fn get_wedding_invite<'a>(&self, venue_path: &String, file: &'a InviteFile) -> (r: Result<
        &'a WeddingInvite,
        String,
    >)
        ensures
            match r {
                Ok(w) => *file == InviteFile::Parsed(*w),
                Err(m) => invite_error(venue_path@, self.name@, *file) == Some(m@),
            },
    {
        match file {
            InviteFile::Missing => {
                let mut m = self.invite_path(venue_path);
                m.append(" does not exist");
                Err(m)
            },
            InviteFile::Unreadable(reason) => {
                let mut m = "Could not read values: ".to_owned();
                m.append(reason.as_str());
                Err(m)
            },
            InviteFile::Parsed(w) => Ok(w),
        }
    }
}

} // verus!
