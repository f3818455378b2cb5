//! A rehearsal runs the repository at hand together with the repositories of
//! its seating plan: its own manifest's compose files follow theirs in every
//! invocation, named relative to its working directory.
use vstd::prelude::*;
use vstd::string::*;
use crate::compose::{compose_flags, flag_list};
use crate::dependency::InviteFile;
use crate::runner::{command_view, finish, with_subcommand, ComposeError, ComposeFailure, Runner};
use crate::wedding_invite::WeddingInvite;

verus! {

/// The repository at hand, with the seating plan it depends on.
#[derive(Debug)]
pub struct DressRehearsal {
    pub runner: Runner,
    /// The manifest of the repository at hand.
    pub wedding_invite: WeddingInvite,
    /// Where the repository at hand is checked out.
    pub working_directory: String,
}

/// An assembled invocation followed by the flags for `files` under `dir`.
pub open spec fn extended(r: Result<Seq<char>, ComposeFailure>, dir: Seq<char>, files: Seq<String>) -> Result<
    Seq<char>,
    ComposeFailure,
> {
    match r {
        Ok(c) => Ok(c + flag_list(dir, files)),
        Err(e) => Err(e),
    }
}

/// An assembled invocation followed by the flags for `files` under `dir`.
fn extend(r: Result<String, ComposeError>, dir: &String, files: &Vec<String>) -> (out: Result<
    String,
    ComposeError,
>)
    ensures
        command_view(out) == extended(command_view(r), dir@, files@),
{
    match r {
        Ok(mut c) => {
            let flags = compose_flags(dir.as_str(), files);
            c.append(flags.as_str());
            Ok(c)
        },
        Err(e) => Err(e),
    }
}

impl DressRehearsal {
    pub fn new(runner: Runner, wedding_invite: WeddingInvite, working_directory: &String) -> (r:
        DressRehearsal)
        ensures
            r.runner == runner,
            r.wedding_invite == wedding_invite,
            r.working_directory == *working_directory,
    {
        DressRehearsal { runner, wedding_invite, working_directory: working_directory.clone() }
    }

    /// The invocation over the seating plan, then the local compose files of
    /// the repository at hand.
    pub open spec fn spec_compose(&self, invites: Seq<InviteFile>, remote: bool) -> Result<
        Seq<char>,
        ComposeFailure,
    > {
        extended(
            self.runner.spec_compose(invites, remote),
            self.working_directory@,
            self.wedding_invite.runner_files@,
        )
    }

    /// The invocation over the seating plan's local compose files, then the
    /// development compose files of the repository at hand, if it has any.
    pub open spec fn spec_compose_dev(&self, invites: Seq<InviteFile>) -> Result<
        Seq<char>,
        ComposeFailure,
    > {
        match self.wedding_invite.dev_runner_files {
            Some(files) => extended(
                self.runner.spec_compose(invites, false),
                self.working_directory@,
                files@,
            ),
            None => self.runner.spec_compose(invites, false),
        }
    }

    fn get_compose_file_command(&self, invites: &Vec<InviteFile>, remote: bool) -> (r: Result<
        String,
        ComposeError,
    >)
        requires
            invites@.len() == self.runner.seating_plan.attendees@.len(),
        ensures
            command_view(r) == self.spec_compose(invites@, remote),
    {
        let plan = self.runner.get_compose_file_command(invites, remote);
        extend(plan, &self.working_directory, &self.wedding_invite.runner_files)
    }

    fn get_compose_file_command_dev(&self, invites: &Vec<InviteFile>) -> (r: Result<
        String,
        ComposeError,
    >)
        requires
            invites@.len() == self.runner.seating_plan.attendees@.len(),
        ensures
            command_view(r) == self.spec_compose_dev(invites@),
    {
        let plan = self.runner.get_compose_file_command(invites, false);
        match &self.wedding_invite.dev_runner_files {
            Some(files) => extend(plan, &self.working_directory, files),
            None => plan,
        }
    }

    /// The invocation that stops the services from local builds.
    pub fn teardown_dependencies(&self, invites: &Vec<InviteFile>) -> (r: Result<String, ComposeError>)
        requires
            invites@.len() == self.runner.seating_plan.attendees@.len(),
        ensures
            command_view(r) == with_subcommand(self.spec_compose(invites@, false), " down"@),
    {
        finish(self.get_compose_file_command(invites, false), " down")
    }

    /// The invocation that stops the services from published images.
    pub fn teardown_remote_dependencies(&self, invites: &Vec<InviteFile>) -> (r: Result<
        String,
        ComposeError,
    >)
        requires
            invites@.len() == self.runner.seating_plan.attendees@.len(),
        ensures
            command_view(r) == with_subcommand(self.spec_compose(invites@, true), " down"@),
    {
        finish(self.get_compose_file_command(invites, true), " down")
    }

    /// The invocation that builds the services afresh.
    pub fn build_dependencies(&self, invites: &Vec<InviteFile>) -> (r: Result<String, ComposeError>)
        requires
            invites@.len() == self.runner.seating_plan.attendees@.len(),
        ensures
            command_view(r) == with_subcommand(
                self.spec_compose(invites@, false),
                " build --no-cache"@,
            ),
    {
        finish(self.get_compose_file_command(invites, false), " build --no-cache")
    }

    /// The invocation that builds afresh, with the plan's remote compose
    /// files.
    pub fn build_remote_dependencies(&self, invites: &Vec<InviteFile>) -> (r: Result<
        String,
        ComposeError,
    >)
        requires
            invites@.len() == self.runner.seating_plan.attendees@.len(),
        ensures
            command_view(r) == with_subcommand(
                self.spec_compose(invites@, true),
                " build --no-cache"@,
            ),
    {
        finish(self.get_compose_file_command(invites, true), " build --no-cache")
    }

    /// The invocation that runs the services from local builds.
    pub fn run_dependencies(&self, invites: &Vec<InviteFile>) -> (r: Result<String, ComposeError>)
        requires
            invites@.len() == self.runner.seating_plan.attendees@.len(),
        ensures
            command_view(r) == with_subcommand(self.spec_compose(invites@, false), " up"@),
    {
        finish(self.get_compose_file_command(invites, false), " up")
    }

    /// The invocation that runs the services from local builds in the
    /// background.
    pub fn run_dependencies_background(&self, invites: &Vec<InviteFile>) -> (r: Result<
        String,
        ComposeError,
    >)
        requires
            invites@.len() == self.runner.seating_plan.attendees@.len(),
        ensures
            command_view(r) == with_subcommand(self.spec_compose(invites@, false), " up -d"@),
    {
        finish(self.get_compose_file_command(invites, false), " up -d")
    }

    /// The invocation that runs the services from published images.
    pub fn run_remote_dependencies(&self, invites: &Vec<InviteFile>) -> (r: Result<
        String,
        ComposeError,
    >)
        requires
            invites@.len() == self.runner.seating_plan.attendees@.len(),
        ensures
            command_view(r) == with_subcommand(self.spec_compose(invites@, true), " up"@),
    {
        finish(self.get_compose_file_command(invites, true), " up")
    }

    /// The invocation that runs the services from published images in the
    /// background.
    pub fn run_remote_dependencies_background(&self, invites: &Vec<InviteFile>) -> (r: Result<
        String,
        ComposeError,
    >)
        requires
            invites@.len() == self.runner.seating_plan.attendees@.len(),
        ensures
            command_view(r) == with_subcommand(self.spec_compose(invites@, true), " up -d"@),
    {
        finish(self.get_compose_file_command(invites, true), " up -d")
    }

    /// The invocation that runs the services with the development compose
    /// files of the repository at hand.
    pub fn run_dev_dependencies(&self, invites: &Vec<InviteFile>) -> (r: Result<String, ComposeError>)
        requires
            invites@.len() == self.runner.seating_plan.attendees@.len(),
        ensures
            command_view(r) == with_subcommand(self.spec_compose_dev(invites@), " up"@),
    {
        finish(self.get_compose_file_command_dev(invites), " up")
    }
}

} // verus!
