//! The installation of one repository of the seating plan, as a sequence of
//! decisions: clear a stale checkout, clone, check out the branch, read the
//! manifest, and put the build files for the host in place.
//!
//! The caller carries out each action and reports what came of it; a failed
//! clone or checkout skips the repository, so that one broken repository does
//! not keep the others from being installed.
use vstd::prelude::*;
use crate::commands::checkout_branch::checkout_command;
use crate::commands::clone_repo::clone_command;
use crate::cpu_data::CpuType;
use crate::dependency::{invite_error, invite_path, repo_path, Dependency, InviteFile};
use crate::wedding_invite::{copy_plan_view, BuildError, FileCopy, WeddingInvite};

verus! {

/// Where the installation of one repository stands.
#[derive(Clone, Copy, Debug, PartialEq, Eq, Structural)]
pub enum InstallStage {
    /// Its stale checkout is being removed.
    Clearing,
    /// It is being cloned.
    Cloning,
    /// Its branch is being checked out.
    CheckingOut,
    /// Its manifest is being read.
    Reading,
    /// Nothing more is to be done for it.
    Done,
}

/// What came of the last action.
#[derive(Debug)]
pub enum InstallEvent {
    /// The stale checkout was removed.
    Cleared,
    /// The command ran; whether it succeeded.
    CommandFinished(bool),
    /// What was found at the place of the manifest.
    InviteRead(InviteFile),
}

/// What to do next.
#[derive(Debug)]
pub enum InstallAction {
    /// Remove this directory with all it holds, then report `Cleared`.
    RemoveDirectory(String),
    /// Run this shell command, then report `CommandFinished`.
    RunCommand(String),
    /// Read the manifest at this path, then report `InviteRead`.
    ReadInvite(String),
    /// Carry out each planned copy, or report its error; `Ok(None)` asks for
    /// nothing. The repository is then installed.
    PrepareBuilds {
        build: Result<Option<FileCopy>, BuildError>,
        init: Result<Option<FileCopy>, BuildError>,
    },
    /// Leave this repository as it is and go on with the next.
    Skip,
    /// The manifest could not be had: stop, for the reason given.
    Abort(String),
}

/// An `InstallAction` seen through its text.
pub enum InstallStep {
    RemoveDirectory(Seq<char>),
    RunCommand(Seq<char>),
    ReadInvite(Seq<char>),
    PrepareBuilds {
        build: Result<Option<(Seq<char>, Seq<char>)>, BuildError>,
        init: Result<Option<(Seq<char>, Seq<char>)>, BuildError>,
    },
    Skip,
    Abort(Seq<char>),
}

impl View for InstallAction {
    type V = InstallStep;

    open spec fn view(&self) -> InstallStep {
        match self {
            InstallAction::RemoveDirectory(p) => InstallStep::RemoveDirectory(p@),
            InstallAction::RunCommand(c) => InstallStep::RunCommand(c@),
            InstallAction::ReadInvite(p) => InstallStep::ReadInvite(p@),
            InstallAction::PrepareBuilds { build, init } => InstallStep::PrepareBuilds {
                build: copy_plan_view(*build),
                init: copy_plan_view(*init),
            },
            InstallAction::Skip => InstallStep::Skip,
            InstallAction::Abort(m) => InstallStep::Abort(m@),
        }
    }
}

/// The build files that a freshly read manifest asks for: the top-level one
/// when the manifest has a build-file map, and the init build's.
pub open spec fn build_steps(w: WeddingInvite, venue: Seq<char>, name: Seq<char>, cpu: CpuType) -> InstallStep {
    InstallStep::PrepareBuilds {
        build: if w.build_files is Some {
            w.build_plan(venue, name, cpu)
        } else {
            Ok(None)
        },
        init: w.init_build_plan(venue, name, cpu),
    }
}

/// The first step of installing `d`: clear its stale checkout if there is
/// one, else clone it.
pub open spec fn install_start(d: Dependency, venue: Seq<char>, materialized: bool) -> (
    InstallStage,
    InstallStep,
) {
    if materialized {
        (InstallStage::Clearing, InstallStep::RemoveDirectory(repo_path(venue, d.name@)))
    } else {
        (InstallStage::Cloning, InstallStep::RunCommand(clone_command(venue, d.url@)))
    }
}

/// The step after `event` in stage `stage` of installing `d`. An event that
/// the stage does not await ends the installation of `d`.
pub open spec fn install_next(
    d: Dependency,
    venue: Seq<char>,
    cpu: CpuType,
    stage: InstallStage,
    event: InstallEvent,
) -> (InstallStage, InstallStep) {
    match (stage, event) {
        (InstallStage::Clearing, InstallEvent::Cleared) => (
            InstallStage::Cloning,
            InstallStep::RunCommand(clone_command(venue, d.url@)),
        ),
        (InstallStage::Cloning, InstallEvent::CommandFinished(ok)) => if ok {
            (
                InstallStage::CheckingOut,
                InstallStep::RunCommand(checkout_command(venue, d.name@, d.branch@)),
            )
        } else {
            (InstallStage::Done, InstallStep::Skip)
        },
        (InstallStage::CheckingOut, InstallEvent::CommandFinished(ok)) => if ok {
            (InstallStage::Reading, InstallStep::ReadInvite(invite_path(venue, d.name@)))
        } else {
            (InstallStage::Done, InstallStep::Skip)
        },
        (InstallStage::Reading, InstallEvent::InviteRead(file)) => match invite_error(
            venue,
            d.name@,
            file,
        ) {
            Some(m) => (InstallStage::Done, InstallStep::Abort(m)),
            None => (InstallStage::Done, build_steps(file->Parsed_0, venue, d.name@, cpu)),
        },
        _ => (InstallStage::Done, InstallStep::Skip),
    }
}

impl Dependency {
    /// The first step of installing this repository into the venue, given
    /// whether a checkout of it is there already.
    pub fn install_start(&self, venue_path: &String, materialized: bool) -> (r: (
        InstallStage,
        InstallAction,
    ))
        ensures
            (r.0, r.1@) == install_start(*self, venue_path@, materialized),
    {
        if materialized {
            (InstallStage::Clearing, InstallAction::RemoveDirectory(self.repo_path(venue_path)))
        } else {
            (InstallStage::Cloning, self.clone_action(venue_path))
        }
    }

    /// The action that clones this repository into the venue.
    fn clone_action(&self, venue_path: &String) -> (r: InstallAction)
        ensures
            r@ == InstallStep::RunCommand(clone_command(venue_path@, self.url@)),
    {
        match self.clone_github_repo(venue_path, false) {
            Some(c) => InstallAction::RunCommand(c.command_line()),
            None => InstallAction::Skip,
        }
    }

    /// The step that follows `event` in stage `stage` of installing this
    /// repository, for a host of architecture `cpu`.
    pub fn install_next(&self, venue_path: &String, cpu: CpuType, stage: InstallStage, event: InstallEvent) -> (r: (
        InstallStage,
        InstallAction,
    ))
        ensures
            (r.0, r.1@) == install_next(*self, venue_path@, cpu, stage, event),
    {
        match (stage, event) {
            (InstallStage::Clearing, InstallEvent::Cleared) => (
                InstallStage::Cloning,
                self.clone_action(venue_path),
            ),
            (InstallStage::Cloning, InstallEvent::CommandFinished(ok)) => {
                if ok {
                    let checkout = self.checkout_branch(venue_path);
                    (InstallStage::CheckingOut, InstallAction::RunCommand(checkout.command_line()))
                } else {
                    (InstallStage::Done, InstallAction::Skip)
                }
            },
            (InstallStage::CheckingOut, InstallEvent::CommandFinished(ok)) => {
                if ok {
                    (InstallStage::Reading, InstallAction::ReadInvite(self.invite_path(venue_path)))
                } else {
                    (InstallStage::Done, InstallAction::Skip)
                }
            },
            (InstallStage::Reading, InstallEvent::InviteRead(file)) => {
                match self.get_wedding_invite(venue_path, &file) {
                    Err(m) => (InstallStage::Done, InstallAction::Abort(m)),
                    Ok(w) => {
                        let build = match &w.build_files {
                            Some(_) => w.prepare_build_file(venue_path, &self.name, cpu),
                            None => Ok(None),
                        };
                        let init = w.prepare_init_build_file(venue_path, &self.name, cpu);
                        (InstallStage::Done, InstallAction::PrepareBuilds { build, init })
                    },
                }
            },
            _ => (InstallStage::Done, InstallAction::Skip),
        }
    }
}

} // verus!
