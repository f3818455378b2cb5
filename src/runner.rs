//! Assembly of the compose invocation over every repository of a seating
//! plan, and the invocations that build, run and tear down the services.
use vstd::prelude::*;
use vstd::string::*;
use crate::compose::flag_list;
use crate::dependency::{invite_error, repo_path, Dependency, InviteFile};
use crate::seating_plan::SeatingPlan;

verus! {

/// Why no compose invocation could be assembled.
#[derive(Debug)]
pub enum ComposeError {
    /// A repository's manifest could not be had; the message says why.
    InviteUnavailable(String),
    /// A remote invocation was asked for, and the named repository declares
    /// no remote compose files.
    NoRemoteRunnerFiles(String),
}

/// A `ComposeError` seen through its text.
pub enum ComposeFailure {
    InviteUnavailable(Seq<char>),
    NoRemoteRunnerFiles(Seq<char>),
}

impl View for ComposeError {
    type V = ComposeFailure;

    open spec fn view(&self) -> ComposeFailure {
        match self {
            ComposeError::InviteUnavailable(m) => ComposeFailure::InviteUnavailable(m@),
            ComposeError::NoRemoteRunnerFiles(n) => ComposeFailure::NoRemoteRunnerFiles(n@),
        }
    }
}

/// The invocation that every assembly starts from.
pub open spec fn compose_base() -> Seq<char> {
    "docker-compose "@
}

/// The flags that one repository contributes, given what was found at the
/// place of its manifest: its local compose files, or its remote ones when
/// `remote` is set.
pub open spec fn attendee_flags(venue: Seq<char>, d: Dependency, file: InviteFile, remote: bool) -> Result<
    Seq<char>,
    ComposeFailure,
> {
    match invite_error(venue, d.name@, file) {
        Some(m) => Err(ComposeFailure::InviteUnavailable(m)),
        None => {
            let w = file->Parsed_0;
            if !remote {
                Ok(flag_list(repo_path(venue, d.name@), w.runner_files@))
            } else {
                match w.remote_runner_files {
                    Some(files) => Ok(flag_list(repo_path(venue, d.name@), files@)),
                    None => Err(ComposeFailure::NoRemoteRunnerFiles(d.name@)),
                }
            }
        },
    }
}

/// The compose invocation over the repositories `deps`, whose manifests were
/// found as `files` (one for each, in the same order): the base invocation,
/// then each repository's flags in list order; or the failure of the first
/// repository that cannot contribute.
pub open spec fn compose_command(
    venue: Seq<char>,
    deps: Seq<Dependency>,
    files: Seq<InviteFile>,
    remote: bool,
) -> Result<Seq<char>, ComposeFailure>
    decreases deps.len(),
{
    if deps.len() == 0 {
        Ok(compose_base())
    } else {
        match compose_command(venue, deps.drop_last(), files.drop_last(), remote) {
            Err(e) => Err(e),
            Ok(prefix) => match attendee_flags(venue, deps.last(), files.last(), remote) {
                Ok(flags) => Ok(prefix + flags),
                Err(e) => Err(e),
            },
        }
    }
}

/// An assembled invocation with `sub` appended.
pub open spec fn with_subcommand(r: Result<Seq<char>, ComposeFailure>, sub: Seq<char>) -> Result<
    Seq<char>,
    ComposeFailure,
> {
    match r {
        Ok(c) => Ok(c + sub),
        Err(e) => Err(e),
    }
}

/// An assembly result seen through its text.
pub open spec fn command_view(r: Result<String, ComposeError>) -> Result<Seq<char>, ComposeFailure> {
    match r {
        Ok(c) => Ok(c@),
        Err(e) => Err(e@),
    }
}

/// Once a prefix of the repositories fails, every longer prefix fails the
/// same way.
proof fn lemma_failure_persists(
    venue: Seq<char>,
    deps: Seq<Dependency>,
    files: Seq<InviteFile>,
    remote: bool,
    i: int,
    k: int,
)
    requires
        deps.len() == files.len(),
        0 <= i <= k <= deps.len(),
        compose_command(venue, deps.take(i), files.take(i), remote) is Err,
    ensures
        compose_command(venue, deps.take(k), files.take(k), remote) == compose_command(
            venue,
            deps.take(i),
            files.take(i),
            remote,
        ),
    decreases k - i,
{
    if i < k {
        lemma_failure_persists(venue, deps, files, remote, i, k - 1);
        assert(deps.take(k).drop_last() =~= deps.take(k - 1));
        assert(files.take(k).drop_last() =~= files.take(k - 1));
    }
}

/// Compose assembly keeps the order of the attendees: for two repositories
/// whose manifests were read, the invocation names the first one's compose
/// files before the second one's, and listing them the other way round
/// swaps the two groups of flags.
pub proof fn compose_keeps_attendee_order(
    venue: Seq<char>,
    a: Dependency,
    b: Dependency,
    file_a: InviteFile,
    file_b: InviteFile,
)
    requires
        file_a is Parsed,
        file_b is Parsed,
    ensures
        compose_command(venue, seq![a, b], seq![file_a, file_b], false) == Ok::<
            Seq<char>,
            ComposeFailure,
        >(
            compose_base() + flag_list(repo_path(venue, a.name@), file_a->Parsed_0.runner_files@)
                + flag_list(repo_path(venue, b.name@), file_b->Parsed_0.runner_files@),
        ),
        compose_command(venue, seq![b, a], seq![file_b, file_a], false) == Ok::<
            Seq<char>,
            ComposeFailure,
        >(
            compose_base() + flag_list(repo_path(venue, b.name@), file_b->Parsed_0.runner_files@)
                + flag_list(repo_path(venue, a.name@), file_a->Parsed_0.runner_files@),
        ),
{
    let fa = flag_list(repo_path(venue, a.name@), file_a->Parsed_0.runner_files@);
    let fb = flag_list(repo_path(venue, b.name@), file_b->Parsed_0.runner_files@);
    assert(attendee_flags(venue, a, file_a, false) == Ok::<Seq<char>, ComposeFailure>(fa));
    assert(attendee_flags(venue, b, file_b, false) == Ok::<Seq<char>, ComposeFailure>(fb));
    let none_d = Seq::<Dependency>::empty();
    let none_f = Seq::<InviteFile>::empty();
    assert(compose_command(venue, none_d, none_f, false) == Ok::<Seq<char>, ComposeFailure>(
        compose_base(),
    ));
    assert(seq![a].drop_last() =~= none_d);
    assert(seq![file_a].drop_last() =~= none_f);
    assert(compose_command(venue, seq![a], seq![file_a], false) == Ok::<Seq<char>, ComposeFailure>(
        compose_base() + fa,
    ));
    assert(seq![a, b].drop_last() =~= seq![a]);
    assert(seq![file_a, file_b].drop_last() =~= seq![file_a]);
    assert(seq![b].drop_last() =~= none_d);
    assert(seq![file_b].drop_last() =~= none_f);
    assert(compose_command(venue, seq![b], seq![file_b], false) == Ok::<Seq<char>, ComposeFailure>(
        compose_base() + fb,
    ));
    assert(seq![b, a].drop_last() =~= seq![b]);
    assert(seq![file_b, file_a].drop_last() =~= seq![file_b]);
}

/// The flags that the repository `d` contributes.
fn attendee_fragment(venue: &String, d: &Dependency, file: &InviteFile, remote: bool) -> (r: Result<
    String,
    ComposeError,
>)
    ensures
        command_view(r) == attendee_flags(venue@, *d, *file, remote),
{
    match d.get_wedding_invite(venue, file) {
        Err(m) => Err(ComposeError::InviteUnavailable(m)),
        Ok(w) => {
            if !remote {
                Ok(w.get_docker_compose_files(venue, &d.name))
            } else {
                match &w.remote_runner_files {
                    Some(_) => Ok(w.get_remote_compose_files(venue, &d.name)),
                    None => Err(ComposeError::NoRemoteRunnerFiles(d.name.clone())),
                }
            }
        },
    }
}

/// An assembled invocation with `sub` appended.
pub(crate) fn finish(r: Result<String, ComposeError>, sub: &str) -> (out: Result<String, ComposeError>)
    ensures
        command_view(out) == with_subcommand(command_view(r), sub@),
{
    match r {
        Ok(mut c) => {
            c.append(sub);
            Ok(c)
        },
        Err(e) => Err(e),
    }
}

/// Orchestrates the repositories of a seating plan.
#[derive(Debug)]
pub struct Runner {
    pub seating_plan: SeatingPlan,
}

impl Runner {
    pub fn new(seating_plan: SeatingPlan) -> (r: Runner)
        ensures
            r.seating_plan == seating_plan,
    {
        Runner { seating_plan }
    }

    /// The assembled invocation over this plan's attendees, given what was
    /// found at the place of each one's manifest (one for each attendee, in
    /// the same order).
    pub open spec fn spec_compose(&self, invites: Seq<InviteFile>, remote: bool) -> Result<
        Seq<char>,
        ComposeFailure,
    > {
        compose_command(self.seating_plan.venue@, self.seating_plan.attendees@, invites, remote)
    }

    /// The compose invocation over every attendee, in plan order: local
    /// compose files, or remote ones when `remote` is set.
    pub fn get_compose_file_command(&self, invites: &Vec<InviteFile>, remote: bool) -> (r: Result<
        String,
        ComposeError,
    >)
        requires
            invites@.len() == self.seating_plan.attendees@.len(),
        ensures
            command_view(r) == self.spec_compose(invites@, remote),
    {
        let venue = &self.seating_plan.venue;
        let attendees = &self.seating_plan.attendees;
        let n = attendees.len();
        let mut command_string = "docker-compose ".to_owned();
        let mut i: usize = 0;
        while i < n
            invariant
                *venue == self.seating_plan.venue,
                *attendees == self.seating_plan.attendees,
                n == attendees@.len(),
                n == invites@.len(),
                i <= n,
                compose_command(venue@, attendees@.take(i as int), invites@.take(i as int), remote)
                    == Ok::<Seq<char>, ComposeFailure>(command_string@),
            decreases n - i,
        {
            let ghost before = command_string@;
            proof {
                assert(attendees@.take(i + 1).drop_last() =~= attendees@.take(i as int));
                assert(invites@.take(i + 1).drop_last() =~= invites@.take(i as int));
            }
            match attendee_fragment(venue, &attendees[i], &invites[i], remote) {
                Err(e) => {
                    proof {
                        assert(attendees@.take(i + 1).last() == attendees@[i as int]);
                        assert(invites@.take(i + 1).last() == invites@[i as int]);
                        assert(compose_command(
                            venue@,
                            attendees@.take(i + 1),
                            invites@.take(i + 1),
                            remote,
                        ) == Err::<Seq<char>, ComposeFailure>(e@));
                        lemma_failure_persists(venue@, attendees@, invites@, remote, i + 1, n as int);
                        assert(attendees@.take(n as int) =~= attendees@);
                        assert(invites@.take(n as int) =~= invites@);
                    }
                    return Err(e);
                },
                Ok(files) => {
                    command_string.append(files.as_str());
                    proof {
                        assert(attendees@.take(i + 1).last() == attendees@[i as int]);
                        assert(invites@.take(i + 1).last() == invites@[i as int]);
                    }
                },
            }
            i = i + 1;
        }
        assert(attendees@.take(n as int) =~= attendees@);
        assert(invites@.take(n as int) =~= invites@);
        Ok(command_string)
    }

    /// The invocation that stops the services from local builds.
    pub fn teardown_dependencies(&self, invites: &Vec<InviteFile>) -> (r: Result<String, ComposeError>)
        requires
            invites@.len() == self.seating_plan.attendees@.len(),
        ensures
            command_view(r) == with_subcommand(self.spec_compose(invites@, false), " down"@),
    {
        finish(self.get_compose_file_command(invites, false), " down")
    }

    /// The invocation that stops the services from published images.
    pub fn teardown_remote_dependencies(&self, invites: &Vec<InviteFile>) -> (r: Result<
        String,
        ComposeError,
    >)
        requires
            invites@.len() == self.seating_plan.attendees@.len(),
        ensures
            command_view(r) == with_subcommand(self.spec_compose(invites@, true), " down"@),
    {
        finish(self.get_compose_file_command(invites, true), " down")
    }

    /// The invocation that builds the services.
    pub fn build_dependencies(&self, invites: &Vec<InviteFile>) -> (r: Result<String, ComposeError>)
        requires
            invites@.len() == self.seating_plan.attendees@.len(),
        ensures
            command_view(r) == with_subcommand(self.spec_compose(invites@, false), " build"@),
    {
        finish(self.get_compose_file_command(invites, false), " build")
    }

    /// The invocation that runs the services from local builds.
    pub fn run_dependencies(&self, invites: &Vec<InviteFile>) -> (r: Result<String, ComposeError>)
        requires
            invites@.len() == self.seating_plan.attendees@.len(),
        ensures
            command_view(r) == with_subcommand(self.spec_compose(invites@, false), " up"@),
    {
        finish(self.get_compose_file_command(invites, false), " up")
    }

    /// The invocation that runs the services from local builds in the
    /// background.
    pub fn run_dependencies_background(&self, invites: &Vec<InviteFile>) -> (r: Result<
        String,
        ComposeError,
    >)
        requires
            invites@.len() == self.seating_plan.attendees@.len(),
        ensures
            command_view(r) == with_subcommand(self.spec_compose(invites@, false), " up -d"@),
    {
        finish(self.get_compose_file_command(invites, false), " up -d")
    }

    /// The invocation that runs the services from published images.
    pub fn run_remote_dependencies(&self, invites: &Vec<InviteFile>) -> (r: Result<
        String,
        ComposeError,
    >)
        requires
            invites@.len() == self.seating_plan.attendees@.len(),
        ensures
            command_view(r) == with_subcommand(self.spec_compose(invites@, true), " up"@),
    {
        finish(self.get_compose_file_command(invites, true), " up")
    }

    /// The invocation that runs the services from published images in the
    /// background.
    pub fn run_remote_dependencies_background(&self, invites: &Vec<InviteFile>) -> (r: Result<
        String,
        ComposeError,
    >)
        requires
            invites@.len() == self.seating_plan.attendees@.len(),
        ensures
            command_view(r) == with_subcommand(self.spec_compose(invites@, true), " up -d"@),
    {
        finish(self.get_compose_file_command(invites, true), " up -d")
    }
}

} // verus!
