//! The operations that can be asked for by name.
use vstd::prelude::*;
use crate::paths::same_text;

verus! {

/// An operation on a seating plan, or, for the `Dress` ones, on the
/// repository at hand together with its seating plan.
#[derive(Clone, Copy, Debug, PartialEq, Eq, Structural)]
pub enum Subcommand {
    Setup,
    Install,
    Build,
    Run,
    RemoteRun,
    Teardown,
    RemoteTeardown,
    DressBuild,
    DressRemoteBuild,
    DressRun,
    DressDevRun,
    DressRunBackground,
    DressRemoteRun,
    DressRemoteRunBackground,
    DressInstall,
    DressTeardown,
    DressRemoteTeardown,
    DressSetup,
}

/// The name that asks for an operation.
pub open spec fn subcommand_name(c: Subcommand) -> Seq<char> {
    match c {
        Subcommand::Setup => "setup"@,
        Subcommand::Install => "install"@,
        Subcommand::Build => "build"@,
        Subcommand::Run => "run"@,
        Subcommand::RemoteRun => "remoterun"@,
        Subcommand::Teardown => "teardown"@,
        Subcommand::RemoteTeardown => "remoteteardown"@,
        Subcommand::DressBuild => "dressbuild"@,
        Subcommand::DressRemoteBuild => "dressremotebuild"@,
        Subcommand::DressRun => "dressrun"@,
        Subcommand::DressDevRun => "dressdevrun"@,
        Subcommand::DressRunBackground => "dressrun-d"@,
        Subcommand::DressRemoteRun => "dressremoterun"@,
        Subcommand::DressRemoteRunBackground => "dressremoterun-d"@,
        Subcommand::DressInstall => "dressinstall"@,
        Subcommand::DressTeardown => "dressteardown"@,
        Subcommand::DressRemoteTeardown => "dressremoteteardown"@,
        Subcommand::DressSetup => "dresssetup"@,
    }
}

impl Subcommand {
    /// The operation that `name` asks for, `None` for a name that asks for
    /// none.
    pub fn parse(name: &str) -> (r: Option<Subcommand>)
        ensures
            match r {
                Some(c) => subcommand_name(c) == name@,
                None => forall|c: Subcommand| subcommand_name(c) != name@,
            },
    {
        if same_text(name, "setup") {
            Some(Subcommand::Setup)
        } else if same_text(name, "install") {
            Some(Subcommand::Install)
        } else if same_text(name, "build") {
            Some(Subcommand::Build)
        } else if same_text(name, "run") {
            Some(Subcommand::Run)
        } else if same_text(name, "remoterun") {
            Some(Subcommand::RemoteRun)
        } else if same_text(name, "teardown") {
            Some(Subcommand::Teardown)
        } else if same_text(name, "remoteteardown") {
            Some(Subcommand::RemoteTeardown)
        } else if same_text(name, "dressbuild") {
            Some(Subcommand::DressBuild)
        } else if same_text(name, "dressremotebuild") {
            Some(Subcommand::DressRemoteBuild)
        } else if same_text(name, "dressrun") {
            Some(Subcommand::DressRun)
        } else if same_text(name, "dressdevrun") {
            Some(Subcommand::DressDevRun)
        } else if same_text(name, "dressrun-d") {
            Some(Subcommand::DressRunBackground)
        } else if same_text(name, "dressremoterun") {
            Some(Subcommand::DressRemoteRun)
        } else if same_text(name, "dressremoterun-d") {
            Some(Subcommand::DressRemoteRunBackground)
        } else if same_text(name, "dressinstall") {
            Some(Subcommand::DressInstall)
        } else if same_text(name, "dressteardown") {
            Some(Subcommand::DressTeardown)
        } else if same_text(name, "dressremoteteardown") {
            Some(Subcommand::DressRemoteTeardown)
        } else if same_text(name, "dresssetup") {
            Some(Subcommand::DressSetup)
        } else {
            None
        }
    }
}

} // verus!
