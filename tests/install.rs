use wedding_planner::cpu_data::CpuType;
use wedding_planner::dependency::{Dependency, InviteFile};
use wedding_planner::install::{InstallAction, InstallEvent, InstallStage};
use wedding_planner::wedding_invite::{BuildError, BuildFiles, InitBuild, WeddingInvite};

fn svc() -> Dependency {
    Dependency {
        name: "svc".to_string(),
        url: "https://example.com/svc.git".to_string(),
        branch: "main".to_string(),
    }
}

fn invite(build_lock: Option<bool>, init_lock: Option<bool>) -> WeddingInvite {
    let mut files = BuildFiles::new();
    files.insert("x86_64".to_string(), "build/Dockerfile.x86_64".to_string());
    let mut init_files = BuildFiles::new();
    init_files.insert("x86_64".to_string(), "db/Dockerfile.init".to_string());
    WeddingInvite {
        build_files: Some(files),
        build_root: ".".to_string(),
        init_build: Some(InitBuild {
            build_files: init_files,
            build_root: "db".to_string(),
            build_lock: init_lock,
        }),
        runner_files: vec!["base.yml".to_string()],
        remote_runner_files: None,
        dev_runner_files: None,
        build_lock,
    }
}

fn command(action: InstallAction) -> String {
    match action {
        InstallAction::RunCommand(c) => c,
        _ => panic!("expected a command"),
    }
}

#[test]
fn install_clears_a_stale_checkout_first() {
    let venue = "/work/venue".to_string();
    let (stage, action) = svc().install_start(&venue, true);
    assert_eq!(stage, InstallStage::Clearing);
    match action {
        InstallAction::RemoveDirectory(p) => assert_eq!(p, "/work/venue/svc"),
        _ => panic!("expected a removal"),
    }
    let (stage, action) = svc().install_next(&venue, CpuType::X86_64, stage, InstallEvent::Cleared);
    assert_eq!(stage, InstallStage::Cloning);
    assert_eq!(command(action), "cd /work/venue && git clone https://example.com/svc.git");
}

#[test]
fn install_runs_through_every_step() {
    let venue = "/work/venue".to_string();
    let dep = svc();
    let (stage, action) = dep.install_start(&venue, false);
    assert_eq!(stage, InstallStage::Cloning);
    assert_eq!(command(action), "cd /work/venue && git clone https://example.com/svc.git");

    let (stage, action) =
        dep.install_next(&venue, CpuType::X86_64, stage, InstallEvent::CommandFinished(true));
    assert_eq!(stage, InstallStage::CheckingOut);
    assert_eq!(command(action), "cd /work/venue/svc && git checkout main");

    let (stage, action) =
        dep.install_next(&venue, CpuType::X86_64, stage, InstallEvent::CommandFinished(true));
    assert_eq!(stage, InstallStage::Reading);
    match action {
        InstallAction::ReadInvite(p) => assert_eq!(p, "/work/venue/svc/wedding_invite.yml"),
        _ => panic!("expected a read"),
    }

    let event = InstallEvent::InviteRead(InviteFile::Parsed(invite(None, None)));
    let (stage, action) = dep.install_next(&venue, CpuType::X86_64, stage, event);
    assert_eq!(stage, InstallStage::Done);
    match action {
        InstallAction::PrepareBuilds { build, init } => {
            let build = build.unwrap().unwrap();
            assert_eq!(build.from, "/work/venue/svc/build/Dockerfile.x86_64");
            assert_eq!(build.to, "/work/venue/svc/./Dockerfile");
            let init = init.unwrap().unwrap();
            assert_eq!(init.from, "/work/venue/svc/db/Dockerfile.init");
            assert_eq!(init.to, "/work/venue/svc/db/Dockerfile");
        }
        _ => panic!("expected build preparation"),
    }
}

#[test]
fn failed_clone_or_checkout_skips_the_repository() {
    let venue = "v".to_string();
    let (stage, action) =
        svc().install_next(&venue, CpuType::X86_64, InstallStage::Cloning, InstallEvent::CommandFinished(false));
    assert_eq!(stage, InstallStage::Done);
    assert!(matches!(action, InstallAction::Skip));
    let (stage, action) = svc().install_next(
        &venue,
        CpuType::X86_64,
        InstallStage::CheckingOut,
        InstallEvent::CommandFinished(false),
    );
    assert_eq!(stage, InstallStage::Done);
    assert!(matches!(action, InstallAction::Skip));
}

#[test]
fn locked_builds_are_left_alone_on_install() {
    let event = InstallEvent::InviteRead(InviteFile::Parsed(invite(Some(true), Some(true))));
    let (_, action) = svc().install_next(&"v".to_string(), CpuType::Arm, InstallStage::Reading, event);
    match action {
        InstallAction::PrepareBuilds { build, init } => {
            assert!(build.unwrap().is_none());
            assert!(init.unwrap().is_none());
        }
        _ => panic!("expected build preparation"),
    }
}

#[test]
fn missing_host_entry_is_reported_per_target() {
    let mut w = invite(None, Some(true));
    w.build_files = None;
    let event = InstallEvent::InviteRead(InviteFile::Parsed(w));
    let (_, action) = svc().install_next(&"v".to_string(), CpuType::Arm, InstallStage::Reading, event);
    match action {
        InstallAction::PrepareBuilds { build, init } => {
            assert!(build.unwrap().is_none());
            assert!(init.unwrap().is_none());
        }
        _ => panic!("expected build preparation"),
    }
    let event = InstallEvent::InviteRead(InviteFile::Parsed(invite(None, None)));
    let (_, action) = svc().install_next(&"v".to_string(), CpuType::Arm, InstallStage::Reading, event);
    match action {
        InstallAction::PrepareBuilds { build, init } => {
            assert_eq!(build.err(), Some(BuildError::NoBuildFile(CpuType::Arm)));
            assert_eq!(init.err(), Some(BuildError::NoBuildFile(CpuType::Arm)));
        }
        _ => panic!("expected build preparation"),
    }
}

#[test]
fn unreadable_manifest_aborts_the_install() {
    let (stage, action) = svc().install_next(
        &"v".to_string(),
        CpuType::X86_64,
        InstallStage::Reading,
        InstallEvent::InviteRead(InviteFile::Missing),
    );
    assert_eq!(stage, InstallStage::Done);
    match action {
        InstallAction::Abort(m) => assert_eq!(m, "v/svc/wedding_invite.yml does not exist"),
        _ => panic!("expected an abort"),
    }
}

#[test]
fn unexpected_event_ends_the_installation() {
    let (stage, action) =
        svc().install_next(&"v".to_string(), CpuType::X86_64, InstallStage::Reading, InstallEvent::Cleared);
    assert_eq!(stage, InstallStage::Done);
    assert!(matches!(action, InstallAction::Skip));
}
