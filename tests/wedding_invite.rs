use wedding_planner::cpu_data::CpuType;
use wedding_planner::wedding_invite::{BuildError, BuildFiles, InitBuild, WeddingInvite};

fn build_files(pairs: &[(&str, &str)]) -> BuildFiles {
    let mut files = BuildFiles::new();
    for (arch, path) in pairs {
        files.insert(arch.to_string(), path.to_string());
    }
    files
}

/// The manifest of the test repository.
fn test_repo_invite() -> WeddingInvite {
    WeddingInvite {
        build_files: Some(build_files(&[
            ("x86_64", "build/Dockerfile.x86_64"),
            ("aarch64", "build/Dockerfile.aarch64"),
        ])),
        build_root: ".".to_string(),
        init_build: Some(InitBuild {
            build_files: build_files(&[
                ("x86_64", "database/build/Dockerfile.init"),
                ("aarch64", "database/build/Dockerfile.init.arch"),
            ]),
            build_root: "database".to_string(),
            build_lock: None,
        }),
        runner_files: vec![
            "runner_files/base.yml".to_string(),
            "runner_files/database.yml".to_string(),
        ],
        remote_runner_files: None,
        dev_runner_files: None,
        build_lock: None,
    }
}

#[test]
fn build_files_lookup_and_replace() {
    let mut files = build_files(&[("x86_64", "a"), ("aarch64", "b")]);
    assert_eq!(files.get("x86_64").map(|s| s.as_str()), Some("a"));
    assert_eq!(files.get("aarch64").map(|s| s.as_str()), Some("b"));
    assert_eq!(files.get("arm"), None);
    files.insert("x86_64".to_string(), "c".to_string());
    assert_eq!(files.get("x86_64").map(|s| s.as_str()), Some("c"));
    assert_eq!(BuildFiles::new().get("x86_64"), None);
}

#[test]
fn test_prepare_build_file() {
    let mut wedding_invite = test_repo_invite();
    wedding_invite.build_files = Some(build_files(&[
        ("x86_64", "build/Dockerfile.aarch64"),
        ("aarch64", "build/Dockerfile.aarch64"),
    ]));
    for cpu in [CpuType::X86_64, CpuType::Aarch64] {
        let copy = wedding_invite
            .prepare_build_file(&"./tests".to_string(), &"test_repo".to_string(), cpu)
            .unwrap()
            .unwrap();
        assert_eq!(copy.from, "./tests/test_repo/build/Dockerfile.aarch64");
        assert_eq!(copy.to, "./tests/test_repo/./Dockerfile");
    }
}

#[test]
fn prepare_build_file_takes_the_entry_of_the_host() {
    let wedding_invite = test_repo_invite();
    let venue = "./tests".to_string();
    let name = "test_repo".to_string();
    let x86 = wedding_invite.prepare_build_file(&venue, &name, CpuType::X86_64).unwrap().unwrap();
    assert_eq!(x86.from, "./tests/test_repo/build/Dockerfile.x86_64");
    let arm = wedding_invite.prepare_build_file(&venue, &name, CpuType::Aarch64).unwrap().unwrap();
    assert_eq!(arm.from, "./tests/test_repo/build/Dockerfile.aarch64");
    assert_eq!(arm.to, "./tests/test_repo/./Dockerfile");
}

#[test]
fn prepare_build_file_without_host_entry_fails() {
    let wedding_invite = test_repo_invite();
    let result = wedding_invite.prepare_build_file(
        &"./tests".to_string(),
        &"test_repo".to_string(),
        CpuType::Riscv64,
    );
    let error = result.err().unwrap();
    assert_eq!(error, BuildError::NoBuildFile(CpuType::Riscv64));
    assert_eq!(error.message(), "No build file for CPU type: riscv64");
}

#[test]
fn locked_build_plans_nothing() {
    let mut wedding_invite = test_repo_invite();
    wedding_invite.build_lock = Some(true);
    wedding_invite.build_files = None;
    let venue = "./tests".to_string();
    let name = "test_repo".to_string();
    assert!(wedding_invite.prepare_build_file(&venue, &name, CpuType::Mips).unwrap().is_none());
    assert!(wedding_invite.delete_build_file(&venue, &name).is_none());
}

#[test]
fn unlocked_flag_false_still_plans() {
    let mut wedding_invite = test_repo_invite();
    wedding_invite.build_lock = Some(false);
    let venue = "./tests".to_string();
    let name = "test_repo".to_string();
    assert!(wedding_invite.prepare_build_file(&venue, &name, CpuType::X86_64).unwrap().is_some());
    assert_eq!(
        wedding_invite.delete_build_file(&venue, &name).unwrap(),
        "./tests/test_repo/./Dockerfile"
    );
}

#[test]
fn test_delete_build_file() {
    let wedding_invite = test_repo_invite();
    let path = wedding_invite
        .delete_build_file(&"./tests".to_string(), &"test_repo".to_string())
        .unwrap();
    assert_eq!(path, "./tests/test_repo/./Dockerfile");
}

#[test]
fn test_prepare_init_build_file() {
    let mut wedding_invite = test_repo_invite();
    wedding_invite.init_build = Some(InitBuild {
        build_files: build_files(&[
            ("x86_64", "database/build/Dockerfile.aarch64"),
            ("aarch64", "database/build/Dockerfile.aarch64"),
        ]),
        build_root: "database".to_string(),
        build_lock: None,
    });
    for cpu in [CpuType::X86_64, CpuType::Aarch64] {
        let copy = wedding_invite
            .prepare_init_build_file(&"./tests/".to_string(), &"test_repo".to_string(), cpu)
            .unwrap()
            .unwrap();
        assert_eq!(copy.from, "./tests/test_repo/database/build/Dockerfile.aarch64");
        assert_eq!(copy.to, "./tests/test_repo/database/Dockerfile");
    }
}

#[test]
fn test_delete_init_build_file() {
    let mut wedding_invite = test_repo_invite();
    wedding_invite.init_build = Some(InitBuild {
        build_files: build_files(&[
            ("x86_64", "database/build/Dockerfile.aarch64"),
            ("aarch64", "database/build/Dockerfile.aarch64"),
        ]),
        build_root: "database".to_string(),
        build_lock: None,
    });
    let path = wedding_invite
        .delete_init_build_file(&"./tests/".to_string(), &"test_repo".to_string())
        .unwrap();
    assert_eq!(path, "./tests/test_repo/database/Dockerfile");
}

#[test]
fn init_build_absent_or_locked_plans_nothing() {
    let venue = "./tests/".to_string();
    let name = "test_repo".to_string();
    let mut wedding_invite = test_repo_invite();
    wedding_invite.init_build = None;
    assert!(wedding_invite.prepare_init_build_file(&venue, &name, CpuType::Arm).unwrap().is_none());
    assert!(wedding_invite.delete_init_build_file(&venue, &name).is_none());

    let mut locked = test_repo_invite();
    locked.init_build.as_mut().unwrap().build_lock = Some(true);
    assert!(locked.prepare_init_build_file(&venue, &name, CpuType::Arm).unwrap().is_none());
    assert!(locked.delete_init_build_file(&venue, &name).is_none());
}

#[test]
fn init_build_without_host_entry_fails() {
    let wedding_invite = test_repo_invite();
    let result = wedding_invite.prepare_init_build_file(
        &"./tests/".to_string(),
        &"test_repo".to_string(),
        CpuType::Powerpc,
    );
    assert_eq!(result.err(), Some(BuildError::NoBuildFile(CpuType::Powerpc)));
}

#[test]
fn test_get_docker_compose_files() {
    let wedding_invite = test_repo_invite();
    let docker_compose_files =
        wedding_invite.get_docker_compose_files(&"./tests/".to_string(), &"test_repo".to_string());
    let expected_files =
        "-f ./tests/test_repo/runner_files/base.yml -f ./tests/test_repo/runner_files/database.yml "
            .to_string();
    assert_eq!(docker_compose_files, expected_files);
}

#[test]
fn remote_compose_files() {
    let mut wedding_invite = test_repo_invite();
    wedding_invite.remote_runner_files = Some(vec!["remote/base.yml".to_string()]);
    assert_eq!(
        wedding_invite.get_remote_compose_files(&"venue".to_string(), &"svc".to_string()),
        "-f venue/svc/remote/base.yml "
    );
}

#[test]
fn no_compose_files_give_no_flags() {
    let mut wedding_invite = test_repo_invite();
    wedding_invite.runner_files = Vec::new();
    assert_eq!(
        wedding_invite.get_docker_compose_files(&"venue".to_string(), &"svc".to_string()),
        ""
    );
}
