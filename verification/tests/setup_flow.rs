//! The literal end-to-end scenario: a full setup against an empty cache,
//! checked action by action.

use bpf_bootstrap::config::BOOTSTRAP_CONFIG;
use bpf_bootstrap::paths::WorkspacePaths;
use bpf_bootstrap::pipeline::start;
use bpf_bootstrap::pipeline::step;
use bpf_bootstrap::pipeline::Action;
use bpf_bootstrap::pipeline::CmdKind;
use bpf_bootstrap::pipeline::Event;
use bpf_bootstrap::pipeline::Stage;

fn paths() -> WorkspacePaths {
    WorkspacePaths::new("/proj".to_string(), "/cache/u128-bpf-toolchain".to_string())
}

fn expect_run(a: &Action, program: &str, args: &[&str], cwd: Option<&str>) {
    match a {
        Action::Run { program: p, args: ar, cwd: c, .. } => {
            assert_eq!(p.as_str(), program);
            let got: Vec<&str> = ar.iter().map(|s| s.as_str()).collect();
            assert_eq!(got.as_slice(), args);
            assert_eq!(c.as_deref(), cwd);
        }
        _ => panic!("expected a command, got {:?}", a),
    }
}

fn expect_ensure_dir(a: &Action, path: &str) {
    match a {
        Action::EnsureDir { path: p, .. } => assert_eq!(p.as_str(), path),
        _ => panic!("expected a directory creation, got {:?}", a),
    }
}

#[test]
fn full_setup_from_empty_cache() {
    let p = paths();
    let cache = "/cache/u128-bpf-toolchain";
    let linker_dir = "/cache/u128-bpf-toolchain/sbpf-linker";
    let rust_dir = "/cache/u128-bpf-toolchain/rust-compiler";
    let llvm_dir = "/cache/u128-bpf-toolchain/rust-compiler/src/llvm-project";

    let (st, a) = start(CmdKind::Setup, &p);
    expect_ensure_dir(&a, cache);

    let (st, a) = step(CmdKind::Setup, &p, st, &Event::Passed);
    match &a {
        Action::CheckDir { path } => assert_eq!(path.as_str(), linker_dir),
        _ => panic!("expected a directory probe, got {:?}", a),
    }

    let (st, a) = step(CmdKind::Setup, &p, st, &Event::Absent);
    expect_run(
        &a,
        "git",
        &[
            "clone",
            "--branch",
            "u128_mul_libcall",
            "https://github.com/blueshift-gg/sbpf-linker",
            linker_dir,
        ],
        None,
    );

    let (st, a) = step(CmdKind::Setup, &p, st, &Event::Passed);
    expect_run(&a, "cargo", &["build", "--release"], Some(linker_dir));

    let (st, a) = step(CmdKind::Setup, &p, st, &Event::Passed);
    expect_ensure_dir(&a, "/proj/.cargo");

    let (st, a) = step(CmdKind::Setup, &p, st, &Event::Passed);
    match &a {
        Action::WriteFile { path, content, .. } => {
            assert_eq!(path.as_str(), "/proj/.cargo/config.toml");
            assert!(content.contains(
                "linker=/cache/u128-bpf-toolchain/sbpf-linker/target/release/sbpf-linker"
            ));
        }
        _ => panic!("expected the linker config write, got {:?}", a),
    }

    let (st, a) = step(CmdKind::Setup, &p, st, &Event::Passed);
    expect_ensure_dir(&a, cache);

    let (st, a) = step(CmdKind::Setup, &p, st, &Event::Passed);
    match &a {
        Action::CheckDir { path } => assert_eq!(path.as_str(), rust_dir),
        _ => panic!("expected a directory probe, got {:?}", a),
    }

    let (st, a) = step(CmdKind::Setup, &p, st, &Event::Absent);
    expect_run(
        &a,
        "git",
        &[
            "clone",
            "--branch",
            "BPF_i128_ret",
            "https://github.com/blueshift-gg/rust",
            rust_dir,
        ],
        None,
    );

    let (st, a) = step(CmdKind::Setup, &p, st, &Event::Passed);
    match &a {
        Action::ReadSubmoduleUrl { repo_dir, key } => {
            assert_eq!(repo_dir.as_str(), rust_dir);
            assert_eq!(key.as_str(), "submodule.src/llvm-project.url");
        }
        _ => panic!("expected the submodule-url read, got {:?}", a),
    }

    // A fresh upstream clone points at the default LLVM repository.
    let upstream = Event::SawUrl("https://github.com/rust-lang/llvm-project.git".to_string());
    let (st, a) = step(CmdKind::Setup, &p, st, &upstream);
    match &a {
        Action::CheckDir { path } => assert_eq!(
            path.as_str(),
            "/cache/u128-bpf-toolchain/rust-compiler/.git/modules/src/llvm-project"
        ),
        _ => panic!("expected a directory probe, got {:?}", a),
    }

    let (st, a) = step(CmdKind::Setup, &p, st, &Event::Absent);
    match &a {
        Action::CheckDir { path } => assert_eq!(path.as_str(), llvm_dir),
        _ => panic!("expected a directory probe, got {:?}", a),
    }

    let (st, a) = step(CmdKind::Setup, &p, st, &Event::Absent);
    expect_run(
        &a,
        "git",
        &[
            "submodule",
            "add",
            "-f",
            "https://github.com/blueshift-gg/llvm-project.git",
            "src/llvm-project",
        ],
        Some(rust_dir),
    );

    let (st, a) = step(CmdKind::Setup, &p, st, &Event::Passed);
    expect_run(
        &a,
        "git",
        &["submodule", "update", "--init", "--recursive", "src/llvm-project"],
        Some(rust_dir),
    );

    let (st, a) = step(CmdKind::Setup, &p, st, &Event::Passed);
    expect_run(
        &a,
        "git",
        &["checkout", "-B", "BPF_i128_ret", "origin/BPF_i128_ret"],
        Some(llvm_dir),
    );

    let (st, a) = step(CmdKind::Setup, &p, st, &Event::Passed);
    expect_run(&a, "git", &["add", "src/llvm-project"], Some(rust_dir));

    let (st, a) = step(CmdKind::Setup, &p, st, &Event::Passed);
    match &a {
        Action::QueryStagedDiff { repo_dir } => assert_eq!(repo_dir.as_str(), rust_dir),
        _ => panic!("expected the staged-diff query, got {:?}", a),
    }

    let (st, a) = step(CmdKind::Setup, &p, st, &Event::Dirty);
    expect_run(
        &a,
        "git",
        &["commit", "-m", "TMP: update submodule to BPF_i128_ret"],
        Some(rust_dir),
    );

    let (st, a) = step(CmdKind::Setup, &p, st, &Event::Passed);
    match &a {
        Action::CheckFile { path } => assert_eq!(
            path.as_str(),
            "/cache/u128-bpf-toolchain/rust-compiler/bootstrap.toml"
        ),
        _ => panic!("expected a file probe, got {:?}", a),
    }

    let (st, a) = step(CmdKind::Setup, &p, st, &Event::Absent);
    match &a {
        Action::WriteFile { path, content, .. } => {
            assert_eq!(
                path.as_str(),
                "/cache/u128-bpf-toolchain/rust-compiler/bootstrap.toml"
            );
            assert_eq!(content.as_str(), BOOTSTRAP_CONFIG);
        }
        _ => panic!("expected the bootstrap config write, got {:?}", a),
    }

    let (st, a) = step(CmdKind::Setup, &p, st, &Event::Passed);
    expect_run(&a, "./x", &["build"], Some(rust_dir));

    let (st, a) = step(CmdKind::Setup, &p, st, &Event::Passed);
    expect_run(
        &a,
        "rustup",
        &[
            "toolchain",
            "link",
            "stage1",
            "/cache/u128-bpf-toolchain/rust-compiler/build/host/stage0",
        ],
        None,
    );

    let (st, a) = step(CmdKind::Setup, &p, st, &Event::Passed);
    assert!(matches!(st, Stage::Finished));
    assert!(matches!(a, Action::Done));
}

#[test]
fn downstream_build_uses_registered_toolchain() {
    let p = paths();
    let (st, a) = start(CmdKind::Build, &p);
    expect_run(&a, "cargo", &["+stage1", "build-bpf"], Some("/proj"));
    let (st, a) = step(CmdKind::Build, &p, st, &Event::Passed);
    assert!(matches!(st, Stage::Finished));
    assert!(matches!(a, Action::Done));
}

#[test]
fn failing_downstream_build_halts() {
    let p = paths();
    let (st, _a) = start(CmdKind::Build, &p);
    let (st, a) = step(CmdKind::Build, &p, st, &Event::Failed);
    assert!(matches!(st, Stage::Halted));
    assert!(matches!(a, Action::Fail));
}
