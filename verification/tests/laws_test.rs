//! Concrete instances of the pipeline's laws, driven through a fake runner
//! that simulates the external world in memory.

use bpf_bootstrap::consts::LLVM_BRANCH;
use bpf_bootstrap::consts::LLVM_REPO;
use bpf_bootstrap::paths::WorkspacePaths;
use bpf_bootstrap::pipeline::start;
use bpf_bootstrap::pipeline::step;
use bpf_bootstrap::pipeline::Action;
use bpf_bootstrap::pipeline::CmdKind;
use bpf_bootstrap::pipeline::Event;
use bpf_bootstrap::pipeline::LABEL_ADD_SUBMODULE;
use bpf_bootstrap::pipeline::LABEL_BUILD_LINKER;
use bpf_bootstrap::pipeline::LABEL_BUILD_RUST;
use bpf_bootstrap::pipeline::LABEL_CHECKOUT_LLVM;
use bpf_bootstrap::pipeline::LABEL_CLONE_LINKER;
use bpf_bootstrap::pipeline::LABEL_CLONE_RUST;
use bpf_bootstrap::pipeline::LABEL_COMMIT_SUBMODULE;
use bpf_bootstrap::pipeline::LABEL_REMOVE_LLVM;
use bpf_bootstrap::pipeline::LABEL_REMOVE_MODULES;
use bpf_bootstrap::pipeline::LABEL_UPDATE_SUBMODULE;
use bpf_bootstrap::pipeline::LABEL_WRITE_BOOTSTRAP;

/// The simulated external world.
struct World {
    linker_dir: bool,
    rust_dir: bool,
    modules_dir: bool,
    llvm_dir: bool,
    url: String,
    branch: String,
    staged_clean: bool,
    bootstrap: Option<String>,
    linker_config: Option<String>,
    failing: Vec<String>,
}

impl World {
    fn empty() -> World {
        World {
            linker_dir: false,
            rust_dir: false,
            modules_dir: false,
            llvm_dir: false,
            url: "https://github.com/rust-lang/llvm-project.git".to_string(),
            branch: "master".to_string(),
            staged_clean: true,
            bootstrap: None,
            linker_config: None,
            failing: Vec::new(),
        }
    }
}

/// What one simulated run did.
struct RunLog {
    finished: bool,
    labels: Vec<String>,
}

fn perform(w: &mut World, p: &WorkspacePaths, a: &Action, log: &mut RunLog) -> Option<Event> {
    match a {
        Action::Run { label, .. } => {
            log.labels.push(label.clone());
            if w.failing.contains(label) {
                return Some(Event::Failed);
            }
            if label.as_str() == LABEL_CLONE_LINKER {
                w.linker_dir = true;
            } else if label.as_str() == LABEL_CLONE_RUST {
                w.rust_dir = true;
            } else if label.as_str() == LABEL_UPDATE_SUBMODULE {
                w.modules_dir = true;
                w.llvm_dir = true;
            } else if label.as_str() == LABEL_ADD_SUBMODULE {
                w.url = LLVM_REPO.to_string();
                w.modules_dir = true;
                w.llvm_dir = true;
                w.staged_clean = false;
            } else if label.as_str() == LABEL_CHECKOUT_LLVM {
                w.branch = LLVM_BRANCH.to_string();
            } else if label.as_str() == LABEL_COMMIT_SUBMODULE {
                w.staged_clean = true;
            }
            Some(Event::Passed)
        }
        Action::EnsureDir { label, .. } => {
            log.labels.push(label.clone());
            if w.failing.contains(label) {
                Some(Event::Failed)
            } else {
                Some(Event::Passed)
            }
        }
        Action::RemoveDir { path, label } => {
            log.labels.push(label.clone());
            if w.failing.contains(label) {
                return Some(Event::Failed);
            }
            if path.as_str() == p.modules_dir.as_str() {
                w.modules_dir = false;
            } else if path.as_str() == p.llvm_dir.as_str() {
                w.llvm_dir = false;
            }
            Some(Event::Passed)
        }
        Action::WriteFile { path, content, label } => {
            log.labels.push(label.clone());
            if w.failing.contains(label) {
                return Some(Event::Failed);
            }
            if path.as_str() == p.bootstrap_file.as_str() {
                w.bootstrap = Some(content.clone());
            } else if path.as_str() == p.cargo_config_file.as_str() {
                w.linker_config = Some(content.clone());
            }
            Some(Event::Passed)
        }
        Action::CheckDir { path } => {
            let exists = if path.as_str() == p.linker_dir.as_str() {
                w.linker_dir
            } else if path.as_str() == p.rust_dir.as_str() {
                w.rust_dir
            } else if path.as_str() == p.modules_dir.as_str() {
                w.modules_dir
            } else if path.as_str() == p.llvm_dir.as_str() {
                w.llvm_dir
            } else {
                panic!("probe of an unexpected directory: {}", path)
            };
            Some(if exists { Event::Present } else { Event::Absent })
        }
        Action::CheckFile { path } => {
            assert_eq!(path.as_str(), p.bootstrap_file.as_str());
            Some(if w.bootstrap.is_some() { Event::Present } else { Event::Absent })
        }
        Action::ReadSubmoduleUrl { .. } => Some(Event::SawUrl(w.url.clone())),
        Action::QueryStagedDiff { .. } => {
            Some(if w.staged_clean { Event::Clean } else { Event::Dirty })
        }
        Action::Done => None,
        Action::Fail => None,
    }
}

fn run(cmd: CmdKind, p: &WorkspacePaths, w: &mut World) -> RunLog {
    let mut log = RunLog { finished: false, labels: Vec::new() };
    let (mut st, mut a) = start(cmd, p);
    loop {
        match perform(w, p, &a, &mut log) {
            None => {
                log.finished = matches!(a, Action::Done);
                return log;
            }
            Some(ev) => {
                let (st2, a2) = step(cmd, p, st, &ev);
                st = st2;
                a = a2;
            }
        }
    }
}

fn paths() -> WorkspacePaths {
    WorkspacePaths::new("/proj".to_string(), "/cache/u128-bpf-toolchain".to_string())
}

#[test]
fn setup_twice_is_idempotent() {
    let p = paths();
    let mut w = World::empty();
    let first = run(CmdKind::Setup, &p, &mut w);
    assert!(first.finished);
    let bootstrap_after_first = w.bootstrap.clone();

    let second = run(CmdKind::Setup, &p, &mut w);
    assert!(second.finished);
    let destructive = vec![
        LABEL_CLONE_LINKER,
        LABEL_CLONE_RUST,
        LABEL_REMOVE_MODULES,
        LABEL_REMOVE_LLVM,
        LABEL_ADD_SUBMODULE,
        LABEL_COMMIT_SUBMODULE,
        LABEL_WRITE_BOOTSTRAP,
    ];
    for label in &second.labels {
        assert!(
            !destructive.contains(&label.as_str()),
            "destructive action on the second run: {}",
            label
        );
    }
    assert_eq!(w.bootstrap, bootstrap_after_first);
}

#[test]
fn submodule_converges_from_wrong_url() {
    let p = paths();
    let mut w = World::empty();
    let log = run(CmdKind::BuildCompiler, &p, &mut w);
    assert!(log.finished);
    assert_eq!(w.url.as_str(), LLVM_REPO);
    assert_eq!(w.branch.as_str(), LLVM_BRANCH);
}

#[test]
fn submodule_converges_from_right_url() {
    let p = paths();
    let mut w = World::empty();
    w.rust_dir = true;
    w.url = LLVM_REPO.to_string();
    let log = run(CmdKind::BuildCompiler, &p, &mut w);
    assert!(log.finished);
    assert_eq!(w.url.as_str(), LLVM_REPO);
    assert_eq!(w.branch.as_str(), LLVM_BRANCH);
    // the already-correct submodule is never torn down
    assert!(!log.labels.iter().any(|l| l == LABEL_REMOVE_MODULES
        || l == LABEL_REMOVE_LLVM
        || l == LABEL_ADD_SUBMODULE));
}

#[test]
fn linker_config_reflects_most_recent_run() {
    let first_paths = paths();
    let mut w = World::empty();
    let first = run(CmdKind::BuildLinker, &first_paths, &mut w);
    assert!(first.finished);
    assert!(w.linker_config.as_ref().unwrap().contains(
        "linker=/cache/u128-bpf-toolchain/sbpf-linker/target/release/sbpf-linker"
    ));

    // the cache moved between runs; the config must follow
    let moved_paths =
        WorkspacePaths::new("/proj".to_string(), "/elsewhere/u128-bpf-toolchain".to_string());
    w.linker_dir = false;
    let second = run(CmdKind::BuildLinker, &moved_paths, &mut w);
    assert!(second.finished);
    let config = w.linker_config.unwrap();
    assert!(config.contains(
        "linker=/elsewhere/u128-bpf-toolchain/sbpf-linker/target/release/sbpf-linker"
    ));
    assert!(!config.contains("linker=/cache/"));
}

#[test]
fn existing_bootstrap_config_is_preserved() {
    let p = paths();
    let mut w = World::empty();
    w.bootstrap = Some("# hand-tuned by the operator\nninja = false\n".to_string());
    let log = run(CmdKind::Setup, &p, &mut w);
    assert!(log.finished);
    assert_eq!(
        w.bootstrap.as_deref(),
        Some("# hand-tuned by the operator\nninja = false\n")
    );
}

#[test]
fn linker_build_precedes_compiler_build() {
    let p = paths();
    let mut w = World::empty();
    let log = run(CmdKind::Setup, &p, &mut w);
    assert!(log.finished);
    let linker = log.labels.iter().position(|l| l == LABEL_BUILD_LINKER).unwrap();
    let compiler = log.labels.iter().position(|l| l == LABEL_BUILD_RUST).unwrap();
    assert!(linker < compiler);
}

#[test]
fn failure_halts_the_pipeline() {
    let p = paths();
    let mut w = World::empty();
    w.failing.push(LABEL_BUILD_LINKER.to_string());
    let log = run(CmdKind::Setup, &p, &mut w);
    assert!(!log.finished);
    // the failing build is the last external effect attempted
    assert_eq!(log.labels.last().map(|l| l.as_str()), Some(LABEL_BUILD_LINKER));
    assert!(!log.labels.iter().any(|l| l == LABEL_BUILD_RUST));
}

#[test]
fn failing_clone_halts_before_any_build() {
    let p = paths();
    let mut w = World::empty();
    w.failing.push(LABEL_CLONE_RUST.to_string());
    let log = run(CmdKind::Setup, &p, &mut w);
    assert!(!log.finished);
    assert!(!log.labels.iter().any(|l| l == LABEL_BUILD_RUST));
}
