//! The bootstrap pipeline as an explicit state machine.
//!
//! A run is a sequence of stages. Each stage names one external effect — a
//! command to run, a directory or file to probe, a file to write — described
//! by an [`Action`]. The unverified runner performs the action and answers
//! with an [`Event`]; [`step`] then decides the next stage and its action.
//! All decision logic lives here and is verified against the spec-level
//! transition table [`next_stage`] and action table [`action_of`].

use vstd::prelude::*;
use vstd::string::*;

use crate::config::bootstrap_config;
use crate::config::linker_config_of;
use crate::config::linker_config_text;
use crate::config::BOOTSTRAP_CONFIG;
use crate::consts::commit_message;
use crate::consts::linker_branch;
use crate::consts::linker_repo;
use crate::consts::llvm_branch;
use crate::consts::llvm_remote_branch;
use crate::consts::llvm_repo;
use crate::consts::rust_branch;
use crate::consts::rust_repo;
use crate::consts::submodule_path;
use crate::consts::toolchain_name;
use crate::consts::COMMIT_MESSAGE;
use crate::consts::LINKER_BRANCH;
use crate::consts::LINKER_REPO;
use crate::consts::LLVM_BRANCH;
use crate::consts::LLVM_REMOTE_BRANCH;
use crate::consts::LLVM_REPO;
use crate::consts::RUST_BRANCH;
use crate::consts::RUST_REPO;
use crate::consts::SUBMODULE_PATH;
use crate::consts::TOOLCHAIN_NAME;
use crate::paths::bootstrap_file_of;
use crate::paths::cargo_config_dir_of;
use crate::paths::cargo_config_file_of;
use crate::paths::linker_bin_of;
use crate::paths::linker_dir_of;
use crate::paths::llvm_dir_of;
use crate::paths::modules_dir_of;
use crate::paths::rust_dir_of;
use crate::paths::stage_dir_of;
use crate::paths::str_eq;
use crate::paths::RootsV;
use crate::paths::WorkspacePaths;

verus! {

/// Key under which the LLVM submodule's configured URL is recorded in the
/// checkout's `.gitmodules` file.
pub const SUBMODULE_URL_KEY: &'static str = "submodule.src/llvm-project.url";

pub const LABEL_CREATE_CACHE: &'static str = "create cache directory";

pub const LABEL_CLONE_LINKER: &'static str = "clone sbpf-linker";

pub const LABEL_BUILD_LINKER: &'static str = "build sbpf-linker";

pub const LABEL_CREATE_CARGO_DIR: &'static str = "create cargo config directory";

pub const LABEL_WRITE_LINKER_CONFIG: &'static str = "write .cargo/config.toml";

pub const LABEL_CLONE_RUST: &'static str = "clone rust compiler";

pub const LABEL_UPDATE_SUBMODULE: &'static str = "update llvm submodule";

pub const LABEL_REMOVE_MODULES: &'static str = "remove llvm submodule metadata";

pub const LABEL_REMOVE_LLVM: &'static str = "remove llvm submodule tree";

pub const LABEL_ADD_SUBMODULE: &'static str = "add llvm submodule";

pub const LABEL_CHECKOUT_LLVM: &'static str = "checkout LLVM BPF_i128_ret branch";

pub const LABEL_STAGE_SUBMODULE: &'static str = "stage llvm submodule";

pub const LABEL_COMMIT_SUBMODULE: &'static str = "commit llvm submodule update";

pub const LABEL_WRITE_BOOTSTRAP: &'static str = "write rust-compiler/bootstrap.toml";

pub const LABEL_BUILD_RUST: &'static str = "build rust compiler";

pub const LABEL_LINK_TOOLCHAIN: &'static str = "link rustup toolchain";

pub const LABEL_BUILD_PROJECT: &'static str = "build project";

/// The four operations the pipeline driver exposes.
#[derive(Clone, Copy, PartialEq, Eq, Structural, Debug)]
pub enum CmdKind {
    /// Full bootstrap: linker stage, then compiler stage.
    Setup,
    /// Linker stage only.
    BuildLinker,
    /// Compiler stage only.
    BuildCompiler,
    /// Downstream build with the registered toolchain.
    Build,
}

/// One stage of a run. Each non-terminal stage performs exactly the action
/// given by [`action_of`].
#[derive(Clone, Copy, PartialEq, Eq, Structural, Debug)]
pub enum Stage {
    LinkerEnsureCache,
    LinkerCheckDir,
    LinkerClone,
    LinkerBuild,
    LinkerEnsureCargoDir,
    LinkerWriteConfig,
    CompilerEnsureCache,
    CompilerCheckDir,
    CompilerClone,
    CompilerReadUrl,
    CompilerUpdateKept,
    CompilerCheckModules,
    CompilerRemoveModules,
    CompilerCheckLlvm,
    CompilerRemoveLlvm,
    CompilerAddSubmodule,
    CompilerUpdateFresh,
    CompilerCheckout,
    CompilerStagePointer,
    CompilerQueryDiff,
    CompilerCommit,
    CompilerCheckBootstrap,
    CompilerWriteBootstrap,
    CompilerBuild,
    CompilerLink,
    ProjectBuild,
    Finished,
    Halted,
}

/// What the runner reports back after performing a stage's action.
#[derive(Debug)]
pub enum Event {
    /// A command or filesystem action completed successfully.
    Passed,
    /// A command exited nonzero, or a filesystem action failed.
    Failed,
    /// A probed directory or file exists.
    Present,
    /// A probed directory or file does not exist.
    Absent,
    /// The submodule URL currently configured in the checkout.
    SawUrl(String),
    /// The staged diff is empty.
    Clean,
    /// The staged diff is non-empty.
    Dirty,
}

/// Spec-level value of an [`Event`].
pub enum EventV {
    Passed,
    Failed,
    Present,
    Absent,
    SawUrl(Seq<char>),
    Clean,
    Dirty,
}

impl View for Event {
    type V = EventV;

    open spec fn view(&self) -> EventV {
        match self {
            Event::Passed => EventV::Passed,
            Event::Failed => EventV::Failed,
            Event::Present => EventV::Present,
            Event::Absent => EventV::Absent,
            Event::SawUrl(u) => EventV::SawUrl(u@),
            Event::Clean => EventV::Clean,
            Event::Dirty => EventV::Dirty,
        }
    }
}

/// The external effect a stage asks the runner to perform.
#[derive(Debug)]
pub enum Action {
    /// Run a command with inherited I/O and report its exit status.
    Run { program: String, args: Vec<String>, cwd: Option<String>, label: String },
    /// Create a directory and any missing parents.
    EnsureDir { path: String, label: String },
    /// Remove a directory tree.
    RemoveDir { path: String, label: String },
    /// Write a file, replacing any existing content.
    WriteFile { path: String, content: String, label: String },
    /// Report whether a directory exists.
    CheckDir { path: String },
    /// Report whether a file exists.
    CheckFile { path: String },
    /// Read the value under `key` from the repository's `.gitmodules`.
    ReadSubmoduleUrl { repo_dir: String, key: String },
    /// Report whether the staged diff against the last commit is empty.
    QueryStagedDiff { repo_dir: String },
    /// The run completed; nothing is left to do.
    Done,
    /// The run failed; the runner exits nonzero.
    Fail,
}

/// Spec-level value of an [`Action`].
pub enum ActionV {
    Run { program: Seq<char>, args: Seq<Seq<char>>, cwd: Option<Seq<char>>, label: Seq<char> },
    EnsureDir { path: Seq<char>, label: Seq<char> },
    RemoveDir { path: Seq<char>, label: Seq<char> },
    WriteFile { path: Seq<char>, content: Seq<char>, label: Seq<char> },
    CheckDir { path: Seq<char> },
    CheckFile { path: Seq<char> },
    ReadSubmoduleUrl { repo_dir: Seq<char>, key: Seq<char> },
    QueryStagedDiff { repo_dir: Seq<char> },
    Done,
    Fail,
}

impl View for Action {
    type V = ActionV;

    open spec fn view(&self) -> ActionV {
        match self {
            Action::Run { program, args, cwd, label } => (ActionV::Run {
                program: program@,
                args: args.deep_view(),
                cwd: match cwd {
                    Some(c) => Some(c@),
                    None => None,
                },
                label: label@,
            }),
            Action::EnsureDir { path, label } => (ActionV::EnsureDir {
                path: path@,
                label: label@,
            }),
            Action::RemoveDir { path, label } => (ActionV::RemoveDir {
                path: path@,
                label: label@,
            }),
            Action::WriteFile { path, content, label } => (ActionV::WriteFile {
                path: path@,
                content: content@,
                label: label@,
            }),
            Action::CheckDir { path } => ActionV::CheckDir { path: path@ },
            Action::CheckFile { path } => ActionV::CheckFile { path: path@ },
            Action::ReadSubmoduleUrl { repo_dir, key } => (ActionV::ReadSubmoduleUrl {
                repo_dir: repo_dir@,
                key: key@,
            }),
            Action::QueryStagedDiff { repo_dir } => (ActionV::QueryStagedDiff {
                repo_dir: repo_dir@,
            }),
            Action::Done => ActionV::Done,
            Action::Fail => ActionV::Fail,
        }
    }
}

pub open spec fn is_terminal(st: Stage) -> bool {
    st == Stage::Finished || st == Stage::Halted
}

/// The stage a command starts in.
pub open spec fn start_stage(cmd: CmdKind) -> Stage {
    match cmd {
        CmdKind::Setup => Stage::LinkerEnsureCache,
        CmdKind::BuildLinker => Stage::LinkerEnsureCache,
        CmdKind::BuildCompiler => Stage::CompilerEnsureCache,
        CmdKind::Build => Stage::ProjectBuild,
    }
}

/// A strictly decreasing measure along every transition.
pub open spec fn stage_rank(st: Stage) -> nat {
    match st {
        Stage::LinkerEnsureCache => 30,
        Stage::LinkerCheckDir => 29,
        Stage::LinkerClone => 28,
        Stage::LinkerBuild => 27,
        Stage::LinkerEnsureCargoDir => 26,
        Stage::LinkerWriteConfig => 25,
        Stage::CompilerEnsureCache => 24,
        Stage::CompilerCheckDir => 23,
        Stage::CompilerClone => 22,
        Stage::CompilerReadUrl => 21,
        Stage::CompilerCheckModules => 20,
        Stage::CompilerRemoveModules => 19,
        Stage::CompilerCheckLlvm => 18,
        Stage::CompilerRemoveLlvm => 17,
        Stage::CompilerAddSubmodule => 16,
        Stage::CompilerUpdateFresh => 15,
        Stage::CompilerUpdateKept => 14,
        Stage::CompilerCheckout => 13,
        Stage::CompilerStagePointer => 12,
        Stage::CompilerQueryDiff => 11,
        Stage::CompilerCommit => 10,
        Stage::CompilerCheckBootstrap => 9,
        Stage::CompilerWriteBootstrap => 8,
        Stage::CompilerBuild => 7,
        Stage::CompilerLink => 6,
        Stage::ProjectBuild => 2,
        Stage::Finished => 0,
        Stage::Halted => 0,
    }
}

/// Which events can answer a stage's action.
pub open spec fn event_fits(st: Stage, ev: EventV) -> bool {
    match st {
        Stage::LinkerCheckDir
        | Stage::CompilerCheckDir
        | Stage::CompilerCheckModules
        | Stage::CompilerCheckLlvm
        | Stage::CompilerCheckBootstrap => ev is Present || ev is Absent,
        Stage::CompilerReadUrl => ev is SawUrl,
        Stage::CompilerQueryDiff => ev is Clean || ev is Dirty,
        Stage::Finished | Stage::Halted => false,
        _ => ev is Passed || ev is Failed,
    }
}

/// The transition table: the stage that follows `st` once its action was
/// answered by `ev`, for the command `cmd`.
pub open spec fn next_stage(cmd: CmdKind, st: Stage, ev: EventV) -> Stage {
    match st {
        Stage::LinkerEnsureCache => match ev {
            EventV::Passed => Stage::LinkerCheckDir,
            _ => Stage::Halted,
        },
        Stage::LinkerCheckDir => match ev {
            EventV::Present => Stage::LinkerBuild,
            _ => Stage::LinkerClone,
        },
        Stage::LinkerClone => match ev {
            EventV::Passed => Stage::LinkerBuild,
            _ => Stage::Halted,
        },
        Stage::LinkerBuild => match ev {
            EventV::Passed => Stage::LinkerEnsureCargoDir,
            _ => Stage::Halted,
        },
        Stage::LinkerEnsureCargoDir => match ev {
            EventV::Passed => Stage::LinkerWriteConfig,
            _ => Stage::Halted,
        },
        Stage::LinkerWriteConfig => match ev {
            EventV::Passed => match cmd {
                CmdKind::Setup => Stage::CompilerEnsureCache,
                _ => Stage::Finished,
            },
            _ => Stage::Halted,
        },
        Stage::CompilerEnsureCache => match ev {
            EventV::Passed => Stage::CompilerCheckDir,
            _ => Stage::Halted,
        },
        Stage::CompilerCheckDir => match ev {
            EventV::Present => Stage::CompilerReadUrl,
            _ => Stage::CompilerClone,
        },
        Stage::CompilerClone => match ev {
            EventV::Passed => Stage::CompilerReadUrl,
            _ => Stage::Halted,
        },
        Stage::CompilerReadUrl => match ev {
            EventV::SawUrl(url) => if url == llvm_repo() {
                Stage::CompilerUpdateKept
            } else {
                Stage::CompilerCheckModules
            },
            _ => Stage::Halted,
        },
        Stage::CompilerUpdateKept => match ev {
            EventV::Passed => Stage::CompilerCheckout,
            _ => Stage::Halted,
        },
        Stage::CompilerCheckModules => match ev {
            EventV::Present => Stage::CompilerRemoveModules,
            _ => Stage::CompilerCheckLlvm,
        },
        Stage::CompilerRemoveModules => match ev {
            EventV::Passed => Stage::CompilerCheckLlvm,
            _ => Stage::Halted,
        },
        Stage::CompilerCheckLlvm => match ev {
            EventV::Present => Stage::CompilerRemoveLlvm,
            _ => Stage::CompilerAddSubmodule,
        },
        Stage::CompilerRemoveLlvm => match ev {
            EventV::Passed => Stage::CompilerAddSubmodule,
            _ => Stage::Halted,
        },
        Stage::CompilerAddSubmodule => match ev {
            EventV::Passed => Stage::CompilerUpdateFresh,
            _ => Stage::Halted,
        },
        Stage::CompilerUpdateFresh => match ev {
            EventV::Passed => Stage::CompilerCheckout,
            _ => Stage::Halted,
        },
        Stage::CompilerCheckout => match ev {
            EventV::Passed => Stage::CompilerStagePointer,
            _ => Stage::Halted,
        },
        Stage::CompilerStagePointer => match ev {
            EventV::Passed => Stage::CompilerQueryDiff,
            _ => Stage::Halted,
        },
        Stage::CompilerQueryDiff => match ev {
            EventV::Dirty => Stage::CompilerCommit,
            _ => Stage::CompilerCheckBootstrap,
        },
        Stage::CompilerCommit => match ev {
            EventV::Passed => Stage::CompilerCheckBootstrap,
            _ => Stage::Halted,
        },
        Stage::CompilerCheckBootstrap => match ev {
            EventV::Present => Stage::CompilerBuild,
            _ => Stage::CompilerWriteBootstrap,
        },
        Stage::CompilerWriteBootstrap => match ev {
            EventV::Passed => Stage::CompilerBuild,
            _ => Stage::Halted,
        },
        Stage::CompilerBuild => match ev {
            EventV::Passed => Stage::CompilerLink,
            _ => Stage::Halted,
        },
        Stage::CompilerLink => match ev {
            EventV::Passed => Stage::Finished,
            _ => Stage::Halted,
        },
        Stage::ProjectBuild => match ev {
            EventV::Passed => Stage::Finished,
            _ => Stage::Halted,
        },
        Stage::Finished => Stage::Finished,
        Stage::Halted => Stage::Halted,
    }
}

/// The descriptive label of a stage's external effect, named in the fatal
/// error when the effect fails.
pub open spec fn stage_label(st: Stage) -> Seq<char> {
    match st {
        Stage::LinkerEnsureCache => LABEL_CREATE_CACHE@,
        Stage::LinkerClone => LABEL_CLONE_LINKER@,
        Stage::LinkerBuild => LABEL_BUILD_LINKER@,
        Stage::LinkerEnsureCargoDir => LABEL_CREATE_CARGO_DIR@,
        Stage::LinkerWriteConfig => LABEL_WRITE_LINKER_CONFIG@,
        Stage::CompilerEnsureCache => LABEL_CREATE_CACHE@,
        Stage::CompilerClone => LABEL_CLONE_RUST@,
        Stage::CompilerUpdateKept => LABEL_UPDATE_SUBMODULE@,
        Stage::CompilerRemoveModules => LABEL_REMOVE_MODULES@,
        Stage::CompilerRemoveLlvm => LABEL_REMOVE_LLVM@,
        Stage::CompilerAddSubmodule => LABEL_ADD_SUBMODULE@,
        Stage::CompilerUpdateFresh => LABEL_UPDATE_SUBMODULE@,
        Stage::CompilerCheckout => LABEL_CHECKOUT_LLVM@,
        Stage::CompilerStagePointer => LABEL_STAGE_SUBMODULE@,
        Stage::CompilerCommit => LABEL_COMMIT_SUBMODULE@,
        Stage::CompilerWriteBootstrap => LABEL_WRITE_BOOTSTRAP@,
        Stage::CompilerBuild => LABEL_BUILD_RUST@,
        Stage::CompilerLink => LABEL_LINK_TOOLCHAIN@,
        Stage::ProjectBuild => LABEL_BUILD_PROJECT@,
        _ => Seq::<char>::empty(),
    }
}

pub open spec fn toolchain_arg() -> Seq<char> {
    "+"@ + toolchain_name()
}

/// The action table: the external effect each stage performs, with every
/// path derived from the run's roots `c`.
pub open spec fn action_of(c: RootsV, st: Stage) -> ActionV {
    match st {
        Stage::LinkerEnsureCache => (ActionV::EnsureDir {
            path: c.cache_root,
            label: LABEL_CREATE_CACHE@,
        }),
        Stage::LinkerCheckDir => ActionV::CheckDir { path: linker_dir_of(c) },
        Stage::LinkerClone => (ActionV::Run {
            program: "git"@,
            args: seq!["clone"@, "--branch"@, linker_branch(), linker_repo(), linker_dir_of(c)],
            cwd: None,
            label: LABEL_CLONE_LINKER@,
        }),
        Stage::LinkerBuild => (ActionV::Run {
            program: "cargo"@,
            args: seq!["build"@, "--release"@],
            cwd: Some(linker_dir_of(c)),
            label: LABEL_BUILD_LINKER@,
        }),
        Stage::LinkerEnsureCargoDir => (ActionV::EnsureDir {
            path: cargo_config_dir_of(c),
            label: LABEL_CREATE_CARGO_DIR@,
        }),
        Stage::LinkerWriteConfig => (ActionV::WriteFile {
            path: cargo_config_file_of(c),
            content: linker_config_of(linker_bin_of(c)),
            label: LABEL_WRITE_LINKER_CONFIG@,
        }),
        Stage::CompilerEnsureCache => (ActionV::EnsureDir {
            path: c.cache_root,
            label: LABEL_CREATE_CACHE@,
        }),
        Stage::CompilerCheckDir => ActionV::CheckDir { path: rust_dir_of(c) },
        Stage::CompilerClone => (ActionV::Run {
            program: "git"@,
            args: seq!["clone"@, "--branch"@, rust_branch(), rust_repo(), rust_dir_of(c)],
            cwd: None,
            label: LABEL_CLONE_RUST@,
        }),
        Stage::CompilerReadUrl => (ActionV::ReadSubmoduleUrl {
            repo_dir: rust_dir_of(c),
            key: SUBMODULE_URL_KEY@,
        }),
        Stage::CompilerUpdateKept => (ActionV::Run {
            program: "git"@,
            args: seq!["submodule"@, "update"@, "--init"@, "--recursive"@, submodule_path()],
            cwd: Some(rust_dir_of(c)),
            label: LABEL_UPDATE_SUBMODULE@,
        }),
        Stage::CompilerCheckModules => ActionV::CheckDir { path: modules_dir_of(c) },
        Stage::CompilerRemoveModules => (ActionV::RemoveDir {
            path: modules_dir_of(c),
            label: LABEL_REMOVE_MODULES@,
        }),
        Stage::CompilerCheckLlvm => ActionV::CheckDir { path: llvm_dir_of(c) },
        Stage::CompilerRemoveLlvm => (ActionV::RemoveDir {
            path: llvm_dir_of(c),
            label: LABEL_REMOVE_LLVM@,
        }),
        Stage::CompilerAddSubmodule => (ActionV::Run {
            program: "git"@,
            args: seq!["submodule"@, "add"@, "-f"@, llvm_repo(), submodule_path()],
            cwd: Some(rust_dir_of(c)),
            label: LABEL_ADD_SUBMODULE@,
        }),
        Stage::CompilerUpdateFresh => (ActionV::Run {
            program: "git"@,
            args: seq!["submodule"@, "update"@, "--init"@, "--recursive"@, submodule_path()],
            cwd: Some(rust_dir_of(c)),
            label: LABEL_UPDATE_SUBMODULE@,
        }),
        Stage::CompilerCheckout => (ActionV::Run {
            program: "git"@,
            args: seq!["checkout"@, "-B"@, llvm_branch(), llvm_remote_branch()],
            cwd: Some(llvm_dir_of(c)),
            label: LABEL_CHECKOUT_LLVM@,
        }),
        Stage::CompilerStagePointer => (ActionV::Run {
            program: "git"@,
            args: seq!["add"@, submodule_path()],
            cwd: Some(rust_dir_of(c)),
            label: LABEL_STAGE_SUBMODULE@,
        }),
        Stage::CompilerQueryDiff => ActionV::QueryStagedDiff { repo_dir: rust_dir_of(c) },
        Stage::CompilerCommit => (ActionV::Run {
            program: "git"@,
            args: seq!["commit"@, "-m"@, commit_message()],
            cwd: Some(rust_dir_of(c)),
            label: LABEL_COMMIT_SUBMODULE@,
        }),
        Stage::CompilerCheckBootstrap => ActionV::CheckFile { path: bootstrap_file_of(c) },
        Stage::CompilerWriteBootstrap => (ActionV::WriteFile {
            path: bootstrap_file_of(c),
            content: bootstrap_config(),
            label: LABEL_WRITE_BOOTSTRAP@,
        }),
        Stage::CompilerBuild => (ActionV::Run {
            program: "./x"@,
            args: seq!["build"@],
            cwd: Some(rust_dir_of(c)),
            label: LABEL_BUILD_RUST@,
        }),
        Stage::CompilerLink => (ActionV::Run {
            program: "rustup"@,
            args: seq!["toolchain"@, "link"@, toolchain_name(), stage_dir_of(c)],
            cwd: None,
            label: LABEL_LINK_TOOLCHAIN@,
        }),
        Stage::ProjectBuild => (ActionV::Run {
            program: "cargo"@,
            args: seq![toolchain_arg(), "build-bpf"@],
            cwd: Some(c.project_root),
            label: LABEL_BUILD_PROJECT@,
        }),
        Stage::Finished => ActionV::Done,
        Stage::Halted => ActionV::Fail,
    }
}

fn args1(a0: &str) -> (r: Vec<String>)
    ensures
        r.deep_view() == seq![a0@],
{
    let mut v: Vec<String> = Vec::new();
    v.push(String::from_str(a0));
    proof {
        assert(v.deep_view() =~= seq![a0@]);
    }
    v
}

fn args2(a0: &str, a1: &str) -> (r: Vec<String>)
    ensures
        r.deep_view() == seq![a0@, a1@],
{
    let mut v: Vec<String> = Vec::new();
    v.push(String::from_str(a0));
    v.push(String::from_str(a1));
    proof {
        assert(v.deep_view() =~= seq![a0@, a1@]);
    }
    v
}

fn args3(a0: &str, a1: &str, a2: &str) -> (r: Vec<String>)
    ensures
        r.deep_view() == seq![a0@, a1@, a2@],
{
    let mut v: Vec<String> = Vec::new();
    v.push(String::from_str(a0));
    v.push(String::from_str(a1));
    v.push(String::from_str(a2));
    proof {
        assert(v.deep_view() =~= seq![a0@, a1@, a2@]);
    }
    v
}

fn args4(a0: &str, a1: &str, a2: &str, a3: &str) -> (r: Vec<String>)
    ensures
        r.deep_view() == seq![a0@, a1@, a2@, a3@],
{
    let mut v: Vec<String> = Vec::new();
    v.push(String::from_str(a0));
    v.push(String::from_str(a1));
    v.push(String::from_str(a2));
    v.push(String::from_str(a3));
    proof {
        assert(v.deep_view() =~= seq![a0@, a1@, a2@, a3@]);
    }
    v
}

fn args5(a0: &str, a1: &str, a2: &str, a3: &str, a4: &str) -> (r: Vec<String>)
    ensures
        r.deep_view() == seq![a0@, a1@, a2@, a3@, a4@],
{
    let mut v: Vec<String> = Vec::new();
    v.push(String::from_str(a0));
    v.push(String::from_str(a1));
    v.push(String::from_str(a2));
    v.push(String::from_str(a3));
    v.push(String::from_str(a4));
    proof {
        assert(v.deep_view() =~= seq![a0@, a1@, a2@, a3@, a4@]);
    }
    v
}

/// Builds the action a stage performs, with every path taken from `paths`.
pub fn action_for(paths: &WorkspacePaths, st: Stage) -> (a: Action)
    requires
        paths.wf(),
    ensures
        a@ == action_of(paths@, st),
{
    match st {
        Stage::LinkerEnsureCache => Action::EnsureDir {
            path: paths.cache_root.clone(),
            label: String::from_str(LABEL_CREATE_CACHE),
        },
        Stage::LinkerCheckDir => Action::CheckDir { path: paths.linker_dir.clone() },
        Stage::LinkerClone => Action::Run {
            program: String::from_str("git"),
            args: args5(
                "clone",
                "--branch",
                LINKER_BRANCH,
                LINKER_REPO,
                paths.linker_dir.as_str(),
            ),
            cwd: None,
            label: String::from_str(LABEL_CLONE_LINKER),
        },
        Stage::LinkerBuild => Action::Run {
            program: String::from_str("cargo"),
            args: args2("build", "--release"),
            cwd: Some(paths.linker_dir.clone()),
            label: String::from_str(LABEL_BUILD_LINKER),
        },
        Stage::LinkerEnsureCargoDir => Action::EnsureDir {
            path: paths.cargo_config_dir.clone(),
            label: String::from_str(LABEL_CREATE_CARGO_DIR),
        },
        Stage::LinkerWriteConfig => Action::WriteFile {
            path: paths.cargo_config_file.clone(),
            content: linker_config_text(paths.linker_bin.as_str()),
            label: String::from_str(LABEL_WRITE_LINKER_CONFIG),
        },
        Stage::CompilerEnsureCache => Action::EnsureDir {
            path: paths.cache_root.clone(),
            label: String::from_str(LABEL_CREATE_CACHE),
        },
        Stage::CompilerCheckDir => Action::CheckDir { path: paths.rust_dir.clone() },
        Stage::CompilerClone => Action::Run {
            program: String::from_str("git"),
            args: args5("clone", "--branch", RUST_BRANCH, RUST_REPO, paths.rust_dir.as_str()),
            cwd: None,
            label: String::from_str(LABEL_CLONE_RUST),
        },
        Stage::CompilerReadUrl => Action::ReadSubmoduleUrl {
            repo_dir: paths.rust_dir.clone(),
            key: String::from_str(SUBMODULE_URL_KEY),
        },
        Stage::CompilerUpdateKept => Action::Run {
            program: String::from_str("git"),
            args: args5("submodule", "update", "--init", "--recursive", SUBMODULE_PATH),
            cwd: Some(paths.rust_dir.clone()),
            label: String::from_str(LABEL_UPDATE_SUBMODULE),
        },
        Stage::CompilerCheckModules => Action::CheckDir { path: paths.modules_dir.clone() },
        Stage::CompilerRemoveModules => Action::RemoveDir {
            path: paths.modules_dir.clone(),
            label: String::from_str(LABEL_REMOVE_MODULES),
        },
        Stage::CompilerCheckLlvm => Action::CheckDir { path: paths.llvm_dir.clone() },
        Stage::CompilerRemoveLlvm => Action::RemoveDir {
            path: paths.llvm_dir.clone(),
            label: String::from_str(LABEL_REMOVE_LLVM),
        },
        Stage::CompilerAddSubmodule => Action::Run {
            program: String::from_str("git"),
            args: args5("submodule", "add", "-f", LLVM_REPO, SUBMODULE_PATH),
            cwd: Some(paths.rust_dir.clone()),
            label: String::from_str(LABEL_ADD_SUBMODULE),
        },
        Stage::CompilerUpdateFresh => Action::Run {
            program: String::from_str("git"),
            args: args5("submodule", "update", "--init", "--recursive", SUBMODULE_PATH),
            cwd: Some(paths.rust_dir.clone()),
            label: String::from_str(LABEL_UPDATE_SUBMODULE),
        },
        Stage::CompilerCheckout => Action::Run {
            program: String::from_str("git"),
            args: args4("checkout", "-B", LLVM_BRANCH, LLVM_REMOTE_BRANCH),
            cwd: Some(paths.llvm_dir.clone()),
            label: String::from_str(LABEL_CHECKOUT_LLVM),
        },
        Stage::CompilerStagePointer => Action::Run {
            program: String::from_str("git"),
            args: args2("add", SUBMODULE_PATH),
            cwd: Some(paths.rust_dir.clone()),
            label: String::from_str(LABEL_STAGE_SUBMODULE),
        },
        Stage::CompilerQueryDiff => Action::QueryStagedDiff { repo_dir: paths.rust_dir.clone() },
        Stage::CompilerCommit => Action::Run {
            program: String::from_str("git"),
            args: args3("commit", "-m", COMMIT_MESSAGE),
            cwd: Some(paths.rust_dir.clone()),
            label: String::from_str(LABEL_COMMIT_SUBMODULE),
        },
        Stage::CompilerCheckBootstrap => Action::CheckFile { path: paths.bootstrap_file.clone() },
        Stage::CompilerWriteBootstrap => Action::WriteFile {
            path: paths.bootstrap_file.clone(),
            content: String::from_str(BOOTSTRAP_CONFIG),
            label: String::from_str(LABEL_WRITE_BOOTSTRAP),
        },
        Stage::CompilerBuild => Action::Run {
            program: String::from_str("./x"),
            args: args1("build"),
            cwd: Some(paths.rust_dir.clone()),
            label: String::from_str(LABEL_BUILD_RUST),
        },
        Stage::CompilerLink => Action::Run {
            program: String::from_str("rustup"),
            args: args4("toolchain", "link", TOOLCHAIN_NAME, paths.stage_dir.as_str()),
            cwd: None,
            label: String::from_str(LABEL_LINK_TOOLCHAIN),
        },
        Stage::ProjectBuild => Action::Run {
            program: String::from_str("cargo"),
            args: {
                let plus = String::from_str("+").concat(TOOLCHAIN_NAME);
                let mut v: Vec<String> = Vec::new();
                v.push(plus);
                v.push(String::from_str("build-bpf"));
                proof {
                    assert(v.deep_view() =~= seq![toolchain_arg(), "build-bpf"@]);
                }
                v
            },
            cwd: Some(paths.project_root.clone()),
            label: String::from_str(LABEL_BUILD_PROJECT),
        },
        Stage::Finished => Action::Done,
        Stage::Halted => Action::Fail,
    }
}

/// The first stage of a command, paired with its action.
pub fn start(cmd: CmdKind, paths: &WorkspacePaths) -> (r: (Stage, Action))
    requires
        paths.wf(),
    ensures
        r.0 == start_stage(cmd),
        r.1@ == action_of(paths@, r.0),
        !is_terminal(r.0),
{
    let st = match cmd {
        CmdKind::Setup => Stage::LinkerEnsureCache,
        CmdKind::BuildLinker => Stage::LinkerEnsureCache,
        CmdKind::BuildCompiler => Stage::CompilerEnsureCache,
        CmdKind::Build => Stage::ProjectBuild,
    };
    let action = action_for(paths, st);
    (st, action)
}

/// Decides the stage that follows `st` once its action was answered by `ev`.
fn next_stage_exec(cmd: CmdKind, st: Stage, ev: &Event) -> (r: Stage)
    requires
        !is_terminal(st),
        event_fits(st, ev@),
    ensures
        r == next_stage(cmd, st, ev@),
{
    match st {
        Stage::LinkerEnsureCache => match ev {
            Event::Passed => Stage::LinkerCheckDir,
            _ => Stage::Halted,
        },
        Stage::LinkerCheckDir => match ev {
            Event::Present => Stage::LinkerBuild,
            _ => Stage::LinkerClone,
        },
        Stage::LinkerClone => match ev {
            Event::Passed => Stage::LinkerBuild,
            _ => Stage::Halted,
        },
        Stage::LinkerBuild => match ev {
            Event::Passed => Stage::LinkerEnsureCargoDir,
            _ => Stage::Halted,
        },
        Stage::LinkerEnsureCargoDir => match ev {
            Event::Passed => Stage::LinkerWriteConfig,
            _ => Stage::Halted,
        },
        Stage::LinkerWriteConfig => match ev {
            Event::Passed => match cmd {
                CmdKind::Setup => Stage::CompilerEnsureCache,
                _ => Stage::Finished,
            },
            _ => Stage::Halted,
        },
        Stage::CompilerEnsureCache => match ev {
            Event::Passed => Stage::CompilerCheckDir,
            _ => Stage::Halted,
        },
        Stage::CompilerCheckDir => match ev {
            Event::Present => Stage::CompilerReadUrl,
            _ => Stage::CompilerClone,
        },
        Stage::CompilerClone => match ev {
            Event::Passed => Stage::CompilerReadUrl,
            _ => Stage::Halted,
        },
        Stage::CompilerReadUrl => match ev {
            Event::SawUrl(url) => {
                if str_eq(url.as_str(), LLVM_REPO) {
                    Stage::CompilerUpdateKept
                } else {
                    Stage::CompilerCheckModules
                }
            },
            _ => Stage::Halted,
        },
        Stage::CompilerUpdateKept => match ev {
            Event::Passed => Stage::CompilerCheckout,
            _ => Stage::Halted,
        },
        Stage::CompilerCheckModules => match ev {
            Event::Present => Stage::CompilerRemoveModules,
            _ => Stage::CompilerCheckLlvm,
        },
        Stage::CompilerRemoveModules => match ev {
            Event::Passed => Stage::CompilerCheckLlvm,
            _ => Stage::Halted,
        },
        Stage::CompilerCheckLlvm => match ev {
            Event::Present => Stage::CompilerRemoveLlvm,
            _ => Stage::CompilerAddSubmodule,
        },
        Stage::CompilerRemoveLlvm => match ev {
            Event::Passed => Stage::CompilerAddSubmodule,
            _ => Stage::Halted,
        },
        Stage::CompilerAddSubmodule => match ev {
            Event::Passed => Stage::CompilerUpdateFresh,
            _ => Stage::Halted,
        },
        Stage::CompilerUpdateFresh => match ev {
            Event::Passed => Stage::CompilerCheckout,
            _ => Stage::Halted,
        },
        Stage::CompilerCheckout => match ev {
            Event::Passed => Stage::CompilerStagePointer,
            _ => Stage::Halted,
        },
        Stage::CompilerStagePointer => match ev {
            Event::Passed => Stage::CompilerQueryDiff,
            _ => Stage::Halted,
        },
        Stage::CompilerQueryDiff => match ev {
            Event::Dirty => Stage::CompilerCommit,
            _ => Stage::CompilerCheckBootstrap,
        },
        Stage::CompilerCommit => match ev {
            Event::Passed => Stage::CompilerCheckBootstrap,
            _ => Stage::Halted,
        },
        Stage::CompilerCheckBootstrap => match ev {
            Event::Present => Stage::CompilerBuild,
            _ => Stage::CompilerWriteBootstrap,
        },
        Stage::CompilerWriteBootstrap => match ev {
            Event::Passed => Stage::CompilerBuild,
            _ => Stage::Halted,
        },
        Stage::CompilerBuild => match ev {
            Event::Passed => Stage::CompilerLink,
            _ => Stage::Halted,
        },
        Stage::CompilerLink => match ev {
            Event::Passed => Stage::Finished,
            _ => Stage::Halted,
        },
        Stage::ProjectBuild => match ev {
            Event::Passed => Stage::Finished,
            _ => Stage::Halted,
        },
        Stage::Finished => Stage::Finished,
        Stage::Halted => Stage::Halted,
    }
}

/// One decision of the pipeline: the stage that follows `st` under `ev`,
/// paired with the action that new stage performs.
pub fn step(cmd: CmdKind, paths: &WorkspacePaths, st: Stage, ev: &Event) -> (r: (Stage, Action))
    requires
        paths.wf(),
        !is_terminal(st),
        event_fits(st, ev@),
    ensures
        r.0 == next_stage(cmd, st, ev@),
        r.1@ == action_of(paths@, r.0),
{
    let next = next_stage_exec(cmd, st, ev);
    let action = action_for(paths, next);
    (next, action)
}

} // verus!
