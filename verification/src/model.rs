//! A model of the external state one run observes and changes.
//!
//! [`Env`] records, at the spec level, everything the pipeline can learn from
//! or do to the outside world: which directories and files exist, what the
//! submodule configuration says, whether the staged diff is clean, and which
//! external effects fail. [`stages_from`] and [`env_from`] replay a whole run
//! of the state machine against such an environment; the laws about the
//! pipeline are stated over these replays.

use vstd::prelude::*;

use crate::config::bootstrap_config;
use crate::config::linker_config_of;
use crate::consts::llvm_branch;
use crate::consts::llvm_repo;
use crate::paths::linker_bin_of;
use crate::paths::RootsV;
use crate::pipeline::is_terminal;
use crate::pipeline::next_stage;
use crate::pipeline::stage_label;
use crate::pipeline::stage_rank;
use crate::pipeline::start_stage;
use crate::pipeline::CmdKind;
use crate::pipeline::EventV;
use crate::pipeline::Stage;

verus! {

/// The observable external state, together with the set of external effects
/// that fail. `fails` holds the labels of the effects whose command exits
/// nonzero (or whose filesystem action errors); it never changes during a
/// run, modelling the assumption that a failing tool keeps failing until the
/// operator intervenes.
pub struct Env {
    /// The linker checkout directory exists.
    pub linker_dir_exists: bool,
    /// The compiler checkout directory exists.
    pub rust_dir_exists: bool,
    /// The submodule's internal metadata directory exists.
    pub modules_dir_exists: bool,
    /// The submodule's working-tree directory exists.
    pub llvm_dir_exists: bool,
    /// The URL configured for the LLVM submodule, as the next read reports it.
    pub submodule_url: Seq<char>,
    /// The branch the submodule's working tree is on.
    pub submodule_branch: Seq<char>,
    /// The staged diff against the last commit is empty.
    pub staged_clean: bool,
    /// The compiler bootstrap config file exists.
    pub bootstrap_exists: bool,
    /// Content of the compiler bootstrap config file.
    pub bootstrap_content: Seq<char>,
    /// The linker-wiring config file exists.
    pub linker_config_exists: bool,
    /// Content of the linker-wiring config file.
    pub linker_config_content: Seq<char>,
    /// Labels of the external effects that fail when performed.
    pub fails: Set<Seq<char>>,
}

/// Stages whose action can fail: commands and filesystem effects, as opposed
/// to the probes and queries, which always answer.
pub open spec fn is_fallible(st: Stage) -> bool {
    match st {
        Stage::LinkerCheckDir
        | Stage::CompilerCheckDir
        | Stage::CompilerCheckModules
        | Stage::CompilerCheckLlvm
        | Stage::CompilerCheckBootstrap
        | Stage::CompilerReadUrl
        | Stage::CompilerQueryDiff
        | Stage::Finished
        | Stage::Halted => false,
        _ => true,
    }
}

/// The event the environment answers a stage's action with.
pub open spec fn stage_response(env: Env, st: Stage) -> EventV {
    match st {
        Stage::LinkerCheckDir => if env.linker_dir_exists {
            EventV::Present
        } else {
            EventV::Absent
        },
        Stage::CompilerCheckDir => if env.rust_dir_exists {
            EventV::Present
        } else {
            EventV::Absent
        },
        Stage::CompilerCheckModules => if env.modules_dir_exists {
            EventV::Present
        } else {
            EventV::Absent
        },
        Stage::CompilerCheckLlvm => if env.llvm_dir_exists {
            EventV::Present
        } else {
            EventV::Absent
        },
        Stage::CompilerCheckBootstrap => if env.bootstrap_exists {
            EventV::Present
        } else {
            EventV::Absent
        },
        Stage::CompilerReadUrl => EventV::SawUrl(env.submodule_url),
        Stage::CompilerQueryDiff => if env.staged_clean {
            EventV::Clean
        } else {
            EventV::Dirty
        },
        _ => if env.fails.contains(stage_label(st)) {
            EventV::Failed
        } else {
            EventV::Passed
        },
    }
}

/// The effect a stage's action has on the environment when it succeeds; a
/// failing effect leaves the modelled state unchanged (the run halts right
/// after it anyway).
pub open spec fn env_step(c: RootsV, env: Env, st: Stage) -> Env {
    if env.fails.contains(stage_label(st)) {
        env
    } else {
        match st {
            Stage::LinkerClone => Env { linker_dir_exists: true, ..env },
            Stage::LinkerWriteConfig => Env {
                linker_config_exists: true,
                linker_config_content: linker_config_of(linker_bin_of(c)),
                ..env
            },
            Stage::CompilerClone => Env { rust_dir_exists: true, ..env },
            Stage::CompilerUpdateKept => Env {
                modules_dir_exists: true,
                llvm_dir_exists: true,
                ..env
            },
            Stage::CompilerUpdateFresh => Env {
                modules_dir_exists: true,
                llvm_dir_exists: true,
                ..env
            },
            Stage::CompilerRemoveModules => Env { modules_dir_exists: false, ..env },
            Stage::CompilerRemoveLlvm => Env { llvm_dir_exists: false, ..env },
            Stage::CompilerAddSubmodule => Env {
                submodule_url: llvm_repo(),
                modules_dir_exists: true,
                llvm_dir_exists: true,
                ..env
            },
            Stage::CompilerCheckout => Env { submodule_branch: llvm_branch(), ..env },
            Stage::CompilerCommit => Env { staged_clean: true, ..env },
            Stage::CompilerWriteBootstrap => Env {
                bootstrap_exists: true,
                bootstrap_content: bootstrap_config(),
                ..env
            },
            _ => env,
        }
    }
}

/// The stages a run visits from `st` on, the terminal stage included.
pub open spec fn stages_from(c: RootsV, cmd: CmdKind, env: Env, st: Stage) -> Seq<Stage>
    decreases stage_rank(st),
{
    if is_terminal(st) {
        seq![st]
    } else {
        let st2 = next_stage(cmd, st, stage_response(env, st));
        if stage_rank(st2) < stage_rank(st) {
            seq![st] + stages_from(c, cmd, env_step(c, env, st), st2)
        } else {
            seq![st]
        }
    }
}

/// The environment a run leaves behind, starting from `st`.
pub open spec fn env_from(c: RootsV, cmd: CmdKind, env: Env, st: Stage) -> Env
    decreases stage_rank(st),
{
    if is_terminal(st) {
        env
    } else {
        let st2 = next_stage(cmd, st, stage_response(env, st));
        if stage_rank(st2) < stage_rank(st) {
            env_from(c, cmd, env_step(c, env, st), st2)
        } else {
            env
        }
    }
}

/// The stages a whole command visits against environment `env`.
pub open spec fn run_stages(c: RootsV, cmd: CmdKind, env: Env) -> Seq<Stage> {
    stages_from(c, cmd, env, start_stage(cmd))
}

/// The environment a whole command leaves behind.
pub open spec fn run_env(c: RootsV, cmd: CmdKind, env: Env) -> Env {
    env_from(c, cmd, env, start_stage(cmd))
}

/// The command completes successfully against `env`.
pub open spec fn run_finishes(c: RootsV, cmd: CmdKind, env: Env) -> bool {
    run_stages(c, cmd, env).last() == Stage::Finished
}

/// The run starting at `st` reaches `Finished`, expressed directly over the
/// transition structure.
pub open spec fn ok_from(c: RootsV, cmd: CmdKind, env: Env, st: Stage) -> bool
    decreases stage_rank(st),
{
    if st == Stage::Finished {
        true
    } else if st == Stage::Halted {
        false
    } else {
        let st2 = next_stage(cmd, st, stage_response(env, st));
        if stage_rank(st2) < stage_rank(st) {
            ok_from(c, cmd, env_step(c, env, st), st2)
        } else {
            false
        }
    }
}

/// Every transition strictly lowers the stage rank, whatever the event.
pub proof fn lemma_rank_decreases(cmd: CmdKind, st: Stage, ev: EventV)
    requires
        !is_terminal(st),
    ensures
        stage_rank(next_stage(cmd, st, ev)) < stage_rank(st),
{
}

} // verus!
