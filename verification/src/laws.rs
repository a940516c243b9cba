//! The laws of the pipeline, stated and proved over whole-run replays.
//!
//! Each public proof function here states one guarantee of the orchestrator
//! for every environment the model can describe: idempotence of the full
//! setup, convergence of the submodule reconciliation, freshness of the
//! regenerated linker config, preservation of a user-owned bootstrap config,
//! the linker-before-compiler ordering, and immediate halting on the first
//! failing external effect.

use vstd::prelude::*;

use crate::config::bootstrap_config;
use crate::config::linker_config_of;
use crate::consts::llvm_branch;
use crate::consts::llvm_repo;
use crate::model::env_from;
use crate::model::env_step;
use crate::model::is_fallible;
use crate::model::ok_from;
use crate::model::run_env;
use crate::model::run_finishes;
use crate::model::run_stages;
use crate::model::stage_response;
use crate::model::stages_from;
use crate::model::Env;
use crate::model::lemma_rank_decreases;
use crate::paths::linker_bin_of;
use crate::paths::RootsV;
use crate::pipeline::is_terminal;
use crate::pipeline::next_stage;
use crate::pipeline::stage_label;
use crate::pipeline::stage_rank;
use crate::pipeline::start_stage;
use crate::pipeline::CmdKind;
use crate::pipeline::EventV;
use crate::pipeline::Stage;
use crate::pipeline::LABEL_ADD_SUBMODULE;
use crate::pipeline::LABEL_BUILD_LINKER;
use crate::pipeline::LABEL_BUILD_PROJECT;
use crate::pipeline::LABEL_BUILD_RUST;
use crate::pipeline::LABEL_CHECKOUT_LLVM;
use crate::pipeline::LABEL_CLONE_LINKER;
use crate::pipeline::LABEL_CLONE_RUST;
use crate::pipeline::LABEL_COMMIT_SUBMODULE;
use crate::pipeline::LABEL_CREATE_CACHE;
use crate::pipeline::LABEL_CREATE_CARGO_DIR;
use crate::pipeline::LABEL_LINK_TOOLCHAIN;
use crate::pipeline::LABEL_REMOVE_LLVM;
use crate::pipeline::LABEL_REMOVE_MODULES;
use crate::pipeline::LABEL_STAGE_SUBMODULE;
use crate::pipeline::LABEL_UPDATE_SUBMODULE;
use crate::pipeline::LABEL_WRITE_BOOTSTRAP;
use crate::pipeline::LABEL_WRITE_LINKER_CONFIG;

verus! {

/// The linker stage succeeds against `env`: no effect on its path fails
/// (the clone is only attempted when the checkout is absent).
pub open spec fn linker_ok(env: Env) -> bool {
    &&& !env.fails.contains(LABEL_CREATE_CACHE@)
    &&& env.linker_dir_exists || !env.fails.contains(LABEL_CLONE_LINKER@)
    &&& !env.fails.contains(LABEL_BUILD_LINKER@)
    &&& !env.fails.contains(LABEL_CREATE_CARGO_DIR@)
    &&& !env.fails.contains(LABEL_WRITE_LINKER_CONFIG@)
}

/// The stages a successful linker stage visits.
pub open spec fn linker_trace(env: Env) -> Seq<Stage> {
    if env.linker_dir_exists {
        seq![
            Stage::LinkerEnsureCache,
            Stage::LinkerCheckDir,
            Stage::LinkerBuild,
            Stage::LinkerEnsureCargoDir,
            Stage::LinkerWriteConfig,
        ]
    } else {
        seq![
            Stage::LinkerEnsureCache,
            Stage::LinkerCheckDir,
            Stage::LinkerClone,
            Stage::LinkerBuild,
            Stage::LinkerEnsureCargoDir,
            Stage::LinkerWriteConfig,
        ]
    }
}

/// The environment a successful linker stage leaves behind: the checkout
/// exists and the linker-wiring config holds the freshly derived content.
pub open spec fn linker_final(c: RootsV, env: Env) -> Env {
    Env {
        linker_dir_exists: true,
        linker_config_exists: true,
        linker_config_content: linker_config_of(linker_bin_of(c)),
        ..env
    }
}

/// A successful linker stage of the full setup visits exactly
/// `linker_trace`, leaves `linker_final` behind, and continues with the
/// compiler stage.
#[verifier::rlimit(100)]
pub proof fn lemma_linker_ok_setup(c: RootsV, env: Env)
    requires
        linker_ok(env),
    ensures
        stages_from(c, CmdKind::Setup, env, Stage::LinkerEnsureCache) =~= linker_trace(env)
            + stages_from(c, CmdKind::Setup, linker_final(c, env), Stage::CompilerEnsureCache),
        env_from(c, CmdKind::Setup, env, Stage::LinkerEnsureCache) == env_from(
            c,
            CmdKind::Setup,
            linker_final(c, env),
            Stage::CompilerEnsureCache,
        ),
{
    reveal_with_fuel(stages_from, 8);
    reveal_with_fuel(env_from, 8);
    if env.linker_dir_exists {
        assert(stages_from(c, CmdKind::Setup, env, Stage::LinkerEnsureCache) =~= linker_trace(env)
            + stages_from(c, CmdKind::Setup, linker_final(c, env), Stage::CompilerEnsureCache));
    } else {
        assert(stages_from(c, CmdKind::Setup, env, Stage::LinkerEnsureCache) =~= linker_trace(env)
            + stages_from(c, CmdKind::Setup, linker_final(c, env), Stage::CompilerEnsureCache));
    }
}

/// A successful linker-only run visits exactly `linker_trace` and finishes,
/// leaving `linker_final` behind.
#[verifier::rlimit(50)]
pub proof fn lemma_linker_ok_only(c: RootsV, env: Env)
    requires
        linker_ok(env),
    ensures
        stages_from(c, CmdKind::BuildLinker, env, Stage::LinkerEnsureCache) =~= linker_trace(env)
            + seq![Stage::Finished],
        env_from(c, CmdKind::BuildLinker, env, Stage::LinkerEnsureCache) == linker_final(c, env),
{
    reveal_with_fuel(stages_from, 8);
    reveal_with_fuel(env_from, 8);
}

/// A linker trace never mentions a compiler-stage build.
pub open spec fn no_compiler_build(t: Seq<Stage>) -> bool {
    forall|j: int| 0 <= j < t.len() ==> t[j] != Stage::CompilerBuild
}

/// The cache directory cannot be made: the run halts at once.
#[verifier::rlimit(100)]
proof fn lemma_linker_fail_cache(c: RootsV, cmd: CmdKind, env: Env)
    requires
        env.fails.contains(LABEL_CREATE_CACHE@),
    ensures
        stages_from(c, cmd, env, Stage::LinkerEnsureCache).last() == Stage::Halted,
        no_compiler_build(stages_from(c, cmd, env, Stage::LinkerEnsureCache)),
{
    reveal_with_fuel(stages_from, 3);
    let t = stages_from(c, cmd, env, Stage::LinkerEnsureCache);
    assert(t =~= seq![Stage::LinkerEnsureCache, Stage::Halted]);
}

/// The linker clone is needed and fails: the run halts after it.
#[verifier::rlimit(100)]
proof fn lemma_linker_fail_clone(c: RootsV, cmd: CmdKind, env: Env)
    requires
        !env.fails.contains(LABEL_CREATE_CACHE@),
        !env.linker_dir_exists,
        env.fails.contains(LABEL_CLONE_LINKER@),
    ensures
        stages_from(c, cmd, env, Stage::LinkerEnsureCache).last() == Stage::Halted,
        no_compiler_build(stages_from(c, cmd, env, Stage::LinkerEnsureCache)),
{
    reveal_with_fuel(stages_from, 5);
    let t = stages_from(c, cmd, env, Stage::LinkerEnsureCache);
    assert(t =~= seq![
        Stage::LinkerEnsureCache,
        Stage::LinkerCheckDir,
        Stage::LinkerClone,
        Stage::Halted,
    ]);
}

/// The linker build fails: the run halts after it.
#[verifier::rlimit(100)]
proof fn lemma_linker_fail_build(c: RootsV, cmd: CmdKind, env: Env)
    requires
        !env.fails.contains(LABEL_CREATE_CACHE@),
        env.linker_dir_exists || !env.fails.contains(LABEL_CLONE_LINKER@),
        env.fails.contains(LABEL_BUILD_LINKER@),
    ensures
        stages_from(c, cmd, env, Stage::LinkerEnsureCache).last() == Stage::Halted,
        no_compiler_build(stages_from(c, cmd, env, Stage::LinkerEnsureCache)),
{
    reveal_with_fuel(stages_from, 6);
    let t = stages_from(c, cmd, env, Stage::LinkerEnsureCache);
    if env.linker_dir_exists {
        assert(t =~= seq![
            Stage::LinkerEnsureCache,
            Stage::LinkerCheckDir,
            Stage::LinkerBuild,
            Stage::Halted,
        ]);
    } else {
        assert(t =~= seq![
            Stage::LinkerEnsureCache,
            Stage::LinkerCheckDir,
            Stage::LinkerClone,
            Stage::LinkerBuild,
            Stage::Halted,
        ]);
    }
}

/// The cargo config directory cannot be made: the run halts after it.
#[verifier::rlimit(100)]
proof fn lemma_linker_fail_cargo_dir(c: RootsV, cmd: CmdKind, env: Env)
    requires
        !env.fails.contains(LABEL_CREATE_CACHE@),
        env.linker_dir_exists || !env.fails.contains(LABEL_CLONE_LINKER@),
        !env.fails.contains(LABEL_BUILD_LINKER@),
        env.fails.contains(LABEL_CREATE_CARGO_DIR@),
    ensures
        stages_from(c, cmd, env, Stage::LinkerEnsureCache).last() == Stage::Halted,
        no_compiler_build(stages_from(c, cmd, env, Stage::LinkerEnsureCache)),
{
    reveal_with_fuel(stages_from, 7);
    let t = stages_from(c, cmd, env, Stage::LinkerEnsureCache);
    if env.linker_dir_exists {
        assert(t =~= seq![
            Stage::LinkerEnsureCache,
            Stage::LinkerCheckDir,
            Stage::LinkerBuild,
            Stage::LinkerEnsureCargoDir,
            Stage::Halted,
        ]);
    } else {
        assert(t =~= seq![
            Stage::LinkerEnsureCache,
            Stage::LinkerCheckDir,
            Stage::LinkerClone,
            Stage::LinkerBuild,
            Stage::LinkerEnsureCargoDir,
            Stage::Halted,
        ]);
    }
}

/// The linker-wiring config cannot be written: the run halts after it.
#[verifier::rlimit(100)]
proof fn lemma_linker_fail_write(c: RootsV, cmd: CmdKind, env: Env)
    requires
        !env.fails.contains(LABEL_CREATE_CACHE@),
        env.linker_dir_exists || !env.fails.contains(LABEL_CLONE_LINKER@),
        !env.fails.contains(LABEL_BUILD_LINKER@),
        !env.fails.contains(LABEL_CREATE_CARGO_DIR@),
        env.fails.contains(LABEL_WRITE_LINKER_CONFIG@),
    ensures
        stages_from(c, cmd, env, Stage::LinkerEnsureCache).last() == Stage::Halted,
        no_compiler_build(stages_from(c, cmd, env, Stage::LinkerEnsureCache)),
{
    reveal_with_fuel(stages_from, 8);
    let t = stages_from(c, cmd, env, Stage::LinkerEnsureCache);
    if env.linker_dir_exists {
        assert(t =~= seq![
            Stage::LinkerEnsureCache,
            Stage::LinkerCheckDir,
            Stage::LinkerBuild,
            Stage::LinkerEnsureCargoDir,
            Stage::LinkerWriteConfig,
            Stage::Halted,
        ]);
    } else {
        assert(t =~= seq![
            Stage::LinkerEnsureCache,
            Stage::LinkerCheckDir,
            Stage::LinkerClone,
            Stage::LinkerBuild,
            Stage::LinkerEnsureCargoDir,
            Stage::LinkerWriteConfig,
            Stage::Halted,
        ]);
    }
}

/// A failing linker stage halts without ever reaching a compiler stage.
pub proof fn lemma_linker_fail(c: RootsV, cmd: CmdKind, env: Env)
    requires
        !linker_ok(env),
    ensures
        stages_from(c, cmd, env, Stage::LinkerEnsureCache).last() == Stage::Halted,
        no_compiler_build(stages_from(c, cmd, env, Stage::LinkerEnsureCache)),
{
    if env.fails.contains(LABEL_CREATE_CACHE@) {
        lemma_linker_fail_cache(c, cmd, env);
    } else if !env.linker_dir_exists && env.fails.contains(LABEL_CLONE_LINKER@) {
        lemma_linker_fail_clone(c, cmd, env);
    } else if env.fails.contains(LABEL_BUILD_LINKER@) {
        lemma_linker_fail_build(c, cmd, env);
    } else if env.fails.contains(LABEL_CREATE_CARGO_DIR@) {
        lemma_linker_fail_cargo_dir(c, cmd, env);
    } else {
        lemma_linker_fail_write(c, cmd, env);
    }
}

/// Shape of every replay: it visits at least its starting stage, ends in a
/// terminal stage, and the moment a fallible effect fails the very next
/// stage is `Halted` and the run is over.
proof fn lemma_run_shape(c: RootsV, cmd: CmdKind, env: Env, st: Stage)
    ensures
        stages_from(c, cmd, env, st).len() >= 1,
        stages_from(c, cmd, env, st)[0] == st,
        is_terminal(stages_from(c, cmd, env, st).last()),
        forall|j: int|
            0 <= j < stages_from(c, cmd, env, st).len() - 1
                && is_fallible(#[trigger] stages_from(c, cmd, env, st)[j])
                && env.fails.contains(stage_label(stages_from(c, cmd, env, st)[j]))
                ==> j == stages_from(c, cmd, env, st).len() - 2
                    && stages_from(c, cmd, env, st).last() == Stage::Halted,
    decreases stage_rank(st),
{
    if is_terminal(st) {
    } else {
        let ev = stage_response(env, st);
        let st2 = next_stage(cmd, st, ev);
        let env2 = env_step(c, env, st);
        lemma_rank_decreases(cmd, st, ev);
        lemma_run_shape(c, cmd, env2, st2);
        let t = stages_from(c, cmd, env, st);
        let t2 = stages_from(c, cmd, env2, st2);
        assert(t == seq![st] + t2);
        assert(env2.fails == env.fails);
        assert(t.last() == t2.last());
        assert forall|j: int|
            0 <= j < t.len() - 1 && is_fallible(#[trigger] t[j]) && env.fails.contains(
                stage_label(t[j]),
            ) implies j == t.len() - 2 && t.last() == Stage::Halted by {
            if j == 0 {
                assert(ev == EventV::Failed);
                assert(st2 == Stage::Halted);
                assert(t2 == seq![Stage::Halted]);
                assert(t.len() == 2);
            } else {
                assert(t[j] == t2[j - 1]);
            }
        }
    }
}

/// The compiler stage's entry succeeds: the cache directory can be made and
/// the checkout is present or can be cloned.
pub open spec fn entry_ok(env: Env) -> bool {
    &&& !env.fails.contains(LABEL_CREATE_CACHE@)
    &&& env.rust_dir_exists || !env.fails.contains(LABEL_CLONE_RUST@)
}

/// The stages a successful compiler entry visits.
pub open spec fn entry_trace(env: Env) -> Seq<Stage> {
    if env.rust_dir_exists {
        seq![Stage::CompilerEnsureCache, Stage::CompilerCheckDir]
    } else {
        seq![Stage::CompilerEnsureCache, Stage::CompilerCheckDir, Stage::CompilerClone]
    }
}

/// The environment after a successful compiler entry.
pub open spec fn entry_final(env: Env) -> Env {
    Env { rust_dir_exists: true, ..env }
}

/// The submodule teardown-and-re-add path succeeds for `env`.
pub open spec fn fresh_ok(env: Env) -> bool {
    &&& env.modules_dir_exists ==> !env.fails.contains(LABEL_REMOVE_MODULES@)
    &&& env.llvm_dir_exists ==> !env.fails.contains(LABEL_REMOVE_LLVM@)
    &&& !env.fails.contains(LABEL_ADD_SUBMODULE@)
    &&& !env.fails.contains(LABEL_UPDATE_SUBMODULE@)
}

/// The submodule reconciliation succeeds for `env`: the cheap update when the
/// configured URL is already the fork, the teardown-and-re-add otherwise.
pub open spec fn recon_ok(env: Env) -> bool {
    if env.submodule_url == llvm_repo() {
        !env.fails.contains(LABEL_UPDATE_SUBMODULE@)
    } else {
        fresh_ok(env)
    }
}

/// The stages a successful reconciliation visits, from the URL read on.
pub open spec fn recon_trace(env: Env) -> Seq<Stage> {
    seq![Stage::CompilerReadUrl] + if env.submodule_url == llvm_repo() {
        seq![Stage::CompilerUpdateKept]
    } else {
        seq![Stage::CompilerCheckModules] + (if env.modules_dir_exists {
            seq![Stage::CompilerRemoveModules]
        } else {
            Seq::<Stage>::empty()
        }) + seq![Stage::CompilerCheckLlvm] + (if env.llvm_dir_exists {
            seq![Stage::CompilerRemoveLlvm]
        } else {
            Seq::<Stage>::empty()
        }) + seq![Stage::CompilerAddSubmodule, Stage::CompilerUpdateFresh]
    }
}

/// The environment after a successful reconciliation: the submodule's
/// configured URL is the fork, and its directories exist again.
pub open spec fn recon_final(env: Env) -> Env {
    Env {
        modules_dir_exists: true,
        llvm_dir_exists: true,
        submodule_url: llvm_repo(),
        ..env
    }
}

/// The compiler stage's tail succeeds: checkout, staging, the commit when one
/// is needed, the bootstrap write when the file is absent, build, and
/// registration.
pub open spec fn tail_ok(env: Env) -> bool {
    &&& !env.fails.contains(LABEL_CHECKOUT_LLVM@)
    &&& !env.fails.contains(LABEL_STAGE_SUBMODULE@)
    &&& env.staged_clean || !env.fails.contains(LABEL_COMMIT_SUBMODULE@)
    &&& env.bootstrap_exists || !env.fails.contains(LABEL_WRITE_BOOTSTRAP@)
    &&& !env.fails.contains(LABEL_BUILD_RUST@)
    &&& !env.fails.contains(LABEL_LINK_TOOLCHAIN@)
}

/// The stages a successful compiler tail visits, from the checkout on.
pub open spec fn tail_trace(env: Env) -> Seq<Stage> {
    seq![Stage::CompilerCheckout, Stage::CompilerStagePointer, Stage::CompilerQueryDiff]
        + (if env.staged_clean {
        Seq::<Stage>::empty()
    } else {
        seq![Stage::CompilerCommit]
    }) + seq![Stage::CompilerCheckBootstrap] + (if env.bootstrap_exists {
        Seq::<Stage>::empty()
    } else {
        seq![Stage::CompilerWriteBootstrap]
    }) + seq![Stage::CompilerBuild, Stage::CompilerLink]
}

/// The environment after a successful compiler tail.
pub open spec fn tail_final(c: RootsV, env: Env) -> Env {
    Env {
        submodule_branch: llvm_branch(),
        staged_clean: true,
        bootstrap_exists: true,
        bootstrap_content: if env.bootstrap_exists {
            env.bootstrap_content
        } else {
            bootstrap_config()
        },
        ..env
    }
}

/// The whole compiler stage succeeds against `env`.
pub open spec fn compiler_ok(env: Env) -> bool {
    entry_ok(env) && recon_ok(env) && tail_ok(env)
}

/// The stages a successful compiler stage visits.
pub open spec fn compiler_trace(env: Env) -> Seq<Stage> {
    entry_trace(env) + recon_trace(env) + tail_trace(env)
}

/// The environment a successful compiler stage leaves behind.
pub open spec fn compiler_final(c: RootsV, env: Env) -> Env {
    tail_final(c, recon_final(entry_final(env)))
}

/// A successful compiler entry visits `entry_trace` and goes on to the
/// submodule-URL read.
#[verifier::rlimit(100)]
proof fn lemma_compiler_entry_ok(c: RootsV, cmd: CmdKind, env: Env)
    requires
        entry_ok(env),
    ensures
        stages_from(c, cmd, env, Stage::CompilerEnsureCache) =~= entry_trace(env) + stages_from(
            c,
            cmd,
            entry_final(env),
            Stage::CompilerReadUrl,
        ),
        env_from(c, cmd, env, Stage::CompilerEnsureCache) == env_from(
            c,
            cmd,
            entry_final(env),
            Stage::CompilerReadUrl,
        ),
{
    reveal_with_fuel(stages_from, 5);
    reveal_with_fuel(env_from, 5);
    if env.rust_dir_exists {
        assert(stages_from(c, cmd, env, Stage::CompilerEnsureCache) =~= entry_trace(env)
            + stages_from(c, cmd, entry_final(env), Stage::CompilerReadUrl));
    } else {
        assert(stages_from(c, cmd, env, Stage::CompilerEnsureCache) =~= entry_trace(env)
            + stages_from(c, cmd, entry_final(env), Stage::CompilerReadUrl));
    }
}

/// Reconciliation when the configured URL is already the fork: one cheap
/// update, then the checkout.
#[verifier::rlimit(100)]
proof fn lemma_recon_ok_kept(c: RootsV, cmd: CmdKind, env: Env)
    requires
        env.submodule_url == llvm_repo(),
        !env.fails.contains(LABEL_UPDATE_SUBMODULE@),
    ensures
        stages_from(c, cmd, env, Stage::CompilerReadUrl) =~= recon_trace(env) + stages_from(
            c,
            cmd,
            recon_final(env),
            Stage::CompilerCheckout,
        ),
        env_from(c, cmd, env, Stage::CompilerReadUrl) == env_from(
            c,
            cmd,
            recon_final(env),
            Stage::CompilerCheckout,
        ),
{
    reveal_with_fuel(stages_from, 3);
    reveal_with_fuel(env_from, 3);
    assert(recon_final(env) == Env { modules_dir_exists: true, llvm_dir_exists: true, ..env });
    assert(stages_from(c, cmd, env, Stage::CompilerReadUrl) =~= recon_trace(env) + stages_from(
        c,
        cmd,
        recon_final(env),
        Stage::CompilerCheckout,
    ));
}

/// One definitional unfolding of a replay at a non-terminal stage.
proof fn lemma_step(c: RootsV, cmd: CmdKind, env: Env, st: Stage)
    requires
        !is_terminal(st),
    ensures
        stages_from(c, cmd, env, st) == seq![st] + stages_from(
            c,
            cmd,
            env_step(c, env, st),
            next_stage(cmd, st, stage_response(env, st)),
        ),
        env_from(c, cmd, env, st) == env_from(
            c,
            cmd,
            env_step(c, env, st),
            next_stage(cmd, st, stage_response(env, st)),
        ),
{
    lemma_rank_decreases(cmd, st, stage_response(env, st));
}

/// The teardown-and-re-add path, from the metadata probe on: any stale
/// directories go, the submodule is re-added and updated, then the checkout.
#[verifier::rlimit(100)]
proof fn lemma_fresh_from_modules(c: RootsV, cmd: CmdKind, env: Env)
    requires
        fresh_ok(env),
    ensures
        stages_from(c, cmd, env, Stage::CompilerCheckModules) =~= (if env.modules_dir_exists {
            seq![Stage::CompilerCheckModules, Stage::CompilerRemoveModules]
        } else {
            seq![Stage::CompilerCheckModules]
        }) + (if env.llvm_dir_exists {
            seq![Stage::CompilerCheckLlvm, Stage::CompilerRemoveLlvm]
        } else {
            seq![Stage::CompilerCheckLlvm]
        }) + seq![Stage::CompilerAddSubmodule, Stage::CompilerUpdateFresh] + stages_from(
            c,
            cmd,
            recon_final(env),
            Stage::CompilerCheckout,
        ),
        env_from(c, cmd, env, Stage::CompilerCheckModules) == env_from(
            c,
            cmd,
            recon_final(env),
            Stage::CompilerCheckout,
        ),
{
    lemma_step(c, cmd, env, Stage::CompilerCheckModules);
    let e1 = if env.modules_dir_exists {
        lemma_step(c, cmd, env, Stage::CompilerRemoveModules);
        Env { modules_dir_exists: false, ..env }
    } else {
        env
    };
    assert(stages_from(c, cmd, env, Stage::CompilerCheckModules) =~= (
    if env.modules_dir_exists {
        seq![Stage::CompilerCheckModules, Stage::CompilerRemoveModules]
    } else {
        seq![Stage::CompilerCheckModules]
    }) + stages_from(c, cmd, e1, Stage::CompilerCheckLlvm));
    lemma_step(c, cmd, e1, Stage::CompilerCheckLlvm);
    let e2 = if env.llvm_dir_exists {
        lemma_step(c, cmd, e1, Stage::CompilerRemoveLlvm);
        Env { llvm_dir_exists: false, ..e1 }
    } else {
        e1
    };
    assert(stages_from(c, cmd, e1, Stage::CompilerCheckLlvm) =~= (if env.llvm_dir_exists {
        seq![Stage::CompilerCheckLlvm, Stage::CompilerRemoveLlvm]
    } else {
        seq![Stage::CompilerCheckLlvm]
    }) + stages_from(c, cmd, e2, Stage::CompilerAddSubmodule));
    lemma_step(c, cmd, e2, Stage::CompilerAddSubmodule);
    let e3 = Env {
        submodule_url: llvm_repo(),
        modules_dir_exists: true,
        llvm_dir_exists: true,
        ..e2
    };
    assert(env_step(c, e2, Stage::CompilerAddSubmodule) == e3);
    lemma_step(c, cmd, e3, Stage::CompilerUpdateFresh);
    assert(env_step(c, e3, Stage::CompilerUpdateFresh) == e3);
    assert(e3 == recon_final(env));
    assert(stages_from(c, cmd, e2, Stage::CompilerAddSubmodule) =~= seq![
        Stage::CompilerAddSubmodule,
        Stage::CompilerUpdateFresh,
    ] + stages_from(c, cmd, recon_final(env), Stage::CompilerCheckout));
}

#[verifier::rlimit(100)]
proof fn lemma_recon_ok(c: RootsV, cmd: CmdKind, env: Env)
    requires
        recon_ok(env),
    ensures
        stages_from(c, cmd, env, Stage::CompilerReadUrl) =~= recon_trace(env) + stages_from(
            c,
            cmd,
            recon_final(env),
            Stage::CompilerCheckout,
        ),
        env_from(c, cmd, env, Stage::CompilerReadUrl) == env_from(
            c,
            cmd,
            recon_final(env),
            Stage::CompilerCheckout,
        ),
{
    if env.submodule_url == llvm_repo() {
        lemma_recon_ok_kept(c, cmd, env);
    } else {
        lemma_fresh_from_modules(c, cmd, env);
        reveal_with_fuel(stages_from, 2);
        reveal_with_fuel(env_from, 2);
        assert(stages_from(c, cmd, env, Stage::CompilerReadUrl) =~= seq![Stage::CompilerReadUrl]
            + stages_from(c, cmd, env, Stage::CompilerCheckModules));
        assert(stages_from(c, cmd, env, Stage::CompilerReadUrl) =~= recon_trace(env)
            + stages_from(c, cmd, recon_final(env), Stage::CompilerCheckout));
    }
}

/// Failure propagation: a run ends in a terminal stage, and when any
/// fallible external effect fails, the run halts right after it — the failed
/// effect is the last one attempted and the run's outcome is `Halted` (which
/// the runner turns into a nonzero process exit).
pub proof fn lemma_failure_propagation(c: RootsV, cmd: CmdKind, env: Env)
    ensures
        run_stages(c, cmd, env).len() >= 1,
        is_terminal(run_stages(c, cmd, env).last()),
        forall|j: int|
            0 <= j < run_stages(c, cmd, env).len() - 1
                && is_fallible(#[trigger] run_stages(c, cmd, env)[j])
                && env.fails.contains(stage_label(run_stages(c, cmd, env)[j]))
                ==> j == run_stages(c, cmd, env).len() - 2
                    && run_stages(c, cmd, env).last() == Stage::Halted,
{
    lemma_run_shape(c, cmd, env, start_stage(cmd));
}

/// Helper for bootstrap preservation: from any stage other than the write of
/// the bootstrap config, an existing bootstrap config survives the rest of
/// the run byte for byte — the write stage is only ever entered when the
/// presence probe answered that the file is absent.
proof fn lemma_bootstrap_preserved_from(c: RootsV, cmd: CmdKind, env: Env, st: Stage)
    requires
        env.bootstrap_exists,
        st != Stage::CompilerWriteBootstrap,
    ensures
        env_from(c, cmd, env, st).bootstrap_exists,
        env_from(c, cmd, env, st).bootstrap_content == env.bootstrap_content,
    decreases stage_rank(st),
{
    if is_terminal(st) {
    } else {
        let ev = stage_response(env, st);
        let st2 = next_stage(cmd, st, ev);
        let env2 = env_step(c, env, st);
        lemma_rank_decreases(cmd, st, ev);
        assert(env2.bootstrap_exists && env2.bootstrap_content == env.bootstrap_content);
        assert(st2 != Stage::CompilerWriteBootstrap);
        lemma_bootstrap_preserved_from(c, cmd, env2, st2);
    }
}

/// Compiler-config preservation: when the bootstrap config file exists
/// before a run, its content is byte-for-byte unchanged after the run,
/// whatever the command and however the run ends.
pub proof fn lemma_bootstrap_preserved(c: RootsV, cmd: CmdKind, env: Env)
    requires
        env.bootstrap_exists,
    ensures
        run_env(c, cmd, env).bootstrap_exists,
        run_env(c, cmd, env).bootstrap_content == env.bootstrap_content,
{
    lemma_bootstrap_preserved_from(c, cmd, env, start_stage(cmd));
}

/// A successful compiler tail visits `tail_trace` and finishes, leaving
/// `tail_final` behind.
#[verifier::rlimit(100)]
proof fn lemma_tail_ok(c: RootsV, cmd: CmdKind, env: Env)
    requires
        tail_ok(env),
    ensures
        stages_from(c, cmd, env, Stage::CompilerCheckout) =~= tail_trace(env) + seq![
            Stage::Finished,
        ],
        env_from(c, cmd, env, Stage::CompilerCheckout) == tail_final(c, env),
{
    lemma_step(c, cmd, env, Stage::CompilerCheckout);
    let e1 = Env { submodule_branch: llvm_branch(), ..env };
    assert(env_step(c, env, Stage::CompilerCheckout) == e1);
    lemma_step(c, cmd, e1, Stage::CompilerStagePointer);
    assert(env_step(c, e1, Stage::CompilerStagePointer) == e1);
    lemma_step(c, cmd, e1, Stage::CompilerQueryDiff);
    assert(env_step(c, e1, Stage::CompilerQueryDiff) == e1);
    let e2 = Env { staged_clean: true, ..e1 };
    if env.staged_clean {
        assert(e1 == e2);
    } else {
        lemma_step(c, cmd, e1, Stage::CompilerCommit);
        assert(env_step(c, e1, Stage::CompilerCommit) == e2);
    }
    lemma_step(c, cmd, e2, Stage::CompilerCheckBootstrap);
    assert(env_step(c, e2, Stage::CompilerCheckBootstrap) == e2);
    let e3 = Env {
        bootstrap_exists: true,
        bootstrap_content: if env.bootstrap_exists {
            env.bootstrap_content
        } else {
            bootstrap_config()
        },
        ..e2
    };
    if env.bootstrap_exists {
        assert(e2 == e3);
    } else {
        lemma_step(c, cmd, e2, Stage::CompilerWriteBootstrap);
        assert(env_step(c, e2, Stage::CompilerWriteBootstrap) == e3);
    }
    lemma_step(c, cmd, e3, Stage::CompilerBuild);
    assert(env_step(c, e3, Stage::CompilerBuild) == e3);
    lemma_step(c, cmd, e3, Stage::CompilerLink);
    assert(env_step(c, e3, Stage::CompilerLink) == e3);
    assert(e3 == tail_final(c, env));
    assert(stages_from(c, cmd, e3, Stage::Finished) =~= seq![Stage::Finished]);
    assert(stages_from(c, cmd, env, Stage::CompilerCheckout) =~= tail_trace(env) + seq![
        Stage::Finished,
    ]);
}

/// A successful compiler stage visits exactly `compiler_trace` and finishes,
/// leaving `compiler_final` behind.
#[verifier::rlimit(100)]
pub proof fn lemma_compiler_ok(c: RootsV, cmd: CmdKind, env: Env)
    requires
        compiler_ok(env),
    ensures
        stages_from(c, cmd, env, Stage::CompilerEnsureCache) =~= compiler_trace(env) + seq![
            Stage::Finished,
        ],
        env_from(c, cmd, env, Stage::CompilerEnsureCache) == compiler_final(c, env),
{
    lemma_compiler_entry_ok(c, cmd, env);
    let e1 = entry_final(env);
    assert(recon_ok(e1) == recon_ok(env));
    assert(recon_trace(e1) == recon_trace(env));
    lemma_recon_ok(c, cmd, e1);
    let e2 = recon_final(e1);
    assert(tail_ok(e2) == tail_ok(env));
    assert(tail_trace(e2) == tail_trace(env));
    lemma_tail_ok(c, cmd, e2);
    assert(tail_final(c, e2) == compiler_final(c, env));
    assert(stages_from(c, cmd, env, Stage::CompilerEnsureCache) =~= compiler_trace(env) + seq![
        Stage::Finished,
    ]);
}

/// The full setup succeeds against `env`.
pub open spec fn setup_ok(env: Env) -> bool {
    linker_ok(env) && compiler_ok(env)
}

/// The environment a successful full setup leaves behind.
pub open spec fn setup_final(c: RootsV, env: Env) -> Env {
    compiler_final(c, linker_final(c, env))
}

/// A successful full setup visits the linker stages, then the compiler
/// stages, and leaves `setup_final` behind.
#[verifier::rlimit(100)]
pub proof fn lemma_setup_ok(c: RootsV, env: Env)
    requires
        setup_ok(env),
    ensures
        run_stages(c, CmdKind::Setup, env) =~= linker_trace(env) + compiler_trace(env) + seq![
            Stage::Finished,
        ],
        run_env(c, CmdKind::Setup, env) == setup_final(c, env),
{
    lemma_linker_ok_setup(c, env);
    let e1 = linker_final(c, env);
    assert(compiler_ok(e1) == compiler_ok(env));
    assert(compiler_trace(e1) == compiler_trace(env));
    lemma_compiler_ok(c, CmdKind::Setup, e1);
    assert(run_stages(c, CmdKind::Setup, env) =~= linker_trace(env) + compiler_trace(env) + seq![
        Stage::Finished,
    ]);
}

/// A replay ends in `Finished` exactly when `ok_from` says it does.
proof fn lemma_finishes_iff(c: RootsV, cmd: CmdKind, env: Env, st: Stage)
    ensures
        (stages_from(c, cmd, env, st).last() == Stage::Finished) == ok_from(c, cmd, env, st),
    decreases stage_rank(st),
{
    if st == Stage::Finished || st == Stage::Halted {
        assert(stages_from(c, cmd, env, st) =~= seq![st]);
    } else {
        let ev = stage_response(env, st);
        let st2 = next_stage(cmd, st, ev);
        let env2 = env_step(c, env, st);
        lemma_rank_decreases(cmd, st, ev);
        lemma_finishes_iff(c, cmd, env2, st2);
        lemma_run_shape(c, cmd, env2, st2);
        assert(stages_from(c, cmd, env, st) == seq![st] + stages_from(c, cmd, env2, st2));
        assert(stages_from(c, cmd, env, st).last() == stages_from(c, cmd, env2, st2).last());
    }
}

/// One definitional unfolding of `ok_from` at a non-terminal stage.
proof fn lemma_ok_step(c: RootsV, cmd: CmdKind, env: Env, st: Stage)
    requires
        !is_terminal(st),
    ensures
        ok_from(c, cmd, env, st) == ok_from(
            c,
            cmd,
            env_step(c, env, st),
            next_stage(cmd, st, stage_response(env, st)),
        ),
{
    lemma_rank_decreases(cmd, st, stage_response(env, st));
}

/// The compiler tail reaches `Finished` exactly under `tail_ok`.
#[verifier::rlimit(100)]
proof fn lemma_ok_tail(c: RootsV, cmd: CmdKind, env: Env)
    ensures
        ok_from(c, cmd, env, Stage::CompilerCheckout) == tail_ok(env),
{
    lemma_ok_step(c, cmd, env, Stage::CompilerCheckout);
    if env.fails.contains(LABEL_CHECKOUT_LLVM@) {
    } else {
        let e1 = Env { submodule_branch: llvm_branch(), ..env };
        assert(env_step(c, env, Stage::CompilerCheckout) == e1);
        lemma_ok_step(c, cmd, e1, Stage::CompilerStagePointer);
        if env.fails.contains(LABEL_STAGE_SUBMODULE@) {
        } else {
            lemma_ok_step(c, cmd, e1, Stage::CompilerQueryDiff);
            let e2 = Env { staged_clean: true, ..e1 };
            if !env.staged_clean {
                lemma_ok_step(c, cmd, e1, Stage::CompilerCommit);
            } else {
                assert(e1 == e2);
            }
            if !env.staged_clean && env.fails.contains(LABEL_COMMIT_SUBMODULE@) {
            } else {
                assert(env.staged_clean ==> e1 == e2);
                lemma_ok_step(c, cmd, e2, Stage::CompilerCheckBootstrap);
                let e3 = Env {
                    bootstrap_exists: true,
                    bootstrap_content: if env.bootstrap_exists {
                        env.bootstrap_content
                    } else {
                        bootstrap_config()
                    },
                    ..e2
                };
                if !env.bootstrap_exists {
                    lemma_ok_step(c, cmd, e2, Stage::CompilerWriteBootstrap);
                } else {
                    assert(e2 == e3);
                }
                if !env.bootstrap_exists && env.fails.contains(LABEL_WRITE_BOOTSTRAP@) {
                } else {
                    lemma_ok_step(c, cmd, e3, Stage::CompilerBuild);
                    if env.fails.contains(LABEL_BUILD_RUST@) {
                    } else {
                        lemma_ok_step(c, cmd, e3, Stage::CompilerLink);
                    }
                }
            }
        }
    }
}

/// The reconciliation reaches `Finished` exactly when it succeeds and the
/// tail after it does.
#[verifier::rlimit(100)]
proof fn lemma_ok_recon(c: RootsV, cmd: CmdKind, env: Env)
    ensures
        ok_from(c, cmd, env, Stage::CompilerReadUrl) == (recon_ok(env) && ok_from(
            c,
            cmd,
            recon_final(env),
            Stage::CompilerCheckout,
        )),
{
    lemma_ok_step(c, cmd, env, Stage::CompilerReadUrl);
    assert(env_step(c, env, Stage::CompilerReadUrl) == env);
    if env.submodule_url == llvm_repo() {
        lemma_ok_step(c, cmd, env, Stage::CompilerUpdateKept);
        if env.fails.contains(LABEL_UPDATE_SUBMODULE@) {
        } else {
            let ek = Env { modules_dir_exists: true, llvm_dir_exists: true, ..env };
            assert(env_step(c, env, Stage::CompilerUpdateKept) == ek);
            assert(ek == recon_final(env));
        }
    } else {
        lemma_ok_step(c, cmd, env, Stage::CompilerCheckModules);
        assert(env_step(c, env, Stage::CompilerCheckModules) == env);
        let e1 = if env.modules_dir_exists {
            Env { modules_dir_exists: false, ..env }
        } else {
            env
        };
        if env.modules_dir_exists {
            lemma_ok_step(c, cmd, env, Stage::CompilerRemoveModules);
        }
        if env.modules_dir_exists && env.fails.contains(LABEL_REMOVE_MODULES@) {
        } else {
            lemma_ok_step(c, cmd, e1, Stage::CompilerCheckLlvm);
            assert(env_step(c, e1, Stage::CompilerCheckLlvm) == e1);
            let e2 = if env.llvm_dir_exists {
                Env { llvm_dir_exists: false, ..e1 }
            } else {
                e1
            };
            if env.llvm_dir_exists {
                lemma_ok_step(c, cmd, e1, Stage::CompilerRemoveLlvm);
            }
            if env.llvm_dir_exists && env.fails.contains(LABEL_REMOVE_LLVM@) {
            } else {
                lemma_ok_step(c, cmd, e2, Stage::CompilerAddSubmodule);
                if env.fails.contains(LABEL_ADD_SUBMODULE@) {
                } else {
                    let e3 = Env {
                        submodule_url: llvm_repo(),
                        modules_dir_exists: true,
                        llvm_dir_exists: true,
                        ..e2
                    };
                    assert(env_step(c, e2, Stage::CompilerAddSubmodule) == e3);
                    lemma_ok_step(c, cmd, e3, Stage::CompilerUpdateFresh);
                    assert(env_step(c, e3, Stage::CompilerUpdateFresh) == e3);
                    assert(e3 == recon_final(env));
                }
            }
        }
    }
}

/// The compiler entry reaches `Finished` exactly when it succeeds and the
/// rest after it does.
#[verifier::rlimit(100)]
proof fn lemma_ok_entry(c: RootsV, cmd: CmdKind, env: Env)
    ensures
        ok_from(c, cmd, env, Stage::CompilerEnsureCache) == (entry_ok(env) && ok_from(
            c,
            cmd,
            entry_final(env),
            Stage::CompilerReadUrl,
        )),
{
    lemma_ok_step(c, cmd, env, Stage::CompilerEnsureCache);
    if env.fails.contains(LABEL_CREATE_CACHE@) {
    } else {
        assert(env_step(c, env, Stage::CompilerEnsureCache) == env);
        lemma_ok_step(c, cmd, env, Stage::CompilerCheckDir);
        assert(env_step(c, env, Stage::CompilerCheckDir) == env);
        if env.rust_dir_exists {
            assert(env == entry_final(env));
        } else {
            lemma_ok_step(c, cmd, env, Stage::CompilerClone);
            if env.fails.contains(LABEL_CLONE_RUST@) {
            } else {
                assert(env_step(c, env, Stage::CompilerClone) == entry_final(env));
            }
        }
    }
}

/// The linker stage reaches `Finished` exactly when it succeeds and, in the
/// full setup, the compiler stage after it does.
#[verifier::rlimit(100)]
proof fn lemma_ok_linker(c: RootsV, cmd: CmdKind, env: Env)
    requires
        cmd == CmdKind::Setup || cmd == CmdKind::BuildLinker,
    ensures
        cmd == CmdKind::Setup ==> ok_from(c, cmd, env, Stage::LinkerEnsureCache) == (linker_ok(env)
            && ok_from(c, cmd, linker_final(c, env), Stage::CompilerEnsureCache)),
        cmd == CmdKind::BuildLinker ==> ok_from(c, cmd, env, Stage::LinkerEnsureCache)
            == linker_ok(env),
{
    lemma_ok_step(c, cmd, env, Stage::LinkerEnsureCache);
    if env.fails.contains(LABEL_CREATE_CACHE@) {
    } else {
        assert(env_step(c, env, Stage::LinkerEnsureCache) == env);
        lemma_ok_step(c, cmd, env, Stage::LinkerCheckDir);
        assert(env_step(c, env, Stage::LinkerCheckDir) == env);
        let e1 = Env { linker_dir_exists: true, ..env };
        if env.linker_dir_exists {
            assert(env == e1);
        } else {
            lemma_ok_step(c, cmd, env, Stage::LinkerClone);
            if env.fails.contains(LABEL_CLONE_LINKER@) {
            } else {
                assert(env_step(c, env, Stage::LinkerClone) == e1);
            }
        }
        if !env.linker_dir_exists && env.fails.contains(LABEL_CLONE_LINKER@) {
        } else {
            lemma_ok_step(c, cmd, e1, Stage::LinkerBuild);
            assert(env_step(c, e1, Stage::LinkerBuild) == e1);
            if env.fails.contains(LABEL_BUILD_LINKER@) {
            } else {
                lemma_ok_step(c, cmd, e1, Stage::LinkerEnsureCargoDir);
                assert(env_step(c, e1, Stage::LinkerEnsureCargoDir) == e1);
                if env.fails.contains(LABEL_CREATE_CARGO_DIR@) {
                } else {
                    lemma_ok_step(c, cmd, e1, Stage::LinkerWriteConfig);
                    if env.fails.contains(LABEL_WRITE_LINKER_CONFIG@) {
                    } else {
                        assert(env_step(c, e1, Stage::LinkerWriteConfig) == linker_final(c, env));
                    }
                }
            }
        }
    }
}

/// The whole compiler stage reaches `Finished` exactly under `compiler_ok`.
#[verifier::rlimit(100)]
pub proof fn lemma_compiler_outcome(c: RootsV, cmd: CmdKind, env: Env)
    ensures
        ok_from(c, cmd, env, Stage::CompilerEnsureCache) == compiler_ok(env),
{
    lemma_ok_entry(c, cmd, env);
    let e1 = entry_final(env);
    lemma_ok_recon(c, cmd, e1);
    assert(recon_ok(e1) == recon_ok(env));
    let e2 = recon_final(e1);
    lemma_ok_tail(c, cmd, e2);
    assert(tail_ok(e2) == tail_ok(env));
}

/// The full setup finishes exactly under `setup_ok`.
pub proof fn lemma_setup_outcome(c: RootsV, env: Env)
    ensures
        run_finishes(c, CmdKind::Setup, env) == setup_ok(env),
{
    lemma_finishes_iff(c, CmdKind::Setup, env, Stage::LinkerEnsureCache);
    lemma_ok_linker(c, CmdKind::Setup, env);
    let e1 = linker_final(c, env);
    lemma_compiler_outcome(c, CmdKind::Setup, e1);
    assert(compiler_ok(e1) == compiler_ok(env));
}

/// The linker-only command finishes exactly under `linker_ok`.
pub proof fn lemma_linker_only_outcome(c: RootsV, env: Env)
    ensures
        run_finishes(c, CmdKind::BuildLinker, env) == linker_ok(env),
{
    lemma_finishes_iff(c, CmdKind::BuildLinker, env, Stage::LinkerEnsureCache);
    lemma_ok_linker(c, CmdKind::BuildLinker, env);
}

/// The compiler-only command finishes exactly under `compiler_ok`.
pub proof fn lemma_compiler_only_outcome(c: RootsV, env: Env)
    ensures
        run_finishes(c, CmdKind::BuildCompiler, env) == compiler_ok(env),
{
    lemma_finishes_iff(c, CmdKind::BuildCompiler, env, Stage::CompilerEnsureCache);
    lemma_compiler_outcome(c, CmdKind::BuildCompiler, env);
}

/// The downstream-build command finishes exactly when its one external
/// command succeeds.
pub proof fn lemma_build_outcome(c: RootsV, env: Env)
    ensures
        run_finishes(c, CmdKind::Build, env) == !env.fails.contains(LABEL_BUILD_PROJECT@),
{
    lemma_finishes_iff(c, CmdKind::Build, env, Stage::ProjectBuild);
    lemma_ok_step(c, CmdKind::Build, env, Stage::ProjectBuild);
}

/// Stages that re-clone a checkout, tear down submodule state, create a
/// commit, or write the user-owned bootstrap config.
pub open spec fn is_destructive(st: Stage) -> bool {
    match st {
        Stage::LinkerClone
        | Stage::CompilerClone
        | Stage::CompilerRemoveModules
        | Stage::CompilerRemoveLlvm
        | Stage::CompilerAddSubmodule
        | Stage::CompilerCommit
        | Stage::CompilerWriteBootstrap => true,
        _ => false,
    }
}

/// Idempotence: after a full setup succeeds, running it again with no
/// external state changes succeeds too, visits no destructive stage — no
/// re-clone, no submodule teardown or re-add, no commit, no bootstrap-config
/// write — and leaves the environment exactly as it found it.
#[verifier::rlimit(100)]
pub proof fn lemma_setup_idempotent(c: RootsV, env: Env)
    requires
        run_finishes(c, CmdKind::Setup, env),
    ensures
        run_finishes(c, CmdKind::Setup, run_env(c, CmdKind::Setup, env)),
        run_env(c, CmdKind::Setup, run_env(c, CmdKind::Setup, env)) == run_env(
            c,
            CmdKind::Setup,
            env,
        ),
        forall|j: int|
            0 <= j < run_stages(c, CmdKind::Setup, run_env(c, CmdKind::Setup, env)).len()
                ==> !is_destructive(
                #[trigger] run_stages(c, CmdKind::Setup, run_env(c, CmdKind::Setup, env))[j],
            ),
{
    lemma_setup_outcome(c, env);
    lemma_setup_ok(c, env);
    let env1 = run_env(c, CmdKind::Setup, env);
    assert(env1 == setup_final(c, env));
    assert(env1.fails == env.fails);
    assert(setup_ok(env1));
    lemma_setup_outcome(c, env1);
    lemma_setup_ok(c, env1);
    let t2 = run_stages(c, CmdKind::Setup, env1);
    assert(t2 =~= seq![
        Stage::LinkerEnsureCache,
        Stage::LinkerCheckDir,
        Stage::LinkerBuild,
        Stage::LinkerEnsureCargoDir,
        Stage::LinkerWriteConfig,
        Stage::CompilerEnsureCache,
        Stage::CompilerCheckDir,
        Stage::CompilerReadUrl,
        Stage::CompilerUpdateKept,
        Stage::CompilerCheckout,
        Stage::CompilerStagePointer,
        Stage::CompilerQueryDiff,
        Stage::CompilerCheckBootstrap,
        Stage::CompilerBuild,
        Stage::CompilerLink,
        Stage::Finished,
    ]);
    assert(setup_final(c, env1) == env1);
}

/// Submodule convergence: however the submodule started out — already on the
/// required fork or on any other URL — a finished compiler setup leaves its
/// configured URL at the required fork and its working tree on the required
/// branch.
pub proof fn lemma_submodule_convergence(c: RootsV, cmd: CmdKind, env: Env)
    requires
        cmd == CmdKind::Setup || cmd == CmdKind::BuildCompiler,
        run_finishes(c, cmd, env),
    ensures
        run_env(c, cmd, env).submodule_url == llvm_repo(),
        run_env(c, cmd, env).submodule_branch == llvm_branch(),
{
    if cmd == CmdKind::Setup {
        lemma_setup_outcome(c, env);
        lemma_setup_ok(c, env);
    } else {
        lemma_compiler_only_outcome(c, env);
        lemma_compiler_ok(c, cmd, env);
    }
}

/// Linker-config regeneration: a finished run that includes the linker stage
/// always leaves the linker-wiring config holding the content derived from
/// this run's roots, whatever the file held before.
pub proof fn lemma_linker_config_reflects_run(c: RootsV, cmd: CmdKind, env: Env)
    requires
        cmd == CmdKind::Setup || cmd == CmdKind::BuildLinker,
        run_finishes(c, cmd, env),
    ensures
        run_env(c, cmd, env).linker_config_exists,
        run_env(c, cmd, env).linker_config_content == linker_config_of(linker_bin_of(c)),
{
    if cmd == CmdKind::Setup {
        lemma_setup_outcome(c, env);
        lemma_setup_ok(c, env);
    } else {
        lemma_linker_only_outcome(c, env);
        lemma_linker_ok_only(c, env);
    }
}

/// Two successive runs: whatever an earlier run (with possibly different
/// roots) left behind, a later finished run leaves the linker-wiring config
/// reflecting the later run's roots — never a stale path.
pub proof fn lemma_linker_config_never_stale(
    c1: RootsV,
    c2: RootsV,
    cmd1: CmdKind,
    cmd2: CmdKind,
    env: Env,
)
    requires
        cmd2 == CmdKind::Setup || cmd2 == CmdKind::BuildLinker,
        run_finishes(c2, cmd2, run_env(c1, cmd1, env)),
    ensures
        run_env(c2, cmd2, run_env(c1, cmd1, env)).linker_config_content == linker_config_of(
            linker_bin_of(c2),
        ),
{
    lemma_linker_config_reflects_run(c2, cmd2, run_env(c1, cmd1, env));
}

/// Ordering: in a full setup, the compiler's build-tool invocation only ever
/// happens after the linker's build-tool invocation, and only when the
/// linker build succeeds.
#[verifier::rlimit(100)]
pub proof fn lemma_linker_before_compiler(c: RootsV, env: Env)
    ensures
        forall|j: int|
            0 <= j < run_stages(c, CmdKind::Setup, env).len() && run_stages(c, CmdKind::Setup, env)[j]
                == Stage::CompilerBuild ==> exists|i: int|
                0 <= i < j && run_stages(c, CmdKind::Setup, env)[i] == Stage::LinkerBuild
                    && !env.fails.contains(LABEL_BUILD_LINKER@),
{
    let t = run_stages(c, CmdKind::Setup, env);
    if linker_ok(env) {
        lemma_linker_ok_setup(c, env);
        let lt = linker_trace(env);
        let ib: int = if env.linker_dir_exists {
            2
        } else {
            3
        };
        assert(t[ib] == Stage::LinkerBuild);
        assert forall|j: int|
            0 <= j < t.len() && t[j] == Stage::CompilerBuild implies (exists|i: int|
            0 <= i < j && t[i] == Stage::LinkerBuild && !env.fails.contains(
                LABEL_BUILD_LINKER@,
            )) by {
            assert(j >= lt.len()) by {
                if j < lt.len() {
                    assert(t[j] == lt[j]);
                    assert(lt[j] != Stage::CompilerBuild);
                }
            }
            assert(0 <= ib < j && t[ib] == Stage::LinkerBuild && !env.fails.contains(
                LABEL_BUILD_LINKER@,
            ));
        }
    } else {
        lemma_linker_fail(c, CmdKind::Setup, env);
        assert forall|j: int|
            0 <= j < t.len() && t[j] == Stage::CompilerBuild implies (exists|i: int|
            0 <= i < j && t[i] == Stage::LinkerBuild && !env.fails.contains(
                LABEL_BUILD_LINKER@,
            )) by {
            assert(t[j] != Stage::CompilerBuild);
        }
    }
}

} // verus!
