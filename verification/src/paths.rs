//! Path derivation for one pipeline run.
//!
//! Every directory and file the pipeline touches is derived from two roots:
//! the project root and a persistent cache root that keeps the cloned
//! toolchain sources outside the project's own build graph. Paths are held
//! as plain strings with `/` as the separator; the unverified runner turns
//! them into filesystem paths.

use vstd::prelude::*;
use vstd::string::*;

verus! {

/// Subdirectory of the platform cache root that holds the toolchain sources.
pub const CACHE_SUBDIR: &'static str = "u128-bpf-toolchain";

/// Cache base used when no platform cache root is resolvable.
pub const FALLBACK_CACHE: &'static str = "/tmp";

/// Mathematical view of a run's workspace: the two roots from which every
/// derived path is computed.
pub struct RootsV {
    pub project_root: Seq<char>,
    pub cache_root: Seq<char>,
}

pub open spec fn join_seq(base: Seq<char>, tail: Seq<char>) -> Seq<char> {
    base + "/"@ + tail
}

/// Joins a relative path onto a base path with a single separator.
pub fn join(base: &str, tail: &str) -> (r: String)
    ensures
        r@ == join_seq(base@, tail@),
{
    let mut s = String::from_str(base);
    s.append("/");
    s.append(tail);
    s
}

/// Compares two string slices by their character sequences.
pub fn str_eq(a: &str, b: &str) -> (r: bool)
    ensures
        r == (a@ == b@),
{
    let sa = String::from_str(a);
    let sb = String::from_str(b);
    sa.eq(&sb)
}

pub open spec fn cache_root_of(platform: Option<Seq<char>>) -> Seq<char> {
    match platform {
        Some(p) => join_seq(p, CACHE_SUBDIR@),
        None => join_seq(FALLBACK_CACHE@, CACHE_SUBDIR@),
    }
}

/// Resolves the cache root from the platform's cache directory, falling back
/// to a temporary directory when the platform offers none.
pub fn cache_root_from(platform_cache: Option<String>) -> (r: String)
    ensures
        platform_cache matches Some(p) ==> r@ == cache_root_of(Some(p@)),
        platform_cache is None ==> r@ == cache_root_of(None::<Seq<char>>),
{
    match platform_cache {
        Some(p) => join(p.as_str(), CACHE_SUBDIR),
        None => join(FALLBACK_CACHE, CACHE_SUBDIR),
    }
}

/// The project root implied by a manifest directory: when the manifest
/// directory's last path component is `xtask`, its parent; otherwise the
/// directory itself.
pub open spec fn project_root_of(dir: Seq<char>) -> Seq<char> {
    if dir == "xtask"@ {
        Seq::<char>::empty()
    } else if dir.len() >= 6 && dir.subrange(dir.len() - 6, dir.len() as int) == "/xtask"@ {
        dir.subrange(0, dir.len() - 6)
    } else {
        dir
    }
}

/// Resolves the project root from the directory the process was started in.
pub fn project_root_from(manifest_dir: &str) -> (r: String)
    ensures
        r@ == project_root_of(manifest_dir@),
{
    if str_eq(manifest_dir, "xtask") {
        String::new()
    } else {
        let n = manifest_dir.unicode_len();
        if n >= 6 {
            let suffix = manifest_dir.substring_char(n - 6, n);
            if str_eq(suffix, "/xtask") {
                let parent = manifest_dir.substring_char(0, n - 6);
                String::from_str(parent)
            } else {
                String::from_str(manifest_dir)
            }
        } else {
            String::from_str(manifest_dir)
        }
    }
}

pub open spec fn linker_dir_of(c: RootsV) -> Seq<char> {
    join_seq(c.cache_root, "sbpf-linker"@)
}

pub open spec fn linker_bin_of(c: RootsV) -> Seq<char> {
    join_seq(linker_dir_of(c), "target/release/sbpf-linker"@)
}

pub open spec fn cargo_config_dir_of(c: RootsV) -> Seq<char> {
    join_seq(c.project_root, ".cargo"@)
}

pub open spec fn cargo_config_file_of(c: RootsV) -> Seq<char> {
    join_seq(cargo_config_dir_of(c), "config.toml"@)
}

pub open spec fn rust_dir_of(c: RootsV) -> Seq<char> {
    join_seq(c.cache_root, "rust-compiler"@)
}

pub open spec fn modules_dir_of(c: RootsV) -> Seq<char> {
    join_seq(rust_dir_of(c), ".git/modules/src/llvm-project"@)
}

pub open spec fn llvm_dir_of(c: RootsV) -> Seq<char> {
    join_seq(rust_dir_of(c), "src/llvm-project"@)
}

pub open spec fn bootstrap_file_of(c: RootsV) -> Seq<char> {
    join_seq(rust_dir_of(c), "bootstrap.toml"@)
}

pub open spec fn stage_dir_of(c: RootsV) -> Seq<char> {
    join_seq(rust_dir_of(c), "build/host/stage0"@)
}

/// The derived, read-only paths of one run, all computed from the two roots.
pub struct WorkspacePaths {
    pub project_root: String,
    pub cache_root: String,
    pub linker_dir: String,
    pub linker_bin: String,
    pub cargo_config_dir: String,
    pub cargo_config_file: String,
    pub rust_dir: String,
    pub modules_dir: String,
    pub llvm_dir: String,
    pub bootstrap_file: String,
    pub stage_dir: String,
}

impl View for WorkspacePaths {
    type V = RootsV;

    open spec fn view(&self) -> RootsV {
        RootsV { project_root: self.project_root@, cache_root: self.cache_root@ }
    }
}

impl WorkspacePaths {
    /// Every derived field agrees with its derivation from the two roots.
    pub open spec fn wf(&self) -> bool {
        &&& self.linker_dir@ == linker_dir_of(self@)
        &&& self.linker_bin@ == linker_bin_of(self@)
        &&& self.cargo_config_dir@ == cargo_config_dir_of(self@)
        &&& self.cargo_config_file@ == cargo_config_file_of(self@)
        &&& self.rust_dir@ == rust_dir_of(self@)
        &&& self.modules_dir@ == modules_dir_of(self@)
        &&& self.llvm_dir@ == llvm_dir_of(self@)
        &&& self.bootstrap_file@ == bootstrap_file_of(self@)
        &&& self.stage_dir@ == stage_dir_of(self@)
    }

    /// Computes every path the pipeline will touch from the two roots.
    pub fn new(project_root: String, cache_root: String) -> (r: WorkspacePaths)
        ensures
            r.wf(),
            r@ == (RootsV { project_root: project_root@, cache_root: cache_root@ }),
    {
        let linker_dir = join(cache_root.as_str(), "sbpf-linker");
        let linker_bin = join(linker_dir.as_str(), "target/release/sbpf-linker");
        let cargo_config_dir = join(project_root.as_str(), ".cargo");
        let cargo_config_file = join(cargo_config_dir.as_str(), "config.toml");
        let rust_dir = join(cache_root.as_str(), "rust-compiler");
        let modules_dir = join(rust_dir.as_str(), ".git/modules/src/llvm-project");
        let llvm_dir = join(rust_dir.as_str(), "src/llvm-project");
        let bootstrap_file = join(rust_dir.as_str(), "bootstrap.toml");
        let stage_dir = join(rust_dir.as_str(), "build/host/stage0");
        WorkspacePaths {
            project_root,
            cache_root,
            linker_dir,
            linker_bin,
            cargo_config_dir,
            cargo_config_file,
            rust_dir,
            modules_dir,
            llvm_dir,
            bootstrap_file,
            stage_dir,
        }
    }
}

} // verus!
