//! The two generated configuration artifacts.
//!
//! The linker-wiring config embeds the absolute path of the freshly built
//! linker and is regenerated on every run, so it can never go stale. The
//! compiler bootstrap config is fixed text written only when absent: once it
//! exists the user owns it.

use vstd::prelude::*;
use vstd::string::*;

verus! {

pub const LINKER_CONFIG_PRE: &'static str = r#"[unstable]
build-std = ["core", "alloc"]

[target.bpfel-unknown-none]
rustflags = [
    "-C", "linker="#;

pub const LINKER_CONFIG_POST: &'static str = r#"",
    "-C", "panic=abort",
    "-C", "link-arg=--dump-module=llvm_dump",
    "-C", "link-arg=--llvm-args=-bpf-stack-size=4096",
    "-C", "relocation-model=static",
]

[alias]
build-bpf = "build --release --target bpfel-unknown-none"
xtask = "run --package xtask --"
"#;

/// Minimal options for building the compiler from source: no prebuilt
/// component downloads, the faster build backend, optimized output.
pub const BOOTSTRAP_CONFIG: &'static str = r#"change-id = 148803
[llvm]

# Currently, we only support this when building LLVM for the build triple.
#
# Note that many of the LLVM options are not currently supported for
# downloading. Currently only the "assertions" option can be toggled.
download-ci-llvm = false

ninja = true
optimize = true
"#;

/// The linker-wiring config: the fixed template around the absolute path of
/// the linker binary.
pub open spec fn linker_config_of(linker_bin: Seq<char>) -> Seq<char> {
    LINKER_CONFIG_PRE@ + linker_bin + LINKER_CONFIG_POST@
}

pub open spec fn bootstrap_config() -> Seq<char> {
    BOOTSTRAP_CONFIG@
}

/// Renders the linker-wiring config for the given linker binary path.
pub fn linker_config_text(linker_bin: &str) -> (r: String)
    ensures
        r@ == linker_config_of(linker_bin@),
{
    let mut s = String::from_str(LINKER_CONFIG_PRE);
    s.append(linker_bin);
    s.append(LINKER_CONFIG_POST);
    s
}

} // verus!
