//! The fixed values of the toolchain: repository locations, branch names,
//! the registered toolchain name, and the generated configuration templates.

use vstd::prelude::*;

verus! {

/// Source repository of the patched compiler.
pub const RUST_REPO: &'static str = "https://github.com/blueshift-gg/rust";

/// Branch of the patched compiler that the pipeline checks out.
pub const RUST_BRANCH: &'static str = "BPF_i128_ret";

/// Fork that the compiler's nested LLVM submodule must point at.
pub const LLVM_REPO: &'static str = "https://github.com/blueshift-gg/llvm-project.git";

/// Source repository of the patched linker.
pub const LINKER_REPO: &'static str = "https://github.com/blueshift-gg/sbpf-linker";

/// Branch of the patched linker that the pipeline checks out.
pub const LINKER_BRANCH: &'static str = "u128_mul_libcall";

/// Name under which the freshly built compiler is registered.
pub const TOOLCHAIN_NAME: &'static str = "stage1";

/// Branch the LLVM submodule is forced onto after reconciliation.
pub const LLVM_BRANCH: &'static str = "BPF_i128_ret";

/// Remote branch the forced LLVM checkout tracks.
pub const LLVM_REMOTE_BRANCH: &'static str = "origin/BPF_i128_ret";

/// Path of the LLVM submodule inside the compiler checkout.
pub const SUBMODULE_PATH: &'static str = "src/llvm-project";

/// Marker message for the commit that pins the reconciled submodule pointer.
pub const COMMIT_MESSAGE: &'static str = "TMP: update submodule to BPF_i128_ret";

pub open spec fn rust_repo() -> Seq<char> {
    RUST_REPO@
}

pub open spec fn rust_branch() -> Seq<char> {
    RUST_BRANCH@
}

pub open spec fn llvm_repo() -> Seq<char> {
    LLVM_REPO@
}

pub open spec fn linker_repo() -> Seq<char> {
    LINKER_REPO@
}

pub open spec fn linker_branch() -> Seq<char> {
    LINKER_BRANCH@
}

pub open spec fn toolchain_name() -> Seq<char> {
    TOOLCHAIN_NAME@
}

pub open spec fn llvm_branch() -> Seq<char> {
    LLVM_BRANCH@
}

pub open spec fn llvm_remote_branch() -> Seq<char> {
    LLVM_REMOTE_BRANCH@
}

pub open spec fn submodule_path() -> Seq<char> {
    SUBMODULE_PATH@
}

pub open spec fn commit_message() -> Seq<char> {
    COMMIT_MESSAGE@
}

} // verus!
