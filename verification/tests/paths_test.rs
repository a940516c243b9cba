use bpf_bootstrap::config::linker_config_text;
use bpf_bootstrap::paths::cache_root_from;
use bpf_bootstrap::paths::join;
use bpf_bootstrap::paths::project_root_from;
use bpf_bootstrap::paths::WorkspacePaths;

#[test]
fn join_inserts_separator() {
    assert_eq!(join("/a", "b").as_str(), "/a/b");
    assert_eq!(join("/a/b", "c/d").as_str(), "/a/b/c/d");
}

#[test]
fn project_root_strips_xtask_component() {
    assert_eq!(project_root_from("/work/repo/xtask").as_str(), "/work/repo");
    assert_eq!(project_root_from("/work/repo").as_str(), "/work/repo");
    assert_eq!(project_root_from("xtask").as_str(), "");
    assert_eq!(project_root_from("/work/notxtask").as_str(), "/work/notxtask");
    assert_eq!(project_root_from("/a").as_str(), "/a");
}

#[test]
fn cache_root_uses_platform_dir_or_fallback() {
    assert_eq!(
        cache_root_from(Some("/home/op/.cache".to_string())).as_str(),
        "/home/op/.cache/u128-bpf-toolchain"
    );
    assert_eq!(cache_root_from(None).as_str(), "/tmp/u128-bpf-toolchain");
}

#[test]
fn workspace_paths_derivations() {
    let p = WorkspacePaths::new("/proj".to_string(), "/cache/u128-bpf-toolchain".to_string());
    assert_eq!(p.linker_dir.as_str(), "/cache/u128-bpf-toolchain/sbpf-linker");
    assert_eq!(
        p.linker_bin.as_str(),
        "/cache/u128-bpf-toolchain/sbpf-linker/target/release/sbpf-linker"
    );
    assert_eq!(p.cargo_config_dir.as_str(), "/proj/.cargo");
    assert_eq!(p.cargo_config_file.as_str(), "/proj/.cargo/config.toml");
    assert_eq!(p.rust_dir.as_str(), "/cache/u128-bpf-toolchain/rust-compiler");
    assert_eq!(
        p.modules_dir.as_str(),
        "/cache/u128-bpf-toolchain/rust-compiler/.git/modules/src/llvm-project"
    );
    assert_eq!(
        p.llvm_dir.as_str(),
        "/cache/u128-bpf-toolchain/rust-compiler/src/llvm-project"
    );
    assert_eq!(
        p.bootstrap_file.as_str(),
        "/cache/u128-bpf-toolchain/rust-compiler/bootstrap.toml"
    );
    assert_eq!(
        p.stage_dir.as_str(),
        "/cache/u128-bpf-toolchain/rust-compiler/build/host/stage0"
    );
}

#[test]
fn linker_config_embeds_binary_path() {
    let text = linker_config_text("/x/sbpf-linker");
    let expected = "[unstable]\nbuild-std = [\"core\", \"alloc\"]\n\n[target.bpfel-unknown-none]\nrustflags = [\n    \"-C\", \"linker=/x/sbpf-linker\",\n    \"-C\", \"panic=abort\",\n    \"-C\", \"link-arg=--dump-module=llvm_dump\",\n    \"-C\", \"link-arg=--llvm-args=-bpf-stack-size=4096\",\n    \"-C\", \"relocation-model=static\",\n]\n\n[alias]\nbuild-bpf = \"build --release --target bpfel-unknown-none\"\nxtask = \"run --package xtask --\"\n";
    assert_eq!(text.as_str(), expected);
}
