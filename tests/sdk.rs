use fargo::sdk::{
    ancestor_path, candidate_roots, cargo_out_dir, clang_archiver_path, clang_c_compiler_path,
    clang_cpp_compiler_path, clang_linker_path, clang_ranlib_path, fuchsia_root, fx_path,
    possible_target_out_dir, strip_tool_path, sysroot_path, target_gen_dir, target_out_dir,
    target_out_dir_path, toolchain_path, zircon_build_name, HostPlatform, RootOverride, SdkError,
    TargetOptions,
};
use fargo::text::{join_path, same_text};

fn comps(parts: &[&str]) -> Vec<String> {
    parts.iter().map(|p| p.to_string()).collect()
}

#[test]
fn new_target_options_are_x64() {
    let options = TargetOptions::new(true, Some("ivy-donut-grew-stoop"));
    assert!(options.release_os);
    assert_eq!(options.target_cpu, "x64");
    assert_eq!(options.target_cpu_linker, "x86_64");
    assert_eq!(options.device_name, Some("ivy-donut-grew-stoop"));
}

#[test]
fn join_adds_a_separator_only_when_needed() {
    assert_eq!(join_path("/a", "b"), "/a/b");
    assert_eq!(join_path("/a/", "b"), "/a/b");
    assert_eq!(join_path("/", "b"), "/b");
    assert_eq!(join_path("", "b"), "b");
}

#[test]
fn same_text_compares_characters() {
    assert!(same_text("x64", "x64"));
    assert!(!same_text("x64", "x6"));
    assert!(!same_text("arm", "x64"));
}

#[test]
fn out_dir_follows_release_flag() {
    let release = TargetOptions::new(true, None);
    let debug = TargetOptions::new(false, None);
    assert_eq!(target_out_dir_path("/f", &release), "/f/out/release-x64");
    assert_eq!(target_out_dir_path("/f", &debug), "/f/out/debug-x64");
}

#[test]
fn out_dir_must_exist() {
    let options = TargetOptions::new(false, None);
    assert_eq!(possible_target_out_dir("/f", &options, true).unwrap(), "/f/out/debug-x64");
    match possible_target_out_dir("/f", &options, false) {
        Err(SdkError::OutDirNotFound(p)) => assert_eq!(p, "/f/out/debug-x64"),
        other => panic!("unexpected result {:?}", other),
    }
    assert!(target_out_dir("/f", &options, false).is_err());
    assert_eq!(target_out_dir("/f", &options, true).unwrap(), "/f/out/debug-x64");
}

#[test]
fn gen_dir_is_under_out_dir() {
    let options = TargetOptions::new(true, None);
    assert_eq!(target_gen_dir("/f", &options, true).unwrap(), "/f/out/release-x64/gen");
    assert!(matches!(target_gen_dir("/f", &options, false), Err(SdkError::OutDirNotFound(_))));
}

#[test]
fn derived_paths_have_expected_values() {
    let options = TargetOptions::new(true, None);
    assert_eq!(cargo_out_dir("/f", &options), "/f/garnet/target/x86_64-unknown-fuchsia/debug");
    assert_eq!(sysroot_path("/f", &options), "/f/out/build-zircon/build-user-x86-64/sysroot");
    assert_eq!(toolchain_path("/f", HostPlatform::Linux), "/f/buildtools/linux-x64/clang");
    assert_eq!(toolchain_path("/f", HostPlatform::Mac), "/f/buildtools/mac-x64/clang");
    assert_eq!(strip_tool_path("/f", HostPlatform::Linux), "/f/buildtools/linux-x64/clang/bin/llvm-objcopy");
    assert_eq!(clang_linker_path("/f", HostPlatform::Linux), "/f/buildtools/linux-x64/clang/bin/clang");
    assert_eq!(clang_c_compiler_path("/f", HostPlatform::Linux), "/f/buildtools/linux-x64/clang/bin/clang");
    assert_eq!(clang_cpp_compiler_path("/f", HostPlatform::Linux), "/f/buildtools/linux-x64/clang/bin/clang++");
    assert_eq!(clang_archiver_path("/f", HostPlatform::Linux), "/f/buildtools/linux-x64/clang/bin/llvm-ar");
    assert_eq!(clang_ranlib_path("/f", HostPlatform::Mac), "/f/buildtools/mac-x64/clang/bin/llvm-ranlib");
    assert_eq!(fx_path("/f"), "/f/scripts/fx");
}

#[test]
fn derived_paths_are_deterministic() {
    let options = TargetOptions::new(false, None);
    assert_eq!(sysroot_path("/f", &options), sysroot_path("/f", &options));
    assert_eq!(cargo_out_dir("/f", &options), cargo_out_dir("/f", &options));
    assert_eq!(toolchain_path("/f", HostPlatform::Linux), toolchain_path("/f", HostPlatform::Linux));
}

#[test]
fn sysroot_name_depends_on_cpu() {
    assert_eq!(zircon_build_name("x64"), "build-user-x86-64");
    assert_eq!(zircon_build_name("arm64"), "build-user-arm64");
}

#[test]
fn candidates_run_from_cwd_to_filesystem_root() {
    let cwd = comps(&["home", "me", "fuchsia"]);
    assert_eq!(
        candidate_roots(&cwd),
        vec!["/home/me/fuchsia".to_string(), "/home/me".to_string(), "/home".to_string(), "/".to_string()]
    );
    assert_eq!(ancestor_path(&cwd, 1), "/home/me");
    assert_eq!(candidate_roots(&Vec::new()), vec!["/".to_string()]);
}

#[test]
fn root_found_levels_up_from_any_descendant() {
    let shallow = comps(&["src", "fuchsia", "garnet"]);
    let deep = comps(&["src", "fuchsia", "garnet", "bin", "tool"]);
    let r1 = fuchsia_root(&RootOverride::Unset, &shallow, &vec![false, true, false, false]);
    let r2 = fuchsia_root(&RootOverride::Unset, &deep, &vec![false, false, false, true, false, false]);
    assert_eq!(r1.unwrap(), "/src/fuchsia");
    assert_eq!(r2.unwrap(), "/src/fuchsia");
}

#[test]
fn root_search_takes_the_nearest_ancestor() {
    let cwd = comps(&["a", "b"]);
    let r = fuchsia_root(&RootOverride::Unset, &cwd, &vec![false, true, true]);
    assert_eq!(r.unwrap(), "/a");
    let r = fuchsia_root(&RootOverride::Unset, &cwd, &vec![true, true, true]);
    assert_eq!(r.unwrap(), "/a/b");
}

#[test]
fn root_not_found_when_no_ancestor_qualifies() {
    let cwd = comps(&["a", "b"]);
    let r = fuchsia_root(&RootOverride::Unset, &cwd, &vec![false, false, false]);
    assert!(matches!(r, Err(SdkError::TreeNotFound)));
}

#[test]
fn invalid_override_fails_even_if_an_ancestor_qualifies() {
    let cwd = comps(&["a", "b"]);
    let over = RootOverride::Given { path: "/not/a/dir".to_string(), is_dir: false };
    match fuchsia_root(&over, &cwd, &vec![true, true, true]) {
        Err(SdkError::Configuration(p)) => assert_eq!(p, "/not/a/dir"),
        other => panic!("unexpected result {:?}", other),
    }
}

#[test]
fn valid_override_is_trusted() {
    let cwd = comps(&["a"]);
    let over = RootOverride::Given { path: "/tree".to_string(), is_dir: true };
    assert_eq!(fuchsia_root(&over, &cwd, &vec![false, false]).unwrap(), "/tree");
}
