use fargo::cross::{configure_command, cross_root, exit_code_of, pkg_config_command, pkg_config_path};
use fargo::sdk::{HostPlatform, TargetOptions};

fn env_value(env: &[(String, String)], key: &str) -> Option<String> {
    env.iter().find(|(k, _)| k == key).map(|(_, v)| v.clone())
}

#[test]
fn cross_root_is_keyed_by_cpu() {
    let options = TargetOptions::new(false, None);
    assert_eq!(cross_root("/home/me", &options), "/home/me/.fargo/native_deps/x64");
    assert_eq!(pkg_config_path("/home/me", &options), "/home/me/.fargo/native_deps/x64/lib/pkgconfig");
}

#[test]
fn pkg_config_is_isolated() {
    let options = TargetOptions::new(false, None);
    let cmd = pkg_config_command(&vec!["--libs".to_string(), "zlib".to_string()], "/h", &options);
    assert_eq!(cmd.program, "pkg-config");
    assert_eq!(cmd.args, vec!["--libs".to_string(), "zlib".to_string()]);
    assert_eq!(
        cmd.env,
        vec![
            ("PKG_CONFIG_PATH".to_string(), "".to_string()),
            ("PKG_CONFIG_LIBDIR".to_string(), "/h/.fargo/native_deps/x64/lib/pkgconfig".to_string()),
            ("PKG_CONFIG_ALL_STATIC".to_string(), "1".to_string()),
        ]
    );
}

#[test]
fn exit_code_maps_signal_to_one() {
    assert_eq!(exit_code_of(Some(0)), 0);
    assert_eq!(exit_code_of(Some(3)), 3);
    assert_eq!(exit_code_of(None), 1);
}

#[test]
fn configure_flags_hold_sysroot_and_pic() {
    let options = TargetOptions::new(false, None);
    let cmd = configure_command("/src/zlib", false, &vec![], "/h", "", "/f", HostPlatform::Linux, &options);
    let common = "--sysroot=/f/out/build-zircon/build-user-x86-64/sysroot --target=x86_64-fuchsia -fPIC -I/h/.fargo/native_deps/x64/include";
    assert_eq!(env_value(&cmd.env, "CFLAGS").unwrap(), common);
    assert_eq!(env_value(&cmd.env, "CXXFLAGS").unwrap(), common);
    assert_eq!(env_value(&cmd.env, "CPPFLAGS").unwrap(), common);
    assert_eq!(
        env_value(&cmd.env, "LDFLAGS").unwrap(),
        format!(" {} -L/h/.fargo/native_deps/x64/lib", common)
    );
    assert_eq!(cmd.program, "/src/zlib/configure");
}

#[test]
fn configure_host_arg_only_when_asked() {
    let options = TargetOptions::new(false, None);
    let user = vec!["--disable-shared".to_string()];
    let with_host = configure_command("/s", true, &user, "/h", "", "/f", HostPlatform::Linux, &options);
    let without = configure_command("/s", false, &user, "/h", "", "/f", HostPlatform::Linux, &options);
    assert_eq!(
        with_host.args,
        vec![
            "--host=x86_64-fuchsia-elf".to_string(),
            "--prefix=/h/.fargo/native_deps/x64".to_string(),
            "--disable-shared".to_string(),
        ]
    );
    assert_eq!(
        without.args,
        vec!["--prefix=/h/.fargo/native_deps/x64".to_string(), "--disable-shared".to_string()]
    );
}

#[test]
fn configure_env_selects_the_toolchain() {
    let options = TargetOptions::new(false, None);
    let cmd = configure_command("/s", false, &vec![], "/h", "-L/usr/x", "/f", HostPlatform::Mac, &options);
    let bin = "/f/buildtools/mac-x64/clang/bin";
    assert_eq!(env_value(&cmd.env, "CC").unwrap(), format!("{}/clang", bin));
    assert_eq!(env_value(&cmd.env, "CXX").unwrap(), format!("{}/clang++", bin));
    assert_eq!(env_value(&cmd.env, "RANLIB").unwrap(), format!("{}/llvm-ranlib", bin));
    assert_eq!(env_value(&cmd.env, "LD").unwrap(), format!("{}/llvm-lld", bin));
    assert_eq!(env_value(&cmd.env, "AR").unwrap(), format!("{}/llvm-ar", bin));
    assert!(env_value(&cmd.env, "LDFLAGS").unwrap().starts_with("-L/usr/x --sysroot="));
    assert_eq!(env_value(&cmd.env, "PKG_CONFIG_PATH").unwrap(), "");
    assert_eq!(env_value(&cmd.env, "PKG_CONFIG_ALL_STATIC").unwrap(), "1");
    assert_eq!(cmd.env.len(), 12);
}
