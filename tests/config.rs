use fargo::config::FuchsiaConfig;

#[test]
fn build_dir_is_read_and_malformed_line_skipped() {
    let config = FuchsiaConfig::new("FUCHSIA_BUILD_DIR=\"out/debug-x64\"\nthis line has no equals sign\n");
    assert_eq!(config.fuchsia_build_dir, "out/debug-x64");
    assert_eq!(config.fuchsia_variant, "");
    assert_eq!(config.fuchsia_arch, "");
    assert_eq!(config.zircon_project, "");
}

#[test]
fn all_four_keys_are_read() {
    let text = "FUCHSIA_BUILD_DIR=\"out/release-x64\"\nFUCHSIA_VARIANT=\"debug\"\nFUCHSIA_ARCH=\"x64\"\nZIRCON_PROJECT=\"x64\"\nOTHER=\"1\"\n";
    let config = FuchsiaConfig::new(text);
    assert_eq!(config.fuchsia_build_dir, "out/release-x64");
    assert_eq!(config.fuchsia_variant, "debug");
    assert_eq!(config.fuchsia_arch, "x64");
    assert_eq!(config.zircon_project, "x64");
}

#[test]
fn key_is_trimmed_and_crlf_handled() {
    let config = FuchsiaConfig::new("  FUCHSIA_ARCH\t=\"arm64\"\r\nFUCHSIA_VARIANT=asan");
    assert_eq!(config.fuchsia_arch, "arm64");
    assert_eq!(config.fuchsia_variant, "asan");
}

#[test]
fn value_is_split_at_the_first_equals() {
    let config = FuchsiaConfig::new("FUCHSIA_BUILD_DIR=\"a=b\"\n");
    assert_eq!(config.fuchsia_build_dir, "a=b");
}

#[test]
fn only_one_layer_of_quotes_is_stripped() {
    let config = FuchsiaConfig::new("FUCHSIA_ARCH=\"\"x64\"\"\n");
    assert_eq!(config.fuchsia_arch, "\"x64\"");
}

#[test]
fn later_lines_override_earlier_ones() {
    let config = FuchsiaConfig::new("FUCHSIA_VARIANT=\"debug\"\nFUCHSIA_VARIANT=\"release\"\n");
    assert_eq!(config.fuchsia_variant, "release");
}

#[test]
fn empty_text_gives_empty_config() {
    let config = FuchsiaConfig::new("");
    assert_eq!(config.fuchsia_build_dir, "");
    assert!(config.is_release());
}

#[test]
fn is_release_is_false_only_for_debug() {
    assert!(!FuchsiaConfig::new("FUCHSIA_VARIANT=\"debug\"").is_release());
    assert!(FuchsiaConfig::new("FUCHSIA_VARIANT=\"release\"").is_release());
    assert!(FuchsiaConfig::new("FUCHSIA_VARIANT=\"debugx\"").is_release());
    assert!(FuchsiaConfig::new("FUCHSIA_VARIANT=\"\"").is_release());
}
