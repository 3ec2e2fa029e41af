use pallet_verifier::cli::{
    CliAction, analysis_rustflags, build_cargo_command, build_verifier_command, is_build_script,
    is_rustc_path, route, verifier_file_name,
};
use pallet_verifier::config::{PointerWidth, effective_width, parse_pointer_width, width_bits,
    width_var_name_str};
use pallet_verifier::text::str_equal;

fn args(parts: &[&str]) -> Vec<String> {
    parts.iter().map(|s| s.to_string()).collect()
}

#[test]
fn route_subcommand_runs_cargo() {
    let a = args(&["cargo-verify-pallet", "verify-pallet", "--quiet"]);
    assert_eq!(route(&a, false), CliAction::RunCargo);
}

#[test]
fn route_primary_package_runs_verifier() {
    let a = args(&["cargo-verify-pallet", "/toolchain/bin/rustc", "src/lib.rs"]);
    assert_eq!(route(&a, true), CliAction::RunVerifier);
    assert_eq!(route(&a, false), CliAction::CompileDependency);
}

#[test]
fn route_build_script_compiles_plainly() {
    let a = args(&[
        "cargo-verify-pallet",
        "/toolchain/bin/rustc",
        "--crate-name",
        "build_script_build",
        "my_crate/build.rs",
    ]);
    assert!(is_build_script(&a));
    assert_eq!(route(&a, true), CliAction::CompileDependency);
}

#[test]
fn route_unknown_subcommand_is_usage_error() {
    assert_eq!(route(&args(&["cargo-verify-pallet", "frobnicate"]), true), CliAction::UsageError);
    assert_eq!(route(&args(&["cargo-verify-pallet"]), true), CliAction::UsageError);
}

#[test]
fn build_script_needs_both_marks() {
    // a build.rs argument alone is not enough
    let a = args(&["w", "rustc", "my_crate/build.rs"]);
    assert!(!is_build_script(&a));
    // the crate name alone is not enough either
    let a = args(&["w", "rustc", "--crate-name", "build_script_build", "src/lib.rs"]);
    assert!(!is_build_script(&a));
}

#[test]
fn rustc_path_by_file_name() {
    assert!(is_rustc_path("rustc"));
    assert!(is_rustc_path("/toolchain/bin/rustc"));
    assert!(is_rustc_path("C:\\toolchain\\rustc.exe"));
    assert!(!is_rustc_path("/toolchain/bin/cargo"));
    assert!(!is_rustc_path("/toolchain/rustc/cargo"));
}

#[test]
fn cargo_command_shape() {
    let plan = build_cargo_command(
        "cargo".to_string(),
        "/bin/cargo-verify-pallet".to_string(),
        Some("nightly".to_string()),
        args(&["--quiet", "--offline"]),
    );
    assert_eq!(plan.program, "cargo");
    assert_eq!(plan.args, args(&["check", "--quiet", "--offline"]));
    assert_eq!(plan.envs.len(), 3);
    assert_eq!(plan.envs[0], ("RUSTC_WRAPPER".to_string(), "/bin/cargo-verify-pallet".to_string()));
    assert_eq!(
        plan.envs[1],
        ("RUSTFLAGS".to_string(), "--cfg=mirai -Zalways_encode_mir".to_string())
    );
    assert_eq!(plan.envs[2], ("RUSTUP_TOOLCHAIN".to_string(), "nightly".to_string()));
}

#[test]
fn cargo_command_without_toolchain() {
    let plan = build_cargo_command("cargo".to_string(), "w".to_string(), None, Vec::new());
    assert_eq!(plan.args, args(&["check"]));
    assert_eq!(plan.envs.len(), 2);
}

#[test]
fn verifier_command_forwards_args() {
    let plan = build_verifier_command("/bin/pallet-verifier".to_string(), args(&["a", "b"]));
    assert_eq!(plan.program, "/bin/pallet-verifier");
    assert_eq!(plan.args, args(&["a", "b"]));
    assert!(plan.envs.is_empty());
}

#[test]
fn verifier_executable_name() {
    assert_eq!(verifier_file_name(false), "pallet-verifier");
    assert_eq!(verifier_file_name(true), "pallet-verifier.exe");
    assert_eq!(analysis_rustflags(), "--cfg=mirai -Zalways_encode_mir");
}

#[test]
fn pointer_width_parses_exactly_three_values() {
    assert_eq!(parse_pointer_width("16"), Some(PointerWidth::W16));
    assert_eq!(parse_pointer_width("32"), Some(PointerWidth::W32));
    assert_eq!(parse_pointer_width("64"), Some(PointerWidth::W64));
    assert_eq!(parse_pointer_width(""), None);
    assert_eq!(parse_pointer_width("48"), None);
    assert_eq!(parse_pointer_width("640"), None);
    assert_eq!(width_var_name_str(), "PALLET_VERIFIER_TARGET_POINTER_WIDTH");
}

#[test]
fn width_defaults_to_host_only_when_unset() {
    assert_eq!(effective_width(Some(PointerWidth::W32), PointerWidth::W64), PointerWidth::W32);
    assert_eq!(effective_width(None, PointerWidth::W64), PointerWidth::W64);
    assert_eq!(width_bits(PointerWidth::W16), 16);
    assert_eq!(width_bits(PointerWidth::W32), 32);
    assert_eq!(width_bits(PointerWidth::W64), 64);
}

#[test]
fn string_equality_by_contents() {
    assert!(str_equal("abc", "abc"));
    assert!(!str_equal("abc", "abd"));
    assert!(!str_equal("abc", "abcd"));
    assert!(str_equal("", ""));
}
