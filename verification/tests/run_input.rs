use component_cli::run_input::{
    looks_like_manifest_key, quarantine_run_trailing_args, strip_at_version,
};

fn args(v: &[&str]) -> Vec<String> {
    v.iter().map(|s| s.to_string()).collect()
}

#[test]
fn manifest_key_basic() {
    assert!(looks_like_manifest_key("wasi:http"));
    assert!(looks_like_manifest_key("yoshuawuyts:wordmark"));
}

#[test]
fn manifest_key_rejects_oci_references() {
    assert!(!looks_like_manifest_key("ghcr.io/user/repo:tag"));
    assert!(!looks_like_manifest_key("docker.io/library/nginx:latest"));
}

#[test]
fn strip_at_version_no_at_sign_is_passthrough() {
    assert_eq!(strip_at_version("yoshuawuyts:wordmark"), "yoshuawuyts:wordmark");
}

#[test]
fn strip_at_version_then_manifest_key_check() {
    let stripped = strip_at_version("yoshuawuyts:wordmark@2.0.6");
    assert_eq!(stripped, "yoshuawuyts:wordmark");
    assert!(looks_like_manifest_key(stripped));
}

#[test]
fn manifest_key_rejects_empty_parts() {
    assert!(!looks_like_manifest_key(":x"));
    assert!(!looks_like_manifest_key("x:"));
    assert!(!looks_like_manifest_key("nocolon"));
}

#[test]
fn quarantine_inserts_separator_after_input() {
    let out = quarantine_run_trailing_args(args(&["component", "run", "x.wasm", "--help", "a"]));
    assert_eq!(out, args(&["component", "run", "x.wasm", "--", "--help", "a"]));
}

#[test]
fn quarantine_keeps_host_flags_before_input() {
    let out = quarantine_run_trailing_args(args(&[
        "component", "-v", "run", "--env", "K=V", "--dir=/tmp", "-g", "x.wasm", "y",
    ]));
    assert_eq!(
        out,
        args(&["component", "-v", "run", "--env", "K=V", "--dir=/tmp", "-g", "x.wasm", "--", "y"])
    );
}

#[test]
fn quarantine_passes_explicit_separator_through() {
    let input = args(&["component", "run", "--", "x.wasm", "--help"]);
    assert_eq!(quarantine_run_trailing_args(input.clone()), input);
}

#[test]
fn quarantine_leaves_unknown_flags_to_the_parser() {
    let input = args(&["component", "run", "--bogus", "x.wasm", "y"]);
    assert_eq!(quarantine_run_trailing_args(input.clone()), input);
}

#[test]
fn quarantine_without_run_or_trailing_args_is_identity() {
    let input = args(&["component", "install", "wasi:http"]);
    assert_eq!(quarantine_run_trailing_args(input.clone()), input);
    let input = args(&["component", "run", "x.wasm"]);
    assert_eq!(quarantine_run_trailing_args(input.clone()), input);
    let input = args(&["component", "run", "--listen"]);
    assert_eq!(quarantine_run_trailing_args(input.clone()), input);
}
