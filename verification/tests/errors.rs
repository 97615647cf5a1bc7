use component_cli::errors::{InstallError, RunError};

#[test]
fn errors_test_all_variants_have_error_codes() {
    let no_manifest = InstallError::NoManifest;
    assert_eq!(no_manifest.code(), "component::install::no_manifest");
    assert!(!no_manifest.help().is_empty(), "NoManifest must have a help message");

    let dep_conflict = InstallError::DependencyConflict("no solution".to_string());
    assert_eq!(dep_conflict.code(), "component::install::dependency_conflict");
    assert!(!dep_conflict.help().is_empty(), "DependencyConflict must have a help message");
}

#[test]
fn test_all_variants_have_error_codes() {
    let variants = vec![
        RunError::NoManifest,
        RunError::NoWasmLayer,
        RunError::NotInLockfile { name: "test".to_string() },
        RunError::VendoredFileMissing { path: "test".to_string(), name: "test".to_string() },
        RunError::HttpBindFailed { addr: "127.0.0.1:8080".to_string(), reason: "test".to_string() },
        RunError::HttpAcceptFailed { reason: "test".to_string() },
    ];
    let expected_codes = [
        "component::run::no_manifest",
        "component::run::no_wasm_layer",
        "component::run::not_in_lockfile",
        "component::run::vendored_file_missing",
        "component::run::http_bind_failed",
        "component::run::http_accept_failed",
    ];
    for (variant, expected_code) in variants.iter().zip(expected_codes.iter()) {
        assert_eq!(variant.code(), *expected_code);
        assert!(!variant.help().is_empty(), "{expected_code} must have a help message");
    }
}

#[test]
fn install_error_messages() {
    assert_eq!(InstallError::NoManifest.message(), "no local `wasm.toml` manifest found");
    assert_eq!(
        InstallError::DependencyConflict("x needs y".into()).message(),
        "dependency conflict: x needs y"
    );
}

#[test]
fn run_error_messages_and_help_interpolate_fields() {
    let e = RunError::VendoredFileMissing { path: "vendor/wasm/a.wasm".into(), name: "a:b".into() };
    assert_eq!(e.message(), "vendored file 'vendor/wasm/a.wasm' not found for component 'a:b'");
    assert_eq!(
        e.help(),
        "'vendor/wasm/a.wasm' not found; run `component install a:b` to vendor the component"
    );
    let e = RunError::HttpBindFailed { addr: "0.0.0.0:80".into(), reason: "denied".into() };
    assert_eq!(e.message(), "failed to bind HTTP server to 0.0.0.0:80: denied");
    assert_eq!(
        e.help(),
        "denied; ensure the address '0.0.0.0:80' is available and not in use by another process"
    );
    let e = RunError::NotInGlobalCache { name: "a:b".into() };
    assert_eq!(e.code(), "component::run::not_in_global_cache");
    assert_eq!(e.help(), "run `component install a:b` to fetch 'a:b' into the cache first");
}
