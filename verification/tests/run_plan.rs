use component_cli::run_plan::{env_entry, result_count_mismatch, EnvEntry, LibraryRefusal, launch, source, source_after_install, Launch, RunFlags, Source};

#[test]
fn local_files_take_priority() {
    assert_eq!(source("wasi:http", true, true, true), Source::LocalFile);
    assert_eq!(source("./app.wasm", true, false, false), Source::LocalFile);
}

#[test]
fn vendored_manifest_entries_come_next() {
    assert_eq!(source("wasi:http", false, true, false), Source::Vendored);
}

#[test]
fn manifest_keys_install_or_use_the_global_cache() {
    assert_eq!(source("yoshuawuyts:wordmark@2.0.6", false, false, false), Source::Install);
    assert_eq!(source("yoshuawuyts:wordmark", false, false, true), Source::GlobalCache);
}

#[test]
fn other_inputs_are_references() {
    assert_eq!(source("ghcr.io/user/repo:tag", false, false, false), Source::Registry);
    assert_eq!(source("ghcr.io/user/repo:tag", false, false, true), Source::Registry);
    assert_eq!(source_after_install(true), Source::Vendored);
    assert_eq!(source_after_install(false), Source::Registry);
}

#[test]
fn http_proxies_refuse_guest_arguments() {
    assert_eq!(launch(true, true, &vec![]), Launch::Serve);
    assert_eq!(
        launch(true, false, &vec!["--port".to_owned(), "8080".to_owned()]),
        Launch::TrailingArgumentsRefused(
            "trailing arguments are not allowed for HTTP-proxy components: [\"--port\", \"8080\"]".to_owned()
        )
    );
}

#[test]
fn commands_and_libraries() {
    assert_eq!(launch(false, true, &vec!["a".to_owned()]), Launch::Command);
    assert_eq!(launch(false, false, &vec!["a".to_owned()]), Launch::Library);
}

#[test]
fn cli_permissions_set_only_given_flags() {
    let none = RunFlags { envs: vec![], dirs: vec![], inherit_env: false, inherit_network: false, no_stdio: false };
    let p = none.cli_permissions();
    assert_eq!(p.inherit_env, None);
    assert!(p.allow_env.is_none());
    assert!(p.allow_dirs.is_none());
    assert_eq!(p.inherit_stdio, None);
    assert_eq!(p.inherit_network, None);

    let all = RunFlags {
        envs: vec!["KEY=VAL".to_owned(), "HOME".to_owned()],
        dirs: vec!["/tmp".to_owned()],
        inherit_env: true,
        inherit_network: true,
        no_stdio: true,
    };
    let p = all.cli_permissions();
    assert_eq!(p.inherit_env, Some(true));
    assert_eq!(p.allow_env, Some(vec!["KEY=VAL".to_owned(), "HOME".to_owned()]));
    assert_eq!(p.allow_dirs, Some(vec!["/tmp".to_owned()]));
    assert_eq!(p.inherit_stdio, Some(false));
    assert_eq!(p.inherit_network, Some(true));
}

#[test]
fn env_entries_split_at_the_first_equals_sign() {
    assert_eq!(env_entry("KEY=VAL"), EnvEntry::Pair("KEY", "VAL"));
    assert_eq!(env_entry("URL=a=b"), EnvEntry::Pair("URL", "a=b"));
    assert_eq!(env_entry("EMPTY="), EnvEntry::Pair("EMPTY", ""));
    assert_eq!(env_entry("HOME"), EnvEntry::Inherit("HOME"));
}

#[test]
fn library_refusals_and_result_counts() {
    let (m, h) = LibraryRefusal::Resource { name: "blob".into() }.message();
    assert_eq!(m, "component exports the resource `blob`, which is not supported by `component run`");
    assert_eq!(h, "library-style invocation does not support resources; use a CLI or HTTP component instead");
    let (m, h) = LibraryRefusal::NoInvocableFunctions { reasons: "stream".into() }.message();
    assert_eq!(m, "no invocable functions: every export uses an unsupported type (stream)");
    assert_eq!(h, "library-style invocation does not support these types; use a CLI or HTTP component instead");
    assert_eq!(result_count_mismatch(2, 2), None);
    assert_eq!(
        result_count_mismatch(1, 0).as_deref(),
        Some("result count mismatch: WIT declares 1 value(s), runtime returned 0")
    );
}
