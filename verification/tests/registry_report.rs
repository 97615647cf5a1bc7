use component_cli::registry_report::{
    sync_message, SyncResult,
    already_registered, already_registered_message, delete_message, filter_tags, keep_tag,
    notify_message, tag_lines, NotifyError, NotifyOutcome,
};

fn strings(items: &[&str]) -> Vec<String> {
    items.iter().map(|s| (*s).to_owned()).collect()
}

#[test]
fn signature_and_attestation_tags_are_opt_in() {
    assert!(keep_tag("0.2.0", false, false));
    assert!(!keep_tag("sha256-abc.sig", false, false));
    assert!(keep_tag("sha256-abc.sig", true, false));
    assert!(!keep_tag("sha256-abc.att", true, false));
    assert!(keep_tag("sha256-abc.att", false, true));
    // A leading dot alone is no extension.
    assert!(keep_tag(".sig", false, false));
}

#[test]
fn filtering_keeps_release_tags_in_order() {
    let all = strings(&["0.1.0", "sha256-a.sig", "0.2.0", "sha256-a.att", "latest"]);
    assert_eq!(filter_tags(all.clone(), false, false), strings(&["0.1.0", "0.2.0", "latest"]));
    assert_eq!(filter_tags(all, true, true).len(), 5);
}

#[test]
fn tag_listings_depend_on_offline_mode() {
    assert_eq!(tag_lines("ghcr.io/a/b", &vec![], false), strings(&["No tags found for 'ghcr.io/a/b'"]));
    assert_eq!(
        tag_lines("ghcr.io/a/b", &vec![], true),
        strings(&["No cached tags found for 'ghcr.io/a/b' (offline mode)"])
    );
    assert_eq!(
        tag_lines("ghcr.io/a/b", &strings(&["1.0", "2.0"]), false),
        strings(&["Tags for 'ghcr.io/a/b':", "  1.0", "  2.0"])
    );
    assert_eq!(
        tag_lines("ghcr.io/a/b", &strings(&["1.0"]), true),
        strings(&["Cached tags for 'ghcr.io/a/b' (offline mode):", "  1.0"])
    );
}

#[test]
fn delete_messages() {
    assert_eq!(delete_message("ghcr.io/a/b:1", true), "Deleted 'ghcr.io/a/b:1'");
    assert_eq!(delete_message("ghcr.io/a/b:1", false), "Package 'ghcr.io/a/b:1' not found in local store");
}

#[test]
fn notify_messages() {
    assert_eq!(
        notify_message("https://api.wasm.directory", "ghcr.io/w/http:0.2.11", &NotifyOutcome::Enqueued),
        "Notified https://api.wasm.directory: 'ghcr.io/w/http:0.2.11' enqueued for fetch"
    );
    assert_eq!(
        notify_message("u", "r", &NotifyOutcome::Skipped { reason: "already indexed".into() }),
        "Notified u: 'r' skipped (already indexed)"
    );
    assert_eq!(NotifyError::Offline.message(), "cannot notify meta-registry in offline mode");
    assert_eq!(
        NotifyError::NotWitName { input: "ghcr.io/x".into() }.message(),
        "'ghcr.io/x' is not a WIT-style package name; expected `namespace:package@version` (e.g., `wasi:http@0.2.11`)"
    );
    assert_eq!(
        NotifyError::NoVersion { package: "wasi:http".into() }.message(),
        "'wasi:http' has no version; specify one (e.g., `wasi:http@0.2.11`) so the registry knows which version to fetch"
    );
}

#[test]
fn registration_needs_the_exact_identity() {
    let found = Some((Some("wasi".to_owned()), Some("http".to_owned())));
    assert!(already_registered(&found, "wasi", "http"));
    assert!(!already_registered(&found, "wasi", "io"));
    assert!(!already_registered(&Some((None, Some("http".to_owned()))), "wasi", "http"));
    assert!(!already_registered(&None, "wasi", "http"));
    assert_eq!(already_registered_message("wasi", "http"), "wasi:http is already in the registry; nothing to publish.");
}

#[test]
fn extensions_decide_listing() {
    use_extension_checks();
}

fn use_extension_checks() {
    assert!(component_cli::registry_report::listed_with_extension(None, false, false));
    assert!(component_cli::registry_report::listed_with_extension(Some("0"), false, false));
    assert!(!component_cli::registry_report::listed_with_extension(Some("sig"), false, true));
    assert!(component_cli::registry_report::listed_with_extension(Some("att"), false, true));
}

#[test]
fn sync_messages() {
    use_sync_checks();
}

fn use_sync_checks() {
    assert_eq!(
        sync_message(&SyncResult::Updated { count: 42 }, "https://api.wasm.directory").as_deref(),
        Some("Synced 42 packages from https://api.wasm.directory")
    );
    assert_eq!(
        sync_message(&SyncResult::NotModified, "u").as_deref(),
        Some("Already up to date (verified with registry)")
    );
    assert_eq!(sync_message(&SyncResult::Skipped, "u").as_deref(), Some("Already up to date (synced recently)"));
    assert_eq!(sync_message(&SyncResult::Degraded { error: "boom".into() }, "u"), None);
}
