use component_cli::install::{resolver_roots, root_names, RootCandidate, WitVersion};
use component_cli::install::tag_version_text;
use component_cli::install::{
    dependency_name, locked_package, manifest_entry, DependencyItem, DependencyName, InstallResult,
};

fn result(is_component: bool, package_name: Option<&str>) -> InstallResult {
    InstallResult {
        registry: "ghcr.io".into(),
        repository: "test/example".into(),
        tag: Some("v1.0.0".into()),
        digest: Some("sha256:abc".into()),
        package_name: package_name.map(str::to_owned),
        oci_title: None,
        is_component,
        dependencies: vec![
            DependencyItem { package: "wasi:io".into(), version: Some("0.2.0".into()) },
            DependencyItem { package: "wasi:clocks".into(), version: None },
            DependencyItem { package: "wasi:random".into(), version: Some("0.2.1".into()) },
        ],
    }
}

#[test]
fn a_given_name_wins() {
    let r = result(true, Some("root:component"));
    assert_eq!(
        dependency_name(Some("ba:sample-wasi-http-rust".into()), &r),
        DependencyName::Given("ba:sample-wasi-http-rust".into())
    );
}

#[test]
fn components_without_a_given_name_are_derived() {
    assert_eq!(dependency_name(None, &result(true, None)), DependencyName::DeriveFromComponent);
}

#[test]
fn interfaces_go_under_their_package_name_without_version() {
    assert_eq!(
        dependency_name(None, &result(false, Some("test:example@1.0.0"))),
        DependencyName::Interface("test:example".into())
    );
    assert_eq!(
        dependency_name(None, &result(false, Some("test:example"))),
        DependencyName::Interface("test:example".into())
    );
    assert_eq!(
        dependency_name(None, &result(false, None)),
        DependencyName::Interface("ghcr.io/test/example".into())
    );
}

#[test]
fn lockfile_entry_keeps_only_versioned_dependencies() {
    let p = locked_package(&result(false, None), "test:example".into());
    assert_eq!(p.name, "test:example");
    assert_eq!(p.version, "v1.0.0");
    assert_eq!(p.registry, "ghcr.io/test/example");
    assert_eq!(p.digest, "sha256:abc");
    let deps: Vec<(&str, &str)> = p.dependencies.iter().map(|d| (d.name.as_str(), d.version.as_str())).collect();
    assert_eq!(deps, [("wasi:io", "0.2.0"), ("wasi:random", "0.2.1")]);
    assert!(p.dependencies.iter().all(|d| d.registry.is_empty() && d.digest.is_empty()));
}

#[test]
fn missing_tag_and_digest_are_recorded_empty() {
    let mut r = result(true, None);
    r.tag = None;
    r.digest = None;
    let p = locked_package(&r, "x:y".into());
    assert_eq!(p.version, "");
    assert_eq!(p.digest, "");
}

#[test]
fn manifest_entries_only_when_requested() {
    let r = result(true, None);
    let e = manifest_entry(&r, true, "x:y").expect("an entry");
    assert!(e.component);
    assert_eq!(e.name, "x:y");
    assert_eq!(e.version, "v1.0.0");
    assert!(manifest_entry(&r, false, "x:y").is_none());
    let i = manifest_entry(&result(false, None), true, "a:b").expect("an entry");
    assert!(!i.component);
}

fn pairs(v: &[(&str, &str)]) -> Vec<(String, String)> {
    v.iter().map(|(a, b)| ((*a).to_owned(), (*b).to_owned())).collect()
}

fn names(v: &[&str]) -> Vec<String> {
    v.iter().map(|s| (*s).to_owned()).collect()
}

#[test]
fn transitive_installs_skip_roots_and_locked_interfaces() {
    let resolved = pairs(&[("wasi:io", "0.2.0"), ("ba:app", "1.0.0"), ("wasi:clocks", "0.2.0"), ("wasi:random", "0.2.1")]);
    let planned = component_cli::install::transitive_installs(resolved, &names(&["ba:app"]), &names(&["wasi:clocks"]));
    assert_eq!(planned, pairs(&[("wasi:io", "0.2.0"), ("wasi:random", "0.2.1")]));
    let none = component_cli::install::transitive_installs(Vec::new(), &names(&["ba:app"]), &Vec::new());
    assert!(none.is_empty());
}

#[test]
fn tag_versions_lose_their_leading_vs() {
    assert_eq!(tag_version_text(Some("v1.2.3")), "1.2.3");
    assert_eq!(tag_version_text(Some("vv0.1.0")), "0.1.0");
    assert_eq!(tag_version_text(Some("V1.0.0")), "V1.0.0");
    assert_eq!(tag_version_text(Some("latest")), "latest");
    assert_eq!(tag_version_text(None), "");
}

#[test]
fn resolver_roots_keep_wit_names_and_shim_unparsed_versions() {
    let v = WitVersion { major: 0, minor: 2, patch: 1 };
    let cands = vec![
        RootCandidate { explicit_name: Some("wasi:http".to_owned()), looks_like_wit_name: true, version: Some(v) },
        RootCandidate { explicit_name: None, looks_like_wit_name: false, version: Some(v) },
        RootCandidate { explicit_name: Some("ghcr.io/x/y".to_owned()), looks_like_wit_name: false, version: None },
        RootCandidate { explicit_name: Some("ba:app".to_owned()), looks_like_wit_name: true, version: None },
    ];
    let roots = resolver_roots(&cands);
    assert_eq!(
        roots,
        vec![
            ("wasi:http".to_owned(), v),
            ("ba:app".to_owned(), WitVersion { major: 0, minor: 0, patch: 0 }),
        ]
    );
    assert_eq!(root_names(&roots), vec!["wasi:http".to_owned(), "ba:app".to_owned()]);
}
