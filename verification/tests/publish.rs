use component_cli::publish::{
    build_issue_url, encode, parse_wit_name, registry_base, validate_registry_ref,
    validate_repo, validate_repository, Package, PackageKind, PublishErrorKind, RegistryEntry,
};

fn sample_package() -> Package {
    Package {
        name: "wasi:http".into(),
        version: "0.1.0".into(),
        registry_ref: "ghcr.io/webassembly/wasi/http".into(),
        kind: PackageKind::Interface,
        registry_repository: Some("wasi/http".into()),
    }
}

#[test]
fn entry_from_package_derives_fields() {
    let entry = RegistryEntry::from_package(&sample_package()).unwrap();
    assert_eq!(entry.namespace, "wasi");
    assert_eq!(entry.package, "http");
    assert_eq!(entry.kind, "interface");
    assert_eq!(entry.repository, "wasi/http");
    assert_eq!(entry.registry, "ghcr.io/webassembly");
}

#[test]
fn entry_requires_registry_repository() {
    let mut pkg = sample_package();
    pkg.registry_repository = None;
    assert!(RegistryEntry::from_package(&pkg).is_err());
}

#[test]
fn entry_rejects_ref_repository_mismatch() {
    let mut pkg = sample_package();
    pkg.registry_repository = Some("other/path".into());
    assert!(RegistryEntry::from_package(&pkg).is_err());
}

#[test]
fn entry_rejects_tagged_registry_ref() {
    let mut pkg = sample_package();
    pkg.registry_ref = "ghcr.io/webassembly/wasi/http:0.2.0".into();
    pkg.registry_repository = Some("wasi/http".into());
    assert!(RegistryEntry::from_package(&pkg).is_err());
}

#[test]
fn parses_wit_name() {
    assert_eq!(parse_wit_name("wasi:http").unwrap(), ("wasi", "http"));
}

#[test]
fn rejects_invalid_wit_names() {
    assert!(parse_wit_name("nocolon").is_err());
    assert!(parse_wit_name(":http").is_err());
    assert!(parse_wit_name("wasi:").is_err());
    assert!(parse_wit_name("wasi:http@0.2.0").is_err());
    assert!(parse_wit_name("wasi:comp/onents").is_err());
}

#[test]
fn validates_repository_path() {
    assert!(validate_repository("wasi/http").is_ok());
    assert!(validate_repository("components/http-server").is_ok());
    assert!(validate_repository("just-a-name").is_ok());
    assert!(validate_repository("").is_err());
    assert!(validate_repository("/leading").is_err());
    assert!(validate_repository("trailing/").is_err());
    assert!(validate_repository("with:tag").is_err());
    assert!(validate_repository("with space").is_err());
}

#[test]
fn derives_registry_base() {
    assert_eq!(
        registry_base("ghcr.io/webassembly/wasi/http", "wasi/http").unwrap(),
        "ghcr.io/webassembly"
    );
    assert!(registry_base("ghcr.io/webassembly/wasi/http", "other").is_err());
    assert!(registry_base("wasi/http", "wasi/http").is_err());
}

#[test]
fn validates_repo() {
    assert!(validate_repo("yoshuawuyts/component-registry").is_ok());
    assert!(validate_repo("owner-1/repo_2.name").is_ok());
    assert!(validate_repo("o/%2Fetc").is_err());
    assert!(validate_repo("owner/re%2Fpo").is_err());
    assert!(validate_repo("owner/re po").is_err());
    assert!(validate_repo("owner/re\tpo").is_err());
    assert!(validate_repo("owner/re\npo").is_err());
    assert!(validate_repo("noslash").is_err());
    assert!(validate_repo("/name").is_err());
    assert!(validate_repo("owner/").is_err());
    assert!(validate_repo("a/b/c").is_err());
}

#[test]
fn encodes_query_values() {
    assert_eq!(encode("components/wordmark"), "components%2Fwordmark");
    assert_eq!(encode("ghcr.io/my-org"), "ghcr.io%2Fmy-org");
    assert_eq!(encode("plain-name_1.0"), "plain-name_1.0");
}

#[test]
fn builds_url() {
    let entry = RegistryEntry::from_package(&sample_package()).unwrap();
    let url = build_issue_url("yoshuawuyts/component-registry", &entry);
    assert_eq!(
        url,
        "https://github.com/yoshuawuyts/component-registry/issues/new\
         ?template=registry-entry.yml&kind=interface&namespace=wasi\
         &package=http&repository=wasi%2Fhttp&registry=ghcr.io%2Fwebassembly"
    );
}

#[test]
fn encodes_multibyte_characters_per_byte() {
    assert_eq!(encode("é a"), "%C3%A9%20a");
    assert_eq!(encode("~"), "~");
}

#[test]
fn registry_ref_checks_each_failure() {
    assert_eq!(validate_registry_ref("").unwrap_err().kind, PublishErrorKind::RegistryRefEmpty);
    assert_eq!(
        validate_registry_ref("ghcr.io/a@sha256:00").unwrap_err().kind,
        PublishErrorKind::RegistryRefDigest
    );
    assert_eq!(
        validate_registry_ref("ghcr.io/a/b:1.0").unwrap_err().kind,
        PublishErrorKind::RegistryRefTag
    );
    assert!(validate_registry_ref("localhost:5000/a/b").is_ok());
}

#[test]
fn wit_name_error_kinds_follow_check_order() {
    assert_eq!(parse_wit_name("nocolon").unwrap_err().kind, PublishErrorKind::NameNotWitStyle);
    assert_eq!(parse_wit_name(":x").unwrap_err().kind, PublishErrorKind::NameEmptyPart);
    assert_eq!(parse_wit_name("a:b:c").unwrap_err().kind, PublishErrorKind::NameTooManyColons);
    assert_eq!(parse_wit_name("a:b@1").unwrap_err().kind, PublishErrorKind::NameHasVersion);
    assert_eq!(parse_wit_name("a/x:b").unwrap_err().kind, PublishErrorKind::NameHasSlash);
}

#[test]
fn error_messages_name_the_value() {
    let e = parse_wit_name("wasi:http@0.2.0").unwrap_err();
    assert_eq!(e.message(), "`[package].name` 'wasi:http@0.2.0' must not include a version");
    let e = registry_base("ghcr.io/x/y", "wasi/http").unwrap_err();
    assert_eq!(e.kind, PublishErrorKind::RegistryRefMismatch);
    assert_eq!(
        e.message(),
        "`[package].registry_ref` 'ghcr.io/x/y' does not end with `/wasi/http`; `registry_ref` must equal `<registry base>/<registry_repository>`"
    );
    let e = validate_repo("noslash").unwrap_err();
    assert_eq!(e.kind, PublishErrorKind::RepoNotOwnerName);
    let e = validate_repo("o/%x").unwrap_err();
    assert_eq!(e.kind, PublishErrorKind::RepoInvalidChars);
    let mut pkg = sample_package();
    pkg.registry_repository = None;
    let e = RegistryEntry::from_package(&pkg).err().unwrap();
    assert_eq!(e.kind, PublishErrorKind::MissingRegistryRepository);
}

#[test]
fn package_kinds_are_read_by_name() {
    assert_eq!(PackageKind::from_name("component"), Some(PackageKind::Component));
    assert_eq!(PackageKind::from_name("interface"), Some(PackageKind::Interface));
    assert_eq!(PackageKind::from_name("Component"), None);
    assert_eq!(PackageKind::from_name(""), None);
}
