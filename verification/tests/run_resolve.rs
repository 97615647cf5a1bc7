use component_cli::errors::RunError;
use component_cli::run_resolve::{ambiguous_message, find_cached, lockfile_entry, fuzzy_match, fuzzy_query, FuzzyMatch, IndexedPackage};

fn indexed(ns: Option<&str>, name: Option<&str>, repository: &str) -> IndexedPackage {
    IndexedPackage {
        registry: "ghcr.io".into(),
        repository: repository.into(),
        wit_namespace: ns.map(str::to_owned),
        wit_name: name.map(str::to_owned),
    }
}

#[test]
fn queries_need_a_scope() {
    assert_eq!(fuzzy_query("ba:sample"), Some(("ba", "sample")));
    assert_eq!(fuzzy_query("sample"), None);
}

#[test]
fn a_unique_candidate_resolves_to_its_reference() {
    let matches = vec![
        indexed(Some("ba"), Some("sample-wasi-http-rust"), "bytecodealliance/sample-wasi-http-rust"),
        indexed(Some("other"), Some("sample"), "other/sample"),
        indexed(Some("ba"), Some("samples"), "ba/samples"),
        indexed(None, Some("sample"), "x/sample"),
    ];
    match fuzzy_match("ba", "sample", &matches) {
        FuzzyMatch::Unique(r) => assert_eq!(r, "ghcr.io/bytecodealliance/sample-wasi-http-rust"),
        _ => panic!("expected a unique match"),
    }
}

#[test]
fn no_candidate_is_no_match() {
    let matches = vec![indexed(Some("other"), Some("sample"), "o/s")];
    assert!(matches!(fuzzy_match("ba", "sample", &matches), FuzzyMatch::NoMatch));
}

#[test]
fn several_candidates_are_ambiguous() {
    let matches = vec![
        indexed(Some("ba"), Some("sample"), "ba/sample"),
        indexed(Some("ba"), Some("sample-rust"), "ba/sample-rust"),
    ];
    match fuzzy_match("ba", "sample", &matches) {
        FuzzyMatch::Ambiguous(names) => {
            assert_eq!(names, ["ba:sample", "ba:sample-rust"]);
            let (message, help) = ambiguous_message("ba:sample", &names);
            assert_eq!(message, "ambiguous package name 'ba:sample'");
            assert_eq!(help, "multiple packages match 'ba:sample': ba:sample, ba:sample-rust. Specify the full name.");
        }
        _ => panic!("expected an ambiguous match"),
    }
}

#[test]
fn cached_images_match_by_repository_path() {
    let repos = vec!["other/thing".to_owned(), "yoshuawuyts/wordmark".to_owned(), "mirror/yoshuawuyts/wordmark".to_owned()];
    assert_eq!(find_cached("yoshuawuyts:wordmark@2.0.6", &repos), Ok(1));
    assert_eq!(find_cached("wordmark:x", &repos), Err(RunError::NotInGlobalCache { name: "wordmark:x".into() }));
    let mirrored = vec!["ghcr.io-mirror/yoshuawuyts/wordmark".to_owned()];
    assert_eq!(find_cached("yoshuawuyts:wordmark", &mirrored), Ok(0));
    // A repository that merely ends with the same characters does not match.
    assert!(find_cached("b:c", &vec!["ab/c".to_owned()]).is_err());
}

#[test]
fn manifest_keys_need_a_lockfile_entry() {

    let names = vec!["wasi:http".to_owned(), "yoshuawuyts:wordmark".to_owned()];
    assert_eq!(lockfile_entry("yoshuawuyts:wordmark", true, &names), Ok(Some(1)));
    assert_eq!(lockfile_entry("yoshuawuyts:wordmark", false, &names), Ok(None));
    assert_eq!(
        lockfile_entry("a:b", true, &names),
        Err(RunError::NotInLockfile { name: "a:b".into() })
    );
}
