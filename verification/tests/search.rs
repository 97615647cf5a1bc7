use component_cli::search::{
    filter_by_text, render_search_table, render_search_table_at, search_rows, KnownPackage, Lookup, SearchOpts,
    SearchOutcome,
};

fn package(repository: &str, description: Option<&str>, tags: &[&str]) -> KnownPackage {
    KnownPackage {
        registry: "ghcr.io".into(),
        repository: repository.into(),
        description: description.map(str::to_owned),
        tags: tags.iter().map(|t| (*t).to_owned()).collect(),
    }
}

fn opts(query: Option<&str>, exports: Option<&str>, imports: Option<&str>) -> SearchOpts {
    SearchOpts {
        query: query.map(str::to_owned),
        exports: exports.map(str::to_owned),
        imports: imports.map(str::to_owned),
        limit: 20,
    }
}

#[test]
fn test_render_search_table_with_results() {
    let packages = vec![
        package("example/http-server", Some("A simple HTTP server component"), &["0.1.0", "0.2.0"]),
        package("example/logger", None, &[]),
    ];

    let output = render_search_table(&packages);

    // Header row
    assert!(output.contains("PACKAGE"));
    assert!(output.contains("DESCRIPTION"));
    assert!(output.contains("TAGS"));

    // First package
    assert!(output.contains("ghcr.io/example/http-server"));
    assert!(output.contains("A simple HTTP server component"));
    assert!(output.contains("0.1.0, 0.2.0"));

    // Second package (no description / no tags → dashes)
    assert!(output.contains("ghcr.io/example/logger"));
}

#[test]
fn test_render_search_table_empty() {
    let output = render_search_table(&vec![]);
    assert!(output.contains("PACKAGE"));
    // Table has headers but no data rows
    assert!(!output.contains("ghcr.io"));
}

#[test]
fn search_rows_fill_in_dashes() {
    let rows = search_rows(&vec![
        package("example/http-server", Some("HTTP"), &["0.1.0", "0.2.0"]),
        package("example/logger", None, &[]),
    ]);
    assert_eq!(
        rows,
        vec![
            vec!["ghcr.io/example/http-server".to_owned(), "HTTP".to_owned(), "0.1.0, 0.2.0".to_owned()],
            vec!["ghcr.io/example/logger".to_owned(), "-".to_owned(), "-".to_owned()],
        ]
    );
}

#[test]
fn test_filter_by_text_matches_reference() {
    let packages = || {
        vec![
            package("example/http-server", Some("A server component"), &[]),
            package("example/logger", Some("A logging component"), &[]),
        ]
    };

    // Filter by text matching reference
    let result = filter_by_text(packages(), "http", 20);
    assert_eq!(result.len(), 1);
    assert_eq!(result[0].repository, "example/http-server");

    // Filter by text matching description
    let result = filter_by_text(packages(), "logging", 20);
    assert_eq!(result.len(), 1);
    assert_eq!(result[0].repository, "example/logger");

    // Case-insensitive matching
    let result = filter_by_text(packages(), "HTTP", 20);
    assert_eq!(result.len(), 1);
    assert_eq!(result[0].repository, "example/http-server");

    // No match
    let result = filter_by_text(packages(), "nonexistent", 20);
    assert!(result.is_empty());

    // Limit is respected
    let result = filter_by_text(packages(), "example", 1);
    assert_eq!(result.len(), 1);
}

#[test]
fn filter_keeps_the_first_matches_in_order() {
    let packages = vec![
        package("a/one", Some("Logging"), &[]),
        package("b/two", None, &[]),
        package("c/three", Some("more LOGGING"), &[]),
        package("d/four", Some("logging again"), &[]),
    ];
    let result = filter_by_text(packages, "logging", 2);
    let names: Vec<&str> = result.iter().map(|p| p.repository.as_str()).collect();
    assert_eq!(names, ["a/one", "c/three"]);
}

#[test]
fn lookups_prefer_exports_then_imports_then_text() {
    assert_eq!(opts(Some("q"), Some("wasi:http"), None).lookup(), Lookup::ByExport("wasi:http".into()));
    assert_eq!(opts(Some("q"), None, Some("wasi:io")).lookup(), Lookup::ByImport("wasi:io".into()));
    assert_eq!(opts(Some("q"), None, None).lookup(), Lookup::ByText("q".into()));
    assert_eq!(opts(None, None, None).lookup(), Lookup::ByText(String::new()));
}

#[test]
fn only_a_text_query_with_an_interface_narrows() {
    assert!(opts(Some("q"), Some("wasi:http"), None).narrows_by_text());
    assert!(opts(Some("q"), None, Some("wasi:io")).narrows_by_text());
    assert!(!opts(Some("q"), None, None).narrows_by_text());
    assert!(!opts(Some(""), Some("wasi:http"), None).narrows_by_text());
}

#[test]
fn not_found_messages_name_the_filters() {
    assert_eq!(
        opts(Some("srv"), Some("wasi:http"), None).not_found_message(),
        "No packages found exporting 'wasi:http' matching 'srv'"
    );
    assert_eq!(
        opts(Some("srv"), None, Some("wasi:io")).not_found_message(),
        "No packages found importing 'wasi:io' matching 'srv'"
    );
    assert_eq!(opts(None, Some("wasi:http"), None).not_found_message(), "No packages found exporting 'wasi:http'");
    assert_eq!(opts(None, None, Some("wasi:io")).not_found_message(), "No packages found importing 'wasi:io'");
    assert_eq!(opts(Some("srv"), None, None).not_found_message(), "No packages found matching 'srv'");
    assert_eq!(opts(None, None, None).not_found_message(), "No packages found matching ''");
}

#[test]
fn outcome_narrows_then_reports() {
    let found = opts(Some("logger"), Some("wasi:logging"), None)
        .outcome(vec![package("example/http-server", None, &[]), package("example/logger", None, &[])]);
    match found {
        SearchOutcome::Found(ps) => {
            assert_eq!(ps.len(), 1);
            assert_eq!(ps[0].repository, "example/logger");
        }
        SearchOutcome::NotFound(m) => panic!("unexpected {m}"),
    }
    let none = opts(Some("zzz"), Some("wasi:logging"), None).outcome(vec![package("example/logger", None, &[])]);
    match none {
        SearchOutcome::NotFound(m) => assert_eq!(m, "No packages found exporting 'wasi:logging' matching 'zzz'"),
        SearchOutcome::Found(_) => panic!("expected nothing"),
    }
    // A plain text search is not narrowed again.
    match opts(Some("zzz"), None, None).outcome(vec![package("example/logger", None, &[])]) {
        SearchOutcome::Found(ps) => assert_eq!(ps.len(), 1),
        SearchOutcome::NotFound(m) => panic!("unexpected {m}"),
    }
}

#[test]
fn lowered_texts_match_by_containment() {
    assert!(component_cli::search::lowered_matches("ghcr.io/example/http-server", "", "http"));
    assert!(component_cli::search::lowered_matches("ghcr.io/x/y", "a logging component", "logging"));
    assert!(!component_cli::search::lowered_matches("ghcr.io/x/y", "a logging component", "HTTP"));
}

#[test]
fn search_table_without_a_width_keeps_cells_whole() {
    let packages = vec![package("example/http-server", Some("A simple HTTP server component"), &["0.1.0", "0.2.0"])];
    let output = render_search_table_at(&packages, None);
    let lines: Vec<&str> = output.lines().collect();
    assert_eq!(lines.len(), 5);
    assert!(lines[1].contains("PACKAGE") && lines[1].contains("DESCRIPTION") && lines[1].contains("TAGS"));
    assert!(lines[3].contains("ghcr.io/example/http-server"));
    assert!(lines[3].contains("A simple HTTP server component"));
    assert!(lines[3].contains("0.1.0, 0.2.0"));
}

#[test]
fn search_table_at_a_narrow_width_wraps_cells() {
    let packages = vec![package("example/http-server", Some("A simple HTTP server component"), &["0.1.0", "0.2.0"])];
    let output = render_search_table_at(&packages, Some(40));
    assert!(output.lines().all(|l| l.chars().count() <= 40));
    assert!(!output.contains("A simple HTTP server component"));
    assert!(output.lines().count() > 5);
}
