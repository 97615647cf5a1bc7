use component_cli::frontend::package_columns::{Age, DEPENDENTS_DESCRIPTION};
use component_cli::frontend::package_row::{
    dependents, identity, kind_label_parts, render, KnownPackage, PackageKind, RowDecorations,
    META_CLASS, METRIC_CLASS, PRIMARY_CLASS, ROW_CLASS,
};

const DEPENDENTS_ICON: &str = r#"<svg class="dependents"></svg>"#;
const CLOCK_ICON: &str = r#"<svg class="clock"></svg>"#;

/// Packages covering each kind, long text, and absent metadata.
fn packages() -> Vec<KnownPackage> {
    let interface = KnownPackage {
        registry: "ghcr.io".to_owned(),
        repository: "example/http".to_owned(),
        kind: Some(PackageKind::Interface),
        description: Some("HTTP **interfaces**".to_owned()),
        tags: vec!["0.2.0".to_owned(), "0.1.0".to_owned()],
        wit_namespace: Some("example".to_owned()),
        wit_name: Some("http".to_owned()),
        dependents: Some(12),
    };
    let mut component = copy(&interface);
    component.repository = "example/atlassian".to_owned();
    component.wit_name = Some("atlassian".to_owned());
    component.kind = Some(PackageKind::Component);
    component.dependents = Some(1);
    component.tags = vec!["0.5.0_atlassian-1001.0.0-SNAPSHOT".to_owned()];
    component.description = Some(
        "WebAssembly component bindings for the atlassian API, generated from an OpenAPI document."
            .to_owned(),
    );
    let mut unlinked = copy(&interface);
    unlinked.repository = format!("example/{}", "long-repository-name-".repeat(8));
    unlinked.wit_namespace = None;
    unlinked.wit_name = None;
    unlinked.kind = None;
    unlinked.dependents = None;
    unlinked.tags = vec![format!("1.0.0-rc.1+{}", "abcdefgh".repeat(24))];
    unlinked.description = Some("UnbrokenDescription".repeat(20));
    let mut missing_metadata = copy(&interface);
    missing_metadata.repository = "example/empty".to_owned();
    missing_metadata.wit_name = Some("empty".to_owned());
    missing_metadata.kind = None;
    missing_metadata.tags.clear();
    missing_metadata.description = None;
    missing_metadata.dependents = Some(0);
    vec![interface, component, unlinked, missing_metadata]
}

fn copy(p: &KnownPackage) -> KnownPackage {
    KnownPackage {
        registry: p.registry.clone(),
        repository: p.repository.clone(),
        kind: p.kind,
        description: p.description.clone(),
        tags: p.tags.clone(),
        wit_namespace: p.wit_namespace.clone(),
        wit_name: p.wit_name.clone(),
        dependents: p.dependents,
    }
}

fn three_days() -> Age {
    Age {
        datetime: "2026-09-21T06:30:00Z".to_owned(),
        title: "Updated 2026-09-21".to_owned(),
        label: "3 days ago".to_owned(),
    }
}

/// A row with a stand-in kind label, the plain trimmed description as its
/// summary, and a release three days ago.
fn row(pkg: &KnownPackage) -> String {
    let (bg, ink, text) = kind_label_parts(pkg.kind);
    let label = format!("<span class=\"{bg} {ink}\">{text}</span>");
    let summary = pkg.description.as_deref().map(str::trim).unwrap_or("").to_owned();
    let age = three_days();
    render(
        pkg,
        &RowDecorations {
            kind_label: &label,
            dependents_icon: DEPENDENTS_ICON,
            clock_icon: CLOCK_ICON,
            summary: &summary,
            updated: Some(&age),
        },
    )
}

#[test]
fn preserves_full_versions_and_first_tag_selection() {
    for pkg in packages() {
        let html = row(&pkg);
        let version = pkg.tags.first().map_or_else(|| "\u{2014}".to_owned(), |tag| format!("v{tag}"));
        assert!(html.contains(&format!(">{version}</span>")));
        assert!(!html.contains(">v0.1.0</span>"));
    }
}

#[test]
fn adds_one_display_prefix_without_changing_version_tags() {
    for (tag, display) in [
        ("1.2.3", "v1.2.3"),
        ("v1.2.3", "v1.2.3"),
        ("V1.2.3", "v1.2.3"),
        ("1.0.0-rc.1_build.123", "v1.0.0-rc.1_build.123"),
    ] {
        let mut pkg = packages().remove(0);
        pkg.tags = vec![tag.to_owned()];
        let html = row(&pkg);
        assert!(html.contains(&format!(">{display}</span>")));
        assert_eq!(pkg.tags, [tag]);
    }
    let pkg = packages().remove(3);
    let html = row(&pkg);
    assert!(html.contains(">\u{2014}</span>"));
    assert!(!html.contains(">v\u{2014}</span>"));
}

#[test]
fn only_wit_packages_are_linked() {
    for pkg in packages() {
        let html = row(&pkg);
        match (&pkg.wit_namespace, &pkg.wit_name) {
            (Some(namespace), Some(name)) => {
                assert!(html.contains(&format!("href=\"/{namespace}/{name}\"")));
            }
            _ => {
                assert!(!html.contains("<a "));
                assert!(html.contains(&pkg.repository));
            }
        }
    }
}

#[test]
fn linked_and_unlinked_rows_share_the_same_flow() {
    let mut pkg = packages().remove(0);
    let linked = row(&pkg);
    pkg.wit_namespace = None;
    let unlinked = row(&pkg);
    assert!(linked.contains(&format!("class=\"{ROW_CLASS} ")));
    assert!(unlinked.contains(&format!("class=\"{ROW_CLASS}\"")));
    for html in [&linked, &unlinked] {
        assert!(!html.contains("sm:w-"));
        assert!(!html.contains("sm:shrink-0"));
        assert!(!html.contains("flex-nowrap"));
        assert!(html.contains(PRIMARY_CLASS));
        assert!(html.contains(META_CLASS));
        assert!(html.contains("[overflow-wrap:anywhere]"));
        let (_, metadata) = html.split_once(META_CLASS).expect("metadata group");
        assert!(!metadata.contains("truncate"));
    }
}

#[test]
fn distinguishes_zero_one_many_and_unknown_dependents() {
    for (count, expected) in [
        (Some(0), "0 dependents"),
        (Some(1), "1 dependent"),
        (Some(12), "12 dependents"),
        (None, "0 dependents (count unavailable)"),
    ] {
        let mut pkg = packages().remove(0);
        pkg.dependents = count;
        let html = row(&pkg);
        assert!(html.contains(&format!("class=\"sr-only\">{expected}</span>")));
        assert!(html.contains(&format!("title=\"{expected}. {DEPENDENTS_DESCRIPTION}\"")));
        let visible = count.unwrap_or(0).to_string();
        assert!(html.contains(&format!("aria-hidden=\"true\">{visible}</span>")));
    }
}

#[test]
fn unavailable_count_defaults_only_in_the_display() {
    let mut pkg = packages().remove(0);
    pkg.dependents = None;
    let html = row(&pkg);
    assert!(html.contains(r#"aria-hidden="true">0</span>"#));
    assert!(html.contains("class=\"sr-only\">0 dependents (count unavailable)</span>"));
    assert_eq!(pkg.dependents, None);
}

#[test]
fn dependent_tooltip_explains_direction_and_distinct_counting() {
    for count in [Some(0), Some(1), Some(12), None] {
        let html = dependents(count, DEPENDENTS_ICON);
        assert!(html.starts_with(&format!("<span class=\"{METRIC_CLASS} cursor-help\" title=\"")));
        assert!(html.contains(
            "Other indexed repositories that directly depend on this package, counted once each."
        ));
        assert!(html.contains(&format!(
            "<span class=\"inline-flex shrink-0\"><span aria-hidden=\"true\">{DEPENDENTS_ICON}</span></span>"
        )));
        assert!(html.contains("class=\"sr-only\""));
    }
}

#[test]
fn absent_descriptions_do_not_add_placeholders() {
    for description in [None, Some(""), Some("  \n ")] {
        let mut pkg = packages().remove(0);
        pkg.description = description.map(str::to_owned);
        let html = row(&pkg);
        assert!(!html.contains("basis-64"));
        assert!(!html.contains("No description"));
        assert!(html.contains(META_CLASS));
    }
}

#[test]
fn escapes_identity_version_and_link_attributes() {
    let mut pkg = packages().remove(0);
    pkg.wit_name = Some("http\"><script>alert(1)</script>".to_owned());
    pkg.tags = vec!["<img src=x onerror=alert(1)>".to_owned()];
    let html = row(&pkg);
    assert!(html.contains("http&quot;&gt;&lt;script&gt;"));
    assert!(html.contains("&lt;img src=x onerror=alert(1)&gt;"));
    assert!(!html.contains("<script>"));
    assert!(!html.contains("<img "));
}

#[test]
fn description_truncation_preserves_complete_accessible_text() {
    let mut pkg = packages().remove(0);
    let description = "Long description with no omitted words. ".repeat(30);
    pkg.description = Some(description.clone());
    let html = row(&pkg);
    let (primary, metadata) = html.split_once(META_CLASS).expect("metadata group");
    assert!(primary.contains("text-ink-500 truncate"));
    assert!(primary.contains(&format!("title=\"{}\"", description.trim())));
    assert!(primary.contains(&format!(">{}</span>", description.trim())));
    assert!(!metadata.contains("truncate"));
}

#[test]
fn metadata_lists_kind_version_dependents_then_age() {
    let pkg = packages().remove(0);
    let html = row(&pkg);
    let (primary, metadata) = html.split_once(META_CLASS).expect("row has a metadata group");
    assert!(primary.contains(">example/http</span>"));
    assert!(!primary.contains(">v0.2.0</span>"));
    let version = metadata.find(">v0.2.0</span>").expect("version");
    let kind = metadata.find("interface").expect("kind");
    let dependents = metadata.find(">12 dependents</span>").expect("count");
    let updated = metadata.find(">Updated 3 days ago</span>").expect("age");
    assert!(kind < version && version < dependents && dependents < updated);
    assert!(metadata.contains("datetime=\"2026-09-21T06:30:00Z\""));
    assert!(metadata.contains("title=\"Updated 2026-09-21\""));
    assert!(metadata.contains(">3 days</span>"));
    assert_eq!(identity(&pkg).0, "example:http");
}

#[test]
fn kinds_map_to_their_label_colours() {
    assert_eq!(
        kind_label_parts(Some(PackageKind::Interface)),
        ("bg-cat-blue", "text-cat-blueInk", "interface")
    );
    assert_eq!(
        kind_label_parts(Some(PackageKind::Component)),
        ("bg-cat-green", "text-cat-greenInk", "component")
    );
    assert_eq!(kind_label_parts(None), ("bg-cat-slate", "text-cat-slateInk", "package"));
}
