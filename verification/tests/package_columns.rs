use component_cli::frontend::search_bar::{
    browse_label, example_rows, landing_placeholder, Example, LandingStats, SearchBar,
};
use component_cli::frontend::package_columns::{
    render, render_metric, render_row, version_label, Age, Column, ColumnMetric, ColumnRow,
    ColumnState, MetricIcons, CARD_CLASS, DEPENDENTS_DESCRIPTION, DESC_CLASS, DESC_MISSING,
    METRIC_CLASS, ROW_GRID, VERSION_CLASS,
};
use component_cli::frontend::package_row::{
    identity, listing_identity, version_label as listing_version_label, KnownPackage,
};

const ICONS: MetricIcons<'static> = MetricIcons {
    clock: r#"<svg class="clock"></svg>"#,
    dependents: r#"<svg class="dependents"></svg>"#,
};

fn pkg(ns: &str, name: &str, tags: &[&str], description: Option<&str>) -> KnownPackage {
    KnownPackage {
        registry: "ghcr.io".into(),
        repository: format!("{ns}/{name}"),
        kind: None,
        description: description.map(str::to_owned),
        tags: tags.iter().map(|s| (*s).to_owned()).collect(),
        wit_namespace: Some(ns.into()),
        wit_name: Some(name.into()),
        dependents: None,
    }
}

fn released(event: &str, date: &str, label: &str) -> ColumnMetric {
    ColumnMetric::Age(Age {
        datetime: format!("{date}T06:30:00Z"),
        title: format!("{event} {date}"),
        label: label.to_owned(),
    })
}

fn sample() -> String {
    let http = pkg("wasi", "http", &["0.2.1", "0.2.0"], Some("HTTP <types>"));
    let io = pkg("wasi", "io", &["0.2.0"], None);
    let mut raw = pkg("x", "y", &["1.0.0"], Some("  "));
    raw.wit_namespace = None;
    raw.wit_name = None;
    let releases = ColumnState::Rows(vec![
        ColumnRow::with_metadata(&http, "0.2.0".into(), Some(released("Released", "2026-09-21", "3 days ago"))),
        ColumnRow::with_metadata(&io, "0.2.0".into(), None),
    ]);
    let new = ColumnState::Rows(vec![ColumnRow::with_metadata(
        &raw,
        "1.0.0".into(),
        Some(released("First indexed", "2026-08-24", "4 weeks ago")),
    )]);
    let popular = ColumnState::Rows(vec![ColumnRow::popular(&io, 12), ColumnRow::popular(&http, 1)]);
    render(
        &vec![
            Column { title: "New releases", state: &releases },
            Column { title: "New packages", state: &new },
            Column { title: "Popular packages", state: &popular },
        ],
        &ICONS,
    )
}

#[test]
fn headings_use_sans_while_metadata_remains_monospace() {
    let html = sample();
    assert_eq!(
        html.matches(r#"<h2 class="text-[12px] font-sans uppercase tracking-wider text-ink-500">"#)
            .count(),
        3
    );
    assert_eq!(
        html.matches(r#"class="h-5 leading-5 font-sans text-[14px] font-medium text-ink-900 truncate""#)
            .count(),
        5
    );
    for class in [VERSION_CLASS, METRIC_CLASS] {
        assert!(class.split_whitespace().any(|token| token == "mono"));
        assert!(html.contains(&format!(r#"class="{class}""#)));
    }
}

#[test]
fn rows_show_details_and_escape_text() {
    let html = sample();
    assert!(html.contains(r#"href="/wasi/http""#));
    assert!(html.contains(">v0.2.0</span>"));
    assert!(html.contains(r#"title="0.2.0""#));
    assert!(html.contains(r#"class="sr-only">12 dependents</span>"#));
    assert!(html.contains(r#"class="sr-only">1 dependent</span>"#));
    assert!(html.contains("HTTP &lt;types&gt;"));
    assert!(html.contains(">x/y</span>"));
    assert!(!html.contains(r#"href="/x"#));
    let rows = html.matches(ROW_GRID).count();
    assert_eq!(html.matches(DESC_CLASS).count(), rows);
    assert_eq!(
        html.matches(&format!(r#"class="{DESC_CLASS} italic">{DESC_MISSING}</span>"#)).count(),
        rows - 2
    );
}

#[test]
fn ages_show_how_long_ago() {
    let html = sample();
    assert!(html.contains(r#"<time datetime="2026-09-21T06:30:00Z" title="Released 2026-09-21" class="#));
    assert!(html.contains(r#"aria-hidden="true" class="truncate">3 days</span>"#));
    assert!(html.contains(r#"class="sr-only">Released 2026-09-21, 3 days ago</span>"#));
    assert!(html.contains(r#"aria-hidden="true" class="truncate">4 weeks</span>"#));
    assert_eq!(html.matches("<time").count(), 2);
}

#[test]
fn version_prefix_is_display_only_and_never_doubled() {
    for (tag, label) in [
        ("0.2.0", "v0.2.0"),
        ("v0.2.0", "v0.2.0"),
        ("vv1.2.3", "v1.2.3"),
        ("vV1.2.3", "v1.2.3"),
        ("VVv1.2.3", "v1.2.3"),
        ("V1.0.0-rc.1+build.42", "v1.0.0-rc.1+build.42"),
        ("", ""),
        ("<tag>", "v&lt;tag&gt;"),
    ] {
        let package = pkg("wasi", "http", &[tag], None);
        let release = ColumnRow::with_metadata(&package, tag.to_owned(), None);
        let popular = ColumnRow::popular(&package, 3);
        for row in [release, popular] {
            assert_eq!(row.version, tag);
            let html = render_row(&row, &ICONS);
            assert!(html.contains(&format!(r#"class="{VERSION_CLASS}">{label}</span>"#)));
            assert!(html.contains(r#"href="/wasi/http""#));
        }
    }
    assert_eq!(version_label(&version_label("vV9")), "v9");
}

#[test]
fn missing_version_and_date_stay_absent() {
    let row = ColumnRow::popular(&pkg("wasi", "http", &[], None), 0);
    let bare = ColumnRow { metric: None, ..row };
    let html = render_row(&bare, &ICONS);
    assert!(html.contains(&format!(r#"class="{VERSION_CLASS}"></span>"#)));
    assert!(!html.contains("<time"));
    assert!(!html.contains("<svg"));
}

#[test]
fn metric_icons_are_decorative_and_counts_keep_their_meaning() {
    let html = sample();
    assert_eq!(html.matches(ICONS.clock).count(), 2);
    assert_eq!(html.matches(ICONS.dependents).count(), 2);
    assert_eq!(html.matches(r#"aria-hidden="true" class="inline-flex shrink-0"><svg"#).count(), 4);
    let zero = render_metric(&ColumnMetric::Dependents(0), &ICONS);
    assert!(zero.contains(r#"aria-hidden="true" class="truncate">0</span>"#));
    assert!(zero.contains(r#"class="sr-only">0 dependents</span>"#));
    assert!(zero.contains(&format!(r#"title="0 dependents. {DEPENDENTS_DESCRIPTION}""#)));
}

#[test]
fn package_kinds_do_not_render_labels() {
    let html = sample();
    assert!(!html.contains("bg-cat-"));
    assert!(!html.contains(">component</span>"));
    assert_eq!(html.matches(VERSION_CLASS).count(), 5);
}

#[test]
fn popular_rows_use_the_first_tag() {
    let package = pkg("wasi", "http", &["0.2.1", "0.2.0"], None);
    let popular = ColumnRow::popular(&package, 12);
    assert_eq!(popular.version, "0.2.1");
    assert!(matches!(popular.metric, Some(ColumnMetric::Dependents(12))));
    assert!(!render_row(&popular, &ICONS).contains("<time"));
}

#[test]
fn empty_and_unavailable_columns_render_notes() {
    let empty = ColumnState::empty();
    let unavailable = ColumnState::from_result::<KnownPackage, ()>(Err(()), |p| ColumnRow::popular(p, 1));
    let html = render(
        &vec![
            Column { title: "New releases", state: &empty },
            Column { title: "Popular packages", state: &unavailable },
        ],
        &ICONS,
    );
    assert_eq!(html.matches(CARD_CLASS).count(), 2);
    assert!(html.contains("Nothing here yet."));
    assert!(html.contains(r#"role="status""#) && html.contains("Unavailable right now."));
    assert!(!html.contains("<ol"));
}

#[test]
fn loaded_columns_map_each_item_to_a_row() {
    let items = vec![pkg("a", "b", &["1"], None), pkg("c", "d", &[], Some("x"))];
    match ColumnState::from_result::<KnownPackage, ()>(Ok(items), |p| ColumnRow::popular(p, 7)) {
        ColumnState::Rows(rows) => {
            let names: Vec<&str> = rows.iter().map(|r| r.name.as_str()).collect();
            assert_eq!(names, ["a:b", "c:d"]);
        }
        ColumnState::Unavailable => panic!("expected rows"),
    }
}

#[test]
fn identities_link_only_wit_packages() {
    let linked = pkg("wasi", "http", &[], None);
    assert_eq!(identity(&linked), ("wasi:http".to_owned(), Some("/wasi/http".to_owned())));
    assert_eq!(listing_identity(&linked), ("wasi/http".to_owned(), Some("/wasi/http".to_owned())));
    let mut unlinked = linked;
    unlinked.wit_namespace = None;
    assert_eq!(identity(&unlinked), ("wasi/http".to_owned(), None));
}

#[test]
fn listing_versions_get_one_prefix_or_a_dash() {
    assert_eq!(listing_version_label(Some("1.2.3")), "v1.2.3");
    assert_eq!(listing_version_label(Some("v1.2.3")), "v1.2.3");
    assert_eq!(listing_version_label(Some("V1.2.3")), "v1.2.3");
    assert_eq!(listing_version_label(Some("1.0.0-rc.1_build.123")), "v1.0.0-rc.1_build.123");
    assert_eq!(listing_version_label(None), "\u{2014}");
}

#[test]
fn landing_card_labels_and_example_rows() {
    let stats = LandingStats { packages: "1,234", namespaces: "56", versions: "7,890" };
    assert_eq!(landing_placeholder(&stats), "Search 1,234 packages\u{2026}");
    assert_eq!(browse_label(&stats), "Browse 1,234 packages \u{00b7} 56 namespaces \u{00b7} 7,890 versions");
    let mut examples: Vec<Example> = (0..10).map(|_| Example::search("http server", "An HTTP server")).collect();
    examples.push(Example::link("/wasi", "The wasi namespace").struck());
    let rows = example_rows(&examples);
    assert_eq!(rows[0].number, "01");
    assert_eq!(rows[0].href, "/search?q=http+server");
    assert_eq!(rows[0].text_class, "text-ink-700 group-hover:text-ink-900");
    assert_eq!(rows[0].desc_class, "group-hover:underline");
    assert_eq!(rows[9].number, "10");
    assert_eq!(rows[10].number, "11");
    assert_eq!(rows[10].href, "/wasi");
    assert_eq!(rows[10].text_class, "text-ink-500 line-through decoration-1");
    assert_eq!(rows[10].desc_class, "");
    let bar = SearchBar::default();
    assert!(bar.query.is_empty() && !bar.carousel);
    assert_eq!(bar.input_id, "search-input");
}
