use component_cli::frontend::listing::{item_name_html, result_summary};

#[test]
fn summaries_count_the_page_and_the_total() {
    assert_eq!(result_summary(20, Some(1234)), "showing 20 of 1234 results");
    assert_eq!(result_summary(1, Some(1)), "showing 1 of 1 result");
    assert_eq!(result_summary(0, Some(0)), "showing 0 of 0 results");
}

#[test]
fn unknown_or_inconsistent_totals_are_not_shown() {
    assert_eq!(result_summary(5, None), "showing 5 results (total unavailable)");
    assert_eq!(result_summary(1, None), "showing 1 result (total unavailable)");
    assert_eq!(result_summary(5, Some(3)), "showing 5 results (total unavailable)");
}

#[test]
fn item_names_get_a_version_badge_when_versioned() {
    assert_eq!(item_name_html("a<b", ""), r#"<span class="name">a&lt;b</span>"#);
    let html = item_name_html("types", "0.2.0");
    assert!(html.starts_with(r#"<span class="name">types</span> <span class="inline-flex"#));
    assert!(html.ends_with(">0.2.0</span>"));
}
