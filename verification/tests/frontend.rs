use component_cli::frontend::escape::{escape_html_attr, escape_html_text};
use component_cli::frontend::icons::icon;
use component_cli::frontend::package_card::grid;
use component_cli::frontend::pagination::PaginationState;
use component_cli::frontend::quick_start::{push_step, right_column, QuickStartStep};
use component_cli::frontend::results_page::Notice;
use component_cli::frontend::search_bar::{encode_query, example_href, Example};

#[test]
fn text_escaping_neutralises_markup() {
    assert_eq!(escape_html_text("<a href=\"x\">&</a>"), "&lt;a href=\"x\"&gt;&amp;&lt;/a&gt;");
    assert_eq!(escape_html_text("plain text"), "plain text");
}

#[test]
fn attribute_escaping_also_covers_quotes() {
    assert_eq!(escape_html_attr(r#"a"b'c<d>&"#), "a&quot;b&#39;c&lt;d&gt;&amp;");
}

#[test]
fn icons_wrap_the_trimmed_fragment() {
    assert_eq!(
        icon(14, "  <path d=\"M1 1\" />\n"),
        r#"<svg width="14" height="14" viewBox="0 0 24 24" fill="none" stroke="currentColor" stroke-width="1.75" stroke-linecap="round" stroke-linejoin="round"><path d="M1 1" /></svg>"#
    );
}

#[test]
fn package_grids_have_three_or_four_columns() {
    assert_eq!(grid(3), "grid grid-cols-1 sm:grid-cols-2 lg:grid-cols-3 gap-4");
    assert_eq!(grid(4), "grid grid-cols-1 sm:grid-cols-2 md:grid-cols-3 lg:grid-cols-4 gap-4");
}

#[test]
fn shell_steps_render_a_copyable_command_block() {
    let step = QuickStartStep { title: "Install", body_html: "Run <b>this</b>", command: "curl a | sh", command_html: "" };
    let html = right_column(&step);
    assert!(html.contains("<code class="));
    assert!(html.contains(">curl a | sh</code>"));
    assert!(html.contains(r#"data-copy="curl a | sh""#));
    let custom = QuickStartStep { command_html: "<div>widget</div>", ..step };
    assert_eq!(right_column(&custom), "<div>widget</div>");
}

#[test]
fn steps_are_numbered_and_keep_prose_html() {
    let mut out = String::new();
    let step = QuickStartStep { title: "A <b>", body_html: "<em>prose</em>", command: "x", command_html: "" };
    push_step(&mut out, 3, &step);
    assert!(out.contains(">3</span>"));
    assert!(out.contains("A &lt;b&gt;"));
    assert!(out.contains("<em>prose</em>"));
    assert!(out.starts_with("<li class="));
    assert!(out.ends_with("</li>"));
}

#[test]
fn example_links_encode_their_query() {
    assert_eq!(encode_query("wasi:http server/~x"), "wasi%3Ahttp+server%2F~x");
    assert_eq!(example_href(&Example::search("a b", "d")), "/search?q=a+b");
    assert_eq!(example_href(&Example::link("/wasi", "d").struck()), "/wasi");
}

#[test]
fn notices_collect_detail_and_action() {
    let n = Notice::new("Nothing found.").detail("Try again").action("Browse", "/all");
    assert_eq!(n.message, "Nothing found.");
    assert_eq!(n.detail.as_deref(), Some("Try again"));
    assert_eq!(n.action, Some(("Browse".to_owned(), "/all".to_owned())));
}

#[test]
fn full_pages_lead_to_the_next() {
    let page = PaginationState::new(20, 40, 20);
    assert!(page.has_prev && page.has_next);
    assert_eq!((page.prev_offset, page.next_offset, page.start, page.end), (20, 60, 41, 60));
    assert_eq!(page.range_text(), "Showing 41\u{2013}60");
    let (prev, next) = page.controls();
    assert_eq!((prev.label, prev.target), ("Previous", Some((20, 20))));
    assert_eq!((next.label, next.target), ("Next", Some((60, 20))));
}

#[test]
fn short_and_empty_pages_end_the_listing() {
    let last = PaginationState::new(5, 0, 20);
    assert!(!last.has_prev && !last.has_next);
    let (prev, next) = last.controls();
    assert_eq!(prev.target, None);
    assert_eq!(next.target, None);
    let empty = PaginationState::with_next(0, 0, 0, false);
    assert_eq!((empty.start, empty.end, empty.effective_limit), (0, 0, 1));
    assert_eq!(empty.range_text(), "Showing 0\u{2013}0");
    let saturated = PaginationState::with_next(1, u32::MAX, 10, true);
    assert!(!saturated.has_next);
}
