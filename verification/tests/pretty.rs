use component_cli::frontend::pretty::{indent, is_void_element, memchr, pretty_html};

#[test]
fn nested_markup_is_indented_by_depth() {
    assert_eq!(
        pretty_html("<div><p>Hi</p><br><img/></div>"),
        "<div>\n  <p>\n    Hi\n  </p>\n  <br>\n  <img/>\n</div>"
    );
}

#[test]
fn leading_text_starts_with_a_newline() {
    assert_eq!(pretty_html("  hello <b>x</b>"), "\nhello\n<b>\n  x\n</b>");
}

#[test]
fn blank_text_is_dropped() {
    assert_eq!(pretty_html("<ul>\n  <li>a</li>\n</ul>"), "<ul>\n  <li>\n    a\n  </li>\n</ul>");
}

#[test]
fn unterminated_tag_ends_the_output() {
    assert_eq!(pretty_html("<a><b"), "<a>");
    assert_eq!(pretty_html(""), "");
}

#[test]
fn closing_tag_at_top_level_stays_at_depth_zero() {
    assert_eq!(pretty_html("</x><y>"), "</x>\n<y>");
}

#[test]
fn void_elements_are_recognised_by_name() {
    assert!(is_void_element("<br>"));
    assert!(is_void_element("<br/>"));
    assert!(is_void_element("<input type=\"text\">"));
    assert!(is_void_element("<col\tspan=\"2\">"));
    assert!(is_void_element("<<hr>"));
    assert!(!is_void_element("<div>"));
    assert!(!is_void_element("</br>"));
    assert!(!is_void_element("<brx>"));
}

#[test]
fn memchr_finds_the_first_match_from_start() {
    let v: Vec<char> = "a>b>".chars().collect();
    assert_eq!(memchr('>', &v, 0), Some(1));
    assert_eq!(memchr('>', &v, 2), Some(3));
    assert_eq!(memchr('>', &v, 4), None);
}

#[test]
fn indent_appends_two_spaces_per_level() {
    let mut out = String::from("x");
    indent(&mut out, 3);
    assert_eq!(out, "x      ");
}
