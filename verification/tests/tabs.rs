use component_cli::frontend::tabs::panel_tabs_switchable;

const SCRIPT_TAIL: &str = r#"';var tabs=document.querySelectorAll('[data-ptabs-group="'+g+'"][data-ptabs-target]');var panels=document.querySelectorAll('[data-ptabs-group="'+g+'"][data-ptabs-panel]');function activate(t){var target=t.getAttribute('data-ptabs-target');tabs.forEach(function(o){var on=o===t;o.classList.toggle('is-active',on);o.style.background=on?'var(--c-canvas)':'';});panels.forEach(function(p){p.hidden=p.getAttribute('data-ptabs-panel')!==target;});}tabs.forEach(function(t){t.addEventListener('click',function(){activate(t);});t.addEventListener('keydown',function(e){if(e.key==='Enter'||e.key===' '){e.preventDefault();activate(t);}});});})();</script>"#;

#[test]
fn first_tab_is_active_and_other_panels_hidden() {
    let mut counter = 3;
    let html = panel_tabs_switchable(&[("Rust", "<p>r</p>"), ("C", "<p>c</p>")], &mut counter);
    assert_eq!(counter, 4);
    let expected = String::from("<div class=\"flex flex-col\"><div class=\"id-lang-tabs\">")
        + "<span class=\"id-lang-tab is-clickable is-active\" style=\"background: var(--c-canvas);\" tabindex=\"0\" data-ptabs-group=\"ptabs-3\" data-ptabs-target=\"0\"><span class=\"dot\"></span>Rust</span>"
        + "<span class=\"id-lang-tab is-clickable\" tabindex=\"0\" data-ptabs-group=\"ptabs-3\" data-ptabs-target=\"1\"><span class=\"dot\"></span>C</span>"
        + "</div><div class=\"border border-lineSoft rounded-md rounded-tl-none bg-canvas p-4\">"
        + "<div data-ptabs-group=\"ptabs-3\" data-ptabs-panel=\"0\"><p>r</p></div>"
        + "<div data-ptabs-group=\"ptabs-3\" data-ptabs-panel=\"1\" hidden><p>c</p></div>"
        + "</div></div><script>(function(){var g='ptabs-3"
        + SCRIPT_TAIL;
    assert_eq!(html, expected);
}

#[test]
fn groups_are_kept_apart_by_their_number() {
    let mut counter = 0;
    let a = panel_tabs_switchable(&[("x", "y")], &mut counter);
    let mut later = 12;
    let b = panel_tabs_switchable(&[("x", "y")], &mut later);
    assert!(a.contains("data-ptabs-group=\"ptabs-0\""));
    assert!(b.contains("data-ptabs-group=\"ptabs-12\""));
    assert!(b.contains("var g='ptabs-12'"));
    assert_ne!(a, b);
}

#[test]
fn no_items_give_an_empty_strip_and_panel() {
    let mut counter = 1;
    let html = panel_tabs_switchable(&[], &mut counter);
    assert!(html.starts_with(
        "<div class=\"flex flex-col\"><div class=\"id-lang-tabs\"></div><div class=\"border border-lineSoft rounded-md rounded-tl-none bg-canvas p-4\"></div></div><script>"
    ));
}

#[test]
fn successive_groups_from_one_counter_stay_apart() {
    let mut counter = 0;
    let first = panel_tabs_switchable(&[("a", "1"), ("b", "2"), ("c", "3")], &mut counter);
    let second = panel_tabs_switchable(&[("a", "1")], &mut counter);
    assert_eq!(counter, 2);
    assert!(first.contains("data-ptabs-group=\"ptabs-0\""));
    assert!(second.contains("data-ptabs-group=\"ptabs-1\""));
    assert_eq!(first.matches("data-ptabs-target=\"").count(), 3);
    assert_eq!(first.matches("data-ptabs-panel=\"").count(), 3);
    assert_eq!(first.matches("is-clickable is-active").count(), 1);
    assert_eq!(first.matches(" hidden>").count(), 2);
    let mut last = u64::MAX;
    let wrapped = panel_tabs_switchable(&[("a", "1")], &mut last);
    assert_eq!(last, 0);
    assert!(wrapped.contains(&format!("ptabs-{}", u64::MAX)));
}
