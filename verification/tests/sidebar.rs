use component_cli::frontend::sidebar::{
    group_is_active, group_label, render_version_options, sigil, SidebarEntry, SidebarGroup,
};

fn entry(name: &str, active: bool) -> SidebarEntry {
    SidebarEntry {
        sigil_bg: "var(--c-cat-green)",
        sigil_color: "var(--c-cat-green-ink)",
        sigil_text: "c",
        name: name.into(),
        href: format!("#{name}"),
        meta: String::new(),
        active,
    }
}

fn group(children: Vec<SidebarEntry>, open: bool, href: Option<&str>) -> SidebarGroup {
    SidebarGroup {
        label: "Commands <all>".into(),
        href: href.map(str::to_owned),
        sigil_bg: None,
        sigil_color: None,
        sigil_text: None,
        open,
        count: None,
        children,
    }
}

#[test]
fn version_options_mark_latest_and_current() {
    assert_eq!(render_version_options("0.2.0", &vec![], "/wasi/http/"), None);
    let html = render_version_options("0.1.0", &vec!["0.2.0", "0.1.0"], "/wasi/http/").expect("options");
    assert_eq!(
        html,
        r#"<option value="/wasi/http/0.2.0">v0.2.0 (latest)</option><option value="/wasi/http/0.1.0" selected>v0.1.0</option>"#
    );
}

#[test]
fn groups_open_when_asked_or_when_an_entry_is_active() {
    assert!(!group_is_active(&group(vec![entry("a", false)], false, None)));
    assert!(group_is_active(&group(vec![entry("a", false), entry("b", true)], false, None)));
    assert!(group_is_active(&group(vec![], true, None)));
}

#[test]
fn group_labels_default_their_sigil_and_count() {
    let plain = group_label(&group(vec![entry("a", false), entry("b", false)], false, None));
    assert_eq!(
        plain,
        format!(
            r#"{}<span class="mono">Commands &lt;all&gt;</span><span class="ml-auto mono text-[10.5px] text-ink-400">2</span>"#,
            sigil("var(--c-cat-lilac)", "var(--c-cat-lilac-ink)", "G")
        )
    );
    let mut counted = group(vec![], false, Some("/cmd?a&b"));
    counted.count = Some(7);
    let linked = group_label(&counted);
    assert!(linked.starts_with(r#"<a href="/cmd?a&amp;b" class="flex items-center gap-1.5 flex-1 min-w-0" onclick="event.stopPropagation()">"#));
    assert!(linked.contains(">7</span></a>"));
}
