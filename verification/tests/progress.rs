use component_cli::progress::{
    build_prefix, oci_repo_display_name, package_display_parts, prefix_from, prefix_padding,
    spinner_ticks, AddBar, BarId,
    BarUpdate, InstallReference, LayerTotals, PlannedInstall, ProgressEvent, RowTable,
    DONE_TEMPLATE, INITIAL_TEMPLATE, PROGRESS_TEMPLATE,
};

#[test]
fn display_parts_wit_name_with_version() {
    let (name, version) = package_display_parts(Some("wasi:http@0.2.0"), Some("v0.2.0"));
    assert_eq!(name, "wasi:http");
    assert_eq!(version.as_deref(), Some("0.2.0"));
}

#[test]
fn display_parts_wit_name_without_version() {
    let (name, version) = package_display_parts(Some("wasi:http"), Some("v0.2.10"));
    assert_eq!(name, "wasi:http");
    assert_eq!(version.as_deref(), Some("0.2.10"));
}

#[test]
fn display_parts_wit_name_strips_v_prefix() {
    let (name, version) = package_display_parts(Some("wasi:http"), Some("v1.0.0"));
    assert_eq!(name, "wasi:http");
    assert_eq!(version.as_deref(), Some("1.0.0"));
}

#[test]
fn display_parts_no_tag() {
    let (name, version) = package_display_parts(Some("wasi:http"), None);
    assert_eq!(name, "wasi:http");
    assert_eq!(version, None);
}

#[test]
fn display_parts_tag_without_v_prefix() {
    let (name, version) = package_display_parts(Some("ba:sample"), Some("0.12.2"));
    assert_eq!(name, "ba:sample");
    assert_eq!(version.as_deref(), Some("0.12.2"));
}

#[test]
fn display_parts_without_name_uses_tag_only() {
    let (name, version) = package_display_parts(None, Some("vv1"));
    assert_eq!(name, "");
    assert_eq!(version.as_deref(), Some("v1"));
}

#[test]
fn oci_repo_three_segments() {
    assert_eq!(
        oci_repo_display_name("ghcr.io/webassembly/wasi-logging"),
        "webassembly:wasi-logging"
    );
}

#[test]
fn oci_repo_two_segments() {
    assert_eq!(oci_repo_display_name("webassembly/wasi-logging"), "webassembly:wasi-logging");
}

#[test]
fn oci_repo_single_segment() {
    assert_eq!(oci_repo_display_name("wasi-logging"), "wasi-logging");
}

#[test]
fn oci_repo_deep_path() {
    assert_eq!(oci_repo_display_name("ghcr.io/org/sub/package"), "sub:package");
}

#[test]
fn oci_repo_empty_segment_is_kept_whole() {
    assert_eq!(oci_repo_display_name("org/"), "org/");
    assert_eq!(oci_repo_display_name("/pkg"), "/pkg");
}

#[test]
fn spinner_tick_chars_are_braille() {
    let ticks = spinner_ticks();
    assert_eq!(ticks.len(), 11);
    assert_eq!(ticks[0], "⠋");
    assert_eq!(ticks[9], "⠏");
    assert_eq!(ticks[10], " ", "done tick should be a space, not a checkmark");
}

#[test]
fn done_style_template_has_no_bar() {
    assert!(!DONE_TEMPLATE.contains("{bar"), "done style must not contain a bar: {DONE_TEMPLATE}");
}

#[test]
fn progress_style_template_uses_yellow() {
    assert!(
        PROGRESS_TEMPLATE.contains(".yellow"),
        "progress style must use yellow for the bar: {PROGRESS_TEMPLATE}"
    );
}

#[test]
fn progress_style_template_uses_dim_for_size() {
    assert!(
        PROGRESS_TEMPLATE.contains("binary_bytes:.dim"),
        "progress style must use dim for size: {PROGRESS_TEMPLATE}"
    );
}

#[test]
fn progress_style_template_uses_dim_for_eta() {
    assert!(
        PROGRESS_TEMPLATE.contains("eta:.dim"),
        "progress style must use dim for ETA: {PROGRESS_TEMPLATE}"
    );
}

#[test]
fn initial_template_shows_only_bytes() {
    assert!(!INITIAL_TEMPLATE.contains("{bar"));
    assert!(!INITIAL_TEMPLATE.contains("binary_total_bytes"));
    assert!(!INITIAL_TEMPLATE.contains("eta"));
    assert!(INITIAL_TEMPLATE.contains("binary_bytes"));
}

#[test]
fn prefix_padding_fills_to_the_width() {
    let p1 = prefix_padding("wasi:http", Some("0.2.0"), 20);
    let p2 = prefix_padding("wasi:io", Some("0.2.3"), 20);
    assert_eq!("wasi:http 0.2.0".len() + p1, 20);
    assert_eq!("wasi:io 0.2.3".len() + p2, 20);
    assert_eq!(prefix_padding("a-very-long-package-name", None, 5), 0);
}

#[test]
fn prefix_uses_space_separator_for_version() {
    let prefix = build_prefix("wasi:http", Some("0.2.0"), 20);
    let plain = console::strip_ansi_codes(&prefix);
    assert!(plain.contains("wasi:http 0.2.0"), "prefix must use space separator: {plain}");
    assert!(!plain.contains('@'), "prefix must not contain @ separator: {plain}");
}

#[test]
fn prefix_has_no_tree_glyphs() {
    let prefix = build_prefix("wasi:http", Some("0.2.0"), 20);
    let plain = console::strip_ansi_codes(&prefix);
    assert!(!plain.contains("\u{251c}\u{2500}\u{2500}"), "prefix must not contain tree glyphs: {plain}");
    assert!(!plain.contains("\u{2514}\u{2500}\u{2500}"), "prefix must not contain tree glyphs: {plain}");
}

#[test]
fn prefix_is_column_aligned() {
    let p1 = build_prefix("wasi:http", Some("0.2.0"), 20);
    let p2 = build_prefix("wasi:io", Some("0.2.3"), 20);
    let plain1 = console::strip_ansi_codes(&p1);
    let plain2 = console::strip_ansi_codes(&p2);
    assert_eq!(
        plain1.len(),
        plain2.len(),
        "prefixes must be padded to equal width: '{plain1}' vs '{plain2}'"
    );
}

#[test]
fn prefix_no_version_when_none() {
    let prefix = build_prefix("wasi:http", None, 20);
    let plain = console::strip_ansi_codes(&prefix);
    assert!(plain.starts_with("wasi:http"), "prefix must start with package name: {plain}");
}

#[test]
fn prefix_green_when_complete() {
    let prefix = build_prefix("wasi:http", Some("0.2.0"), 20);
    let plain = console::strip_ansi_codes(&prefix);
    assert!(plain.contains("wasi:http 0.2.0"), "completed prefix must contain package name: {plain}");
}

#[test]
fn prefix_unstyled_during_download() {
    let prefix = build_prefix("wasi:http", Some("0.2.3"), 20);
    let plain = console::strip_ansi_codes(&prefix);
    assert!(
        plain.contains("wasi:http 0.2.3"),
        "prefix must contain package name and version: {plain}"
    );
}

#[test]
fn prefix_green_on_completion() {
    console::set_colors_enabled(true);
    let styled = build_prefix("wasi:http", Some("0.2.3"), 20);
    assert_ne!(styled, console::strip_ansi_codes(&styled), "prefix must contain ANSI styling");
    assert_eq!(styled, "\u{1b}[37mwasi:http\u{1b}[0m \u{1b}[2m0.2.3\u{1b}[0m     ");
}

#[test]
fn prefix_from_pads_with_spaces() {
    assert_eq!(prefix_from("a", Some("b"), 2), "a b  ");
    assert_eq!(prefix_from("name", None, 0), "name");
}

fn plan(v: &[(&str, Option<&str>)]) -> Vec<(String, Option<String>)> {
    v.iter().map(|(n, ver)| (n.to_string(), ver.map(String::from))).collect()
}

#[test]
fn show_plan_creates_aligned_rows() {
    let mut display = RowTable::new();
    let ids = display.show_plan(&plan(&[
        ("wasi:http", Some("0.2.3")),
        ("wasi:io", Some("0.2.3")),
        ("ba:sample-wasi-http-rust", Some("0.1.6")),
    ]));
    assert_eq!(display.len(), 3);
    assert_eq!(ids, vec![BarId(0), BarId(1), BarId(2)]);
    assert_eq!(display.name_width(), "ba:sample-wasi-http-rust 0.1.6".len());
}

#[test]
fn show_plan_empty_list() {
    let mut display = RowTable::new();
    let ids = display.show_plan(&plan(&[]));
    assert!(ids.is_empty());
    assert_eq!(display.len(), 0);
    assert_eq!(display.name_width(), 0);
}

#[test]
fn finish_bar_shows_checkmark() {
    let mut display = RowTable::new();
    display.show_plan(&plan(&[("wasi:http", Some("0.2.0"))]));
    let AddBar::Planned(id) = display.add_bar("wasi:http", Some("0.2.0")) else {
        panic!("planned row expected");
    };
    assert!(display.finish_bar(id));
    assert!(display.is_complete(id));
    assert_eq!(display.completed_count(), 1);
    assert!(!display.finish_bar(BarId(7)));
}

#[test]
fn add_bar_reuses_planned_row() {
    let mut display = RowTable::new();
    display.show_plan(&plan(&[("wasi:http", Some("0.2.0")), ("wasi:io", Some("0.2.3"))]));
    let r = display.add_bar("wasi:io", Some("0.2.3"));
    assert!(matches!(r, AddBar::Planned(BarId(1))));
    assert_eq!(display.len(), 2, "should not add a new row");
}

#[test]
fn add_bar_appends_fallback_row() {
    let mut display = RowTable::new();
    display.show_plan(&plan(&[("wasi:http", Some("0.2.0"))]));
    let r = display.add_bar("wasi:io", Some("0.2.3"));
    assert!(matches!(r, AddBar::Appended { id: BarId(1), realign: false }));
    assert_eq!(display.len(), 2, "should append a fallback row");
}

#[test]
fn add_bar_same_name_different_version_creates_new_row() {
    let mut display = RowTable::new();
    display.show_plan(&plan(&[("wasi:http", Some("0.2.0"))]));
    let r = display.add_bar("wasi:http", Some("0.3.0"));
    assert!(matches!(r, AddBar::Appended { id: BarId(1), .. }));
    assert_eq!(display.len(), 2);
}

#[test]
fn fallback_row_realigns_existing_prefixes() {
    let mut display = RowTable::new();
    display.show_plan(&plan(&[("wasi:http", Some("0.2.0"))]));
    let r = display.add_bar("ba:very-long-package-name", Some("1.0.0"));
    assert!(matches!(r, AddBar::Appended { realign: true, .. }));
    assert_eq!(display.name_width(), "ba:very-long-package-name 1.0.0".len());
    assert_eq!(display.row_label(BarId(1)), Some(("ba:very-long-package-name", Some("1.0.0"))));
}

#[test]
fn aggregate_layers_sums_progress() {
    let mut t = LayerTotals::new();
    assert_eq!(t.apply(ProgressEvent::ManifestFetched { layer_count: 2 }), BarUpdate::Unchanged);
    assert_eq!(
        t.apply(ProgressEvent::LayerStarted { total_bytes: Some(1000) }),
        BarUpdate::Length { length: 1000, upgrade_style: true }
    );
    assert_eq!(
        t.apply(ProgressEvent::LayerStarted { total_bytes: Some(500) }),
        BarUpdate::Length { length: 1500, upgrade_style: false }
    );
    assert_eq!(
        t.apply(ProgressEvent::LayerProgress { index: 0, bytes_downloaded: 600 }),
        BarUpdate::Position(600)
    );
    assert_eq!(
        t.apply(ProgressEvent::LayerProgress { index: 1, bytes_downloaded: 300 }),
        BarUpdate::Position(900)
    );
    assert_eq!(t.apply(ProgressEvent::InstallComplete), BarUpdate::Unchanged);
}

#[test]
fn aggregate_layers_handles_unknown_sizes() {
    let mut t = LayerTotals::new();
    t.apply(ProgressEvent::ManifestFetched { layer_count: 1 });
    assert_eq!(t.apply(ProgressEvent::LayerStarted { total_bytes: None }), BarUpdate::Unchanged);
    assert_eq!(
        t.apply(ProgressEvent::LayerProgress { index: 0, bytes_downloaded: 500 }),
        BarUpdate::Position(500)
    );
    assert_eq!(
        t.apply(ProgressEvent::LayerProgress { index: 5, bytes_downloaded: 9 }),
        BarUpdate::Position(500)
    );
}

#[test]
fn display_info_falls_back_to_repository() {
    let top = PlannedInstall::TopLevel {
        reference: InstallReference {
            repository: "webassembly/wasi-logging".into(),
            tag: Some("v1.0.0".into()),
        },
        update_manifest: true,
        explicit_name: None,
    };
    assert_eq!(top.display_info(), ("webassembly:wasi-logging".to_string(), Some("1.0.0".to_string())));
    assert!(!top.is_transitive());
    let dep = PlannedInstall::Transitive {
        reference: InstallReference { repository: "x/y".into(), tag: None },
        package_name: "wasi:io@0.2.3".into(),
    };
    assert_eq!(dep.display_info(), ("wasi:io".to_string(), Some("0.2.3".to_string())));
    assert!(dep.is_transitive());
}

#[test]
fn byte_counts_that_would_overflow_are_refused() {
    let mut totals = LayerTotals::new();
    assert!(totals.can_apply(ProgressEvent::LayerStarted { total_bytes: Some(u64::MAX) }));
    totals.apply(ProgressEvent::LayerStarted { total_bytes: Some(u64::MAX) });
    assert!(!totals.can_apply(ProgressEvent::LayerStarted { total_bytes: Some(1) }));
    totals.apply(ProgressEvent::ManifestFetched { layer_count: 2 });
    assert!(totals.can_apply(ProgressEvent::LayerProgress { index: 0, bytes_downloaded: u64::MAX }));
    totals.apply(ProgressEvent::LayerProgress { index: 0, bytes_downloaded: u64::MAX });
    assert!(!totals.can_apply(ProgressEvent::LayerProgress { index: 1, bytes_downloaded: 1 }));
    assert!(totals.can_apply(ProgressEvent::LayerProgress { index: 0, bytes_downloaded: 5 }));
    assert!(totals.can_apply(ProgressEvent::InstallComplete));
}
