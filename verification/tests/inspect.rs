use component_cli::inspect::{
    details_rows, find_range_max, numbering_fits, ranges_are_ordered, write_details_table, write_summary_table,
    write_summary_table_inner, ByteRange, Dependency, Metadata, Payload, Producer, ProducerField,
};

fn metadata(name: Option<&str>, start: usize, end: usize) -> Metadata {
    Metadata {
        name: name.map(str::to_owned),
        authors: None,
        description: None,
        producers: None,
        licenses: None,
        source: None,
        homepage: None,
        range: ByteRange { start, end },
        revision: None,
        version: None,
        dependencies: None,
    }
}

fn field(name: &str, version: &str) -> ProducerField {
    ProducerField { name: name.to_owned(), version: version.to_owned() }
}

fn producer(name: &str, fields: Vec<ProducerField>) -> Producer {
    Producer { name: name.to_owned(), fields }
}

/// A component of 2000 bytes holding a named module and an unnamed one.
fn sample() -> Payload {
    let mut root = metadata(Some("app"), 0, 2000);
    root.producers = Some(vec![
        producer("processed-by", vec![field("wit-component", "0.263.0")]),
        producer("language", vec![field("Rust", ""), field("C", "")]),
    ]);
    let mut core = metadata(Some("core"), 8, 1508);
    core.producers = Some(vec![producer("language", vec![field("Rust", "")])]);
    let shim = metadata(None, 1508, 1510);
    Payload::Component {
        metadata: root,
        children: vec![Payload::Module(core), Payload::Module(shim)],
    }
}

fn cells(rows: &[Vec<String>]) -> Vec<Vec<&str>> {
    rows.iter().map(|r| r.iter().map(String::as_str).collect()).collect()
}

#[test]
fn range_max_covers_nested_payloads() {
    let mut max = 0;
    find_range_max(&mut max, &sample());
    assert_eq!(max, 2000);

    let mut max = 5000;
    find_range_max(&mut max, &sample());
    assert_eq!(max, 5000);
}

#[test]
fn summary_rows_list_every_payload_in_pre_order() {
    let mut rows = Vec::new();
    let mut unknown = 0u16;
    write_summary_table_inner(&sample(), "<root>", &mut unknown, 2000, &mut rows);
    assert_eq!(
        cells(&rows),
        vec![
            vec!["component", "app", "2.0k", "100%", "Rust, C", "<root>"],
            vec!["module", "core", "1.5k", "75%", "Rust", "app"],
            vec!["module", "unknown(0)", "2B", "<1%", "-", "app"],
        ]
    );
    assert_eq!(unknown, 1);
}

#[test]
fn unknown_payloads_are_numbered_in_order() {
    let inner = Payload::Component {
        metadata: metadata(None, 10, 20),
        children: vec![Payload::Module(metadata(None, 12, 18))],
    };
    let root = Payload::Component { metadata: metadata(None, 0, 100), children: vec![inner] };
    let mut rows = Vec::new();
    let mut unknown = 3u16;
    write_summary_table_inner(&root, "<root>", &mut unknown, 100, &mut rows);
    let names: Vec<&str> = rows.iter().map(|r| r[1].as_str()).collect();
    let parents: Vec<&str> = rows.iter().map(|r| r[5].as_str()).collect();
    assert_eq!(names, ["unknown(3)", "unknown(4)", "unknown(5)"]);
    assert_eq!(parents, ["<root>", "unknown(3)", "unknown(4)"]);
    assert_eq!(unknown, 6);
}

#[test]
fn full_share_that_misses_the_end_is_hedged() {
    // 100 of 101 bytes rounds down to 99%; a payload taking the whole span
    // but not ending at the maximum reads as >99%.
    let root = Payload::Component {
        metadata: metadata(Some("a"), 1, 101),
        children: vec![Payload::Module(metadata(Some("b"), 0, 100))],
    };
    let mut rows = Vec::new();
    let mut unknown = 0u16;
    write_summary_table_inner(&root, "<root>", &mut unknown, 100, &mut rows);
    assert_eq!(rows[0][3], ">99%");
    assert_eq!(rows[1][3], "100%");
}

#[test]
fn share_of_an_empty_binary_is_below_one_percent() {
    let mut rows = Vec::new();
    let mut unknown = 0u16;
    write_summary_table_inner(&Payload::Module(metadata(Some("m"), 0, 0)), "<root>", &mut unknown, 0, &mut rows);
    assert_eq!(cells(&rows), vec![vec!["module", "m", "0B", "<1%", "-", "<root>"]]);
}

#[test]
fn details_rows_list_language_producers_first() {
    let mut m = metadata(Some("app"), 0, 255);
    m.description = Some("An app".to_owned());
    m.licenses = Some("MIT".to_owned());
    m.producers = Some(vec![
        producer("sdk", vec![field("cargo-component", "0.1")]),
        producer("processed-by", vec![field("wasm-tools", "1.0"), field("clang", "")]),
        producer("language", vec![field("Rust", "")]),
    ]);
    m.dependencies = Some(vec![Dependency { name: "serde".to_owned(), version: "1.0.0".to_owned() }]);
    let payload = Payload::Component {
        metadata: m,
        children: vec![Payload::Module(metadata(None, 8, 16))],
    };
    assert_eq!(
        cells(&details_rows(&payload)),
        vec![
            vec!["name", "app"],
            vec!["kind", "component"],
            vec!["range", "0x0..0xff"],
            vec!["description", "An app"],
            vec!["licenses", "MIT"],
            vec!["language", "Rust"],
            vec!["processed-by", "wasm-tools [1.0]"],
            vec!["processed-by", "clang"],
            vec!["sdk", "cargo-component [0.1]"],
            vec!["child", "<unknown> [module]"],
            vec!["dependency", "serde [1.0.0]"],
        ]
    );
}

#[test]
fn details_rows_of_a_bare_module() {
    let rows = details_rows(&Payload::Module(metadata(None, 4096, 65536)));
    assert_eq!(
        cells(&rows),
        vec![vec!["name", "<unknown>"], vec!["kind", "module"], vec!["range", "0x1000..0x10000"]]
    );
}

#[test]
fn summary_table_draws_header_and_rows() {
    let mut out = String::new();
    write_summary_table(&sample(), &mut out);
    assert!(out.ends_with('\n'));
    for text in ["KIND", "NAME", "SIZE%", "LANGUAGES", "PARENT", "unknown(0)", "Rust, C", "<root>", "75%"] {
        assert!(out.contains(text), "missing {text}");
    }
    assert!(out.contains('╭'), "rounded corners");
}

#[test]
fn details_tables_follow_in_pre_order() {
    let mut out = String::new();
    write_details_table(&sample(), &mut out);
    let tables = out.matches("VALUE").count();
    assert_eq!(tables, 3);
    let app = out.find("app").expect("root table");
    let core = out.find("core").expect("child table");
    let unknown = out.rfind("<unknown>").expect("unnamed child table");
    assert!(app < core && core < unknown);
    assert!(out.contains("0x5e4..0x5e6"));
}

#[test]
fn ranges_are_checked_in_nested_payloads() {
    assert!(ranges_are_ordered(&sample()));
    let reversed = Payload::Component {
        metadata: metadata(Some("app"), 0, 100),
        children: vec![Payload::Module(metadata(Some("core"), 50, 40))],
    };
    assert!(!ranges_are_ordered(&reversed));
    assert!(ranges_are_ordered(&Payload::Module(metadata(None, 7, 7))));
}

#[test]
fn numbering_fits_counts_unnamed_payloads() {
    assert!(numbering_fits(&sample()));
    let many = Payload::Component {
        metadata: metadata(None, 0, 10),
        children: (0..65535).map(|_| Payload::Module(metadata(None, 0, 1))).collect(),
    };
    assert!(!numbering_fits(&many));
    let just = Payload::Component {
        metadata: metadata(Some("app"), 0, 10),
        children: (0..65535).map(|_| Payload::Module(metadata(None, 0, 1))).collect(),
    };
    assert!(numbering_fits(&just));
}

#[test]
fn inspect_text_reports_refused_bytes() {
    let r = component_cli::inspect::inspect_text(b"not wasm");
    assert!(matches!(r, Err(ref e) if !e.is_empty()));
}

#[test]
fn inspect_text_tabulates_an_empty_module() {
    let r = component_cli::inspect::inspect_text(b"\0asm\x01\0\0\0").expect("parses");
    let text = r.expect("tabulates");
    assert!(text.contains("KIND"));
    assert!(text.contains("module"));
    assert!(text.contains("unknown(0)"));
    assert!(text.contains("<unknown>"));
    assert!(text.contains("0x0..0x8"));
}
