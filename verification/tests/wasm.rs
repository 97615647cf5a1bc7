use component_cli::internal_run::{display_path, validate_component, validate_events, RunError};
use component_cli::wasm::{exports_cli_run, exports_http_incoming_handler, exports_interface, WasmEvent};

const COMPONENT_HEADER: &[u8] = b"\0asm\x0d\x00\x01\x00";
const MODULE_HEADER: &[u8] = b"\0asm\x01\x00\x00\x00";

fn exports(names: &[&str]) -> WasmEvent {
    WasmEvent::Exports(names.iter().map(|n| Some((*n).to_owned())).collect())
}

#[test]
fn a_component_header_validates() {
    assert_eq!(validate_component(COMPONENT_HEADER), Ok(()));
}

#[test]
fn a_core_module_is_rejected() {
    assert_eq!(validate_component(MODULE_HEADER), Err(RunError::CoreModule));
}

#[test]
fn garbage_is_an_invalid_binary() {
    match validate_component(b"not wasm at all") {
        Err(RunError::InvalidBinary { reason }) => assert!(!reason.is_empty()),
        other => panic!("unexpected {other:?}"),
    }
}

#[test]
fn a_walk_without_header_has_no_version() {
    assert_eq!(validate_events(&vec![]), Err(RunError::NoVersionHeader));
    assert_eq!(validate_events(&vec![WasmEvent::Other, WasmEvent::End]), Err(RunError::NoVersionHeader));
}

#[test]
fn the_first_header_decides() {
    let events = vec![WasmEvent::Other, WasmEvent::Version { component: false }, WasmEvent::Version { component: true }];
    assert_eq!(validate_events(&events), Err(RunError::CoreModule));
    let broken = vec![WasmEvent::Invalid("bad magic".to_owned()), WasmEvent::Version { component: true }];
    assert_eq!(validate_events(&broken), Err(RunError::InvalidBinary { reason: "bad magic".to_owned() }));
}

#[test]
fn top_level_exports_are_found_by_prefix() {
    let events = vec![
        WasmEvent::Version { component: true },
        exports(&["wasi:http/incoming-handler@0.2.0"]),
        WasmEvent::End,
    ];
    assert!(exports_interface(&events, "wasi:http/incoming-handler"));
    assert!(!exports_interface(&events, "wasi:cli/run"));
}

#[test]
fn nested_component_exports_are_ignored() {
    let events = vec![
        WasmEvent::Version { component: true },
        WasmEvent::Version { component: true },
        exports(&["wasi:cli/run@0.2.0"]),
        WasmEvent::End,
        exports(&["my:lib/api"]),
        WasmEvent::End,
    ];
    assert!(!exports_interface(&events, "wasi:cli/run"));
    assert!(exports_interface(&events, "my:lib"));
}

#[test]
fn unreadable_export_names_are_skipped() {
    let events = vec![
        WasmEvent::Version { component: true },
        WasmEvent::Exports(vec![None, Some("wasi:cli/run@0.2.3".to_owned())]),
    ];
    assert!(exports_interface(&events, "wasi:cli/run"));
}

#[test]
fn a_bare_component_exports_nothing() {
    assert!(!exports_cli_run(COMPONENT_HEADER));
    assert!(!exports_http_incoming_handler(COMPONENT_HEADER));
    assert!(!exports_cli_run(MODULE_HEADER));
}

#[test]
fn display_path_joins_interface_and_function() {
    assert_eq!(display_path(Some("my:pkg/api"), "greet"), "my:pkg/api#greet");
    assert_eq!(display_path(None, "greet"), "greet");
}

/// A component whose only section exports `wasi:http/incoming-handler@0.2.0`
/// as instance 0.
fn build_http_component() -> Vec<u8> {
    let name = b"wasi:http/incoming-handler@0.2.0";
    let mut section = vec![0x01, 0x00, name.len() as u8];
    section.extend_from_slice(name);
    section.extend_from_slice(&[0x05, 0x00, 0x00]);
    let mut bytes = COMPONENT_HEADER.to_vec();
    bytes.push(0x0b);
    bytes.push(section.len() as u8);
    bytes.extend_from_slice(&section);
    bytes
}

#[test]
fn detect_http_world_in_http_component() {
    let bytes = build_http_component();
    assert!(exports_http_incoming_handler(&bytes), "should detect wasi:http/incoming-handler export");
    assert!(!exports_cli_run(&bytes));
    assert_eq!(validate_component(&bytes), Ok(()));
}
