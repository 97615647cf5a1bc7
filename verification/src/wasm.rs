//! What `component run` reads from the sections of a Wasm binary: whether
//! it is a component, and which interfaces its outermost component exports.
//!
//! `wasmparser` walks the binary; the library sees the walk as a list of
//! events and decides from them.
use vstd::prelude::*;

use wasmparser::{Encoding, Parser, Payload};

use crate::text::{has_prefix, starts_with};

verus! {

/// One step of `wasmparser`'s walk over a binary.
pub enum WasmEvent {
    /// The header of a module or component, nested ones included.
    Version { component: bool },
    /// The end of a module or component.
    End,
    /// A component export section: the name of each export, or `None`
    /// for one that could not be read.
    Exports(Vec<Option<String>>),
    /// Any other section.
    Other,
    /// The walk stopped on malformed input; the parser's message.
    Invalid(String),
}

/// The events of `wasmparser::Parser::new(0).parse_all(bytes)`.
pub uninterp spec fn wasm_events(bytes: Seq<u8>) -> Seq<WasmEvent>;

/// Walk `bytes` with `wasmparser` (`Parser::parse_all`), one event per
/// payload, the export names of export sections taken out.
///
/// The list is named by `wasm_events`: the parser reads nothing but the
/// bytes.
#[verifier::external_body]
pub(crate) fn parse_events(bytes: &[u8]) -> (events: Vec<WasmEvent>)
    ensures
        events@ == wasm_events(bytes@),
{
    let mut events = Vec::new();
    for payload in Parser::new(0).parse_all(bytes) {
        events.push(match payload {
            Ok(Payload::Version { encoding, .. }) => WasmEvent::Version { component: encoding == Encoding::Component },
            Ok(Payload::End(_)) => WasmEvent::End,
            Ok(Payload::ComponentExportSection(reader)) => WasmEvent::Exports(
                reader.into_iter().map(|e| e.ok().map(|e| e.name.name.to_string())).collect(),
            ),
            Ok(_) => WasmEvent::Other,
            Err(e) => WasmEvent::Invalid(e.to_string()),
        });
    }
    events
}

/// `name` was readable and starts with `prefix`.
pub open spec fn readable_with_prefix(name: Option<String>, prefix: Seq<char>) -> bool {
    match name {
        Some(n) => has_prefix(n@, prefix),
        None => false,
    }
}

/// Some readable name in `names` starts with `prefix`.
pub open spec fn some_name_starts_with(names: Seq<Option<String>>, prefix: Seq<char>) -> bool {
    exists|k: int| 0 <= k < names.len() && #[trigger] readable_with_prefix(names[k], prefix)
}

/// From event `i` on, with the walk `depth` modules or components deep, an
/// export section of the outermost component names an export that starts
/// with `prefix`.
pub open spec fn exports_from(events: Seq<WasmEvent>, i: nat, depth: nat, prefix: Seq<char>) -> bool
    decreases events.len() - i,
{
    if i >= events.len() {
        false
    } else {
        match events[i as int] {
            WasmEvent::Version { .. } => exports_from(events, i + 1, depth + 1, prefix),
            WasmEvent::End => exports_from(
                events,
                i + 1,
                if depth == 0 {
                    0
                } else {
                    (depth - 1) as nat
                },
                prefix,
            ),
            WasmEvent::Exports(names) => (depth == 1 && some_name_starts_with(names@, prefix))
                || exports_from(events, i + 1, depth, prefix),
            _ => exports_from(events, i + 1, depth, prefix),
        }
    }
}

/// The outermost component of the walk `events` exports a name starting
/// with `prefix`; exports of nested components do not count.
pub open spec fn top_level_exports(events: Seq<WasmEvent>, prefix: Seq<char>) -> bool {
    exports_from(events, 0, 0, prefix)
}

/// Whether some readable name in `names` starts with `prefix`.
fn any_name_starts_with(names: &Vec<Option<String>>, prefix: &str) -> (r: bool)
    ensures
        r == some_name_starts_with(names@, prefix@),
{
    let mut k: usize = 0;
    while k < names.len()
        invariant
            k <= names.len(),
            forall|j: int| 0 <= j < k ==> !#[trigger] readable_with_prefix(names@[j], prefix@),
        decreases names.len() - k,
    {
        if let Some(n) = &names[k] {
            if starts_with(n.as_str(), prefix) {
                assert(readable_with_prefix(names@[k as int], prefix@));
                return true;
            }
        }
        k = k + 1;
    }
    false
}

/// Whether the outermost component of the walk `events` exports a name
/// starting with `prefix`. Nesting is tracked through the `Version` and
/// `End` events; an `End` at the outermost level leaves the depth at zero.
pub fn exports_interface(events: &Vec<WasmEvent>, prefix: &str) -> (r: bool)
    ensures
        r == top_level_exports(events@, prefix@),
{
    let mut depth: u64 = 0;
    let mut i: usize = 0;
    while i < events.len()
        invariant
            i <= events.len(),
            depth <= i,
            top_level_exports(events@, prefix@) == exports_from(events@, i as nat, depth as nat, prefix@),
        decreases events.len() - i,
    {
        match &events[i] {
            WasmEvent::Version { .. } => {
                depth = depth + 1;
            },
            WasmEvent::End => {
                if depth > 0 {
                    depth = depth - 1;
                }
            },
            WasmEvent::Exports(names) => {
                if depth == 1 && any_name_starts_with(names, prefix) {
                    return true;
                }
            },
            _ => {},
        }
        i = i + 1;
    }
    false
}

/// Whether the component in `bytes` exports `wasi:http/incoming-handler`,
/// that is, targets the `wasi:http/proxy` world. Only exports of the
/// outermost component count.
pub fn exports_http_incoming_handler(bytes: &[u8]) -> (r: bool)
    ensures
        r == top_level_exports(wasm_events(bytes@), "wasi:http/incoming-handler"@),
{
    let events = parse_events(bytes);
    exports_interface(&events, "wasi:http/incoming-handler")
}

/// Whether the component in `bytes` exports `wasi:cli/run`, the hint that
/// it targets `wasi:cli/command`. Only exports of the outermost component
/// count.
pub fn exports_cli_run(bytes: &[u8]) -> (r: bool)
    ensures
        r == top_level_exports(wasm_events(bytes@), "wasi:cli/run"@),
{
    let events = parse_events(bytes);
    exports_interface(&events, "wasi:cli/run")
}

/// An event that neither opens nor closes a module or component.
pub open spec fn keeps_depth(e: WasmEvent) -> bool {
    !(e is Version) && !(e is End)
}

/// Events that keep the depth never hide a later finding: what is found
/// after them is found from before them.
proof fn lemma_skip_level_events(events: Seq<WasmEvent>, i: nat, j: nat, depth: nat, prefix: Seq<char>)
    requires
        i <= j <= events.len(),
        forall|k: int| i <= k < j ==> keeps_depth(#[trigger] events[k]),
        exports_from(events, j, depth, prefix),
    ensures
        exports_from(events, i, depth, prefix),
    decreases j - i,
{
    if i < j {
        lemma_skip_level_events(events, i + 1, j, depth, prefix);
        assert(keeps_depth(events[i as int]));
    }
}

/// A component's own exports are found even after a nested core module or
/// component that closes before them: every module or component header
/// opens a level and every end closes one, so a nested block, whatever it
/// holds at its own level, leaves the outer component at the outermost
/// level. For the walk `V(component) ++ other ++ V(nested) ++ inner ++ End
/// ++ Exports(names) ++ rest`, where `other` and `inner` neither open nor
/// close a level and some readable name starts with `prefix`, the
/// outermost component exports `prefix`.
pub proof fn law_nested_block_does_not_hide_exports(
    other: Seq<WasmEvent>,
    nested_is_component: bool,
    inner: Seq<WasmEvent>,
    names: Vec<Option<String>>,
    rest: Seq<WasmEvent>,
    prefix: Seq<char>,
    k: int,
)
    requires
        forall|j: int| 0 <= j < other.len() ==> keeps_depth(#[trigger] other[j]),
        forall|j: int| 0 <= j < inner.len() ==> keeps_depth(#[trigger] inner[j]),
        0 <= k < names@.len(),
        readable_with_prefix(names@[k], prefix),
    ensures
        top_level_exports(
            seq![WasmEvent::Version { component: true }] + other + seq![
                WasmEvent::Version { component: nested_is_component },
            ] + inner + seq![WasmEvent::End, WasmEvent::Exports(names)] + rest,
            prefix,
        ),
{
    let e = seq![WasmEvent::Version { component: true }] + other + seq![
        WasmEvent::Version { component: nested_is_component },
    ] + inner + seq![WasmEvent::End, WasmEvent::Exports(names)] + rest;
    let a: int = 1 + other.len() as int;
    let b: int = a + 1 + inner.len() as int;
    assert(e[0] == WasmEvent::Version { component: true });
    assert(e[a] == WasmEvent::Version { component: nested_is_component });
    assert(e[b] == WasmEvent::End);
    assert(e[b + 1] == WasmEvent::Exports(names));
    assert(some_name_starts_with(names@, prefix));
    assert(exports_from(e, (b + 1) as nat, 1, prefix));
    assert(exports_from(e, b as nat, 2, prefix));
    assert forall|j: int| (a + 1) <= j < b implies keeps_depth(#[trigger] e[j]) by {
        assert(e[j] == inner[j - a - 1]);
    }
    lemma_skip_level_events(e, (a + 1) as nat, b as nat, 2, prefix);
    assert(exports_from(e, a as nat, 1, prefix));
    assert forall|j: int| 1 <= j < a implies keeps_depth(#[trigger] e[j]) by {
        assert(e[j] == other[j - 1]);
    }
    lemma_skip_level_events(e, 1, a as nat, 1, prefix);
    assert(exports_from(e, 0, 0, prefix));
}

/// Exports of a nested component never count: for the walk
/// `V(component) ++ V(component) ++ Exports(names) ++ End ++ End`, nothing
/// is exported at the outermost level, whatever the names.
pub proof fn law_nested_exports_do_not_count(names: Vec<Option<String>>, prefix: Seq<char>)
    ensures
        !top_level_exports(
            seq![
                WasmEvent::Version { component: true },
                WasmEvent::Version { component: true },
                WasmEvent::Exports(names),
                WasmEvent::End,
                WasmEvent::End,
            ],
            prefix,
        ),
{
    let e = seq![
        WasmEvent::Version { component: true },
        WasmEvent::Version { component: true },
        WasmEvent::Exports(names),
        WasmEvent::End,
        WasmEvent::End,
    ];
    assert(e[0] == WasmEvent::Version { component: true });
    assert(e[1] == WasmEvent::Version { component: true });
    assert(e[2] == WasmEvent::Exports(names));
    assert(e[3] == WasmEvent::End);
    assert(e[4] == WasmEvent::End);
    assert(!exports_from(e, 5, 0, prefix));
    assert(!exports_from(e, 4, 1, prefix));
    assert(!exports_from(e, 3, 2, prefix));
    assert(!exports_from(e, 2, 2, prefix));
    assert(!exports_from(e, 1, 1, prefix));
    assert(!exports_from(e, 0, 0, prefix));
}

} // verus!
