//! The checks the component runner makes before it hands a binary to the
//! Wasm engine, and the names it reports calls under.
use vstd::prelude::*;

use crate::text::{owned, push_str};
use crate::wasm::{parse_events, wasm_events, WasmEvent};

verus! {

/// Why a binary cannot be run as a component.
#[derive(Debug, PartialEq, Eq)]
pub enum RunError {
    /// The binary is a core module, not a component.
    CoreModule,
    /// The binary is malformed; the parser's message.
    InvalidBinary { reason: String },
    /// The binary has no module or component header.
    NoVersionHeader,
}

/// What checking the walk `events` from event `i` on concludes: the first
/// header decides, unless the walk breaks off first.
pub open spec fn validation_from(events: Seq<WasmEvent>, i: nat) -> Result<(), RunError>
    decreases events.len() - i,
{
    if i >= events.len() {
        Err(RunError::NoVersionHeader)
    } else {
        match events[i as int] {
            WasmEvent::Version { component } => if component {
                Ok(())
            } else {
                Err(RunError::CoreModule)
            },
            WasmEvent::Invalid(reason) => Err(RunError::InvalidBinary { reason }),
            _ => validation_from(events, i + 1),
        }
    }
}

/// What checking the walk `events` concludes.
pub open spec fn validation(events: Seq<WasmEvent>) -> Result<(), RunError> {
    validation_from(events, 0)
}

/// Check the walk of a binary: `Ok` if its first header is a component's,
/// `CoreModule` if it is a core module's, `InvalidBinary` if the walk
/// breaks off before any header, `NoVersionHeader` if it has none.
pub fn validate_events(events: &Vec<WasmEvent>) -> (r: Result<(), RunError>)
    ensures
        r == validation(events@),
{
    let mut i: usize = 0;
    while i < events.len()
        invariant
            i <= events.len(),
            validation(events@) == validation_from(events@, i as nat),
        decreases events.len() - i,
    {
        match &events[i] {
            WasmEvent::Version { component } => {
                return if *component {
                    Ok(())
                } else {
                    Err(RunError::CoreModule)
                };
            },
            WasmEvent::Invalid(reason) => {
                return Err(RunError::InvalidBinary { reason: reason.clone() });
            },
            _ => {},
        }
        i = i + 1;
    }
    Err(RunError::NoVersionHeader)
}

/// Confirm the bytes are a Wasm component (not a core module or a
/// WIT-only package).
pub fn validate_component(bytes: &[u8]) -> (r: Result<(), RunError>)
    ensures
        r == validation(wasm_events(bytes@)),
{
    let events = parse_events(bytes);
    validate_events(&events)
}

/// The name a call is reported under: `interface#func`, or the function
/// alone when it is exported at the top level.
pub open spec fn spec_display_path(interface: Option<Seq<char>>, func: Seq<char>) -> Seq<char> {
    match interface {
        Some(i) => i + "#"@ + func,
        None => func,
    }
}

/// The name a call is reported under.
pub fn display_path(interface: Option<&str>, func: &str) -> (s: String)
    ensures
        s@ == spec_display_path(
            match interface {
                Some(i) => Some(i@),
                None => None,
            },
            func@,
        ),
{
    match interface {
        Some(iface) => {
            let mut s = owned(iface);
            push_str(&mut s, "#");
            push_str(&mut s, func);
            s
        },
        None => owned(func),
    }
}

} // verus!
