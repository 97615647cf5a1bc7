//! The logic of the `component` command line for WebAssembly components:
//! how `run` reads its arguments and picks a component and a world, what
//! `install` records and shows, what `registry` searches, inspects,
//! publishes and reports, the client decisions of guest HTTP requests, and
//! the server-rendered pieces of the package site.

pub mod text;
pub mod publish;
pub mod run_input;
pub mod progress;
pub mod errors;
pub mod frontend;
pub mod inspect;
pub mod wasm;
pub mod internal_run;
pub mod search;
pub mod install;
pub mod run_plan;
pub mod registry_report;
pub mod run_resolve;
pub mod http_client;
pub mod local;
