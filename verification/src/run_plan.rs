//! The decisions `component run` makes between its steps: where the bytes
//! of the component come from, which permissions the command line grants,
//! and how the component is launched once its world is known.
//!
//! The front end performs each step (looking at the file system, reading
//! the manifest, installing, fetching) and hands the result back here.
use vstd::prelude::*;

use crate::run_input::{
    looks_like_manifest_key, spec_looks_like_manifest_key, spec_strip_at_version, strip_at_version,
    views,
};
use crate::text::{
    decimal, is_first, lemma_first_unique, owned, push_str, split_once, str_split_once, to_decimal,
};

verus! {

/// Where the bytes of the component to run come from.
#[derive(Debug, PartialEq, Eq)]
pub enum Source {
    /// The input names a file on disk.
    LocalFile,
    /// The input is a manifest key whose component is vendored.
    Vendored,
    /// A `scope:component` input run from the global cache (`--global`).
    GlobalCache,
    /// A `scope:component` input to install into the project first; the
    /// manifest key is then looked up again.
    Install,
    /// The input is taken as an OCI reference (and read as a file when it
    /// is not one).
    Registry,
}

/// Where the bytes come from, before any installation.
pub open spec fn spec_source(input: Seq<char>, is_local: bool, vendored: bool, global: bool) -> Source {
    if is_local {
        Source::LocalFile
    } else if vendored {
        Source::Vendored
    } else if spec_looks_like_manifest_key(spec_strip_at_version(input)) {
        if global {
            Source::GlobalCache
        } else {
            Source::Install
        }
    } else {
        Source::Registry
    }
}

/// Decide where the bytes of the component to run come from. Local files
/// come first, then vendored manifest entries; other `scope:component`
/// inputs (an `@version` suffix aside) come from the global cache with
/// `--global`, else are installed; anything else is an OCI reference.
///
/// `is_local` says whether `input` exists on disk, `vendored` whether its
/// manifest key resolved to a vendored file.
pub fn source(input: &str, is_local: bool, vendored: bool, global: bool) -> (s: Source)
    ensures
        s == spec_source(input@, is_local, vendored, global),
{
    if is_local {
        Source::LocalFile
    } else if vendored {
        Source::Vendored
    } else if looks_like_manifest_key(strip_at_version(input)) {
        if global {
            Source::GlobalCache
        } else {
            Source::Install
        }
    } else {
        Source::Registry
    }
}

/// Where the bytes come from after the input was installed: the vendored
/// file if the manifest key now resolves, else the input as a reference.
pub fn source_after_install(vendored: bool) -> (s: Source)
    ensures
        s == if vendored {
            Source::Vendored
        } else {
            Source::Registry
        },
{
    if vendored {
        Source::Vendored
    } else {
        Source::Registry
    }
}

/// The permissions the command line grants explicitly; `None` leaves a
/// permission to the configuration layers below.
pub struct RunPermissions {
    pub inherit_env: Option<bool>,
    pub allow_env: Option<Vec<String>>,
    pub allow_dirs: Option<Vec<String>>,
    pub inherit_stdio: Option<bool>,
    pub inherit_network: Option<bool>,
}

/// The host flags of `component run`.
pub struct RunFlags {
    /// `--env KEY=VAL`, repeated.
    pub envs: Vec<String>,
    /// `--dir HOST_PATH`, repeated.
    pub dirs: Vec<String>,
    pub inherit_env: bool,
    pub inherit_network: bool,
    pub no_stdio: bool,
}

/// A copy of a list of strings.
fn copy_strings(v: &Vec<String>) -> (r: Vec<String>)
    ensures
        views(r@) == views(v@),
{
    let mut r: Vec<String> = Vec::new();
    let mut i: usize = 0;
    while i < v.len()
        invariant
            i <= v.len(),
            views(r@) == views(v@.take(i as int)),
        decreases v.len() - i,
    {
        let ghost before = r@;
        let c = v[i].clone();
        assert(c@ == v@[i as int]@);
        r.push(c);
        assert(r@ == before.push(c));
        assert(v@.take(i + 1) == v@.take(i as int).push(v@[i as int]));
        assert(views(before.push(c)) =~= views(before).push(c@));
        assert(views(v@.take(i as int).push(v@[i as int])) =~= views(v@.take(i as int)).push(v@[i as int]@));
        i = i + 1;
    }
    assert(v@.take(i as int) == v@);
    r
}

/// The views of an optional list of strings.
pub open spec fn opt_views(o: Option<Vec<String>>) -> Option<Seq<Seq<char>>> {
    match o {
        Some(v) => Some(views(v@)),
        None => None,
    }
}

impl RunFlags {
    /// The permissions the flags grant: each flag that was given sets its
    /// permission, the others stay unset. `--no-stdio` withdraws stdio.
    pub fn cli_permissions(&self) -> (p: RunPermissions)
        ensures
            p.inherit_env == if self.inherit_env {
                Some(true)
            } else {
                None
            },
            opt_views(p.allow_env) == if self.envs@.len() > 0 {
                Some(views(self.envs@))
            } else {
                None
            },
            opt_views(p.allow_dirs) == if self.dirs@.len() > 0 {
                Some(views(self.dirs@))
            } else {
                None
            },
            p.inherit_stdio == if self.no_stdio {
                Some(false)
            } else {
                None
            },
            p.inherit_network == if self.inherit_network {
                Some(true)
            } else {
                None
            },
    {
        RunPermissions {
            inherit_env: if self.inherit_env {
                Some(true)
            } else {
                None
            },
            allow_env: if self.envs.len() > 0 {
                Some(copy_strings(&self.envs))
            } else {
                None
            },
            allow_dirs: if self.dirs.len() > 0 {
                Some(copy_strings(&self.dirs))
            } else {
                None
            },
            inherit_stdio: if self.no_stdio {
                Some(false)
            } else {
                None
            },
            inherit_network: if self.inherit_network {
                Some(true)
            } else {
                None
            },
        }
    }
}

/// The `{:?}` form of a list of strings (`["a", "b"]`, each string
/// escaped as `str::escape_debug` does).
pub uninterp spec fn debug_list(items: Seq<Seq<char>>) -> Seq<char>;

/// `format!("{:?}", items)`.
///
/// The text is named by `debug_list`; it depends on the strings alone.
#[verifier::external_body]
fn debug_strings(items: &Vec<String>) -> (s: String)
    ensures
        s@ == debug_list(views(items@)),
{
    format!("{:?}", items)
}

/// How a validated component is launched.
#[derive(Debug, PartialEq, Eq)]
pub enum Launch {
    /// Serve it over HTTP (`wasi:http/proxy`).
    Serve,
    /// Refuse: an HTTP proxy takes no guest arguments; the message.
    TrailingArgumentsRefused(String),
    /// Run it as a command (`wasi:cli/command`), the guest arguments as
    /// `argv`.
    Command,
    /// Dispatch the guest arguments to its exported functions.
    Library,
}

/// The message that refuses guest arguments for an HTTP proxy.
pub open spec fn trailing_args_message(extra: Seq<Seq<char>>) -> Seq<char> {
    "trailing arguments are not allowed for HTTP-proxy components: "@ + debug_list(extra)
}

/// Decide how to launch a component from the worlds it targets:
/// components that export `wasi:http/incoming-handler` are served (and take
/// no guest arguments), those that export `wasi:cli/run` run as commands,
/// all others are libraries.
pub fn launch(http: bool, cli: bool, extra: &Vec<String>) -> (l: Launch)
    ensures
        match l {
            Launch::Serve => http && extra@.len() == 0,
            Launch::TrailingArgumentsRefused(m) => http && extra@.len() > 0 && m@
                == trailing_args_message(views(extra@)),
            Launch::Command => !http && cli,
            Launch::Library => !http && !cli,
        },
{
    if http {
        if extra.len() == 0 {
            Launch::Serve
        } else {
            let mut m = owned("trailing arguments are not allowed for HTTP-proxy components: ");
            let listed = debug_strings(extra);
            push_str(&mut m, listed.as_str());
            Launch::TrailingArgumentsRefused(m)
        }
    } else if cli {
        Launch::Command
    } else {
        Launch::Library
    }
}

/// How an `allow_env` entry reaches the guest.
#[derive(Debug, PartialEq, Eq)]
pub enum EnvEntry<'a> {
    /// `KEY=VAL` (from `--env`): set `KEY` to `VAL`.
    Pair(&'a str, &'a str),
    /// A bare name: pass the host's value of that variable, if it has one.
    Inherit(&'a str),
}

/// Read an `allow_env` entry: entries with `=` are split at the first
/// `=` into a name and a value; others name a host variable.
pub fn env_entry(entry: &str) -> (e: EnvEntry)
    ensures
        match e {
            EnvEntry::Pair(k, v) => split_once(entry@, '=') == Some((k@, v@)),
            EnvEntry::Inherit(name) => split_once(entry@, '=') is None && name@ == entry@,
        },
{
    match str_split_once(entry, '=') {
        Some((k, v)) => EnvEntry::Pair(k, v),
        None => EnvEntry::Inherit(entry),
    }
}

/// Why a library-style component cannot be invoked.
pub enum LibraryRefusal {
    /// It exports a resource, named here.
    Resource { name: String },
    /// Every export uses an unsupported type; the reasons.
    NoInvocableFunctions { reasons: String },
}

/// The message and help of a refused library-style component.
pub open spec fn spec_refusal(r: LibraryRefusal) -> (Seq<char>, Seq<char>) {
    match r {
        LibraryRefusal::Resource { name } => (
            "component exports the resource `"@ + name@ + "`, which is not supported by `component run`"@,
            "library-style invocation does not support resources; use a CLI or HTTP component instead"@,
        ),
        LibraryRefusal::NoInvocableFunctions { reasons } => (
            "no invocable functions: every export uses an unsupported type ("@ + reasons@ + ")"@,
            "library-style invocation does not support these types; use a CLI or HTTP component instead"@,
        ),
    }
}

impl LibraryRefusal {
    /// The message and the help of the refusal.
    pub fn message(&self) -> (r: (String, String))
        ensures
            (r.0@, r.1@) == spec_refusal(*self),
    {
        match self {
            LibraryRefusal::Resource { name } => {
                let mut m = owned("component exports the resource `");
                push_str(&mut m, name.as_str());
                push_str(&mut m, "`, which is not supported by `component run`");
                (
                    m,
                    owned(
                        "library-style invocation does not support resources; use a CLI or HTTP component instead",
                    ),
                )
            },
            LibraryRefusal::NoInvocableFunctions { reasons } => {
                let mut m = owned("no invocable functions: every export uses an unsupported type (");
                push_str(&mut m, reasons.as_str());
                push_str(&mut m, ")");
                (
                    m,
                    owned(
                        "library-style invocation does not support these types; use a CLI or HTTP component instead",
                    ),
                )
            },
        }
    }
}

/// The error when the runtime returned another number of values than the
/// function's WIT signature declares; none when they agree.
pub fn result_count_mismatch(expected: usize, returned: usize) -> (m: Option<String>)
    ensures
        match m {
            Some(s) => expected != returned && s@ == "result count mismatch: WIT declares "@ + decimal(
                expected as nat,
            ) + " value(s), runtime returned "@ + decimal(returned as nat),
            None => expected == returned,
        },
{
    if expected == returned {
        return None;
    }
    let mut s = owned("result count mismatch: WIT declares ");
    push_str(&mut s, to_decimal(expected as u64).as_str());
    push_str(&mut s, " value(s), runtime returned ");
    push_str(&mut s, to_decimal(returned as u64).as_str());
    Some(s)
}

/// With neither a local file nor a vendored entry, `--global` only chooses
/// between the global cache and installing: an input runs from the global
/// cache with `--global` exactly when it is installed without it, and is
/// fetched as a reference in both cases or in neither.
pub proof fn law_global_only_picks_cache_over_install(input: Seq<char>)
    ensures
        (spec_source(input, false, false, true) == Source::GlobalCache) == (spec_source(
            input,
            false,
            false,
            false,
        ) == Source::Install),
        (spec_source(input, false, false, true) == Source::Registry) == (spec_source(
            input,
            false,
            false,
            false,
        ) == Source::Registry),
        spec_source(input, false, false, true) != Source::Install,
        spec_source(input, false, false, false) != Source::GlobalCache,
{
}

/// An `@version` suffix never changes where the bytes come from: for a
/// name without `@`, `name@version` has the source of `name`, with or
/// without `--global`.
pub proof fn law_version_suffix_is_ignored(
    name: Seq<char>,
    version: Seq<char>,
    is_local: bool,
    vendored: bool,
    global: bool,
)
    requires
        !name.contains('@'),
    ensures
        spec_source(name + seq!['@'] + version, is_local, vendored, global) == spec_source(
            name,
            is_local,
            vendored,
            global,
        ),
{
    let s = name + seq!['@'] + version;
    let n = name.len() as int;
    assert(s[n] == '@');
    assert forall|j: int| 0 <= j < n implies s[j] != '@' by {
        assert(s[j] == name[j]);
        if name[j] == '@' {
            assert(name.contains('@'));
        }
    }
    assert(is_first(s, '@', n));
    lemma_first_unique(s, '@', n);
    assert(s.take(n) =~= name);
    assert(spec_strip_at_version(s) == name);
    assert(spec_strip_at_version(name) == name);
}

} // verus!
