//! What `component install` records for a package it installed at the top
//! level: the name it goes under, its manifest entry and its lockfile
//! entry; and which resolved dependencies it installs beside them.
use vstd::prelude::*;

use crate::text::{owned, push_str, split_once, str_eq, str_split_once};

verus! {

/// A dependency a package declares, with the version it resolved to, if
/// any.
pub struct DependencyItem {
    pub package: String,
    pub version: Option<String>,
}

/// What installing one package produced.
pub struct InstallResult {
    pub registry: String,
    pub repository: String,
    pub tag: Option<String>,
    pub digest: Option<String>,
    /// The WIT package name from the package's metadata, possibly with a
    /// `@version` suffix.
    pub package_name: Option<String>,
    pub oci_title: Option<String>,
    pub is_component: bool,
    pub dependencies: Vec<DependencyItem>,
}

/// A dependency entry of a locked package.
pub struct PackageDependency {
    pub name: String,
    pub version: String,
    pub registry: String,
    pub digest: String,
}

/// A lockfile entry.
pub struct LockedPackage {
    pub name: String,
    pub version: String,
    pub registry: String,
    pub digest: String,
    pub dependencies: Vec<PackageDependency>,
}

/// Where the name of a top-level dependency comes from.
#[derive(Debug, PartialEq, Eq)]
pub enum DependencyName {
    /// The WIT-style name the user gave.
    Given(String),
    /// A component without a given name: derived from its metadata, OCI
    /// title or repository (`derive_component_name`).
    DeriveFromComponent,
    /// An interface: its WIT package name without version, or
    /// `registry/repository`.
    Interface(String),
}

/// The characters of an optional text.
pub open spec fn opt_chars(o: Option<String>) -> Option<Seq<char>> {
    match o {
        Some(s) => Some(s@),
        None => None,
    }
}

/// `registry/repository` of an install result.
pub open spec fn registry_path(r: InstallResult) -> Seq<char> {
    r.registry@ + "/"@ + r.repository@
}

/// The name an interface goes under: its package name up to the first
/// `@`, or `registry/repository` when it has none.
pub open spec fn interface_name(r: InstallResult) -> Seq<char> {
    match r.package_name {
        Some(n) => match split_once(n@, '@') {
            Some(parts) => parts.0,
            None => n@,
        },
        None => registry_path(r),
    }
}

/// The name source of a top-level dependency, with `0` for a given name,
/// `1` for one to derive, `2` for an interface.
pub open spec fn name_view(d: DependencyName) -> (nat, Seq<char>) {
    match d {
        DependencyName::Given(n) => (0, n@),
        DependencyName::DeriveFromComponent => (1, Seq::empty()),
        DependencyName::Interface(n) => (2, n@),
    }
}

/// `registry/repository` of an install result.
fn registry_path_of(result: &InstallResult) -> (s: String)
    ensures
        s@ == registry_path(*result),
{
    let mut s = owned(result.registry.as_str());
    push_str(&mut s, "/");
    push_str(&mut s, result.repository.as_str());
    s
}

/// Choose the name a top-level dependency goes under: the name the user
/// gave, else (for a component) a derived name, else the interface's
/// package name.
pub fn dependency_name(explicit_name: Option<String>, result: &InstallResult) -> (d: DependencyName)
    ensures
        name_view(d) == match explicit_name {
            Some(n) => (0nat, n@),
            None => if result.is_component {
                (1nat, Seq::empty())
            } else {
                (2nat, interface_name(*result))
            },
        },
{
    match explicit_name {
        Some(n) => DependencyName::Given(n),
        None => {
            if result.is_component {
                DependencyName::DeriveFromComponent
            } else {
                match &result.package_name {
                    Some(n) => match str_split_once(n.as_str(), '@') {
                        Some((head, _)) => DependencyName::Interface(owned(head)),
                        None => DependencyName::Interface(n.clone()),
                    },
                    None => DependencyName::Interface(registry_path_of(result)),
                }
            }
        },
    }
}

/// The version recorded for an install result: its tag, or empty.
pub open spec fn recorded_version(r: InstallResult) -> Seq<char> {
    match r.tag {
        Some(t) => t@,
        None => Seq::empty(),
    }
}

/// The dependencies of `items` that resolved to a version, in order.
pub open spec fn versioned(items: Seq<DependencyItem>) -> Seq<DependencyItem>
    decreases items.len(),
{
    if items.len() == 0 {
        Seq::empty()
    } else if items.last().version is Some {
        versioned(items.drop_last()).push(items.last())
    } else {
        versioned(items.drop_last())
    }
}

/// `entries` record the dependencies `items` by name and version, with
/// registry and digest left empty.
pub open spec fn records_dependencies(entries: Seq<PackageDependency>, items: Seq<DependencyItem>) -> bool {
    &&& entries.len() == items.len()
    &&& forall|k: int|
        0 <= k < entries.len() ==> {
            &&& #[trigger] entries[k].name@ == items[k].package@
            &&& opt_chars(items[k].version) == Some(entries[k].version@)
            &&& entries[k].registry@.len() == 0
            &&& entries[k].digest@.len() == 0
        }
}

/// The lockfile entry of a top-level install under `name`: its tag (or
/// empty) as version, `registry/repository`, its digest (or empty), and
/// the dependencies that resolved to a version, registry and digest left
/// for later.
pub fn locked_package(result: &InstallResult, name: String) -> (p: LockedPackage)
    ensures
        p.name@ == name@,
        p.version@ == recorded_version(*result),
        p.registry@ == registry_path(*result),
        p.digest@ == match result.digest {
            Some(d) => d@,
            None => Seq::empty(),
        },
        records_dependencies(p.dependencies@, versioned(result.dependencies@)),
{
    let mut deps: Vec<PackageDependency> = Vec::new();
    let mut i: usize = 0;
    while i < result.dependencies.len()
        invariant
            i <= result.dependencies.len(),
            records_dependencies(deps@, versioned(result.dependencies@.take(i as int))),
        decreases result.dependencies.len() - i,
    {
        let d = &result.dependencies[i];
        assert(result.dependencies@.take(i + 1).drop_last() == result.dependencies@.take(i as int));
        if let Some(v) = &d.version {
            deps.push(PackageDependency {
                name: d.package.clone(),
                version: v.clone(),
                registry: String::new(),
                digest: String::new(),
            });
        }
        i = i + 1;
    }
    assert(result.dependencies@.take(i as int) == result.dependencies@);
    let version = match &result.tag {
        Some(t) => t.clone(),
        None => String::new(),
    };
    let digest = match &result.digest {
        Some(d) => d.clone(),
        None => String::new(),
    };
    LockedPackage { name, version, registry: registry_path_of(result), digest, dependencies: deps }
}

/// A manifest entry: the table it goes in, its key and its compact
/// version.
pub struct ManifestEntry {
    /// `true` for `[dependencies.components]`, `false` for
    /// `[dependencies.interfaces]`.
    pub component: bool,
    pub name: String,
    pub version: String,
}

/// The manifest entry a top-level install adds under `name`, when the
/// manifest is to be updated: components and interfaces go to their own
/// tables, keyed by name, with the tag (or empty) as compact version.
pub fn manifest_entry(result: &InstallResult, update_manifest: bool, name: &str) -> (e: Option<ManifestEntry>)
    ensures
        match e {
            Some(entry) => update_manifest && entry.component == result.is_component && entry.name@ == name@
                && entry.version@ == recorded_version(*result),
            None => !update_manifest,
        },
{
    if update_manifest {
        let version = match &result.tag {
            Some(t) => t.clone(),
            None => String::new(),
        };
        Some(ManifestEntry { component: result.is_component, name: owned(name), version })
    } else {
        None
    }
}

/// `names` holds the name `n`.
pub open spec fn names_hold(names: Seq<String>, n: Seq<char>) -> bool {
    exists|i: int| 0 <= i < names.len() && #[trigger] names[i]@ == n
}

/// The resolved dependencies `(name, version)` that are installed as
/// transitive dependencies, in order: those that are not a package asked
/// for at the top level (`roots`) and not an interface the lockfile already
/// records (`locked`).
pub open spec fn planned_transitive(
    resolved: Seq<(String, String)>,
    roots: Seq<String>,
    locked: Seq<String>,
) -> Seq<(String, String)>
    decreases resolved.len(),
{
    if resolved.len() == 0 {
        Seq::empty()
    } else {
        let rest = planned_transitive(resolved.drop_last(), roots, locked);
        let last = resolved.last();
        if names_hold(roots, last.0@) || names_hold(locked, last.0@) {
            rest
        } else {
            rest.push(last)
        }
    }
}

/// Whether `names` holds `n`.
fn holds_name(names: &Vec<String>, n: &str) -> (r: bool)
    ensures
        r == names_hold(names@, n@),
{
    let mut i: usize = 0;
    while i < names.len()
        invariant
            i <= names.len(),
            forall|j: int| 0 <= j < i ==> names@[j]@ != n@,
        decreases names.len() - i,
    {
        if str_eq(names[i].as_str(), n) {
            return true;
        }
        i = i + 1;
    }
    false
}

/// The transitive installs of a plan: the resolved dependencies, in order,
/// without the packages asked for at the top level (they are installed in
/// the main batch) and without the interfaces the lockfile already records
/// (they need no download).
pub fn transitive_installs(
    resolved: Vec<(String, String)>,
    roots: &Vec<String>,
    locked: &Vec<String>,
) -> (r: Vec<(String, String)>)
    ensures
        r@ == planned_transitive(resolved@, roots@, locked@),
{
    let mut out: Vec<(String, String)> = Vec::new();
    let mut i: usize = 0;
    while i < resolved.len()
        invariant
            i <= resolved.len(),
            out@ == planned_transitive(resolved@.take(i as int), roots@, locked@),
        decreases resolved.len() - i,
    {
        assert(resolved@.take(i + 1).drop_last() == resolved@.take(i as int));
        let name = resolved[i].0.as_str();
        if !holds_name(roots, name) && !holds_name(locked, name) {
            out.push((resolved[i].0.clone(), resolved[i].1.clone()));
            assert(out@.last() == resolved@[i as int]);
        }
        i = i + 1;
    }
    assert(resolved@.take(i as int) == resolved@);
    out
}

/// No transitive install is a top-level package or an interface already
/// locked, and every resolved dependency that is neither is installed.
pub proof fn law_transitive_installs_skip_roots_and_locked(
    resolved: Seq<(String, String)>,
    roots: Seq<String>,
    locked: Seq<String>,
)
    ensures
        forall|k: int|
            0 <= k < planned_transitive(resolved, roots, locked).len() ==> {
                let e = #[trigger] planned_transitive(resolved, roots, locked)[k];
                &&& !names_hold(roots, e.0@)
                &&& !names_hold(locked, e.0@)
                &&& resolved.contains(e)
            },
        forall|k: int|
            0 <= k < resolved.len() && !names_hold(roots, #[trigger] resolved[k].0@) && !names_hold(
                locked,
                resolved[k].0@,
            ) ==> planned_transitive(resolved, roots, locked).contains(resolved[k]),
    decreases resolved.len(),
{
    if resolved.len() > 0 {
        let init = resolved.drop_last();
        law_transitive_installs_skip_roots_and_locked(init, roots, locked);
        let p = planned_transitive(resolved, roots, locked);
        let q = planned_transitive(init, roots, locked);
        assert forall|k: int| 0 <= k < p.len() implies {
            let e = #[trigger] p[k];
            &&& !names_hold(roots, e.0@)
            &&& !names_hold(locked, e.0@)
            &&& resolved.contains(e)
        } by {
            if k < q.len() {
                assert(p[k] == q[k]);
                let e = q[k];
                let j = choose|j: int| 0 <= j < init.len() && init[j] == e;
                assert(resolved[j] == e);
            } else {
                assert(p[k] == resolved.last());
                assert(resolved[resolved.len() - 1] == resolved.last());
            }
        }
        assert forall|k: int|
            0 <= k < resolved.len() && !names_hold(roots, #[trigger] resolved[k].0@) && !names_hold(
                locked,
                resolved[k].0@,
            ) implies p.contains(resolved[k]) by {
            if k < resolved.len() - 1 {
                assert(init[k] == resolved[k]);
                assert(q.contains(init[k]));
                let j = choose|j: int| 0 <= j < q.len() && q[j] == init[k];
                assert(p[j] == q[j]);
            } else {
                assert(p[p.len() - 1] == resolved[k]);
            }
        }
    }
}

/// A version as the dependency resolver compares it.
#[derive(Clone, Copy, Debug, PartialEq, Eq, Structural)]
pub struct WitVersion {
    pub major: u64,
    pub minor: u64,
    pub patch: u64,
}

/// A package asked for at the top level, as the resolver's planning pass
/// sees it.
pub struct RootCandidate {
    /// The WIT-style name the package was asked for by, if any.
    pub explicit_name: Option<String>,
    /// Whether that name looks like a WIT name (`namespace:package`).
    pub looks_like_wit_name: bool,
    /// The version parsed from the reference's tag (see `tag_version_text`),
    /// when it parses.
    pub version: Option<WitVersion>,
}

/// A tag without its leading `v`s.
pub open spec fn strip_lower_vs(tag: Seq<char>) -> Seq<char>
    decreases tag.len(),
{
    if tag.len() > 0 && tag[0] == 'v' {
        strip_lower_vs(tag.drop_first())
    } else {
        tag
    }
}

/// The text a reference's tag is parsed as a version from: the tag (empty
/// when there is none) without its leading `v`s.
pub fn tag_version_text(tag: Option<&str>) -> (r: String)
    ensures
        r@ == strip_lower_vs(
            match tag {
                Some(t) => t@,
                None => Seq::empty(),
            },
        ),
{
    match tag {
        None => String::new(),
        Some(t) => {
            let cs = crate::text::chars_of(t);
            let mut i: usize = 0;
            assert(t@.skip(0) == t@);
            while i < cs.len() && cs[i] == 'v'
                invariant
                    cs@ == t@,
                    i <= cs.len(),
                    strip_lower_vs(t@) == strip_lower_vs(t@.skip(i as int)),
                decreases cs.len() - i,
            {
                assert(t@.skip(i as int).drop_first() == t@.skip(i + 1));
                i = i + 1;
            }
            let mut r = String::new();
            let mut j: usize = i;
            while j < cs.len()
                invariant
                    cs@ == t@,
                    i <= j <= cs.len(),
                    r@ == t@.subrange(i as int, j as int),
                decreases cs.len() - j,
            {
                crate::text::push_char(&mut r, cs[j]);
                assert(t@.subrange(i as int, j + 1) == t@.subrange(i as int, j as int).push(t@[j as int]));
                j = j + 1;
            }
            assert(t@.skip(i as int) == t@.subrange(i as int, cs.len() as int));
            assert(strip_lower_vs(t@.skip(i as int)) == t@.skip(i as int));
            r
        },
    }
}

/// The version `0.0.0`, which a root whose tag does not parse is planned
/// at, so that its dependencies are still resolved.
pub open spec fn zero_version() -> WitVersion {
    WitVersion { major: 0, minor: 0, patch: 0 }
}

/// The resolver roots of the top-level packages, in order: each package
/// asked for by a name that looks like a WIT name, at its parsed version
/// or else `0.0.0`.
pub open spec fn spec_roots(cands: Seq<RootCandidate>) -> Seq<(Seq<char>, WitVersion)>
    decreases cands.len(),
{
    if cands.len() == 0 {
        Seq::empty()
    } else {
        let rest = spec_roots(cands.drop_last());
        let c = cands.last();
        match c.explicit_name {
            Some(n) => if c.looks_like_wit_name {
                rest.push(
                    (
                        n@,
                        match c.version {
                            Some(v) => v,
                            None => zero_version(),
                        },
                    ),
                )
            } else {
                rest
            },
            None => rest,
        }
    }
}

/// The names and versions of roots.
pub open spec fn roots_view(roots: Seq<(String, WitVersion)>) -> Seq<(Seq<char>, WitVersion)> {
    roots.map_values(|r: (String, WitVersion)| (r.0@, r.1))
}

/// The roots the resolver plans from: the top-level packages asked for by
/// a WIT-style name, each at the version its tag parses to, or `0.0.0`
/// when it does not parse.
pub fn resolver_roots(cands: &Vec<RootCandidate>) -> (roots: Vec<(String, WitVersion)>)
    ensures
        roots_view(roots@) == spec_roots(cands@),
{
    let mut roots: Vec<(String, WitVersion)> = Vec::new();
    let mut i: usize = 0;
    while i < cands.len()
        invariant
            i <= cands.len(),
            roots_view(roots@) == spec_roots(cands@.take(i as int)),
        decreases cands.len() - i,
    {
        assert(cands@.take(i + 1).drop_last() == cands@.take(i as int));
        let c = &cands[i];
        if let Some(n) = &c.explicit_name {
            if c.looks_like_wit_name {
                let v = match c.version {
                    Some(v) => v,
                    None => WitVersion { major: 0, minor: 0, patch: 0 },
                };
                let ghost before = roots@;
                roots.push((n.clone(), v));
                assert(roots_view(roots@) =~= roots_view(before).push((n@, v)));
            }
        }
        i = i + 1;
    }
    assert(cands@.take(i as int) == cands@);
    roots
}

/// The names of roots, to leave out of the transitive installs.
pub fn root_names(roots: &Vec<(String, WitVersion)>) -> (names: Vec<String>)
    ensures
        names@.len() == roots@.len(),
        forall|k: int| 0 <= k < roots@.len() ==> #[trigger] names@[k]@ == roots@[k].0@,
{
    let mut names: Vec<String> = Vec::new();
    let mut i: usize = 0;
    while i < roots.len()
        invariant
            i <= roots.len(),
            names@.len() == i,
            forall|k: int| 0 <= k < i ==> #[trigger] names@[k]@ == roots@[k].0@,
        decreases roots.len() - i,
    {
        names.push(roots[i].0.clone());
        i = i + 1;
    }
    names
}

} // verus!
