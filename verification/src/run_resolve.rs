//! How `component run --global` finds a `scope:component` input: among
//! the packages the index returns for a search, and among the images in
//! the global cache.
use vstd::prelude::*;

use crate::errors::RunError;
use crate::run_input::{spec_strip_at_version, strip_at_version};
use crate::text::{
    chars_of, ends_with, has_prefix, has_suffix, owned, push_char, push_str, split_once,
    starts_with, str_eq, str_split_once,
};

verus! {

/// A package of the known-package index, as the search returns it.
pub struct IndexedPackage {
    pub registry: String,
    pub repository: String,
    pub wit_namespace: Option<String>,
    pub wit_name: Option<String>,
}

/// What to search the index for: the scope and the name fragment of a
/// `scope:name` input; nothing without a `:`.
pub fn fuzzy_query(input: &str) -> (q: Option<(&str, &str)>)
    ensures
        match q {
            Some((scope, prefix)) => split_once(input@, ':') == Some((scope@, prefix@)),
            None => split_once(input@, ':') is None,
        },
{
    str_split_once(input, ':')
}

/// `p` is a candidate for `scope:prefix`: its WIT namespace is `scope`,
/// and its WIT name is `prefix` or starts with `prefix-`.
pub open spec fn is_candidate(p: IndexedPackage, scope: Seq<char>, prefix: Seq<char>) -> bool {
    match (p.wit_namespace, p.wit_name) {
        (Some(ns), Some(name)) => ns@ == scope && (name@ == prefix || has_prefix(name@, prefix + "-"@)),
        _ => false,
    }
}

/// The candidates among `ps`, in order.
pub open spec fn candidates(ps: Seq<IndexedPackage>, scope: Seq<char>, prefix: Seq<char>) -> Seq<IndexedPackage>
    decreases ps.len(),
{
    if ps.len() == 0 {
        Seq::empty()
    } else if is_candidate(ps.last(), scope, prefix) {
        candidates(ps.drop_last(), scope, prefix).push(ps.last())
    } else {
        candidates(ps.drop_last(), scope, prefix)
    }
}

/// Every candidate is one.
proof fn lemma_candidates_qualify(ps: Seq<IndexedPackage>, scope: Seq<char>, prefix: Seq<char>)
    ensures
        forall|j: int|
            0 <= j < candidates(ps, scope, prefix).len() ==> is_candidate(
                #[trigger] candidates(ps, scope, prefix)[j],
                scope,
                prefix,
            ),
    decreases ps.len(),
{
    if ps.len() > 0 {
        lemma_candidates_qualify(ps.drop_last(), scope, prefix);
        let prev = candidates(ps.drop_last(), scope, prefix);
        assert forall|j: int|
            0 <= j < candidates(ps, scope, prefix).len() implies is_candidate(
            #[trigger] candidates(ps, scope, prefix)[j],
            scope,
            prefix,
        ) by {
            if j < prev.len() {
                assert(candidates(ps, scope, prefix)[j] == prev[j]);
            }
        }
    }
}

/// What a search of the index yields for `scope:prefix`.
pub enum FuzzyMatch {
    /// No candidate.
    NoMatch,
    /// One candidate; its OCI reference, `registry/repository`.
    Unique(String),
    /// Several candidates; their `namespace:name`, in order.
    Ambiguous(Vec<String>),
}

/// The `namespace:name` of a candidate.
pub open spec fn wit_identity(p: IndexedPackage) -> Seq<char> {
    match (p.wit_namespace, p.wit_name) {
        (Some(ns), Some(name)) => ns@ + ":"@ + name@,
        _ => Seq::empty(),
    }
}

/// The match a search yields: the unique candidate's reference, or the
/// names of all candidates when there are several.
pub open spec fn spec_fuzzy_match(cs: Seq<IndexedPackage>, m: FuzzyMatch) -> bool {
    match m {
        FuzzyMatch::NoMatch => cs.len() == 0,
        FuzzyMatch::Unique(r) => cs.len() == 1 && r@ == cs[0].registry@ + "/"@ + cs[0].repository@,
        FuzzyMatch::Ambiguous(names) => cs.len() > 1 && names@.len() == cs.len() && forall|k: int|
            0 <= k < cs.len() ==> #[trigger] names@[k]@ == wit_identity(cs[k]),
    }
}

/// Whether `p` is a candidate for `scope:prefix`.
fn candidate(p: &IndexedPackage, scope: &str, prefix: &str) -> (r: bool)
    ensures
        r == is_candidate(*p, scope@, prefix@),
{
    match (&p.wit_namespace, &p.wit_name) {
        (Some(ns), Some(name)) => {
            let mut dashed = owned(prefix);
            push_str(&mut dashed, "-");
            str_eq(ns.as_str(), scope) && (str_eq(name.as_str(), prefix) || starts_with(
                name.as_str(),
                dashed.as_str(),
            ))
        },
        _ => false,
    }
}

/// Pick the package that a `scope:prefix` input names among the packages
/// a search of the index returned: the candidates have the namespace
/// `scope` and the name `prefix` or `prefix-…`.
pub fn fuzzy_match(scope: &str, prefix: &str, matches: &Vec<IndexedPackage>) -> (m: FuzzyMatch)
    ensures
        spec_fuzzy_match(candidates(matches@, scope@, prefix@), m),
{
    let mut found: Vec<usize> = Vec::new();
    let mut i: usize = 0;
    while i < matches.len()
        invariant
            i <= matches.len(),
            found.len() == candidates(matches@.take(i as int), scope@, prefix@).len(),
            forall|k: int|
                0 <= k < found.len() ==> #[trigger] found@[k] < i && matches@[found@[k] as int]
                    == candidates(matches@.take(i as int), scope@, prefix@)[k],
        decreases matches.len() - i,
    {
        assert(matches@.take(i + 1).drop_last() == matches@.take(i as int));
        if candidate(&matches[i], scope, prefix) {
            found.push(i);
        }
        i = i + 1;
    }
    assert(matches@.take(i as int) == matches@);
    let ghost cs = candidates(matches@, scope@, prefix@);
    proof {
        lemma_candidates_qualify(matches@, scope@, prefix@);
    }
    if found.len() == 0 {
        FuzzyMatch::NoMatch
    } else if found.len() == 1 {
        let p = &matches[found[0]];
        let mut r = owned(p.registry.as_str());
        push_str(&mut r, "/");
        push_str(&mut r, p.repository.as_str());
        FuzzyMatch::Unique(r)
    } else {
        let mut names: Vec<String> = Vec::new();
        let mut k: usize = 0;
        while k < found.len()
            invariant
                k <= found.len(),
                found.len() == cs.len(),
                forall|j: int| 0 <= j < found.len() ==> #[trigger] found@[j] < matches.len() && matches@[found@[j] as int] == cs[j],
                forall|j: int| 0 <= j < cs.len() ==> is_candidate(#[trigger] cs[j], scope@, prefix@),
                names.len() == k,
                forall|j: int| 0 <= j < k ==> #[trigger] names@[j]@ == wit_identity(cs[j]),
            decreases found.len() - k,
        {
            let p = &matches[found[k]];
            assert(is_candidate(cs[k as int], scope@, prefix@));
            let name = match (&p.wit_namespace, &p.wit_name) {
                (Some(ns), Some(n)) => {
                    let mut s = owned(ns.as_str());
                    push_str(&mut s, ":");
                    push_str(&mut s, n.as_str());
                    s
                },
                _ => String::new(),
            };
            names.push(name);
            k = k + 1;
        }
        FuzzyMatch::Ambiguous(names)
    }
}

/// The message and help of an ambiguous input.
pub fn ambiguous_message(input: &str, names: &Vec<String>) -> (r: (String, String))
    ensures
        r.0@ == "ambiguous package name '"@ + input@ + "'"@,
        r.1@ == "multiple packages match '"@ + input@ + "': "@ + crate::search::joined(names@)
            + ". Specify the full name."@,
{
    let mut message = owned("ambiguous package name '");
    push_str(&mut message, input);
    push_str(&mut message, "'");
    let mut help = owned("multiple packages match '");
    push_str(&mut help, input);
    push_str(&mut help, "': ");
    let mut i: usize = 0;
    let ghost start = help@;
    while i < names.len()
        invariant
            i <= names.len(),
            help@ == start + crate::search::joined(names@.take(i as int)),
        decreases names.len() - i,
    {
        if i > 0 {
            push_str(&mut help, ", ");
        }
        push_str(&mut help, names[i].as_str());
        assert(names@.take(i + 1).drop_last() == names@.take(i as int));
        i = i + 1;
    }
    assert(names@.take(i as int) == names@);
    push_str(&mut help, ". Specify the full name.");
    (message, help)
}

/// The repository path a `scope:component` input is cached under: the
/// input without `@version`, each `:` a `/`.
pub open spec fn cache_pattern(input: Seq<char>) -> Seq<char> {
    spec_strip_at_version(input).map_values(|c: char| if c == ':' { '/' } else { c })
}

/// The first image of `repositories` that holds the input: its repository
/// is the pattern, or ends with `/` and the pattern.
pub open spec fn cache_hit(repositories: Seq<String>, pattern: Seq<char>, k: int) -> bool {
    &&& 0 <= k < repositories.len()
    &&& (repositories[k]@ == pattern || has_suffix(repositories[k]@, "/"@ + pattern))
    &&& forall|j: int|
        0 <= j < k ==> !(#[trigger] repositories[j]@ == pattern || has_suffix(repositories[j]@, "/"@ + pattern))
}

/// Find the cached image of a `scope:component` input among the
/// repositories of the cached images: the index of the first that holds
/// it, or `NotInGlobalCache`.
pub fn find_cached(input: &str, repositories: &Vec<String>) -> (r: Result<usize, RunError>)
    ensures
        match r {
            Ok(k) => cache_hit(repositories@, cache_pattern(input@), k as int),
            Err(e) => (e matches RunError::NotInGlobalCache { name } && name@ == input@)
                && forall|k: int| 0 <= k < repositories.len() ==> !cache_hit(repositories@, cache_pattern(input@), k),
        },
{
    let key = chars_of(strip_at_version(input));
    let mut pattern = String::new();
    let mut i: usize = 0;
    while i < key.len()
        invariant
            i <= key.len(),
            key@ == spec_strip_at_version(input@),
            pattern@ == key@.take(i as int).map_values(|c: char| if c == ':' { '/' } else { c }),
        decreases key.len() - i,
    {
        push_char(&mut pattern, if key[i] == ':' { '/' } else { key[i] });
        assert(key@.take(i + 1) == key@.take(i as int).push(key@[i as int]));
        assert(key@.take(i + 1).map_values(|c: char| if c == ':' { '/' } else { c }) =~= key@.take(i as int).map_values(
            |c: char| if c == ':' { '/' } else { c },
        ).push(if key@[i as int] == ':' { '/' } else { key@[i as int] }));
        i = i + 1;
    }
    assert(key@.take(i as int) == key@);
    let mut suffix = owned("/");
    push_str(&mut suffix, pattern.as_str());
    let mut k: usize = 0;
    while k < repositories.len()
        invariant
            k <= repositories.len(),
            pattern@ == cache_pattern(input@),
            suffix@ == "/"@ + cache_pattern(input@),
            forall|j: int|
                0 <= j < k ==> !(#[trigger] repositories@[j]@ == pattern@ || has_suffix(repositories@[j]@, suffix@)),
        decreases repositories.len() - k,
    {
        if str_eq(repositories[k].as_str(), pattern.as_str()) || ends_with(repositories[k].as_str(), suffix.as_str()) {
            return Ok(k);
        }
        k = k + 1;
    }
    Err(RunError::NotInGlobalCache { name: owned(input) })
}

/// Find the lockfile entry of a manifest key: none when the manifest has
/// no component under that key; else the index of the first locked
/// component of that name, or `NotInLockfile`.
pub fn lockfile_entry(input: &str, in_manifest: bool, locked_names: &Vec<String>) -> (r: Result<Option<usize>, RunError>)
    ensures
        match r {
            Ok(None) => !in_manifest,
            Ok(Some(k)) => in_manifest && k < locked_names.len() && locked_names@[k as int]@ == input@
                && forall|j: int| 0 <= j < k ==> #[trigger] locked_names@[j]@ != input@,
            Err(e) => in_manifest && (e matches RunError::NotInLockfile { name } && name@ == input@)
                && forall|j: int| 0 <= j < locked_names.len() ==> #[trigger] locked_names@[j]@ != input@,
        },
{
    if !in_manifest {
        return Ok(None);
    }
    let mut k: usize = 0;
    while k < locked_names.len()
        invariant
            k <= locked_names.len(),
            in_manifest,
            forall|j: int| 0 <= j < k ==> #[trigger] locked_names@[j]@ != input@,
        decreases locked_names.len() - k,
    {
        if str_eq(locked_names[k].as_str(), input) {
            return Ok(Some(k));
        }
        k = k + 1;
    }
    Err(RunError::NotInLockfile { name: owned(input) })
}

} // verus!
