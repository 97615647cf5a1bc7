//! Registry-entry derivation for `component registry publish`.
//!
//! A project's `[package]` section is checked and turned into the fields of
//! the registry's "Registry entry" issue form, and the prefilled issue URL is
//! built from them with percent-encoded query values.
use vstd::prelude::*;
use vstd::string::StringSliceAdditionalSpecFns;

use crate::text::{
    chars_end_with, chars_of, has_char, has_suffix, owned, push_char, push_str, last_segment, slice,
    split_once, str_eq, str_has_char, str_rsplit_once, str_split_once,
};

verus! {

broadcast use vstd::string::group_string_axioms;

/// Default GitHub repository hosting the component registry.
pub const DEFAULT_REGISTRY_REPO: &'static str = "yoshuawuyts/component-registry";

/// File name of the registry-entry issue form template.
pub const ISSUE_TEMPLATE: &'static str = "registry-entry.yml";

/// Which check an input failed.
#[derive(Clone, Copy, Debug, PartialEq, Eq, Structural)]
pub enum PublishErrorKind {
    /// The package name has no `:`.
    NameNotWitStyle,
    /// The namespace or the package part of the name is empty.
    NameEmptyPart,
    /// The package part of the name holds another `:`.
    NameTooManyColons,
    /// The name holds an `@`.
    NameHasVersion,
    /// The namespace or the package part holds a `/`.
    NameHasSlash,
    /// The registry repository is empty.
    RepositoryEmpty,
    /// The registry repository starts or ends with `/`.
    RepositoryEdgeSlash,
    /// The registry repository holds a character that an OCI path refuses.
    RepositoryInvalidChars,
    /// The registry reference is empty.
    RegistryRefEmpty,
    /// The registry reference pins a digest.
    RegistryRefDigest,
    /// The registry reference carries a tag.
    RegistryRefTag,
    /// The registry reference does not end with `/<repository>`.
    RegistryRefMismatch,
    /// Nothing precedes `/<repository>` in the registry reference.
    RegistryBaseEmpty,
    /// The `--repo` slug is not of the form `owner/name`.
    RepoNotOwnerName,
    /// The `--repo` slug holds a character outside the allowlist.
    RepoInvalidChars,
    /// The package has no `registry_repository`.
    MissingRegistryRepository,
}

/// A refused input: the failed check, the offending value, and (for the
/// checks that relate two values) the second one.
#[derive(Debug)]
pub struct PublishError {
    pub kind: PublishErrorKind,
    pub value: String,
    pub detail: String,
}

impl PublishError {
    pub open spec fn is(&self, kind: PublishErrorKind, value: Seq<char>, detail: Seq<char>) -> bool {
        self.kind == kind && self.value@ == value && self.detail@ == detail
    }
}

fn refuse(kind: PublishErrorKind, value: &str) -> (e: PublishError)
    ensures
        e.is(kind, value@, Seq::empty()),
{
    PublishError { kind, value: owned(value), detail: String::new() }
}

fn refuse_pair(kind: PublishErrorKind, value: &str, detail: &str) -> (e: PublishError)
    ensures
        e.is(kind, value@, detail@),
{
    PublishError { kind, value: owned(value), detail: owned(detail) }
}

/// The text shown for a refused input.
pub open spec fn spec_message(kind: PublishErrorKind, value: Seq<char>, detail: Seq<char>) -> Seq<char> {
    match kind {
        PublishErrorKind::NameNotWitStyle => "`[package].name` '"@ + value
            + "' is not a WIT-style name; expected `namespace:package` (e.g., `wasi:http`)"@,
        PublishErrorKind::NameEmptyPart => "`[package].name` '"@ + value
            + "' must have a non-empty namespace and package"@,
        PublishErrorKind::NameTooManyColons => "`[package].name` '"@ + value
            + "' has too many ':' separators"@,
        PublishErrorKind::NameHasVersion => "`[package].name` '"@ + value
            + "' must not include a version"@,
        PublishErrorKind::NameHasSlash => "`[package].name` '"@ + value
            + "' must not contain '/'"@,
        PublishErrorKind::RepositoryEmpty => "`[package].registry_repository` must not be empty"@,
        PublishErrorKind::RepositoryEdgeSlash => "`[package].registry_repository` '"@ + value
            + "' must not start or end with '/'"@,
        PublishErrorKind::RepositoryInvalidChars => "`[package].registry_repository` '"@ + value
            + "' contains characters that are not valid in an OCI path"@,
        PublishErrorKind::RegistryRefEmpty => "`[package].registry_ref` must not be empty"@,
        PublishErrorKind::RegistryRefDigest => "`[package].registry_ref` '"@ + value
            + "' must not pin a digest"@,
        PublishErrorKind::RegistryRefTag => "`[package].registry_ref` '"@ + value
            + "' must not include a tag"@,
        PublishErrorKind::RegistryRefMismatch => "`[package].registry_ref` '"@ + value
            + "' does not end with `/"@ + detail
            + "`; `registry_ref` must equal `<registry base>/<registry_repository>`"@,
        PublishErrorKind::RegistryBaseEmpty => "`[package].registry_ref` '"@ + value
            + "' has no registry base before `/"@ + detail + "`"@,
        PublishErrorKind::RepoNotOwnerName => "--repo '"@ + value
            + "' must be in `owner/name` form (e.g., `yoshuawuyts/component-registry`)"@,
        PublishErrorKind::RepoInvalidChars => "--repo '"@ + value
            + "' contains characters that are not valid in a GitHub repository slug"@,
        PublishErrorKind::MissingRegistryRepository => "`[package]` is missing `registry_repository` (the catalog path within the namespace registry, e.g. `wasi/http`); add it before publishing to the registry"@,
    }
}

fn wrap(head: &str, value: &String, tail: &str) -> (s: String)
    ensures
        s@ == head@ + value@ + tail@,
{
    let mut s = owned(head);
    push_str(&mut s, value.as_str());
    push_str(&mut s, tail);
    s
}

impl PublishError {
    /// The message that describes this refusal.
    pub fn message(&self) -> (m: String)
        ensures
            m@ == spec_message(self.kind, self.value@, self.detail@),
    {
        match self.kind {
            PublishErrorKind::NameNotWitStyle => wrap(
                "`[package].name` '",
                &self.value,
                "' is not a WIT-style name; expected `namespace:package` (e.g., `wasi:http`)",
            ),
            PublishErrorKind::NameEmptyPart => wrap(
                "`[package].name` '",
                &self.value,
                "' must have a non-empty namespace and package",
            ),
            PublishErrorKind::NameTooManyColons => wrap(
                "`[package].name` '",
                &self.value,
                "' has too many ':' separators",
            ),
            PublishErrorKind::NameHasVersion => wrap(
                "`[package].name` '",
                &self.value,
                "' must not include a version",
            ),
            PublishErrorKind::NameHasSlash => wrap(
                "`[package].name` '",
                &self.value,
                "' must not contain '/'",
            ),
            PublishErrorKind::RepositoryEmpty => owned(
                "`[package].registry_repository` must not be empty",
            ),
            PublishErrorKind::RepositoryEdgeSlash => wrap(
                "`[package].registry_repository` '",
                &self.value,
                "' must not start or end with '/'",
            ),
            PublishErrorKind::RepositoryInvalidChars => wrap(
                "`[package].registry_repository` '",
                &self.value,
                "' contains characters that are not valid in an OCI path",
            ),
            PublishErrorKind::RegistryRefEmpty => owned("`[package].registry_ref` must not be empty"),
            PublishErrorKind::RegistryRefDigest => wrap(
                "`[package].registry_ref` '",
                &self.value,
                "' must not pin a digest",
            ),
            PublishErrorKind::RegistryRefTag => wrap(
                "`[package].registry_ref` '",
                &self.value,
                "' must not include a tag",
            ),
            PublishErrorKind::RegistryRefMismatch => {
                let mut s = wrap("`[package].registry_ref` '", &self.value, "' does not end with `/");
                push_str(&mut s, self.detail.as_str());
                push_str(
                    &mut s,
                    "`; `registry_ref` must equal `<registry base>/<registry_repository>`",
                );
                s
            },
            PublishErrorKind::RegistryBaseEmpty => {
                let mut s = wrap(
                    "`[package].registry_ref` '",
                    &self.value,
                    "' has no registry base before `/",
                );
                push_str(&mut s, self.detail.as_str());
                push_str(&mut s, "`");
                s
            },
            PublishErrorKind::RepoNotOwnerName => wrap(
                "--repo '",
                &self.value,
                "' must be in `owner/name` form (e.g., `yoshuawuyts/component-registry`)",
            ),
            PublishErrorKind::RepoInvalidChars => wrap(
                "--repo '",
                &self.value,
                "' contains characters that are not valid in a GitHub repository slug",
            ),
            PublishErrorKind::MissingRegistryRepository => owned(
                "`[package]` is missing `registry_repository` (the catalog path within the namespace registry, e.g. `wasi/http`); add it before publishing to the registry",
            ),
        }
    }
}

/// Whether an exec result agrees with a spec result, an error being
/// reported with the given value and detail.
pub open spec fn agrees_unit(
    r: Result<(), PublishError>,
    s: Result<(), PublishErrorKind>,
    value: Seq<char>,
    detail: Seq<char>,
) -> bool {
    match s {
        Ok(()) => r is Ok,
        Err(k) => r matches Err(e) && e.is(k, value, detail),
    }
}

// ---------------------------------------------------------------------------
// Package names

/// `name` split into namespace and package, or the check it fails.
pub open spec fn spec_parse_wit_name(name: Seq<char>) -> Result<
    (Seq<char>, Seq<char>),
    PublishErrorKind,
> {
    match split_once(name, ':') {
        None => Err(PublishErrorKind::NameNotWitStyle),
        Some((ns, pkg)) => if ns.len() == 0 || pkg.len() == 0 {
            Err(PublishErrorKind::NameEmptyPart)
        } else if pkg.contains(':') {
            Err(PublishErrorKind::NameTooManyColons)
        } else if name.contains('@') {
            Err(PublishErrorKind::NameHasVersion)
        } else if ns.contains('/') || pkg.contains('/') {
            Err(PublishErrorKind::NameHasSlash)
        } else {
            Ok((ns, pkg))
        },
    }
}

/// Split a WIT-style `namespace:package` name into its two parts.
///
/// Rejects versions (`@`), path separators (`/`), and anything that is not
/// exactly one non-empty namespace and one non-empty package.
pub fn parse_wit_name(name: &str) -> (r: Result<(&str, &str), PublishError>)
    ensures
        match spec_parse_wit_name(name@) {
            Ok((ns, pkg)) => r matches Ok((a, b)) && a@ == ns && b@ == pkg,
            Err(k) => r matches Err(e) && e.is(k, name@, Seq::empty()),
        },
{
    let Some((namespace, package)) = str_split_once(name, ':') else {
        return Err(refuse(PublishErrorKind::NameNotWitStyle, name));
    };
    let ns = chars_of(namespace);
    let pkg = chars_of(package);
    if ns.len() == 0 || pkg.len() == 0 {
        return Err(refuse(PublishErrorKind::NameEmptyPart, name));
    }
    if has_char(&pkg, ':') {
        return Err(refuse(PublishErrorKind::NameTooManyColons, name));
    }
    if str_has_char(name, '@') {
        return Err(refuse(PublishErrorKind::NameHasVersion, name));
    }
    if has_char(&ns, '/') || has_char(&pkg, '/') {
        return Err(refuse(PublishErrorKind::NameHasSlash, name));
    }
    Ok((namespace, package))
}

// ---------------------------------------------------------------------------
// Registry repository and reference

/// A character that an OCI repository path may not hold.
pub open spec fn is_oci_forbidden(c: char) -> bool {
    c == ' ' || c == '?' || c == '#' || c == '@' || c == ':'
}

/// The registry-catalog repository path is acceptable, or the check it fails.
pub open spec fn spec_validate_repository(repository: Seq<char>) -> Result<(), PublishErrorKind> {
    if repository.len() == 0 {
        Err(PublishErrorKind::RepositoryEmpty)
    } else if repository[0] == '/' || repository.last() == '/' {
        Err(PublishErrorKind::RepositoryEdgeSlash)
    } else if exists|i: int| 0 <= i < repository.len() && is_oci_forbidden(#[trigger] repository[i]) {
        Err(PublishErrorKind::RepositoryInvalidChars)
    } else {
        Ok(())
    }
}

/// Validate the registry-catalog repository path (the issue form's
/// `repository` field).
pub fn validate_repository(repository: &str) -> (r: Result<(), PublishError>)
    ensures
        agrees_unit(r, spec_validate_repository(repository@), repository@, Seq::empty()),
{
    let v = chars_of(repository);
    if v.len() == 0 {
        return Err(refuse(PublishErrorKind::RepositoryEmpty, repository));
    }
    if v[0] == '/' || v[v.len() - 1] == '/' {
        return Err(refuse(PublishErrorKind::RepositoryEdgeSlash, repository));
    }
    for i in 0..v.len()
        invariant
            v@ == repository@,
            v@.len() > 0,
            v@[0] != '/',
            v@.last() != '/',
            forall|j: int| 0 <= j < i ==> !is_oci_forbidden(#[trigger] v@[j]),
    {
        let c = v[i];
        if c == ' ' || c == '?' || c == '#' || c == '@' || c == ':' {
            assert(is_oci_forbidden(repository@[i as int]));
            return Err(refuse(PublishErrorKind::RepositoryInvalidChars, repository));
        }
    }
    Ok(())
}

/// `registry_ref` is a tag-less, digest-less OCI location, or the check it fails.
pub open spec fn spec_validate_registry_ref(registry_ref: Seq<char>) -> Result<(), PublishErrorKind> {
    if registry_ref.len() == 0 {
        Err(PublishErrorKind::RegistryRefEmpty)
    } else if registry_ref.contains('@') {
        Err(PublishErrorKind::RegistryRefDigest)
    } else if last_segment(registry_ref).contains(':') {
        Err(PublishErrorKind::RegistryRefTag)
    } else {
        Ok(())
    }
}

/// Validate that `registry_ref` is a tag-less, digest-less OCI location.
///
/// A tag would appear as a ':' in the final path segment; the registry host
/// may legitimately contain a ':port', which lives in the first segment.
pub fn validate_registry_ref(registry_ref: &str) -> (r: Result<(), PublishError>)
    ensures
        agrees_unit(r, spec_validate_registry_ref(registry_ref@), registry_ref@, Seq::empty()),
{
    let v = chars_of(registry_ref);
    if v.len() == 0 {
        return Err(refuse(PublishErrorKind::RegistryRefEmpty, registry_ref));
    }
    if has_char(&v, '@') {
        return Err(refuse(PublishErrorKind::RegistryRefDigest, registry_ref));
    }
    let last = match str_rsplit_once(registry_ref, '/') {
        Some((_, tail)) => tail,
        None => registry_ref,
    };
    if str_has_char(last, ':') {
        return Err(refuse(PublishErrorKind::RegistryRefTag, registry_ref));
    }
    Ok(())
}

/// The registry base: `registry_ref` with `/<repository>` removed from its
/// end, or the check it fails.
pub open spec fn spec_registry_base(registry_ref: Seq<char>, repository: Seq<char>) -> Result<
    Seq<char>,
    PublishErrorKind,
> {
    let suffix = seq!['/'] + repository;
    if !has_suffix(registry_ref, suffix) {
        Err(PublishErrorKind::RegistryRefMismatch)
    } else if registry_ref.len() == suffix.len() {
        Err(PublishErrorKind::RegistryBaseEmpty)
    } else {
        Ok(registry_ref.take(registry_ref.len() - suffix.len()))
    }
}

/// Derive the namespace's registry base by stripping the catalog `repository`
/// from the end of `registry_ref`.
///
/// Errors when the two disagree, since that would register an entry pointing
/// at a different OCI location than `component publish` pushes to.
pub fn registry_base<'a>(registry_ref: &'a str, repository: &str) -> (r: Result<
    &'a str,
    PublishError,
>)
    ensures
        match spec_registry_base(registry_ref@, repository@) {
            Ok(base) => r matches Ok(b) && b@ == base,
            Err(k) => r matches Err(e) && e.is(k, registry_ref@, repository@),
        },
{
    let v = chars_of(registry_ref);
    let mut suffix: Vec<char> = Vec::new();
    suffix.push('/');
    let rest = chars_of(repository);
    for i in 0..rest.len()
        invariant
            suffix@ == seq!['/'] + rest@.take(i as int),
    {
        suffix.push(rest[i]);
        assert(rest@.take(i + 1) == rest@.take(i as int).push(rest@[i as int]));
    }
    assert(rest@.take(rest.len() as int) == rest@);
    assert(rest@ == repository@);
    if !chars_end_with(&v, &suffix) {
        return Err(refuse_pair(PublishErrorKind::RegistryRefMismatch, registry_ref, repository));
    }
    if v.len() == suffix.len() {
        return Err(refuse_pair(PublishErrorKind::RegistryBaseEmpty, registry_ref, repository));
    }
    Ok(slice(registry_ref, 0, v.len() - suffix.len()))
}

// ---------------------------------------------------------------------------
// GitHub repository slug

/// A character allowed in a GitHub `owner` or repository-name segment.
pub open spec fn is_slug_char(c: char) -> bool {
    ('a' <= c <= 'z') || ('A' <= c <= 'Z') || ('0' <= c <= '9') || c == '-' || c == '_' || c
        == '.'
}

/// Every character of `segment` is allowed in a slug segment.
pub open spec fn spec_valid_repo_segment(segment: Seq<char>) -> bool {
    forall|i: int| 0 <= i < segment.len() ==> is_slug_char(#[trigger] segment[i])
}

/// Whether `segment` is a valid GitHub `owner` or repository-name path
/// segment: an allowlist of ASCII alphanumerics plus `-`, `_`, and `.`.
pub fn valid_repo_segment(segment: &str) -> (r: bool)
    ensures
        r == spec_valid_repo_segment(segment@),
{
    let v = chars_of(segment);
    for i in 0..v.len()
        invariant
            v@ == segment@,
            forall|j: int| 0 <= j < i ==> is_slug_char(#[trigger] v@[j]),
    {
        let c = v[i];
        if !(('a' <= c && c <= 'z') || ('A' <= c && c <= 'Z') || ('0' <= c && c <= '9') || c == '-'
            || c == '_' || c == '.') {
            return false;
        }
    }
    true
}

/// The `--repo` slug is of the form `owner/name` with allowed characters,
/// or the check it fails.
pub open spec fn spec_validate_repo(repo: Seq<char>) -> Result<(), PublishErrorKind> {
    match split_once(repo, '/') {
        None => Err(PublishErrorKind::RepoNotOwnerName),
        Some((owner, name)) => if owner.len() == 0 || name.len() == 0 || name.contains('/') {
            Err(PublishErrorKind::RepoNotOwnerName)
        } else if !spec_valid_repo_segment(owner) || !spec_valid_repo_segment(name) {
            Err(PublishErrorKind::RepoInvalidChars)
        } else {
            Ok(())
        },
    }
}

/// Validate a `owner/name` GitHub repository slug used in the URL path.
pub fn validate_repo(repo: &str) -> (r: Result<(), PublishError>)
    ensures
        agrees_unit(r, spec_validate_repo(repo@), repo@, Seq::empty()),
{
    let Some((owner, name)) = str_split_once(repo, '/') else {
        return Err(refuse(PublishErrorKind::RepoNotOwnerName, repo));
    };
    let o = chars_of(owner);
    let n = chars_of(name);
    if o.len() == 0 || n.len() == 0 || has_char(&n, '/') {
        return Err(refuse(PublishErrorKind::RepoNotOwnerName, repo));
    }
    if !valid_repo_segment(owner) || !valid_repo_segment(name) {
        return Err(refuse(PublishErrorKind::RepoInvalidChars, repo));
    }
    Ok(())
}

// ---------------------------------------------------------------------------
// Percent-encoding

/// An RFC 3986 unreserved byte.
pub open spec fn is_unreserved(b: u8) -> bool {
    (0x61 <= b <= 0x7a) || (0x41 <= b <= 0x5a) || (0x30 <= b <= 0x39) || b == 0x2d || b == 0x2e
        || b == 0x5f || b == 0x7e
}

/// The upper-case hexadecimal digit for `n < 16`.
pub open spec fn hex_digit(n: u8) -> char {
    if n < 10 {
        ((0x30 + n) as u8) as char
    } else {
        ((0x41 + n - 10) as u8) as char
    }
}

/// One byte, passed through or written as `%XX`.
pub open spec fn encode_byte(b: u8) -> Seq<char> {
    if is_unreserved(b) {
        seq![b as char]
    } else {
        seq!['%', hex_digit(b / 16), hex_digit(b % 16)]
    }
}

/// The percent-encoding of `bytes`, byte by byte.
pub open spec fn percent_encode(bytes: Seq<u8>) -> Seq<char>
    decreases bytes.len(),
{
    if bytes.len() == 0 {
        Seq::empty()
    } else {
        percent_encode(bytes.drop_last()) + encode_byte(bytes.last())
    }
}

fn hex(n: u8) -> (c: char)
    requires
        n < 16,
    ensures
        c == hex_digit(n),
{
    if n < 10 {
        (0x30u8 + n) as char
    } else {
        (0x41u8 + n - 10) as char
    }
}

/// Percent-encode a query value, passing through only RFC 3986 unreserved
/// characters and encoding every other UTF-8 byte as `%XX`.
pub fn encode(value: &str) -> (out: String)
    ensures
        out@ == encoded(value@),
{
    let bytes = value.as_bytes();
    let mut out = String::new();
    for i in 0..bytes.len()
        invariant
            bytes@ == value.spec_bytes(),
            out@ == percent_encode(bytes@.take(i as int)),
    {
        let b = bytes[i];
        assert(bytes@.take(i + 1).drop_last() == bytes@.take(i as int));
        if (0x61 <= b && b <= 0x7a) || (0x41 <= b && b <= 0x5a) || (0x30 <= b && b <= 0x39) || b
            == 0x2d || b == 0x2e || b == 0x5f || b == 0x7e {
            push_char(&mut out, b as char);
        } else {
            push_char(&mut out, '%');
            push_char(&mut out, hex(b / 16));
            push_char(&mut out, hex(b % 16));
        }
    }
    assert(bytes@.take(bytes.len() as int) == bytes@);
    out
}

// ---------------------------------------------------------------------------
// Registry entry

/// Whether a package is a component or an interface.
#[derive(Clone, Copy, Debug, PartialEq, Eq, Structural)]
pub enum PackageKind {
    Component,
    Interface,
}

impl PackageKind {
    pub open spec fn spec_str(self) -> Seq<char> {
        match self {
            PackageKind::Component => "component"@,
            PackageKind::Interface => "interface"@,
        }
    }

    /// The kind's name as the registry form spells it.
    pub fn as_str(self) -> (s: &'static str)
        ensures
            s@ == self.spec_str(),
    {
        match self {
            PackageKind::Component => "component",
            PackageKind::Interface => "interface",
        }
    }

    /// The kind a manifest's `[package].kind` names: `component` or
    /// `interface`, spelled exactly so; none for any other text.
    pub fn from_name(name: &str) -> (k: Option<PackageKind>)
        ensures
            match k {
                Some(kind) => name@ == kind.spec_str(),
                None => name@ != "component"@ && name@ != "interface"@,
            },
    {
        if str_eq(name, "component") {
            Some(PackageKind::Component)
        } else if str_eq(name, "interface") {
            Some(PackageKind::Interface)
        } else {
            None
        }
    }
}

/// The fields of a manifest's `[package]` section that a registry entry is
/// derived from.
pub struct Package {
    /// WIT-style name, `namespace:package`.
    pub name: String,
    /// Published version.
    pub version: String,
    /// OCI location the package is pushed to.
    pub registry_ref: String,
    /// Component or interface.
    pub kind: PackageKind,
    /// Catalog path within the namespace's registry (e.g. `wasi/http`).
    pub registry_repository: Option<String>,
}

/// The registry-entry fields derived from a manifest's `[package]` section.
pub struct RegistryEntry {
    /// WIT namespace (e.g. `wasi`).
    pub namespace: String,
    /// WIT package name (e.g. `http`).
    pub package: String,
    /// `"component"` or `"interface"`.
    pub kind: &'static str,
    /// Catalog path within the namespace's registry (e.g. `wasi/http`).
    pub repository: String,
    /// Namespace's OCI registry base (e.g. `ghcr.io/webassembly`).
    pub registry: String,
}

/// The outcome of deriving a registry entry: the entry's fields
/// (namespace, package, kind, repository, registry base), or the failed
/// check with its value and detail.
pub open spec fn spec_entry(
    name: Seq<char>,
    registry_ref: Seq<char>,
    kind: PackageKind,
    registry_repository: Option<Seq<char>>,
) -> Result<
    (Seq<char>, Seq<char>, Seq<char>, Seq<char>, Seq<char>),
    (PublishErrorKind, Seq<char>, Seq<char>),
> {
    match spec_parse_wit_name(name) {
        Err(k) => Err((k, name, Seq::empty())),
        Ok((ns, pkg)) => match registry_repository {
            None => Err((PublishErrorKind::MissingRegistryRepository, Seq::empty(), Seq::empty())),
            Some(repo) => match spec_validate_repository(repo) {
                Err(k) => Err((k, repo, Seq::empty())),
                Ok(()) => match spec_validate_registry_ref(registry_ref) {
                    Err(k) => Err((k, registry_ref, Seq::empty())),
                    Ok(()) => match spec_registry_base(registry_ref, repo) {
                        Err(k) => Err((k, registry_ref, repo)),
                        Ok(base) => Ok((ns, pkg, kind.spec_str(), repo, base)),
                    },
                },
            },
        },
    }
}

impl RegistryEntry {
    /// Derive the registry entry from a `[package]` section.
    pub fn from_package(package: &Package) -> (r: Result<Self, PublishError>)
        ensures
            match spec_entry(
                package.name@,
                package.registry_ref@,
                package.kind,
                match package.registry_repository {
                    Some(s) => Some(s@),
                    None => None,
                },
            ) {
                Ok((ns, pkg, kind, repo, base)) => r matches Ok(e) && e.namespace@ == ns
                    && e.package@ == pkg && e.kind@ == kind && e.repository@ == repo
                    && e.registry@ == base,
                Err((k, v, d)) => r matches Err(e) && e.is(k, v, d),
            },
    {
        let (namespace, name) = match parse_wit_name(package.name.as_str()) {
            Ok(parts) => parts,
            Err(e) => return Err(e),
        };
        let repository = match &package.registry_repository {
            Some(r) => r.as_str(),
            None => {
                return Err(PublishError {
                    kind: PublishErrorKind::MissingRegistryRepository,
                    value: String::new(),
                    detail: String::new(),
                });
            },
        };
        if let Err(e) = validate_repository(repository) {
            return Err(e);
        }
        if let Err(e) = validate_registry_ref(package.registry_ref.as_str()) {
            return Err(e);
        }
        let registry = match registry_base(package.registry_ref.as_str(), repository) {
            Ok(base) => base,
            Err(e) => return Err(e),
        };
        Ok(RegistryEntry {
            namespace: owned(namespace),
            package: owned(name),
            kind: package.kind.as_str(),
            repository: owned(repository),
            registry: owned(registry),
        })
    }
}

/// The percent-encoding of the UTF-8 bytes of `s`.
pub open spec fn encoded(s: Seq<char>) -> Seq<char> {
    percent_encode(vstd::utf8::encode_utf8(s))
}

/// The prefilled issue-form URL for the entry fields on `repo`: each query
/// key matches a field `id` of the issue form, with percent-encoded values.
pub open spec fn spec_issue_url(
    repo: Seq<char>,
    kind: Seq<char>,
    namespace: Seq<char>,
    package: Seq<char>,
    repository: Seq<char>,
    registry: Seq<char>,
) -> Seq<char> {
    "https://github.com/"@ + repo + "/issues/new?template="@ + ISSUE_TEMPLATE@ + "&kind="@
        + encoded(kind) + "&namespace="@ + encoded(namespace) + "&package="@ + encoded(package)
        + "&repository="@ + encoded(repository) + "&registry="@ + encoded(registry)
}

/// Build the prefilled GitHub issue-form URL.
///
/// Each query key matches a field `id` in `registry-entry.yml`, so GitHub
/// populates the corresponding form fields. Query values are percent-encoded.
/// The `registry` base is always included: the automation ignores it when the
/// namespace already exists and uses it when creating a new namespace.
pub fn build_issue_url(repo: &str, entry: &RegistryEntry) -> (url: String)
    ensures
        url@ == spec_issue_url(
            repo@,
            entry.kind@,
            entry.namespace@,
            entry.package@,
            entry.repository@,
            entry.registry@,
        ),
{
    let mut url = owned("https://github.com/");
    push_str(&mut url, repo);
    push_str(&mut url, "/issues/new?template=");
    push_str(&mut url, ISSUE_TEMPLATE);
    push_str(&mut url, "&kind=");
    push_str(&mut url, encode(entry.kind).as_str());
    push_str(&mut url, "&namespace=");
    push_str(&mut url, encode(entry.namespace.as_str()).as_str());
    push_str(&mut url, "&package=");
    push_str(&mut url, encode(entry.package.as_str()).as_str());
    push_str(&mut url, "&repository=");
    push_str(&mut url, encode(entry.repository.as_str()).as_str());
    push_str(&mut url, "&registry=");
    push_str(&mut url, encode(entry.registry.as_str()).as_str());
    url
}

/// A registry base, when there is one, is what `registry_ref` holds before
/// `/<repository>`: the two put together give `registry_ref` back.
pub proof fn law_registry_base_rebuilds_ref(registry_ref: Seq<char>, repository: Seq<char>)
    requires
        spec_registry_base(registry_ref, repository) is Ok,
    ensures
        spec_registry_base(registry_ref, repository)->Ok_0 + seq!['/'] + repository == registry_ref,
        spec_registry_base(registry_ref, repository)->Ok_0.len() > 0,
{
    let suffix = seq!['/'] + repository;
    let base = registry_ref.take(registry_ref.len() - suffix.len());
    assert(registry_ref.skip(registry_ref.len() - suffix.len()) == suffix);
    assert(base + suffix =~= registry_ref);
    assert(base + seq!['/'] + repository =~= base + suffix);
}

/// A URL-safe character: unreserved, `%`, or an upper-case hexadecimal
/// digit.
pub open spec fn is_url_safe(c: char) -> bool {
    ('a' <= c <= 'z') || ('A' <= c <= 'Z') || ('0' <= c <= '9') || c == '-' || c == '.' || c == '_'
        || c == '~' || c == '%'
}

/// Percent-encoded text holds only URL-safe characters, so it cannot end
/// the query value or start another parameter.
pub proof fn law_percent_encoding_is_url_safe(bytes: Seq<u8>)
    ensures
        forall|i: int| 0 <= i < percent_encode(bytes).len() ==> is_url_safe(#[trigger] percent_encode(bytes)[i]),
    decreases bytes.len(),
{
    if bytes.len() > 0 {
        law_percent_encoding_is_url_safe(bytes.drop_last());
        let b = bytes.last();
        let prev = percent_encode(bytes.drop_last());
        assert(b / 16 < 16 && b % 16 < 16);
        assert forall|i: int| 0 <= i < percent_encode(bytes).len() implies is_url_safe(
            #[trigger] percent_encode(bytes)[i],
        ) by {
            if i < prev.len() {
                assert(percent_encode(bytes)[i] == prev[i]);
            } else {
                let k = i - prev.len();
                assert(percent_encode(bytes)[i] == encode_byte(b)[k]);
                if !is_unreserved(b) {
                    if k == 1 {
                        assert(is_url_safe(hex_digit(b / 16)));
                    } else if k == 2 {
                        assert(is_url_safe(hex_digit(b % 16)));
                    }
                }
            }
        }
    }
}

} // verus!
