//! What the `component registry` subcommands report: which tags `tags`
//! lists and how, and the lines `delete`, `notify` and `publish` print.
use vstd::prelude::*;

use crate::text::{decimal, owned, push_str, str_eq, to_decimal};

verus! {

/// The extension `Path::extension` documents for a file name: the part
/// after the final `.`, unless there is no `.` or the only one starts the
/// name.
pub open spec fn file_name_extension(name: Seq<char>) -> Option<Seq<char>> {
    if exists|k: int| 0 <= k < name.len() && name[k] == '.' {
        let k = choose|k: int|
            0 <= k < name.len() && name[k] == '.' && forall|j: int| k < j < name.len() ==> name[j] != '.';
        if k == 0 {
            None
        } else {
            Some(name.subrange(k + 1, name.len() as int))
        }
    } else {
        None
    }
}

/// The characters of an optional text.
pub open spec fn opt_text(o: Option<String>) -> Option<Seq<char>> {
    match o {
        Some(s) => Some(s@),
        None => None,
    }
}

/// A character an OCI tag may hold: an ASCII letter or digit, `_`, `.`
/// or `-`.
pub open spec fn is_tag_char(c: char) -> bool {
    ||| ('a' <= c && c <= 'z')
    ||| ('A' <= c && c <= 'Z')
    ||| ('0' <= c && c <= '9')
    ||| c == '_'
    ||| c == '.'
    ||| c == '-'
}

/// A text made of OCI tag characters only: it holds no path separator and
/// no drive prefix on any platform.
pub open spec fn is_tag_text(t: Seq<char>) -> bool {
    forall|i: int| 0 <= i < t.len() ==> is_tag_char(#[trigger] t[i])
}

/// The extension of a tag read as a file name: none for the empty text,
/// `.` and `..`, else as `Path::extension` documents it.
pub open spec fn tag_extension(tag: Seq<char>) -> Option<Seq<char>> {
    if tag.len() == 0 || tag == "."@ || tag == ".."@ {
        None
    } else {
        file_name_extension(tag)
    }
}

/// `std::path::Path::new(tag).extension()`, as text.
///
/// What `Path` reads as a separator or a prefix depends on the platform
/// (on Windows `\` separates and `C:` is a drive prefix), so the result is
/// stated only for texts made of OCI tag characters, which hold neither:
/// there the whole text is the file name, and the result is what the
/// documentation of `Path::extension` describes. Of other texts nothing is
/// stated.
#[verifier::external_body]
fn extension_of(tag: &str) -> (r: Option<String>)
    ensures
        is_tag_text(tag@) ==> opt_text(r) == tag_extension(tag@),
{
    std::path::Path::new(tag).extension().map(|e| e.to_string_lossy().into_owned())
}

/// Whether `tags` lists a tag whose extension is `extension`: `sig` only
/// with `--signatures`, `att` only with `--attestations`, any other (or
/// none) always.
pub open spec fn spec_listed(extension: Option<Seq<char>>, signatures: bool, attestations: bool) -> bool {
    match extension {
        Some(e) => if e == "sig"@ {
            signatures
        } else if e == "att"@ {
            attestations
        } else {
            true
        },
        None => true,
    }
}

/// Whether `tags` lists a tag: signature tags (`.sig`) only with
/// `--signatures`, attestation tags (`.att`) only with `--attestations`,
/// release tags always.
pub open spec fn spec_keep_tag(tag: Seq<char>, signatures: bool, attestations: bool) -> bool {
    spec_listed(tag_extension(tag), signatures, attestations)
}

/// Whether `tags` lists a tag whose extension is `extension`: `sig` only
/// with `--signatures`, `att` only with `--attestations`, any other (or
/// none) always.
pub fn listed_with_extension(extension: Option<&str>, signatures: bool, attestations: bool) -> (r: bool)
    ensures
        r == spec_listed(
            match extension {
                Some(e) => Some(e@),
                None => None,
            },
            signatures,
            attestations,
        ),
{
    match extension {
        Some(e) => {
            if str_eq(e, "sig") {
                signatures
            } else if str_eq(e, "att") {
                attestations
            } else {
                true
            }
        },
        None => true,
    }
}

/// Whether `tags` lists `tag`. For a tag of OCI tag characters the
/// decision is exact; for any other text it is made on the extension that
/// `Path` gives on this platform.
pub fn keep_tag(tag: &str, signatures: bool, attestations: bool) -> (r: bool)
    ensures
        is_tag_text(tag@) ==> r == spec_keep_tag(tag@, signatures, attestations),
        exists|e: Option<Seq<char>>| r == #[trigger] spec_listed(e, signatures, attestations),
{
    let extension = extension_of(tag);
    let r = match &extension {
        Some(e) => listed_with_extension(Some(e.as_str()), signatures, attestations),
        None => listed_with_extension(None, signatures, attestations),
    };
    assert(r == spec_listed(opt_text(extension), signatures, attestations));
    r
}

/// The tags of `all` that are listed, in order.
pub open spec fn kept_tags(all: Seq<String>, signatures: bool, attestations: bool) -> Seq<String>
    decreases all.len(),
{
    if all.len() == 0 {
        Seq::empty()
    } else if spec_keep_tag(all.last()@, signatures, attestations) {
        kept_tags(all.drop_last(), signatures, attestations).push(all.last())
    } else {
        kept_tags(all.drop_last(), signatures, attestations)
    }
}

/// The tags of `all` whose entry in `keep` is set, in order.
pub open spec fn selected(all: Seq<String>, keep: Seq<bool>) -> Seq<String>
    decreases all.len(),
{
    if all.len() == 0 {
        Seq::empty()
    } else if keep[all.len() - 1] {
        selected(all.drop_last(), keep).push(all.last())
    } else {
        selected(all.drop_last(), keep)
    }
}

/// Every tag of `all` is made of OCI tag characters.
pub open spec fn all_tag_texts(all: Seq<String>) -> bool {
    forall|i: int| 0 <= i < all.len() ==> is_tag_text(#[trigger] all[i]@)
}

/// `keep` decides each tag of `all`: as `spec_keep_tag` does for every tag
/// of OCI tag characters.
pub open spec fn decides(all: Seq<String>, keep: Seq<bool>, signatures: bool, attestations: bool) -> bool {
    &&& keep.len() == all.len()
    &&& forall|i: int|
        0 <= i < all.len() && is_tag_text(all[i]@) ==> #[trigger] keep[i] == spec_keep_tag(
            all[i]@,
            signatures,
            attestations,
        )
}

/// The tags that are listed, in order: exactly `kept_tags` when every tag
/// is made of OCI tag characters, as registry tags are; otherwise those
/// kept by a decision that agrees with `spec_keep_tag` on every such tag.
pub fn filter_tags(all: Vec<String>, signatures: bool, attestations: bool) -> (r: Vec<String>)
    ensures
        all_tag_texts(all@) ==> r@ == kept_tags(all@, signatures, attestations),
        exists|keep: Seq<bool>|
            #[trigger] decides(all@, keep, signatures, attestations) && r@ == selected(all@, keep),
{
    let mut kept: Vec<String> = Vec::new();
    let ghost mut keep: Seq<bool> = Seq::empty();
    let mut i: usize = 0;
    while i < all.len()
        invariant
            i <= all.len(),
            decides(all@.take(i as int), keep, signatures, attestations),
            kept@ == selected(all@.take(i as int), keep),
            all_tag_texts(all@.take(i as int)) ==> kept@ == kept_tags(
                all@.take(i as int),
                signatures,
                attestations,
            ),
        decreases all.len() - i,
    {
        let ghost prefix = all@.take(i as int);
        let ghost next = all@.take(i + 1);
        assert(next.drop_last() == prefix);
        let k = keep_tag(all[i].as_str(), signatures, attestations);
        if k {
            kept.push(all[i].clone());
        }
        proof {
            let nk = keep.push(k);
            lemma_selected_prefix(prefix, keep, nk);
            assert(selected(next, nk) == kept@);
            if all_tag_texts(next) {
                assert(is_tag_text(next[i as int]@));
                assert forall|j: int| 0 <= j < prefix.len() implies is_tag_text(
                    #[trigger] prefix[j]@,
                ) by {
                    assert(prefix[j] == next[j]);
                }
            }
            assert forall|j: int| 0 <= j < next.len() && is_tag_text(next[j]@) implies #[trigger] nk[j]
                == spec_keep_tag(next[j]@, signatures, attestations) by {
                if j < i {
                    assert(next[j] == prefix[j]);
                }
            }
            keep = nk;
        }
        i = i + 1;
    }
    assert(all@.take(i as int) == all@);
    kept
}

/// `selected` reads only the entries of `keep` that its tags index.
proof fn lemma_selected_prefix(all: Seq<String>, keep: Seq<bool>, other: Seq<bool>)
    requires
        keep.len() >= all.len(),
        other.len() >= all.len(),
        forall|j: int| 0 <= j < all.len() ==> keep[j] == other[j],
    ensures
        selected(all, keep) == selected(all, other),
    decreases all.len(),
{
    if all.len() > 0 {
        lemma_selected_prefix(all.drop_last(), keep, other);
    }
}

/// The lines `tags` prints for the reference `whole`: a note when there
/// are none, else a heading and one indented line per tag; offline, the
/// tags are the cached ones.
pub open spec fn spec_tag_lines(whole: Seq<char>, tags: Seq<String>, offline: bool) -> Seq<Seq<char>> {
    if tags.len() == 0 {
        if offline {
            seq!["No cached tags found for '"@ + whole + "' (offline mode)"@]
        } else {
            seq!["No tags found for '"@ + whole + "'"@]
        }
    } else {
        seq![
            if offline {
                "Cached tags for '"@ + whole + "' (offline mode):"@
            } else {
                "Tags for '"@ + whole + "':"@
            },
        ] + tags.map_values(|t: String| "  "@ + t@)
    }
}

/// The characters of each line.
pub open spec fn lines_view(lines: Seq<String>) -> Seq<Seq<char>> {
    lines.map_values(|l: String| l@)
}

/// The lines `tags` prints for the reference `whole`.
pub fn tag_lines(whole: &str, tags: &Vec<String>, offline: bool) -> (lines: Vec<String>)
    ensures
        lines_view(lines@) == spec_tag_lines(whole@, tags@, offline),
{
    let mut lines: Vec<String> = Vec::new();
    if tags.len() == 0 {
        let line = if offline {
            let mut l = owned("No cached tags found for '");
            push_str(&mut l, whole);
            push_str(&mut l, "' (offline mode)");
            l
        } else {
            let mut l = owned("No tags found for '");
            push_str(&mut l, whole);
            push_str(&mut l, "'");
            l
        };
        lines.push(line);
        assert(lines_view(lines@) =~= spec_tag_lines(whole@, tags@, offline));
        return lines;
    }
    let heading = if offline {
        let mut l = owned("Cached tags for '");
        push_str(&mut l, whole);
        push_str(&mut l, "' (offline mode):");
        l
    } else {
        let mut l = owned("Tags for '");
        push_str(&mut l, whole);
        push_str(&mut l, "':");
        l
    };
    lines.push(heading);
    let ghost first = lines_view(lines@);
    let mut i: usize = 0;
    while i < tags.len()
        invariant
            i <= tags.len(),
            lines_view(lines@) == first + tags@.take(i as int).map_values(|t: String| "  "@ + t@),
        decreases tags.len() - i,
    {
        let mut l = owned("  ");
        push_str(&mut l, tags[i].as_str());
        let ghost before = lines@;
        lines.push(l);
        assert(lines_view(lines@) =~= lines_view(before).push("  "@ + tags@[i as int]@));
        assert(tags@.take(i + 1).map_values(|t: String| "  "@ + t@) =~= tags@.take(i as int).map_values(
            |t: String| "  "@ + t@,
        ).push("  "@ + tags@[i as int]@));
        i = i + 1;
    }
    assert(tags@.take(i as int) == tags@);
    lines
}

/// The line `delete` prints for the reference `whole`.
pub open spec fn spec_delete_message(whole: Seq<char>, deleted: bool) -> Seq<char> {
    if deleted {
        "Deleted '"@ + whole + "'"@
    } else {
        "Package '"@ + whole + "' not found in local store"@
    }
}

/// The line `delete` prints for the reference `whole`.
pub fn delete_message(whole: &str, deleted: bool) -> (s: String)
    ensures
        s@ == spec_delete_message(whole@, deleted),
{
    if deleted {
        let mut s = owned("Deleted '");
        push_str(&mut s, whole);
        push_str(&mut s, "'");
        s
    } else {
        let mut s = owned("Package '");
        push_str(&mut s, whole);
        push_str(&mut s, "' not found in local store");
        s
    }
}

/// What the meta-registry answered a notification.
pub enum NotifyOutcome {
    /// The package version was queued for fetching.
    Enqueued,
    /// The registry skipped it, for the given reason.
    Skipped { reason: String },
}

/// The line `notify` prints for the answer of `registry_url` about the
/// reference `whole`.
pub open spec fn spec_notify_message(registry_url: Seq<char>, whole: Seq<char>, outcome: NotifyOutcome) -> Seq<char> {
    match outcome {
        NotifyOutcome::Enqueued => "Notified "@ + registry_url + ": '"@ + whole + "' enqueued for fetch"@,
        NotifyOutcome::Skipped { reason } => "Notified "@ + registry_url + ": '"@ + whole + "' skipped ("@
            + reason@ + ")"@,
    }
}

/// The line `notify` prints for the registry's answer.
pub fn notify_message(registry_url: &str, whole: &str, outcome: &NotifyOutcome) -> (s: String)
    ensures
        s@ == spec_notify_message(registry_url@, whole@, *outcome),
{
    let mut s = owned("Notified ");
    push_str(&mut s, registry_url);
    push_str(&mut s, ": '");
    push_str(&mut s, whole);
    match outcome {
        NotifyOutcome::Enqueued => push_str(&mut s, "' enqueued for fetch"),
        NotifyOutcome::Skipped { reason } => {
            push_str(&mut s, "' skipped (");
            push_str(&mut s, reason.as_str());
            push_str(&mut s, ")");
        },
    }
    s
}

/// Why `notify` refuses to run.
pub enum NotifyError {
    /// The meta-registry cannot be reached offline.
    Offline,
    /// The package is not given as `namespace:package@version`.
    NotWitName { input: String },
    /// The package resolved to a reference without a version.
    NoVersion { package: String },
}

/// The message of a `notify` refusal.
pub open spec fn spec_notify_error(e: NotifyError) -> Seq<char> {
    match e {
        NotifyError::Offline => "cannot notify meta-registry in offline mode"@,
        NotifyError::NotWitName { input } => "'"@ + input@
            + "' is not a WIT-style package name; expected `namespace:package@version` (e.g., `wasi:http@0.2.11`)"@,
        NotifyError::NoVersion { package } => "'"@ + package@
            + "' has no version; specify one (e.g., `wasi:http@0.2.11`) so the registry knows which version to fetch"@,
    }
}

impl NotifyError {
    /// The message of the refusal.
    pub fn message(&self) -> (s: String)
        ensures
            s@ == spec_notify_error(*self),
    {
        match self {
            NotifyError::Offline => owned("cannot notify meta-registry in offline mode"),
            NotifyError::NotWitName { input } => {
                let mut s = owned("'");
                push_str(&mut s, input.as_str());
                push_str(
                    &mut s,
                    "' is not a WIT-style package name; expected `namespace:package@version` (e.g., `wasi:http@0.2.11`)",
                );
                s
            },
            NotifyError::NoVersion { package } => {
                let mut s = owned("'");
                push_str(&mut s, package.as_str());
                push_str(
                    &mut s,
                    "' has no version; specify one (e.g., `wasi:http@0.2.11`) so the registry knows which version to fetch",
                );
                s
            },
        }
    }
}

/// The registry already lists the package `namespace:package`: the entry
/// found under that name has exactly that namespace and name.
pub open spec fn spec_already_registered(
    found: Option<(Option<Seq<char>>, Option<Seq<char>>)>,
    namespace: Seq<char>,
    package: Seq<char>,
) -> bool {
    match found {
        Some((ns, name)) => ns == Some(namespace) && name == Some(package),
        None => false,
    }
}

/// The characters of a found entry's WIT namespace and name.
pub open spec fn found_view(found: Option<(Option<String>, Option<String>)>) -> Option<(Option<Seq<char>>, Option<Seq<char>>)> {
    match found {
        Some((ns, name)) => Some(
            (
                match ns {
                    Some(n) => Some(n@),
                    None => None,
                },
                match name {
                    Some(n) => Some(n@),
                    None => None,
                },
            ),
        ),
        None => None,
    }
}

/// Whether the entry found by WIT name (its namespace and name, if any
/// was found) is the package `namespace:package`.
pub fn already_registered(found: &Option<(Option<String>, Option<String>)>, namespace: &str, package: &str) -> (r: bool)
    ensures
        r == spec_already_registered(found_view(*found), namespace@, package@),
{
    match found {
        Some((ns, name)) => {
            let ns_ok = match ns {
                Some(n) => str_eq(n.as_str(), namespace),
                None => false,
            };
            let name_ok = match name {
                Some(n) => str_eq(n.as_str(), package),
                None => false,
            };
            ns_ok && name_ok
        },
        None => false,
    }
}

/// The line `publish` prints when the registry already lists the package.
pub fn already_registered_message(namespace: &str, package: &str) -> (s: String)
    ensures
        s@ == namespace@ + ":"@ + package@ + " is already in the registry; nothing to publish."@,
{
    let mut s = owned(namespace);
    push_str(&mut s, ":");
    push_str(&mut s, package);
    push_str(&mut s, " is already in the registry; nothing to publish.");
    s
}

/// How a forced sync of the package index ended.
pub enum SyncResult {
    /// The index was refreshed with `count` packages.
    Updated { count: u64 },
    /// The registry confirmed the index is current.
    NotModified,
    /// The index was synced too recently to sync again.
    Skipped,
    /// The sync failed; the registry's error.
    Degraded { error: String },
}

/// The line `sync` prints, or nothing when the sync failed (which is an
/// error).
pub open spec fn spec_sync_message(result: SyncResult, registry_url: Seq<char>) -> Option<Seq<char>> {
    match result {
        SyncResult::Updated { count } => Some(
            "Synced "@ + decimal(count as nat) + " packages from "@ + registry_url,
        ),
        SyncResult::NotModified => Some("Already up to date (verified with registry)"@),
        SyncResult::Skipped => Some("Already up to date (synced recently)"@),
        SyncResult::Degraded { .. } => None,
    }
}

/// The line `sync` prints for its result.
pub fn sync_message(result: &SyncResult, registry_url: &str) -> (m: Option<String>)
    ensures
        match m {
            Some(s) => spec_sync_message(*result, registry_url@) == Some(s@),
            None => spec_sync_message(*result, registry_url@) is None,
        },
{
    match result {
        SyncResult::Updated { count } => {
            let mut s = owned("Synced ");
            let digits = to_decimal(*count);
            push_str(&mut s, digits.as_str());
            push_str(&mut s, " packages from ");
            push_str(&mut s, registry_url);
            Some(s)
        },
        SyncResult::NotModified => Some(owned("Already up to date (verified with registry)")),
        SyncResult::Skipped => Some(owned("Already up to date (synced recently)")),
        SyncResult::Degraded { .. } => None,
    }
}

} // verus!
