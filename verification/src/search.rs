//! `component registry search`: which lookup to make, how to narrow its
//! results by text, and what to print.
use vstd::prelude::*;

use comfy_table::{ContentArrangement, Table};

use crate::inspect::rows_view;
use crate::text::{has_infix, owned, push_str, str_contains};

verus! {

/// A package the registry knows, as the search shows it.
pub struct KnownPackage {
    pub registry: String,
    pub repository: String,
    pub description: Option<String>,
    pub tags: Vec<String>,
}

/// The reference of a package: its registry and repository.
pub open spec fn reference_of(pkg: KnownPackage) -> Seq<char> {
    pkg.registry@ + "/"@ + pkg.repository@
}

impl KnownPackage {
    /// The reference of the package, `registry/repository`.
    pub fn reference(&self) -> (r: String)
        ensures
            r@ == reference_of(*self),
    {
        let mut r = owned(self.registry.as_str());
        push_str(&mut r, "/");
        push_str(&mut r, self.repository.as_str());
        r
    }
}

/// The lower-case form of a text by `str::to_lowercase` (the Unicode
/// `Lowercase` mapping).
pub uninterp spec fn lowercase(s: Seq<char>) -> Seq<char>;

/// `str::to_lowercase`.
///
/// The result is named by `lowercase`: it depends on the text alone.
#[verifier::external_body]
fn to_lowercase(s: &str) -> (r: String)
    ensures
        r@ == lowercase(s@),
{
    s.to_lowercase()
}

/// The package's reference or description contains the lower-case query
/// `query_lc`, compared in lower case.
pub open spec fn matches_text(pkg: KnownPackage, query_lc: Seq<char>) -> bool {
    has_infix(lowercase(reference_of(pkg)), query_lc) || has_infix(
        lowercase(
            match pkg.description {
                Some(d) => d@,
                None => Seq::empty(),
            },
        ),
        query_lc,
    )
}

/// The first `limit` packages of `ps` that match `query_lc`, in order.
pub open spec fn first_matches(ps: Seq<KnownPackage>, query_lc: Seq<char>, limit: nat) -> Seq<KnownPackage>
    decreases ps.len(),
{
    if ps.len() == 0 || limit == 0 {
        Seq::empty()
    } else if matches_text(ps[0], query_lc) {
        seq![ps[0]] + first_matches(ps.drop_first(), query_lc, (limit - 1) as nat)
    } else {
        first_matches(ps.drop_first(), query_lc, limit)
    }
}

/// Whether a package matches the lower-case query `query_lc`, given its
/// reference and description in lower case: either contains it.
pub fn lowered_matches(reference_lc: &str, description_lc: &str, query_lc: &str) -> (r: bool)
    ensures
        r == (has_infix(reference_lc@, query_lc@) || has_infix(description_lc@, query_lc@)),
{
    str_contains(reference_lc, query_lc) || str_contains(description_lc, query_lc)
}

/// Whether `pkg` matches the lower-case query.
fn matches(pkg: &KnownPackage, query_lc: &str) -> (r: bool)
    ensures
        r == matches_text(*pkg, query_lc@),
{
    let reference = to_lowercase(pkg.reference().as_str());
    let description = match &pkg.description {
        Some(d) => to_lowercase(d.as_str()),
        None => to_lowercase(""),
    };
    proof {
        assert(""@ == Seq::<char>::empty()) by {
            reveal_strlit("");
        }
    }
    lowered_matches(reference.as_str(), description.as_str(), query_lc)
}

/// Narrow `packages` to those whose reference or description contains
/// `query`, compared in lower case, keeping at most `limit` of them.
pub fn filter_by_text(packages: Vec<KnownPackage>, query: &str, limit: u32) -> (r: Vec<KnownPackage>)
    ensures
        r@ == first_matches(packages@, lowercase(query@), limit as nat),
{
    let query_lc = to_lowercase(query);
    let ghost all = packages@;
    let mut kept: Vec<KnownPackage> = Vec::new();
    let mut remaining = packages;
    let mut left: u32 = limit;
    while remaining.len() > 0 && left > 0
        invariant
            kept@ + first_matches(remaining@, query_lc@, left as nat) == first_matches(all, query_lc@, limit as nat),
        decreases remaining.len(),
    {
        let ghost before = remaining@;
        let ghost kept_before = kept@;
        let pkg = remaining.remove(0);
        assert(before.drop_first() == remaining@);
        if matches(&pkg, query_lc.as_str()) {
            kept.push(pkg);
            left = left - 1;
            assert(kept@ == kept_before + seq![before[0]]);
            assert(kept_before + (seq![before[0]] + first_matches(remaining@, query_lc@, left as nat))
                == kept@ + first_matches(remaining@, query_lc@, left as nat));
        }
    }
    proof {
        assert(first_matches(remaining@, query_lc@, left as nat) == Seq::<KnownPackage>::empty());
        assert(kept@ + Seq::<KnownPackage>::empty() == kept@);
    }
    kept
}

/// `ts` joined by `, `.
pub open spec fn joined(ts: Seq<String>) -> Seq<char>
    decreases ts.len(),
{
    if ts.len() == 0 {
        Seq::empty()
    } else if ts.len() == 1 {
        ts[0]@
    } else {
        joined(ts.drop_last()) + ", "@ + ts.last()@
    }
}

/// The table row of a package: reference, description (or `-`), tags
/// joined by `, ` (or `-`).
pub open spec fn search_row(pkg: KnownPackage) -> Seq<Seq<char>> {
    seq![
        reference_of(pkg),
        match pkg.description {
            Some(d) => d@,
            None => "-"@,
        },
        if pkg.tags@.len() == 0 {
            "-"@
        } else {
            joined(pkg.tags@)
        },
    ]
}

/// The tags of a package joined by `, `.
fn join_tags(tags: &Vec<String>) -> (s: String)
    ensures
        s@ == joined(tags@),
{
    let mut s = String::new();
    let mut i: usize = 0;
    while i < tags.len()
        invariant
            i <= tags.len(),
            s@ == joined(tags@.take(i as int)),
        decreases tags.len() - i,
    {
        if i > 0 {
            push_str(&mut s, ", ");
        }
        push_str(&mut s, tags[i].as_str());
        assert(tags@.take(i + 1).drop_last() == tags@.take(i as int));
        i = i + 1;
    }
    assert(tags@.take(tags.len() as int) == tags@);
    s
}

/// The rows of the search results table, one per package.
pub fn search_rows(packages: &Vec<KnownPackage>) -> (rows: Vec<Vec<String>>)
    ensures
        rows_view(rows@) == packages@.map_values(|p: KnownPackage| search_row(p)),
{
    let mut rows: Vec<Vec<String>> = Vec::new();
    let mut i: usize = 0;
    while i < packages.len()
        invariant
            i <= packages.len(),
            rows_view(rows@) == packages@.take(i as int).map_values(|p: KnownPackage| search_row(p)),
        decreases packages.len() - i,
    {
        let pkg = &packages[i];
        let description = match &pkg.description {
            Some(d) => d.clone(),
            None => owned("-"),
        };
        let tags = if pkg.tags.len() == 0 {
            owned("-")
        } else {
            join_tags(&pkg.tags)
        };
        let row = vec![pkg.reference(), description, tags];
        let ghost before = rows@;
        assert(row@.map_values(|c: String| c@) =~= search_row(*pkg));
        rows.push(row);
        assert(rows_view(rows@) =~= rows_view(before).push(search_row(*pkg)));
        assert(packages@.take(i + 1) == packages@.take(i as int).push(packages@[i as int]));
        i = i + 1;
    }
    assert(packages@.take(i as int) == packages@);
    rows
}

/// The text of a table drawn by `comfy-table` in its default style with
/// dynamic arrangement at a width of `width` columns, the header `header`
/// and the rows `rows`.
pub uninterp spec fn plain_table_text_at(
    header: Seq<Seq<char>>,
    rows: Seq<Seq<Seq<char>>>,
    width: u16,
) -> Seq<char>;

/// The text of a table drawn by `comfy-table` in its default style with
/// dynamic arrangement and no known width, the header `header` and the rows
/// `rows`.
pub uninterp spec fn plain_table_text_unsized(
    header: Seq<Seq<char>>,
    rows: Seq<Seq<Seq<char>>>,
) -> Seq<char>;

/// The width `comfy-table` gives a table it draws for the terminal
/// (`Table::width` of a new table): the terminal's width when standard
/// output is a terminal whose size can be read, none otherwise.
///
/// Nothing is stated of the result: it is read from the terminal.
#[verifier::external_body]
fn terminal_width() -> Option<u16> {
    Table::new().width()
}

/// Draw a table with `comfy-table`'s default style, arranged to `width`
/// columns (`Table::set_width`, then `Table::to_string`).
///
/// The text is named by `plain_table_text_at`: with the width fixed and no
/// styled cell, the crate's source draws it from the arguments alone.
#[verifier::external_body]
fn render_plain_table_at(header: &Vec<String>, rows: &Vec<Vec<String>>, width: u16) -> (s: String)
    ensures
        s@ == plain_table_text_at(header@.map_values(|h: String| h@), rows_view(rows@), width),
{
    let mut table = Table::new();
    table.set_content_arrangement(ContentArrangement::Dynamic).set_width(width);
    table.set_header(header.clone());
    for row in rows {
        table.add_row(row.clone());
    }
    table.to_string()
}

/// Draw a table with `comfy-table`'s default style when no width is known
/// (`Table::force_no_tty`, then `Table::to_string`).
///
/// The text is named by `plain_table_text_unsized`: with no width and no
/// styled cell, the crate's source draws it from the arguments alone.
#[verifier::external_body]
fn render_plain_table_unsized(header: &Vec<String>, rows: &Vec<Vec<String>>) -> (s: String)
    ensures
        s@ == plain_table_text_unsized(header@.map_values(|h: String| h@), rows_view(rows@)),
{
    let mut table = Table::new();
    table.set_content_arrangement(ContentArrangement::Dynamic).force_no_tty();
    table.set_header(header.clone());
    for row in rows {
        table.add_row(row.clone());
    }
    table.to_string()
}

/// The header of the search results table.
pub open spec fn search_header() -> Seq<Seq<char>> {
    seq!["PACKAGE"@, "DESCRIPTION"@, "TAGS"@]
}

/// The search results table of `packages` drawn at the width `width`
/// (none when the width is unknown).
pub open spec fn search_table_text(packages: Seq<KnownPackage>, width: Option<u16>) -> Seq<char> {
    let rows = packages.map_values(|p: KnownPackage| search_row(p));
    match width {
        Some(w) => plain_table_text_at(search_header(), rows, w),
        None => plain_table_text_unsized(search_header(), rows),
    }
}

/// Render packages as the search results table at a given width: package
/// reference, description and tags.
pub fn render_search_table_at(packages: &Vec<KnownPackage>, width: Option<u16>) -> (s: String)
    ensures
        s@ == search_table_text(packages@, width),
{
    let header = vec![owned("PACKAGE"), owned("DESCRIPTION"), owned("TAGS")];
    assert(header@.map_values(|h: String| h@) =~= search_header());
    let rows = search_rows(packages);
    match width {
        Some(w) => render_plain_table_at(&header, &rows, w),
        None => render_plain_table_unsized(&header, &rows),
    }
}

/// Render packages as the search results table: package reference,
/// description and tags, arranged to the terminal's width when it has one.
pub fn render_search_table(packages: &Vec<KnownPackage>) -> (s: String)
    ensures
        exists|width: Option<u16>| s@ == #[trigger] search_table_text(packages@, width),
{
    let width = terminal_width();
    render_search_table_at(packages, width)
}

/// Which lookup a search makes.
#[derive(Debug, PartialEq, Eq)]
pub enum Lookup {
    /// Packages that export this interface.
    ByExport(String),
    /// Packages that import this interface.
    ByImport(String),
    /// Packages whose name or description matches this text.
    ByText(String),
}

/// What a search asked for.
pub struct SearchOpts {
    /// Search text (matches package name and description).
    pub query: Option<String>,
    /// Only packages that export this interface.
    pub exports: Option<String>,
    /// Only packages that import this interface.
    pub imports: Option<String>,
    /// Maximum number of results to show.
    pub limit: u32,
}

/// The search text, empty when there is none.
pub open spec fn query_text(opts: SearchOpts) -> Seq<char> {
    match opts.query {
        Some(q) => q@,
        None => Seq::empty(),
    }
}

/// The lookup a search makes: by export if an export filter is given, else
/// by import if an import filter is given, else by text.
pub open spec fn spec_lookup(opts: SearchOpts) -> (Seq<char>, nat) {
    match opts.exports {
        Some(i) => (i@, 0),
        None => match opts.imports {
            Some(i) => (i@, 1),
            None => (query_text(opts), 2),
        },
    }
}

/// The text of a lookup and its kind: 0 by export, 1 by import, 2 by text.
pub open spec fn lookup_view(l: Lookup) -> (Seq<char>, nat) {
    match l {
        Lookup::ByExport(i) => (i@, 0),
        Lookup::ByImport(i) => (i@, 1),
        Lookup::ByText(q) => (q@, 2),
    }
}

/// A text query narrows the results of an interface lookup.
pub open spec fn spec_narrows(opts: SearchOpts) -> bool {
    query_text(opts).len() > 0 && (opts.exports is Some || opts.imports is Some)
}

/// The line printed when a search finds nothing.
pub open spec fn spec_not_found(opts: SearchOpts) -> Seq<char> {
    let q = query_text(opts);
    match (opts.exports, opts.imports) {
        (Some(i), _) => if q.len() > 0 {
            "No packages found exporting '"@ + i@ + "' matching '"@ + q + "'"@
        } else {
            "No packages found exporting '"@ + i@ + "'"@
        },
        (None, Some(i)) => if q.len() > 0 {
            "No packages found importing '"@ + i@ + "' matching '"@ + q + "'"@
        } else {
            "No packages found importing '"@ + i@ + "'"@
        },
        (None, None) => "No packages found matching '"@ + q + "'"@,
    }
}

/// What a search ends with.
pub enum SearchOutcome {
    /// Nothing was found; the line to print.
    NotFound(String),
    /// The packages to list.
    Found(Vec<KnownPackage>),
}

impl SearchOpts {
    /// The search text, empty when there is none.
    fn query_str(&self) -> (q: &str)
        ensures
            q@ == query_text(*self),
    {
        match &self.query {
            Some(q) => q.as_str(),
            None => {
                proof {
                    reveal_strlit("");
                }
                ""
            },
        }
    }

    /// The lookup to make: by export if an export filter is given, else by
    /// import if an import filter is given, else by the search text.
    pub fn lookup(&self) -> (l: Lookup)
        ensures
            lookup_view(l) == spec_lookup(*self),
    {
        match &self.exports {
            Some(i) => Lookup::ByExport(i.clone()),
            None => match &self.imports {
                Some(i) => Lookup::ByImport(i.clone()),
                None => Lookup::ByText(owned(self.query_str())),
            },
        }
    }

    /// Whether the search text narrows the results of an interface lookup.
    pub fn narrows_by_text(&self) -> (r: bool)
        ensures
            r == spec_narrows(*self),
    {
        self.query_str().is_empty() == false && (self.exports.is_some() || self.imports.is_some())
    }

    /// The line printed when the search finds nothing.
    pub fn not_found_message(&self) -> (s: String)
        ensures
            s@ == spec_not_found(*self),
    {
        let q = self.query_str();
        let mut s;
        match &self.exports {
            Some(i) => {
                s = owned("No packages found exporting '");
                push_str(&mut s, i.as_str());
            },
            None => match &self.imports {
                Some(i) => {
                    s = owned("No packages found importing '");
                    push_str(&mut s, i.as_str());
                },
                None => {
                    s = owned("No packages found matching '");
                    push_str(&mut s, q);
                    push_str(&mut s, "'");
                    return s;
                },
            },
        }
        if q.is_empty() {
            push_str(&mut s, "'");
        } else {
            push_str(&mut s, "' matching '");
            push_str(&mut s, q);
            push_str(&mut s, "'");
        }
        s
    }

    /// Finish a search with the packages the lookup returned: narrow them
    /// by the search text when it accompanies an interface filter, then
    /// report them, or the line that says nothing was found.
    pub fn outcome(&self, packages: Vec<KnownPackage>) -> (o: SearchOutcome)
        ensures
            ({
                let kept = if spec_narrows(*self) {
                    first_matches(packages@, lowercase(query_text(*self)), self.limit as nat)
                } else {
                    packages@
                };
                match o {
                    SearchOutcome::NotFound(m) => kept.len() == 0 && m@ == spec_not_found(*self),
                    SearchOutcome::Found(ps) => kept.len() > 0 && ps@ == kept,
                }
            }),
    {
        let kept = if self.narrows_by_text() {
            filter_by_text(packages, self.query_str(), self.limit)
        } else {
            packages
        };
        if kept.len() == 0 {
            SearchOutcome::NotFound(self.not_found_message())
        } else {
            SearchOutcome::Found(kept)
        }
    }
}

/// Narrowing by text keeps at most `limit` packages, and no more than
/// there were, each of which matches.
pub proof fn law_filter_keeps_only_matches(ps: Seq<KnownPackage>, query_lc: Seq<char>, limit: nat)
    ensures
        first_matches(ps, query_lc, limit).len() <= limit,
        first_matches(ps, query_lc, limit).len() <= ps.len(),
        forall|k: int|
            0 <= k < first_matches(ps, query_lc, limit).len() ==> matches_text(
                #[trigger] first_matches(ps, query_lc, limit)[k],
                query_lc,
            ),
    decreases ps.len(),
{
    if ps.len() > 0 && limit > 0 {
        let rest_limit = if matches_text(ps[0], query_lc) {
            (limit - 1) as nat
        } else {
            limit
        };
        law_filter_keeps_only_matches(ps.drop_first(), query_lc, rest_limit);
        let rest = first_matches(ps.drop_first(), query_lc, rest_limit);
        if matches_text(ps[0], query_lc) {
            assert forall|k: int|
                0 <= k < first_matches(ps, query_lc, limit).len() implies matches_text(
                #[trigger] first_matches(ps, query_lc, limit)[k],
                query_lc,
            ) by {
                if k > 0 {
                    assert(first_matches(ps, query_lc, limit)[k] == rest[k - 1]);
                }
            }
        }
    }
}

} // verus!
