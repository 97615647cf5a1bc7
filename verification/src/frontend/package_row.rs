//! Package rows: two grouped rows for search results, namespaces and
//! all-packages pages: identity and description, then kind, version,
//! dependents and release age. Identities and metadata wrap when needed;
//! version tags stay fully visible; descriptions stay on one line and
//! truncate visually, keeping their text.
//!
//! The markup of the kind label, of the icons and of the description's
//! summary, and the release age, are handed in by the caller.
use vstd::prelude::*;

use crate::frontend::escape::{escape_html_attr, escape_html_text, escaped_attr, escaped_text};
use crate::frontend::package_columns::{dependents_label, strip_ago, without_ago, Age, DEPENDENTS_DESCRIPTION};
use crate::text::{decimal, owned, push_str, to_decimal, trim, trimmed};

verus! {

/// `trusted_html` hidden from assistive technology.
pub open spec fn spec_hidden_content(trusted_html: Seq<char>) -> Seq<char> {
    "<span aria-hidden=\"true\">"@ + trusted_html + "</span>"@
}

/// Wrap trusted markup in a span that assistive technology skips.
pub fn hidden_content(trusted_html: &str) -> (out: String)
    ensures
        out@ == spec_hidden_content(trusted_html@),
{
    let mut out = String::new();
    push_str(&mut out, "<span aria-hidden=\"true\">");
    push_str(&mut out, trusted_html);
    push_str(&mut out, "</span>");
    out
}

/// What a package holds.
#[derive(Debug, Clone, Copy, PartialEq, Eq)]
pub enum PackageKind {
    Component,
    Interface,
}

/// A package the registry knows, as the listings show it.
pub struct KnownPackage {
    pub registry: String,
    pub repository: String,
    pub kind: Option<PackageKind>,
    pub description: Option<String>,
    pub tags: Vec<String>,
    pub wit_namespace: Option<String>,
    pub wit_name: Option<String>,
    /// Indexed repositories that depend on the package, when known.
    pub dependents: Option<u64>,
}

/// A package's display name, joined by `sep`, and its link: both only
/// when it has a WIT namespace and name; else its repository, unlinked.
pub open spec fn spec_identity(pkg: KnownPackage, sep: Seq<char>) -> (Seq<char>, Option<Seq<char>>) {
    match (pkg.wit_namespace, pkg.wit_name) {
        (Some(ns), Some(name)) => (ns@ + sep + name@, Some("/"@ + ns@ + "/"@ + name@)),
        _ => (pkg.repository@, None),
    }
}

/// The characters of a display name and optional link.
pub open spec fn identity_view(r: (String, Option<String>)) -> (Seq<char>, Option<Seq<char>>) {
    (
        r.0@,
        match r.1 {
            Some(h) => Some(h@),
            None => None,
        },
    )
}

fn identity_with(pkg: &KnownPackage, sep: &str) -> (r: (String, Option<String>))
    ensures
        identity_view(r) == spec_identity(*pkg, sep@),
{
    match (&pkg.wit_namespace, &pkg.wit_name) {
        (Some(ns), Some(name)) => {
            let mut display = owned(ns.as_str());
            push_str(&mut display, sep);
            push_str(&mut display, name.as_str());
            let mut href = owned("/");
            push_str(&mut href, ns.as_str());
            push_str(&mut href, "/");
            push_str(&mut href, name.as_str());
            (display, Some(href))
        },
        _ => (pkg.repository.clone(), None),
    }
}

/// The display name (`namespace:name`) and link (`/namespace/name`) of a
/// package with a WIT identity; else its repository, unlinked.
pub fn identity(pkg: &KnownPackage) -> (r: (String, Option<String>))
    ensures
        identity_view(r) == spec_identity(*pkg, ":"@),
{
    identity_with(pkg, ":")
}

/// The listing name (`namespace/name`) and link (`/namespace/name`) of a
/// package with a WIT identity; else its repository, unlinked.
pub fn listing_identity(pkg: &KnownPackage) -> (r: (String, Option<String>))
    ensures
        identity_view(r) == spec_identity(*pkg, "/"@),
{
    identity_with(pkg, "/")
}

/// A tag without all its leading `v` and `V`.
pub open spec fn strip_vs(tag: Seq<char>) -> Seq<char>
    decreases tag.len(),
{
    if tag.len() > 0 && (tag[0] == 'v' || tag[0] == 'V') {
        strip_vs(tag.drop_first())
    } else {
        tag
    }
}

/// A tag without its leading `v` and `V` (`trim_start_matches(['v', 'V'])`).
pub fn trim_vs(tag: &str) -> (r: String)
    ensures
        r@ == strip_vs(tag@),
{
    let cs = crate::text::chars_of(tag);
    let mut i: usize = 0;
    assert(tag@.skip(0) == tag@);
    while i < cs.len() && (cs[i] == 'v' || cs[i] == 'V')
        invariant
            cs@ == tag@,
            i <= cs.len(),
            strip_vs(tag@) == strip_vs(tag@.skip(i as int)),
        decreases cs.len() - i,
    {
        assert(tag@.skip(i as int).drop_first() == tag@.skip(i + 1));
        i = i + 1;
    }
    let mut r = String::new();
    let mut j: usize = i;
    while j < cs.len()
        invariant
            cs@ == tag@,
            i <= j <= cs.len(),
            r@ == tag@.subrange(i as int, j as int),
        decreases cs.len() - j,
    {
        crate::text::push_char(&mut r, cs[j]);
        assert(tag@.subrange(i as int, j + 1) == tag@.subrange(i as int, j as int).push(tag@[j as int]));
        j = j + 1;
    }
    assert(tag@.skip(i as int) == tag@.subrange(i as int, cs.len() as int));
    r
}

/// The version shown for a package's first tag: a single `v` before it,
/// or an em dash when it has no tag.
pub open spec fn spec_listing_version(version: Option<Seq<char>>) -> Seq<char> {
    match version {
        Some(v) => "v"@ + strip_vs(v),
        None => "\u{2014}"@,
    }
}

/// The version label of a package listing: `v` and the tag without its
/// own `v`/`V` prefixes, or an em dash when there is no tag.
pub fn version_label(version: Option<&str>) -> (r: String)
    ensures
        r@ == spec_listing_version(
            match version {
                Some(v) => Some(v@),
                None => None,
            },
        ),
{
    match version {
        Some(v) => {
            let mut r = owned("v");
            let number = trim_vs(v);
            push_str(&mut r, number.as_str());
            r
        },
        None => owned("\u{2014}"),
    }
}

/// The classes of a row.
pub const ROW_CLASS: &'static str = "flex flex-col gap-1 py-3 -mx-2 px-2";

/// The classes of the identity and description group.
pub const PRIMARY_CLASS: &'static str = "flex flex-wrap items-baseline gap-x-3 gap-y-1 min-w-0";

/// The classes of the metadata group.
pub const META_CLASS: &'static str = "flex flex-wrap items-center gap-x-3 gap-y-1 min-w-0 text-[12px] sm:text-[13px] text-ink-500";

/// The classes of a metric.
pub const METRIC_CLASS: &'static str = "inline-flex items-center gap-1";

/// The background, ink and text of the inline label of a package kind.
pub open spec fn spec_kind_parts(kind: Option<PackageKind>) -> (Seq<char>, Seq<char>, Seq<char>) {
    match kind {
        Some(PackageKind::Component) => ("bg-cat-green"@, "text-cat-greenInk"@, "component"@),
        Some(PackageKind::Interface) => ("bg-cat-blue"@, "text-cat-blueInk"@, "interface"@),
        None => ("bg-cat-slate"@, "text-cat-slateInk"@, "package"@),
    }
}

/// The background, ink and text of the inline label of a package kind:
/// green for components, blue for interfaces, slate for plain packages.
pub fn kind_label_parts(kind: Option<PackageKind>) -> (r: (&'static str, &'static str, &'static str))
    ensures
        (r.0@, r.1@, r.2@) == spec_kind_parts(kind),
{
    match kind {
        Some(PackageKind::Component) => ("bg-cat-green", "text-cat-greenInk", "component"),
        Some(PackageKind::Interface) => ("bg-cat-blue", "text-cat-blueInk", "interface"),
        None => ("bg-cat-slate", "text-cat-slateInk", "package"),
    }
}

/// Trusted decorative markup, hidden from assistive technology.
pub open spec fn spec_decorative_svg(trusted_svg: Seq<char>) -> Seq<char> {
    "<span class=\"inline-flex shrink-0\">"@ + spec_hidden_content(trusted_svg) + "</span>"@
}

/// Wrap a trusted icon so that assistive technology skips it.
pub fn decorative_svg(trusted_svg: &str) -> (out: String)
    ensures
        out@ == spec_decorative_svg(trusted_svg@),
{
    let inner = hidden_content(trusted_svg);
    let mut out = owned("<span class=\"inline-flex shrink-0\">");
    push_str(&mut out, inner.as_str());
    push_str(&mut out, "</span>");
    out
}

/// `visible` for the eye and `label` for assistive technology.
pub open spec fn spec_accessible_text(visible: Seq<char>, label: Seq<char>) -> Seq<char> {
    "<span>"@ + spec_hidden_content(escaped_text(visible)) + "<span class=\"sr-only\">"@
        + escaped_text(label) + "</span></span>"@
}

/// Show `visible`, and read out `label` in its place.
pub fn accessible_text(visible: &str, label: &str) -> (out: String)
    ensures
        out@ == spec_accessible_text(visible@, label@),
{
    let shown = escape_html_text(visible);
    let hidden = hidden_content(shown.as_str());
    let read = escape_html_text(label);
    let mut out = owned("<span>");
    push_str(&mut out, hidden.as_str());
    push_str(&mut out, "<span class=\"sr-only\">");
    push_str(&mut out, read.as_str());
    push_str(&mut out, "</span></span>");
    out
}

/// What a dependents count reads as: `1 dependent`, `n dependents`, or
/// `0 dependents (count unavailable)` when it is unknown.
pub open spec fn spec_dependents_text(count: Option<u64>) -> Seq<char> {
    match count {
        Some(c) => dependents_label(c),
        None => "0 dependents (count unavailable)"@,
    }
}

/// The dependents metric: the icon and the count (0 when unknown), with
/// what the count means on hover and read out.
pub open spec fn spec_dependents(count: Option<u64>, icon: Seq<char>) -> Seq<char> {
    let label = spec_dependents_text(count);
    let visible = decimal(
        match count {
            Some(c) => c as nat,
            None => 0,
        },
    );
    "<span class=\""@ + METRIC_CLASS@ + " cursor-help\" title=\""@ + label + ". "@
        + DEPENDENTS_DESCRIPTION@ + "\">"@ + spec_decorative_svg(icon) + spec_accessible_text(
        visible,
        label,
    ) + "</span>"@
}

/// Render the dependents metric of a package.
pub fn dependents(count: Option<u64>, icon: &str) -> (out: String)
    ensures
        out@ == spec_dependents(count, icon@),
{
    let label = match count {
        Some(c) => {
            let mut l = to_decimal(c);
            if c == 1 {
                push_str(&mut l, " dependent");
            } else {
                push_str(&mut l, " dependents");
            }
            l
        },
        None => owned("0 dependents (count unavailable)"),
    };
    let visible = match count {
        Some(c) => to_decimal(c),
        None => to_decimal(0),
    };
    let svg = decorative_svg(icon);
    let text = accessible_text(visible.as_str(), label.as_str());
    let mut out = owned("<span class=\"");
    push_str(&mut out, METRIC_CLASS);
    push_str(&mut out, " cursor-help\" title=\"");
    push_str(&mut out, label.as_str());
    push_str(&mut out, ". ");
    push_str(&mut out, DEPENDENTS_DESCRIPTION);
    push_str(&mut out, "\">");
    push_str(&mut out, svg.as_str());
    push_str(&mut out, text.as_str());
    push_str(&mut out, "</span>");
    out
}

/// The release-age metric: a clock, the age without ` ago`, `Updated` and
/// the full age read out, the timestamp and the event on hover.
pub open spec fn spec_updated(age: Age, clock: Seq<char>) -> Seq<char> {
    "<span class=\""@ + METRIC_CLASS@ + "\">"@ + spec_decorative_svg(clock) + "<time datetime=\""@
        + age.datetime@ + "\" title=\""@ + escaped_attr(age.title@) + "\">"@ + spec_accessible_text(
        without_ago(age.label@),
        "Updated "@ + age.label@,
    ) + "</time></span>"@
}

/// Render the release age of a package.
pub fn updated(age: &Age, clock: &str) -> (out: String)
    ensures
        out@ == spec_updated(*age, clock@),
{
    let visible = strip_ago(age.label.as_str());
    let mut label = owned("Updated ");
    push_str(&mut label, age.label.as_str());
    let text = accessible_text(visible.as_str(), label.as_str());
    let svg = decorative_svg(clock);
    let title = escape_html_attr(age.title.as_str());
    let mut out = owned("<span class=\"");
    push_str(&mut out, METRIC_CLASS);
    push_str(&mut out, "\">");
    push_str(&mut out, svg.as_str());
    push_str(&mut out, "<time datetime=\"");
    push_str(&mut out, age.datetime.as_str());
    push_str(&mut out, "\" title=\"");
    push_str(&mut out, title.as_str());
    push_str(&mut out, "\">");
    push_str(&mut out, text.as_str());
    push_str(&mut out, "</time></span>");
    out
}

/// The description shown under a package: its trimmed text, when that is
/// not empty.
pub open spec fn shown_text(description: Option<String>) -> Option<Seq<char>> {
    match description {
        Some(d) => if trimmed(d@).len() > 0 {
            Some(trimmed(d@))
        } else {
            None
        },
        None => None,
    }
}

/// The identity and description group: the display name, then the
/// description (its text on hover, `summary` shown) when there is one.
pub open spec fn spec_primary_row(display: Seq<char>, shown: Option<Seq<char>>, summary: Seq<char>) -> Seq<char> {
    "<span class=\""@ + PRIMARY_CLASS@
        + "\"><span class=\"min-w-0 max-w-full mono text-[14px] font-medium text-ink-900 [overflow-wrap:anywhere]\">"@
        + escaped_text(display) + "</span>"@ + match shown {
        Some(d) => "<span class=\"flex-1 basis-64 min-w-0 max-w-full text-[13px] text-ink-500 truncate\" title=\""@
            + escaped_attr(d) + "\">"@ + summary + "</span>"@,
        None => Seq::empty(),
    } + "</span>"@
}

/// Render the identity and description group.
pub fn primary_row(display: &str, description: Option<&str>, summary: &str) -> (out: String)
    ensures
        out@ == spec_primary_row(
            display@,
            match description {
                Some(d) => if trimmed(d@).len() > 0 {
                    Some(trimmed(d@))
                } else {
                    None
                },
                None => None,
            },
            summary@,
        ),
{
    let name = escape_html_text(display);
    let mut out = owned("<span class=\"");
    push_str(&mut out, PRIMARY_CLASS);
    push_str(&mut out, "\"><span class=\"min-w-0 max-w-full mono text-[14px] font-medium text-ink-900 [overflow-wrap:anywhere]\">");
    push_str(&mut out, name.as_str());
    push_str(&mut out, "</span>");
    if let Some(d) = description {
        let text = trim(d);
        if !text.is_empty() {
            let title = escape_html_attr(text);
            push_str(&mut out, "<span class=\"flex-1 basis-64 min-w-0 max-w-full text-[13px] text-ink-500 truncate\" title=\"");
            push_str(&mut out, title.as_str());
            push_str(&mut out, "\">");
            push_str(&mut out, summary);
            push_str(&mut out, "</span>");
        }
    }
    push_str(&mut out, "</span>");
    out
}

/// What a row draws beside the package itself: the markup of the kind's
/// inline label, of the dependents and clock icons and of the summary of
/// the trimmed description, and the release age when the package has a
/// valid release timestamp.
pub struct RowDecorations<'a> {
    pub kind_label: &'a str,
    pub dependents_icon: &'a str,
    pub clock_icon: &'a str,
    pub summary: &'a str,
    pub updated: Option<&'a Age>,
}

/// The first tag of a package, if any.
pub open spec fn first_tag(tags: Seq<String>) -> Option<Seq<char>> {
    if tags.len() > 0 {
        Some(tags[0]@)
    } else {
        None
    }
}

/// The metadata group: kind label, version, dependents and, when known,
/// the release age.
pub open spec fn spec_metadata_row(pkg: KnownPackage, deco: RowDecorations) -> Seq<char> {
    "<span class=\""@ + META_CLASS@ + "\">"@ + deco.kind_label@
        + "<span class=\"min-w-0 max-w-full mono [overflow-wrap:anywhere]\">"@ + escaped_text(
        spec_listing_version(first_tag(pkg.tags@)),
    ) + "</span>"@ + spec_dependents(pkg.dependents, deco.dependents_icon@) + match deco.updated {
        Some(age) => spec_updated(*age, deco.clock_icon@),
        None => Seq::empty(),
    } + "</span>"@
}

/// Render the metadata group of a package.
pub fn metadata_row(pkg: &KnownPackage, deco: &RowDecorations) -> (out: String)
    ensures
        out@ == spec_metadata_row(*pkg, *deco),
{
    let version = if pkg.tags.len() > 0 {
        version_label(Some(pkg.tags[0].as_str()))
    } else {
        version_label(None)
    };
    let shown_version = escape_html_text(version.as_str());
    let deps = dependents(pkg.dependents, deco.dependents_icon);
    let mut out = owned("<span class=\"");
    push_str(&mut out, META_CLASS);
    push_str(&mut out, "\">");
    push_str(&mut out, deco.kind_label);
    push_str(&mut out, "<span class=\"min-w-0 max-w-full mono [overflow-wrap:anywhere]\">");
    push_str(&mut out, shown_version.as_str());
    push_str(&mut out, "</span>");
    push_str(&mut out, deps.as_str());
    if let Some(age) = deco.updated {
        let u = updated(age, deco.clock_icon);
        push_str(&mut out, u.as_str());
    }
    push_str(&mut out, "</span>");
    out
}

/// A package's row: the two groups, inside a link to the package's page
/// when it has a WIT identity, else in a plain block.
pub open spec fn spec_render(pkg: KnownPackage, deco: RowDecorations) -> Seq<char> {
    let (display, href) = spec_identity(pkg, "/"@);
    let inner = spec_primary_row(display, shown_text(pkg.description), deco.summary@)
        + spec_metadata_row(pkg, deco);
    match href {
        Some(h) => "<div><a href=\""@ + escaped_attr(h) + "\" class=\""@ + ROW_CLASS@
            + " hover:bg-surfaceMuted focus-visible:bg-surfaceMuted transition-colors motion-reduce:transition-none\">"@
            + inner + "</a></div>"@,
        None => "<div class=\""@ + ROW_CLASS@ + "\">"@ + inner + "</div>"@,
    }
}

/// Render a package's identity and description above its release
/// metadata.
pub fn render(pkg: &KnownPackage, deco: &RowDecorations) -> (out: String)
    ensures
        out@ == spec_render(*pkg, *deco),
{
    let (display, href) = listing_identity(pkg);
    let description = match &pkg.description {
        Some(d) => Some(d.as_str()),
        None => None,
    };
    let primary = primary_row(display.as_str(), description, deco.summary);
    let metadata = metadata_row(pkg, deco);
    let mut out = String::new();
    match href {
        Some(h) => {
            let link = escape_html_attr(h.as_str());
            push_str(&mut out, "<div><a href=\"");
            push_str(&mut out, link.as_str());
            push_str(&mut out, "\" class=\"");
            push_str(&mut out, ROW_CLASS);
            push_str(&mut out, " hover:bg-surfaceMuted focus-visible:bg-surfaceMuted transition-colors motion-reduce:transition-none\">");
            push_str(&mut out, primary.as_str());
            push_str(&mut out, metadata.as_str());
            push_str(&mut out, "</a></div>");
        },
        None => {
            push_str(&mut out, "<div class=\"");
            push_str(&mut out, ROW_CLASS);
            push_str(&mut out, "\">");
            push_str(&mut out, primary.as_str());
            push_str(&mut out, metadata.as_str());
            push_str(&mut out, "</div>");
        },
    }
    out
}

} // verus!
