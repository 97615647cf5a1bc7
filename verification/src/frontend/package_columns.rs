//! Three-column package highlights for the landing page: new releases, new
//! packages, and popular packages.
//!
//! Each column is a card: a header strip with the column title, then rows
//! divided by hairlines. A row shows the package name and a description of
//! up to two lines on the left; on the right, the version and either the
//! age of the event or the number of dependents. Version labels have a
//! single `v` prefix. The markup of the clock and dependents icons is
//! handed in by the caller.
use vstd::prelude::*;

use crate::frontend::escape::{escape_html_attr, escape_html_text, escaped_attr, escaped_text};
use crate::frontend::package_row::{identity, spec_identity, strip_vs, trim_vs, KnownPackage};
use crate::text::{decimal, has_suffix, owned, push_str, to_decimal, trim, trimmed};

verus! {

pub const CARD_CLASS: &'static str = "min-w-0 flex flex-col rounded-lg border border-line bg-surface shadow-card overflow-hidden";

pub const HEADER_CLASS: &'static str = "flex items-center h-10 px-4 border-b border-lineSoft";

pub const HEADING_CLASS: &'static str = "text-[12px] font-sans uppercase tracking-wider text-ink-500";

pub const LIST_CLASS: &'static str = "divide-y divide-lineSoft";

/// Each row is a three-line grid: the name (one line) and description (two
/// lines, clamped) share a left column, and version and metric sit in a
/// right column. Every cell has a fixed height and the description cell is
/// always present, so all rows are the same height.
pub const ROW_GRID: &'static str = "grid grid-cols-[minmax(0,1fr)_auto] grid-rows-[repeat(3,1.25rem)] items-center gap-x-4 gap-y-0.5 px-4 py-3";

pub const ROW_CLASS: &'static str = "no-underline hover:bg-surfaceMuted focus-visible:bg-surfaceMuted";

pub const NAME_CLASS: &'static str = "h-5 leading-5 font-sans text-[14px] font-medium text-ink-900 truncate";

pub const VERSION_CLASS: &'static str = "col-start-2 row-start-1 h-5 leading-5 max-w-[20ch] mono text-[12px] text-ink-500 tabular-nums text-right truncate";

pub const DESC_CLASS: &'static str = "col-start-1 row-start-2 row-span-2 self-start h-10 leading-5 text-[13px] text-ink-500 line-clamp-2 break-words";

pub const METRIC_CLASS: &'static str = "col-start-2 row-start-2 h-5 leading-5 max-w-[20ch] mono text-[12px] text-ink-500 tabular-nums text-right whitespace-nowrap inline-flex items-center justify-end gap-1";

pub const DESC_MISSING: &'static str = "No description";

pub const NOTE_CLASS: &'static str = "px-4 py-3 text-[13px] text-ink-500";

pub const DEPENDENTS_DESCRIPTION: &'static str = "Other indexed repositories that directly depend on this package, counted once each.";

/// When something happened, rendered as a relative age with the event and
/// exact date on hover.
pub struct Age {
    /// Machine-readable timestamp for the `<time datetime>` attribute.
    pub datetime: String,
    /// Tooltip naming the event and its date (e.g. `Released 2026-07-08`).
    pub title: String,
    /// Relative age (e.g. `3 days ago`).
    pub label: String,
}

/// The metric shown below a highlight's version.
pub enum ColumnMetric {
    /// When the release was published or the package was first indexed.
    Age(Age),
    /// The number of distinct other repositories directly depending on it.
    Dependents(u64),
}

/// A single row in a highlight column.
pub struct ColumnRow {
    /// Display name (e.g. `wasi:http`, or the repository path).
    pub name: String,
    /// Link target, when the package has a WIT identity.
    pub href: Option<String>,
    /// The version tag as published, before display formatting.
    pub version: String,
    /// Optional description, clamped to two lines.
    pub description: Option<String>,
    /// The final metadata line: event age or dependents count.
    pub metric: Option<ColumnMetric>,
}

/// What a column has to show.
pub enum ColumnState {
    /// Rows loaded successfully (possibly empty).
    Rows(Vec<ColumnRow>),
    /// The data could not be loaded.
    Unavailable,
}

/// A titled highlight column.
pub struct Column<'a> {
    /// Column heading (e.g. "New releases").
    pub title: &'a str,
    /// Column content.
    pub state: &'a ColumnState,
}

/// The markup of the icons that accompany metrics.
pub struct MetricIcons<'a> {
    /// The clock beside an age.
    pub clock: &'a str,
    /// The dependents icon beside a count.
    pub dependents: &'a str,
}

/// The characters of an optional text.
pub open spec fn opt_chars(o: Option<String>) -> Option<Seq<char>> {
    match o {
        Some(s) => Some(s@),
        None => None,
    }
}

/// A description worth showing: trimmed, and not empty.
pub open spec fn shown_description(d: Option<String>) -> Option<Seq<char>> {
    match d {
        Some(t) => if trimmed(t@).len() > 0 {
            Some(trimmed(t@))
        } else {
            None
        },
        None => None,
    }
}

impl ColumnState {
    /// An empty list of rows.
    pub fn empty() -> (s: Self)
        ensures
            s matches ColumnState::Rows(v) && v@.len() == 0,
    {
        ColumnState::Rows(Vec::new())
    }

    /// Build a column state from a fallible fetch, mapping each item to a
    /// row.
    pub fn from_result<T, E>(result: Result<Vec<T>, E>, row: impl Fn(&T) -> ColumnRow) -> (s: Self)
        requires
            result matches Ok(items) ==> forall|i: int|
                0 <= i < items.len() ==> call_requires(row, (&items@[i],)),
        ensures
            match result {
                Ok(items) => s matches ColumnState::Rows(rows) && rows@.len() == items@.len()
                    && forall|i: int|
                    0 <= i < items.len() ==> call_ensures(row, (&items@[i],), #[trigger] rows@[i]),
                Err(_) => s is Unavailable,
            },
    {
        match result {
            Ok(items) => {
                let mut rows: Vec<ColumnRow> = Vec::new();
                let mut i: usize = 0;
                while i < items.len()
                    invariant
                        i <= items.len(),
                        rows@.len() == i,
                        forall|k: int| 0 <= k < items.len() ==> call_requires(row, (&items@[k],)),
                        forall|k: int|
                            0 <= k < i ==> call_ensures(row, (&items@[k],), #[trigger] rows@[k]),
                    decreases items.len() - i,
                {
                    let r = row(&items[i]);
                    rows.push(r);
                    i = i + 1;
                }
                ColumnState::Rows(rows)
            },
            Err(_) => ColumnState::Unavailable,
        }
    }
}

impl ColumnRow {
    /// A row for `pkg` showing `version` and `metric`: named and linked by
    /// its WIT identity, with its trimmed description unless that is
    /// empty.
    pub fn with_metadata(pkg: &KnownPackage, version: String, metric: Option<ColumnMetric>) -> (r: Self)
        ensures
            (r.name@, opt_chars(r.href)) == spec_identity(*pkg, ":"@),
            r.version == version,
            opt_chars(r.description) == shown_description(pkg.description),
            r.metric == metric,
    {
        let (name, href) = identity(pkg);
        let description = match &pkg.description {
            Some(d) => {
                let t = trim(d.as_str());
                if t.is_empty() {
                    None
                } else {
                    Some(owned(t))
                }
            },
            None => None,
        };
        ColumnRow { name, href, version, description, metric }
    }

    /// A row for a popular package: its first tag (or nothing) as version,
    /// and how many packages depend on it.
    pub fn popular(pkg: &KnownPackage, dependents: u64) -> (r: Self)
        ensures
            (r.name@, opt_chars(r.href)) == spec_identity(*pkg, ":"@),
            r.version@ == if pkg.tags@.len() > 0 {
                pkg.tags@[0]@
            } else {
                Seq::empty()
            },
            opt_chars(r.description) == shown_description(pkg.description),
            r.metric == Some(ColumnMetric::Dependents(dependents)),
    {
        let version = if pkg.tags.len() > 0 {
            pkg.tags[0].clone()
        } else {
            String::new()
        };
        Self::with_metadata(pkg, version, Some(ColumnMetric::Dependents(dependents)))
    }
}

/// A version tag as displayed: a single `v` before the tag without its
/// own `v`/`V` prefixes; nothing for an empty tag.
pub open spec fn spec_version_label(version: Seq<char>) -> Seq<char> {
    if version.len() == 0 {
        Seq::empty()
    } else {
        "v"@ + strip_vs(version)
    }
}

/// The displayed form of a version tag.
pub fn version_label(version: &str) -> (r: String)
    ensures
        r@ == spec_version_label(version@),
{
    if version.is_empty() {
        return String::new();
    }
    let mut r = owned("v");
    let number = trim_vs(version);
    push_str(&mut r, number.as_str());
    r
}

/// A decorative icon, a visible text and the label read out in its place.
pub open spec fn spec_metric_contents(icon: Seq<char>, visible: Seq<char>, label: Seq<char>) -> Seq<char> {
    "<span aria-hidden=\"true\" class=\"inline-flex shrink-0\">"@ + icon
        + "</span><span aria-hidden=\"true\" class=\"truncate\">"@ + escaped_text(visible)
        + "</span><span class=\"sr-only\">"@ + escaped_text(label) + "</span>"@
}

/// A decorative icon, a visible text and the label read out in its place.
pub fn metric_contents(icon: &str, visible: &str, label: &str) -> (r: String)
    ensures
        r@ == spec_metric_contents(icon@, visible@, label@),
{
    let mut r = owned("<span aria-hidden=\"true\" class=\"inline-flex shrink-0\">");
    push_str(&mut r, icon);
    push_str(&mut r, "</span><span aria-hidden=\"true\" class=\"truncate\">");
    let v = escape_html_text(visible);
    push_str(&mut r, v.as_str());
    push_str(&mut r, "</span><span class=\"sr-only\">");
    let l = escape_html_text(label);
    push_str(&mut r, l.as_str());
    push_str(&mut r, "</span>");
    r
}

/// The version cell: the full tag on hover, the label shown.
pub open spec fn spec_render_version(version: Seq<char>) -> Seq<char> {
    "<span title=\""@ + escaped_attr(version) + "\" class=\""@ + VERSION_CLASS@ + "\">"@
        + escaped_text(spec_version_label(version)) + "</span>"@
}

/// The version cell of a row.
pub fn render_version(version: &str) -> (r: String)
    ensures
        r@ == spec_render_version(version@),
{
    let mut r = owned("<span title=\"");
    let title = escape_html_attr(version);
    push_str(&mut r, title.as_str());
    push_str(&mut r, "\" class=\"");
    push_str(&mut r, VERSION_CLASS);
    push_str(&mut r, "\">");
    let label = version_label(version);
    let shown = escape_html_text(label.as_str());
    push_str(&mut r, shown.as_str());
    push_str(&mut r, "</span>");
    r
}

/// The description cell, which reserves two lines even when the
/// description is missing.
pub open spec fn spec_render_description(description: Option<Seq<char>>) -> Seq<char> {
    match description {
        Some(d) => "<span class=\""@ + DESC_CLASS@ + "\">"@ + escaped_text(d) + "</span>"@,
        None => "<span class=\""@ + DESC_CLASS@ + " italic\">"@ + DESC_MISSING@ + "</span>"@,
    }
}

/// The description cell of a row.
pub fn render_description(description: Option<&str>) -> (r: String)
    ensures
        r@ == spec_render_description(
            match description {
                Some(d) => Some(d@),
                None => None,
            },
        ),
{
    let mut r = owned("<span class=\"");
    push_str(&mut r, DESC_CLASS);
    match description {
        Some(d) => {
            push_str(&mut r, "\">");
            let e = escape_html_text(d);
            push_str(&mut r, e.as_str());
        },
        None => {
            push_str(&mut r, " italic\">");
            push_str(&mut r, DESC_MISSING);
        },
    }
    push_str(&mut r, "</span>");
    r
}

/// A relative age without its ` ago` suffix.
pub open spec fn without_ago(label: Seq<char>) -> Seq<char> {
    if has_suffix(label, " ago"@) {
        label.subrange(0, label.len() - 4)
    } else {
        label
    }
}

/// The age cell: a clock, the age without ` ago`, and the event with its
/// date and full age read out; the timestamp and event on hover.
pub open spec fn spec_render_age(age: Age, clock: Seq<char>) -> Seq<char> {
    "<time datetime=\""@ + escaped_attr(age.datetime@) + "\" title=\""@ + escaped_attr(age.title@)
        + "\" class=\""@ + METRIC_CLASS@ + "\">"@ + spec_metric_contents(
        clock,
        without_ago(age.label@),
        age.title@ + ", "@ + age.label@,
    ) + "</time>"@
}

/// The text of `label` without a ` ago` suffix.
pub(crate) fn strip_ago(label: &str) -> (r: String)
    ensures
        r@ == without_ago(label@),
{
    proof {
        reveal_strlit(" ago");
    }
    let cs = crate::text::chars_of(label);
    let n = cs.len();
    if crate::text::ends_with(label, " ago") {
        let mut r = String::new();
        let mut i: usize = 0;
        while i < n - 4
            invariant
                cs@ == label@,
                n == cs@.len(),
                n >= 4,
                i <= n - 4,
                r@ == label@.subrange(0, i as int),
            decreases n - 4 - i,
        {
            crate::text::push_char(&mut r, cs[i]);
            assert(label@.subrange(0, i + 1) == label@.subrange(0, i as int).push(label@[i as int]));
            i = i + 1;
        }
        r
    } else {
        owned(label)
    }
}

/// The age cell of a row.
pub fn render_age(age: &Age, clock: &str) -> (r: String)
    ensures
        r@ == spec_render_age(*age, clock@),
{
    let visible = strip_ago(age.label.as_str());
    let mut label = age.title.clone();
    push_str(&mut label, ", ");
    push_str(&mut label, age.label.as_str());
    let content = metric_contents(clock, visible.as_str(), label.as_str());
    let mut r = owned("<time datetime=\"");
    let dt = escape_html_attr(age.datetime.as_str());
    push_str(&mut r, dt.as_str());
    push_str(&mut r, "\" title=\"");
    let title = escape_html_attr(age.title.as_str());
    push_str(&mut r, title.as_str());
    push_str(&mut r, "\" class=\"");
    push_str(&mut r, METRIC_CLASS);
    push_str(&mut r, "\">");
    push_str(&mut r, content.as_str());
    push_str(&mut r, "</time>");
    r
}

/// `1 dependent`, or the count and `dependents`.
pub open spec fn dependents_label(count: u64) -> Seq<char> {
    decimal(count as nat) + if count == 1 {
        " dependent"@
    } else {
        " dependents"@
    }
}

/// The metric cell of a row.
pub open spec fn spec_render_metric(metric: ColumnMetric, icons: (Seq<char>, Seq<char>)) -> Seq<char> {
    match metric {
        ColumnMetric::Age(age) => spec_render_age(age, icons.0),
        ColumnMetric::Dependents(count) => "<span title=\""@ + dependents_label(count) + ". "@
            + DEPENDENTS_DESCRIPTION@ + "\" class=\""@ + METRIC_CLASS@ + " cursor-help\">"@
            + spec_metric_contents(icons.1, decimal(count as nat), dependents_label(count))
            + "</span>"@,
    }
}

/// The markup of the icons.
pub open spec fn icons_view(icons: MetricIcons) -> (Seq<char>, Seq<char>) {
    (icons.clock@, icons.dependents@)
}

/// The metric cell of a row: an age, or a dependents count explained on
/// hover.
pub fn render_metric(metric: &ColumnMetric, icons: &MetricIcons) -> (r: String)
    ensures
        r@ == spec_render_metric(*metric, icons_view(*icons)),
{
    match metric {
        ColumnMetric::Age(age) => render_age(age, icons.clock),
        ColumnMetric::Dependents(count) => {
            let digits = to_decimal(*count);
            let mut label = to_decimal(*count);
            if *count == 1 {
                push_str(&mut label, " dependent");
            } else {
                push_str(&mut label, " dependents");
            }
            let content = metric_contents(icons.dependents, digits.as_str(), label.as_str());
            let mut r = owned("<span title=\"");
            push_str(&mut r, label.as_str());
            push_str(&mut r, ". ");
            push_str(&mut r, DEPENDENTS_DESCRIPTION);
            push_str(&mut r, "\" class=\"");
            push_str(&mut r, METRIC_CLASS);
            push_str(&mut r, " cursor-help\">");
            push_str(&mut r, content.as_str());
            push_str(&mut r, "</span>");
            r
        },
    }
}

/// A row: name, version, description and metric, linked when the package
/// has a WIT identity.
pub open spec fn spec_render_row(row: ColumnRow, icons: (Seq<char>, Seq<char>)) -> Seq<char> {
    let inner = "<span class=\""@ + NAME_CLASS@ + "\">"@ + escaped_text(row.name@) + "</span>"@
        + spec_render_version(row.version@) + spec_render_description(opt_chars(row.description))
        + match row.metric {
        Some(m) => spec_render_metric(m, icons),
        None => Seq::empty(),
    };
    match row.href {
        Some(href) => "<a href=\""@ + escaped_attr(href@) + "\" class=\""@ + ROW_GRID@ + " "@
            + ROW_CLASS@ + "\">"@ + inner + "</a>"@,
        None => "<div class=\""@ + ROW_GRID@ + "\">"@ + inner + "</div>"@,
    }
}

/// Render a single row, linked when the package has a WIT identity.
pub fn render_row(row: &ColumnRow, icons: &MetricIcons) -> (r: String)
    ensures
        r@ == spec_render_row(*row, icons_view(*icons)),
{
    let mut inner = owned("<span class=\"");
    push_str(&mut inner, NAME_CLASS);
    push_str(&mut inner, "\">");
    let name = escape_html_text(row.name.as_str());
    push_str(&mut inner, name.as_str());
    push_str(&mut inner, "</span>");
    let version = render_version(row.version.as_str());
    push_str(&mut inner, version.as_str());
    let description = match &row.description {
        Some(d) => render_description(Some(d.as_str())),
        None => render_description(None),
    };
    push_str(&mut inner, description.as_str());
    match &row.metric {
        Some(m) => {
            let metric = render_metric(m, icons);
            push_str(&mut inner, metric.as_str());
        },
        None => {},
    }
    match &row.href {
        Some(href) => {
            let mut r = owned("<a href=\"");
            let h = escape_html_attr(href.as_str());
            push_str(&mut r, h.as_str());
            push_str(&mut r, "\" class=\"");
            push_str(&mut r, ROW_GRID);
            push_str(&mut r, " ");
            push_str(&mut r, ROW_CLASS);
            push_str(&mut r, "\">");
            push_str(&mut r, inner.as_str());
            push_str(&mut r, "</a>");
            r
        },
        None => {
            let mut r = owned("<div class=\"");
            push_str(&mut r, ROW_GRID);
            push_str(&mut r, "\">");
            push_str(&mut r, inner.as_str());
            push_str(&mut r, "</div>");
            r
        },
    }
}

/// The list items of `rows`, in order.
pub open spec fn list_items(rows: Seq<ColumnRow>, icons: (Seq<char>, Seq<char>)) -> Seq<char>
    decreases rows.len(),
{
    if rows.len() == 0 {
        Seq::empty()
    } else {
        list_items(rows.drop_last(), icons) + "<li>"@ + spec_render_row(rows.last(), icons) + "</li>"@
    }
}

/// The ordered list of a column's rows.
pub open spec fn spec_render_list(rows: Seq<ColumnRow>, icons: (Seq<char>, Seq<char>)) -> Seq<char> {
    "<ol class=\""@ + LIST_CLASS@ + "\">"@ + list_items(rows, icons) + "</ol>"@
}

/// Render the row list for a column.
pub fn render_list(rows: &Vec<ColumnRow>, icons: &MetricIcons) -> (r: String)
    ensures
        r@ == spec_render_list(rows@, icons_view(*icons)),
{
    let mut r = owned("<ol class=\"");
    push_str(&mut r, LIST_CLASS);
    push_str(&mut r, "\">");
    let ghost start = r@;
    let mut i: usize = 0;
    while i < rows.len()
        invariant
            i <= rows.len(),
            r@ == start + list_items(rows@.take(i as int), icons_view(*icons)),
        decreases rows.len() - i,
    {
        push_str(&mut r, "<li>");
        let item = render_row(&rows[i], icons);
        push_str(&mut r, item.as_str());
        push_str(&mut r, "</li>");
        assert(rows@.take(i + 1).drop_last() == rows@.take(i as int));
        i = i + 1;
    }
    assert(rows@.take(i as int) == rows@);
    push_str(&mut r, "</ol>");
    r
}

/// The body of a column: a note when it is empty or unavailable, else its
/// rows.
pub open spec fn spec_column_body(state: ColumnState, icons: (Seq<char>, Seq<char>)) -> Seq<char> {
    match state {
        ColumnState::Rows(rows) => if rows@.len() == 0 {
            "<p class=\""@ + NOTE_CLASS@ + "\">Nothing here yet.</p>"@
        } else {
            spec_render_list(rows@, icons)
        },
        ColumnState::Unavailable => "<p role=\"status\" class=\""@ + NOTE_CLASS@
            + "\">Unavailable right now.</p>"@,
    }
}

/// A column card: heading, then body.
pub open spec fn spec_column(column: Column, icons: (Seq<char>, Seq<char>)) -> Seq<char> {
    "<div class=\""@ + CARD_CLASS@ + "\"><div class=\""@ + HEADER_CLASS@ + "\"><h2 class=\""@
        + HEADING_CLASS@ + "\">"@ + escaped_text(column.title@) + "</h2></div>"@ + spec_column_body(
        *column.state,
        icons,
    ) + "</div>"@
}

/// Append one column (heading and list or note) to `out`.
pub fn push_column(out: &mut String, column: &Column, icons: &MetricIcons)
    ensures
        final(out)@ == old(out)@ + spec_column(*column, icons_view(*icons)),
{
    let title = escape_html_text(column.title);
    let body = match column.state {
        ColumnState::Rows(rows) => {
            if rows.len() == 0 {
                let mut b = owned("<p class=\"");
                push_str(&mut b, NOTE_CLASS);
                push_str(&mut b, "\">Nothing here yet.</p>");
                b
            } else {
                render_list(rows, icons)
            }
        },
        ColumnState::Unavailable => {
            let mut b = owned("<p role=\"status\" class=\"");
            push_str(&mut b, NOTE_CLASS);
            push_str(&mut b, "\">Unavailable right now.</p>");
            b
        },
    };
    push_str(out, "<div class=\"");
    push_str(out, CARD_CLASS);
    push_str(out, "\"><div class=\"");
    push_str(out, HEADER_CLASS);
    push_str(out, "\"><h2 class=\"");
    push_str(out, HEADING_CLASS);
    push_str(out, "\">");
    push_str(out, title.as_str());
    push_str(out, "</h2></div>");
    push_str(out, body.as_str());
    push_str(out, "</div>");
}

/// The columns, in order.
pub open spec fn columns_html(columns: Seq<Column>, icons: (Seq<char>, Seq<char>)) -> Seq<char>
    decreases columns.len(),
{
    if columns.len() == 0 {
        Seq::empty()
    } else {
        columns_html(columns.drop_last(), icons) + spec_column(columns.last(), icons)
    }
}

/// The highlights band around the columns.
pub open spec fn spec_render(columns: Seq<Column>, icons: (Seq<char>, Seq<char>)) -> Seq<char> {
    "<section aria-label=\"Package highlights\" data-package-columns class=\"mx-auto max-w-[1280px] w-full px-4 md:px-8 mt-12 md:mt-16\"><div class=\"grid grid-cols-1 md:grid-cols-3 gap-4 md:gap-6\">"@
        + columns_html(columns, icons) + "</div></section>"@
}

/// Render the highlight columns as a full-width landing-page band.
pub fn render(columns: &Vec<Column>, icons: &MetricIcons) -> (r: String)
    ensures
        r@ == spec_render(columns@, icons_view(*icons)),
{
    let mut cols = String::new();
    let mut i: usize = 0;
    while i < columns.len()
        invariant
            i <= columns.len(),
            cols@ == columns_html(columns@.take(i as int), icons_view(*icons)),
        decreases columns.len() - i,
    {
        push_column(&mut cols, &columns[i], icons);
        assert(columns@.take(i + 1).drop_last() == columns@.take(i as int));
        i = i + 1;
    }
    assert(columns@.take(i as int) == columns@);
    let mut r = owned("<section aria-label=\"Package highlights\" data-package-columns class=\"mx-auto max-w-[1280px] w-full px-4 md:px-8 mt-12 md:mt-16\"><div class=\"grid grid-cols-1 md:grid-cols-3 gap-4 md:gap-6\">");
    push_str(&mut r, cols.as_str());
    push_str(&mut r, "</div></section>");
    r
}

/// Stripping the `v`/`V` prefixes twice strips nothing more.
proof fn lemma_strip_vs_idempotent(tag: Seq<char>)
    ensures
        strip_vs(strip_vs(tag)) == strip_vs(tag),
        strip_vs(tag).len() > 0 ==> strip_vs(tag)[0] != 'v' && strip_vs(tag)[0] != 'V',
    decreases tag.len(),
{
    if tag.len() > 0 && (tag[0] == 'v' || tag[0] == 'V') {
        lemma_strip_vs_idempotent(tag.drop_first());
    }
}

/// A version label has a single `v` prefix: it starts with `v`, the next
/// character is no `v` or `V`, and labelling it again changes nothing.
pub proof fn law_version_label_single_prefix(version: Seq<char>)
    requires
        version.len() > 0,
    ensures
        spec_version_label(version)[0] == 'v',
        spec_version_label(version).len() > 1 ==> spec_version_label(version)[1] != 'v'
            && spec_version_label(version)[1] != 'V',
        spec_version_label(spec_version_label(version)) == spec_version_label(version),
{
    reveal_strlit("v");
    lemma_strip_vs_idempotent(version);
    let label = spec_version_label(version);
    assert(label == seq!['v'] + strip_vs(version));
    assert(label.drop_first() == strip_vs(version));
    assert(strip_vs(label) == strip_vs(label.drop_first()));
}

} // verus!
