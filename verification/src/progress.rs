//! Bookkeeping behind the `component install` progress display.
//!
//! Package rows are flat and column-aligned: each shows `name version`
//! padded to a shared width. The table of rows decides which row a download
//! reports to and when the alignment must be redone; the layer totals turn
//! a package's download events into bar lengths and positions. Drawing the
//! rows is left to the terminal front end.
use vstd::prelude::*;

use crate::text::{chars_of, has_prefix, last_segment, owned, push_char, push_str, rsplit_once, slice, split_once, str_eq, str_rsplit_once, str_split_once};

verus! {

broadcast use vstd::string::group_string_axioms;

/// Template for the initial state before layer sizes are known: just bytes
/// downloaded, no bar or total.
pub const INITIAL_TEMPLATE: &'static str = "{prefix} {binary_bytes:.dim}";

/// Template for in-progress downloads: yellow bar, dim size and ETA.
pub const PROGRESS_TEMPLATE: &'static str = "{prefix} {bar:12.yellow} {binary_bytes:.dim}/{binary_total_bytes:.dim} {eta:.dim}";

/// Template for completed downloads: checkmark only.
pub const DONE_TEMPLATE: &'static str = "{prefix} {msg}";

/// Template for plan rows before downloading starts: just the prefix.
pub const PLAN_TEMPLATE: &'static str = "{prefix}";

/// Characters of an optional text.
pub open spec fn opt_view(o: Option<&str>) -> Option<Seq<char>> {
    match o {
        Some(s) => Some(s@),
        None => None,
    }
}

/// Characters of an optional owned text.
pub open spec fn opt_string_view(o: Option<String>) -> Option<Seq<char>> {
    match o {
        Some(s) => Some(s@),
        None => None,
    }
}

/// A tag without one leading `v`.
pub open spec fn strip_v(tag: Seq<char>) -> Seq<char> {
    if tag.len() > 0 && tag[0] == 'v' {
        tag.skip(1)
    } else {
        tag
    }
}

/// The display name and version of a package reference.
pub open spec fn spec_display_parts(explicit_name: Option<Seq<char>>, tag: Option<Seq<char>>) -> (
    Seq<char>,
    Option<Seq<char>>,
) {
    let from_tag = match tag {
        Some(t) => Some(strip_v(t)),
        None => None,
    };
    match explicit_name {
        Some(name) => match split_once(name, '@') {
            Some((n, v)) => (n, Some(v)),
            None => (name, from_tag),
        },
        None => (Seq::empty(), from_tag),
    }
}

fn strip_v_tag(tag: &str) -> (r: String)
    ensures
        r@ == strip_v(tag@),
{
    let v = chars_of(tag);
    if v.len() > 0 && v[0] == 'v' {
        owned(slice(tag, 1, v.len()))
    } else {
        owned(tag)
    }
}

/// Extract the display name and version from a package reference.
///
/// For WIT-style names like `wasi:http@0.2.0`, the name is `wasi:http` and
/// version is `0.2.0`. For WIT-style names without version like `wasi:http`,
/// the version is taken from the OCI reference tag (stripping a leading `v`).
///
/// When `explicit_name` is `None`, the returned name is empty and the caller
/// must provide a fallback (e.g. from the reference's repository).
pub fn package_display_parts(explicit_name: Option<&str>, tag: Option<&str>) -> (r: (
    String,
    Option<String>,
))
    ensures
        (r.0@, opt_string_view(r.1)) == spec_display_parts(opt_view(explicit_name), opt_view(tag)),
{
    let from_tag = match tag {
        Some(t) => Some(strip_v_tag(t)),
        None => None,
    };
    match explicit_name {
        Some(name) => match str_split_once(name, '@') {
            Some((n, v)) => (owned(n), Some(owned(v))),
            None => (owned(name), from_tag),
        },
        None => (String::new(), from_tag),
    }
}

/// `namespace:name` from the last two `/`-separated segments of an OCI
/// repository path, or the path itself when it has fewer than two
/// non-empty trailing segments.
pub open spec fn spec_oci_repo_display_name(repo: Seq<char>) -> Seq<char> {
    match rsplit_once(repo, '/') {
        Some((head, package)) => {
            let namespace = last_segment(head);
            if namespace.len() > 0 && package.len() > 0 {
                namespace + seq![':'] + package
            } else {
                repo
            }
        },
        None => repo,
    }
}

/// Derive a `namespace:name` display string from an OCI repository path.
///
/// OCI repository paths typically look like `ghcr.io/webassembly/wasi-logging`.
/// This function takes the last two `/`-separated segments and joins them with
/// `:` so that the display matches the `namespace:name` format used elsewhere
/// in the output. When fewer than two segments are available, the full
/// repository path is returned as-is.
pub fn oci_repo_display_name(repo: &str) -> (r: String)
    ensures
        r@ == spec_oci_repo_display_name(repo@),
{
    match str_rsplit_once(repo, '/') {
        Some((head, package)) => {
            let namespace = match str_rsplit_once(head, '/') {
                Some((_, tail)) => tail,
                None => head,
            };
            let ns = chars_of(namespace);
            let pkg = chars_of(package);
            if ns.len() > 0 && pkg.len() > 0 {
                let mut out = owned(namespace);
                push_char(&mut out, ':');
                push_str(&mut out, package);
                out
            } else {
                owned(repo)
            }
        },
        None => owned(repo),
    }
}

/// Build the Braille spinner tick strings.
///
/// The last element is the "done" tick shown when the spinner finishes; it
/// is a space since the phase spinner is always cleared, the checkmark being
/// reserved for completed package rows and the final summary line.
pub fn spinner_ticks() -> (ticks: Vec<&'static str>)
    ensures
        ticks@.len() == 11,
        ticks@[0]@ == "⠋"@,
        ticks@[1]@ == "⠙"@,
        ticks@[2]@ == "⠹"@,
        ticks@[3]@ == "⠸"@,
        ticks@[4]@ == "⠼"@,
        ticks@[5]@ == "⠴"@,
        ticks@[6]@ == "⠦"@,
        ticks@[7]@ == "⠧"@,
        ticks@[8]@ == "⠇"@,
        ticks@[9]@ == "⠏"@,
        ticks@[10]@ == " "@,
{
    let mut ticks: Vec<&'static str> = Vec::new();
    ticks.push("⠋");
    ticks.push("⠙");
    ticks.push("⠹");
    ticks.push("⠸");
    ticks.push("⠼");
    ticks.push("⠴");
    ticks.push("⠦");
    ticks.push("⠧");
    ticks.push("⠇");
    ticks.push("⠏");
    ticks.push(" ");
    ticks
}

// ---------------------------------------------------------------------------
// Row labels and alignment

/// Width in bytes of a row label, `name version` or just `name`, counted
/// up to `usize::MAX` (no pair of texts held in memory reaches it).
pub open spec fn spec_label_len(name: Seq<char>, version: Option<Seq<char>>) -> int {
    let n = match version {
        Some(v) => (vstd::utf8::encode_utf8(name).len() + 1 + vstd::utf8::encode_utf8(v).len()) as int,
        None => vstd::utf8::encode_utf8(name).len() as int,
    };
    if n <= usize::MAX {
        n
    } else {
        usize::MAX as int
    }
}

/// The width in bytes of the label `name version` (or `name`).
pub fn label_len(name: &str, version: Option<&str>) -> (n: usize)
    ensures
        n == spec_label_len(name@, opt_view(version)),
{
    let name_len = name.as_bytes().len();
    match version {
        Some(v) => {
            let v_len = v.as_bytes().len();
            match name_len.checked_add(1) {
                Some(a) => match a.checked_add(v_len) {
                    Some(b) => b,
                    None => usize::MAX,
                },
                None => usize::MAX,
            }
        },
        None => name_len,
    }
}

/// The number of spaces that pad a row label to `name_width`.
pub fn prefix_padding(name: &str, version: Option<&str>, name_width: usize) -> (n: usize)
    ensures
        n == spec_padding(name@, opt_view(version), name_width as int),
{
    let len = label_len(name, version);
    name_width.saturating_sub(len)
}

/// The padding of a row label to `name_width`.
pub open spec fn spec_padding(name: Seq<char>, version: Option<Seq<char>>, name_width: int) -> int {
    if spec_label_len(name, version) < name_width {
        name_width - spec_label_len(name, version)
    } else {
        0
    }
}

/// Rows are column-aligned: every label no wider than the padding width,
/// padded, is exactly that wide, whatever its name and version.
pub proof fn law_padded_labels_align(
    name: Seq<char>,
    version: Option<Seq<char>>,
    other: Seq<char>,
    other_version: Option<Seq<char>>,
    name_width: int,
)
    requires
        spec_label_len(name, version) <= name_width,
        spec_label_len(other, other_version) <= name_width,
    ensures
        spec_label_len(name, version) + spec_padding(name, version, name_width) == name_width,
        spec_label_len(name, version) + spec_padding(name, version, name_width) == spec_label_len(
            other,
            other_version,
        ) + spec_padding(other, other_version, name_width),
{
}

/// `text` as `console` draws it with the SGR code `code`: as it is when
/// colours are off, between the code and a reset when they are on.
pub open spec fn styled_as(text: Seq<char>, out: Seq<char>, code: Seq<char>) -> bool {
    out == text || out == "\x1b["@ + code + "m"@ + text + "\x1b[0m"@
}

/// `console::style(text).white().to_string()`. Whether colours are on is
/// read from the terminal and the environment, so the contract allows both
/// outcomes: the text alone, or the text in the white foreground code (37)
/// followed by a reset.
#[verifier::external_body]
fn styled_white(text: &str) -> (r: String)
    ensures
        styled_as(text@, r@, "37"@),
{
    console::style(text).white().to_string()
}

/// `console::style(text).dim().to_string()`: the text alone, or the text
/// in the dim attribute code (2) followed by a reset, as colours are off or
/// on.
#[verifier::external_body]
fn styled_dim(text: &str) -> (r: String)
    ensures
        styled_as(text@, r@, "2"@),
{
    console::style(text).dim().to_string()
}

/// `n` spaces.
pub open spec fn spaces(n: nat) -> Seq<char> {
    Seq::new(n, |i: int| ' ')
}

/// The prefix of a row from its drawn name, drawn version and padding:
/// `name version` (or `name`) followed by `padding` spaces.
pub open spec fn spec_prefix(name: Seq<char>, version: Option<Seq<char>>, padding: nat) -> Seq<
    char,
> {
    match version {
        Some(v) => name + " "@ + v + spaces(padding),
        None => name + spaces(padding),
    }
}

/// Assemble a row prefix from the drawn name and version.
pub fn prefix_from(name: &str, version: Option<&str>, padding: usize) -> (r: String)
    ensures
        r@ == spec_prefix(name@, opt_view(version), padding as nat),
{
    let mut r = owned(name);
    if let Some(v) = version {
        push_str(&mut r, " ");
        push_str(&mut r, v);
    }
    let ghost head = r@;
    let mut k: usize = 0;
    while k < padding
        invariant
            k <= padding,
            r@ == head + spaces(k as nat),
        decreases padding - k,
    {
        push_char(&mut r, ' ');
        assert(spaces((k + 1) as nat) =~= spaces(k as nat).push(' '));
        k = k + 1;
    }
    r
}

/// `out` is the prefix of the row `name version` padded to `width`, with
/// the name drawn as `n` and the version as `v`.
pub open spec fn drawn_prefix(
    name: Seq<char>,
    version: Option<Seq<char>>,
    width: int,
    n: Seq<char>,
    v: Option<Seq<char>>,
    out: Seq<char>,
) -> bool {
    &&& styled_as(name, n, "37"@)
    &&& match (version, v) {
        (Some(a), Some(b)) => styled_as(a, b, "2"@),
        (None, None) => true,
        _ => false,
    }
    &&& out == spec_prefix(n, v, spec_padding(name, version, width) as nat)
}

/// The prefix of a package row: the name in white, the version dimmed
/// after a space, padded with spaces to `name_width` bytes of label (no
/// padding once the label is wider).
pub fn build_prefix(name: &str, version: Option<&str>, name_width: usize) -> (r: String)
    ensures
        exists|n: Seq<char>, v: Option<Seq<char>>|
            #[trigger] drawn_prefix(name@, opt_view(version), name_width as int, n, v, r@),
{
    let padding = prefix_padding(name, version, name_width);
    let white = styled_white(name);
    match version {
        Some(v) => {
            let dim = styled_dim(v);
            let r = prefix_from(white.as_str(), Some(dim.as_str()), padding);
            assert(drawn_prefix(name@, opt_view(version), name_width as int, white@, Some(dim@), r@));
            r
        },
        None => {
            let r = prefix_from(white.as_str(), None, padding);
            assert(drawn_prefix(name@, opt_view(version), name_width as int, white@, None, r@));
            r
        },
    }
}

// ---------------------------------------------------------------------------
// Package rows

/// Identifies one package row; rows are numbered in creation order.
#[derive(Clone, Copy, Debug, PartialEq, Eq, Structural)]
pub struct BarId(pub usize);

/// One package row of the install display.
pub struct PlanRow {
    /// Display name (e.g. `wasi:http`).
    pub name: String,
    /// Display version, when known.
    pub version: Option<String>,
    /// Whether the package finished installing.
    pub is_complete: bool,
}

/// Name, version and completion of a row.
pub open spec fn row_view(r: PlanRow) -> (Seq<char>, Option<Seq<char>>, bool) {
    (r.name@, opt_string_view(r.version), r.is_complete)
}

/// The package rows, in creation order, with the padding width that
/// aligns their labels.
pub struct RowTable {
    rows: Vec<PlanRow>,
    name_width: usize,
}

/// The row `r` shows `name` at `version`.
pub open spec fn row_matches(
    r: (Seq<char>, Option<Seq<char>>, bool),
    name: Seq<char>,
    version: Option<Seq<char>>,
) -> bool {
    r.0 == name && r.1 == version
}

/// `i` is the first row that shows `name` at `version`.
pub open spec fn is_first_match(
    rows: Seq<(Seq<char>, Option<Seq<char>>, bool)>,
    name: Seq<char>,
    version: Option<Seq<char>>,
    i: int,
) -> bool {
    &&& 0 <= i < rows.len()
    &&& row_matches(rows[i], name, version)
    &&& forall|j: int| 0 <= j < i ==> !row_matches(#[trigger] rows[j], name, version)
}

/// Every row label fits in `width`.
pub open spec fn all_fit(rows: Seq<(Seq<char>, Option<Seq<char>>, bool)>, width: int) -> bool {
    forall|i: int| 0 <= i < rows.len() ==> spec_label_len(#[trigger] rows[i].0, rows[i].1) <= width
}

/// The number of completed rows.
pub open spec fn count_complete(rows: Seq<(Seq<char>, Option<Seq<char>>, bool)>) -> nat
    decreases rows.len(),
{
    if rows.len() == 0 {
        0
    } else {
        count_complete(rows.drop_last()) + if rows.last().2 {
            1nat
        } else {
            0nat
        }
    }
}

/// The widest label among the packages of a plan (0 for none).
pub open spec fn max_label(packages: Seq<(Seq<char>, Option<Seq<char>>)>) -> int
    decreases packages.len(),
{
    if packages.len() == 0 {
        0
    } else {
        let rest = max_label(packages.drop_last());
        let last = spec_label_len(packages.last().0, packages.last().1);
        if last > rest {
            last
        } else {
            rest
        }
    }
}

/// Views of a plan's `(name, version)` pairs.
pub open spec fn plan_view(packages: Seq<(String, Option<String>)>) -> Seq<
    (Seq<char>, Option<Seq<char>>),
> {
    packages.map_values(|p: (String, Option<String>)| (p.0@, opt_string_view(p.1)))
}

/// The outcome of attaching a download to a row.
#[derive(Debug)]
pub enum AddBar {
    /// The planned row for this package.
    Planned(BarId),
    /// A new row appended for a package missing from the plan; `realign`
    /// tells whether the padding width grew so that earlier rows must be
    /// redrawn.
    Appended { id: BarId, realign: bool },
}

proof fn lemma_count_update(rows: Seq<(Seq<char>, Option<Seq<char>>, bool)>, i: int)
    requires
        0 <= i < rows.len(),
    ensures
        count_complete(rows.update(i, (rows[i].0, rows[i].1, true))) == count_complete(rows) + if rows[i].2 {
            0nat
        } else {
            1nat
        },
    decreases rows.len(),
{
    let new = rows.update(i, (rows[i].0, rows[i].1, true));
    if i == rows.len() - 1 {
        assert(new.drop_last() =~= rows.drop_last());
    } else {
        lemma_count_update(rows.drop_last(), i);
        assert(new.drop_last() =~= rows.drop_last().update(
            i,
            (rows[i].0, rows[i].1, true),
        ));
    }
}

proof fn lemma_max_label_bounds(packages: Seq<(Seq<char>, Option<Seq<char>>)>, k: int)
    requires
        0 <= k < packages.len(),
    ensures
        spec_label_len(packages[k].0, packages[k].1) <= max_label(packages),
    decreases packages.len(),
{
    if k < packages.len() - 1 {
        lemma_max_label_bounds(packages.drop_last(), k);
    }
}

proof fn lemma_max_label_nonneg(packages: Seq<(Seq<char>, Option<Seq<char>>)>)
    ensures
        0 <= max_label(packages),
    decreases packages.len(),
{
    if packages.len() > 0 {
        lemma_max_label_nonneg(packages.drop_last());
    }
}

impl RowTable {
    /// The rows: name, version and completion, in creation order.
    pub closed spec fn entries(&self) -> Seq<(Seq<char>, Option<Seq<char>>, bool)> {
        self.rows@.map_values(|r: PlanRow| row_view(r))
    }

    /// The width that row labels are padded to.
    pub closed spec fn width(&self) -> int {
        self.name_width as int
    }

    /// An empty display: no rows, no padding.
    pub fn new() -> (t: Self)
        ensures
            t.entries() == Seq::<(Seq<char>, Option<Seq<char>>, bool)>::empty(),
            t.width() == 0,
    {
        let t = RowTable { rows: Vec::new(), name_width: 0 };
        assert(t.entries() =~= Seq::<(Seq<char>, Option<Seq<char>>, bool)>::empty());
        t
    }

    /// The width that row labels are padded to.
    pub fn name_width(&self) -> (w: usize)
        ensures
            w == self.width(),
    {
        self.name_width
    }

    /// The number of rows.
    pub fn len(&self) -> (n: usize)
        ensures
            n == self.entries().len(),
    {
        self.rows.len()
    }

    /// The label of the row `id`, if there is one.
    pub fn row_label(&self, id: BarId) -> (r: Option<(&str, Option<&str>)>)
        ensures
            match r {
                Some((name, version)) => id.0 < self.entries().len() && name@ == self.entries()[id.0 as int].0
                    && opt_view(version) == self.entries()[id.0 as int].1,
                None => id.0 >= self.entries().len(),
            },
    {
        if id.0 < self.rows.len() {
            let row = &self.rows[id.0];
            let version = match &row.version {
                Some(v) => Some(v.as_str()),
                None => None,
            };
            Some((row.name.as_str(), version))
        } else {
            None
        }
    }

    /// Whether the row `id` finished installing.
    pub fn is_complete(&self, id: BarId) -> (c: bool)
        ensures
            c == (id.0 < self.entries().len() && self.entries()[id.0 as int].2),
    {
        id.0 < self.rows.len() && self.rows[id.0].is_complete
    }

    fn push_row(&mut self, name: &str, version: Option<&str>) -> (id: BarId)
        ensures
            id.0 == old(self).entries().len(),
            final(self).entries() == old(self).entries().push((name@, opt_view(version), false)),
            final(self).width() == old(self).width(),
    {
        let id = BarId(self.rows.len());
        let owned_version = match version {
            Some(v) => Some(owned(v)),
            None => None,
        };
        let ghost before = self.rows@;
        self.rows.push(PlanRow { name: owned(name), version: owned_version, is_complete: false });
        assert(self.rows@ == before.push(self.rows@.last()));
        assert(self.entries() =~= before.map_values(|r: PlanRow| row_view(r)).push(
            (name@, opt_view(version), false),
        ));
        id
    }

    /// Display the resolved plan: the padding width becomes that of the
    /// widest `name version` label, and one row is added per package, in
    /// plan order. Returns the new rows' ids.
    pub fn show_plan(&mut self, packages: &Vec<(String, Option<String>)>) -> (ids: Vec<BarId>)
        ensures
            final(self).width() == max_label(plan_view(packages@)),
            final(self).entries() == old(self).entries() + plan_view(packages@).map_values(
                |p: (Seq<char>, Option<Seq<char>>)| (p.0, p.1, false),
            ),
            ids@.len() == packages@.len(),
            forall|k: int| 0 <= k < ids@.len() ==> (#[trigger] ids@[k]).0 == old(self).entries().len() + k,
            all_fit(final(self).entries().subrange(old(self).entries().len() as int, final(self).entries().len() as int), final(self).width()),
    {
        let ghost pv = plan_view(packages@);
        let mut width: usize = 0;
        for k in 0..packages.len()
            invariant
                pv == plan_view(packages@),
                width == max_label(pv.take(k as int)),
        {
            let version = match &packages[k].1 {
                Some(v) => Some(v.as_str()),
                None => None,
            };
            assert(pv[k as int] == (packages@[k as int].0@, opt_view(version)));
            let len = label_len(packages[k].0.as_str(), version);
            assert(pv.take(k + 1).drop_last() =~= pv.take(k as int));
            if len > width {
                width = len;
            }
        }
        assert(pv.take(packages.len() as int) =~= pv);
        self.name_width = width;
        let ghost start = self.entries();
        let mut ids: Vec<BarId> = Vec::new();
        for k in 0..packages.len()
            invariant
                pv == plan_view(packages@),
                self.width() == max_label(pv),
                start.len() + k == self.entries().len(),
                self.entries() == start + pv.take(k as int).map_values(
                    |p: (Seq<char>, Option<Seq<char>>)| (p.0, p.1, false),
                ),
                ids@.len() == k,
                forall|j: int| 0 <= j < ids@.len() ==> (#[trigger] ids@[j]).0 == start.len() + j,
        {
            let version = match &packages[k].1 {
                Some(v) => Some(v.as_str()),
                None => None,
            };
            assert(pv[k as int] == (packages@[k as int].0@, opt_view(version)));
            let id = self.push_row(packages[k].0.as_str(), version);
            ids.push(id);
            assert(pv.take(k + 1).map_values(|p: (Seq<char>, Option<Seq<char>>)| (p.0, p.1, false))
                =~= pv.take(k as int).map_values(
                |p: (Seq<char>, Option<Seq<char>>)| (p.0, p.1, false),
            ).push((pv[k as int].0, pv[k as int].1, false)));
        }
        assert(pv.take(packages.len() as int) =~= pv);
        proof {
            let e = self.entries();
            let sub = e.subrange(start.len() as int, e.len() as int);
            assert forall|i: int| 0 <= i < sub.len() implies spec_label_len(
                #[trigger] sub[i].0,
                sub[i].1,
            ) <= self.width() by {
                assert(sub[i] == (pv[i].0, pv[i].1, false));
                lemma_max_label_bounds(pv, i);
            }
        }
        ids
    }

    fn find_row(&self, name: &str, version: Option<&str>) -> (r: Option<usize>)
        ensures
            match r {
                Some(i) => is_first_match(self.entries(), name@, opt_view(version), i as int),
                None => forall|j: int|
                    0 <= j < self.entries().len() ==> !row_matches(
                        #[trigger] self.entries()[j],
                        name@,
                        opt_view(version),
                    ),
            },
    {
        for i in 0..self.rows.len()
            invariant
                forall|j: int|
                    0 <= j < i ==> !row_matches(
                        #[trigger] self.entries()[j],
                        name@,
                        opt_view(version),
                    ),
        {
            let row = &self.rows[i];
            let same_version = match (&row.version, version) {
                (Some(a), Some(b)) => str_eq(a.as_str(), b),
                (None, None) => true,
                _ => false,
            };
            assert(self.entries()[i as int] == row_view(self.rows@[i as int]));
            if str_eq(row.name.as_str(), name) && same_version {
                return Some(i);
            }
        }
        None
    }

    /// Attach a download of `name` at `version` to a row: the first planned
    /// row with that name and version when there is one, or else a new row
    /// appended for a dependency discovered late, which widens the padding
    /// when its label is wider than all others.
    pub fn add_bar(&mut self, name: &str, version: Option<&str>) -> (r: AddBar)
        ensures
            match r {
                AddBar::Planned(id) => {
                    &&& is_first_match(old(self).entries(), name@, opt_view(version), id.0 as int)
                    &&& final(self).entries() == old(self).entries()
                    &&& final(self).width() == old(self).width()
                },
                AddBar::Appended { id, realign } => {
                    let len = spec_label_len(name@, opt_view(version));
                    &&& forall|j: int|
                        0 <= j < old(self).entries().len() ==> !row_matches(
                            #[trigger] old(self).entries()[j],
                            name@,
                            opt_view(version),
                        )
                    &&& id.0 == old(self).entries().len()
                    &&& final(self).entries() == old(self).entries().push(
                        (name@, opt_view(version), false),
                    )
                    &&& realign == (len > old(self).width())
                    &&& final(self).width() == if realign {
                        len
                    } else {
                        old(self).width()
                    }
                },
            },
            all_fit(old(self).entries(), old(self).width()) ==> all_fit(
                final(self).entries(),
                final(self).width(),
            ),
    {
        if let Some(i) = self.find_row(name, version) {
            return AddBar::Planned(BarId(i));
        }
        let len = label_len(name, version);
        let realign = len > self.name_width;
        if realign {
            self.name_width = len;
        }
        let ghost mid = self.entries();
        let id = self.push_row(name, version);
        assert(forall|i: int|
            0 <= i < mid.len() ==> #[trigger] self.entries()[i] == mid[i]);
        AddBar::Appended { id, realign }
    }

    /// Mark the row `id` complete. Returns whether there is such a row.
    pub fn finish_bar(&mut self, id: BarId) -> (found: bool)
        ensures
            found == (id.0 < old(self).entries().len()),
            found ==> final(self).entries() == old(self).entries().update(
                id.0 as int,
                (old(self).entries()[id.0 as int].0, old(self).entries()[id.0 as int].1, true),
            ),
            !found ==> final(self).entries() == old(self).entries(),
            final(self).width() == old(self).width(),
            count_complete(final(self).entries()) == count_complete(old(self).entries()) + if found
                && !old(self).entries()[id.0 as int].2 {
                1nat
            } else {
                0nat
            },
    {
        if id.0 >= self.rows.len() {
            return false;
        }
        let ghost before = self.entries();
        let mut rows = Vec::new();
        std::mem::swap(&mut rows, &mut self.rows);
        let mut row = rows.remove(id.0);
        row.is_complete = true;
        rows.insert(id.0, row);
        self.rows = rows;
        proof {
            lemma_count_update(before, id.0 as int);
        }
        assert(self.entries() =~= before.update(
            id.0 as int,
            (before[id.0 as int].0, before[id.0 as int].1, true),
        ));
        true
    }

    /// The number of rows that finished installing.
    pub fn completed_count(&self) -> (n: usize)
        ensures
            n == count_complete(self.entries()),
    {
        let mut n: usize = 0;
        for i in 0..self.rows.len()
            invariant
                n == count_complete(self.entries().take(i as int)),
                n <= i,
        {
            assert(self.entries().take(i + 1).drop_last() =~= self.entries().take(i as int));
            assert(self.entries()[i as int] == row_view(self.rows@[i as int]));
            if self.rows[i].is_complete {
                n = n + 1;
            }
        }
        assert(self.entries().take(self.rows.len() as int) =~= self.entries());
        n
    }
}

// ---------------------------------------------------------------------------
// Download progress of one package

/// A download event of one package.
#[derive(Clone, Copy, Debug, PartialEq, Eq, Structural)]
pub enum ProgressEvent {
    /// The manifest is known and lists `layer_count` layers.
    ManifestFetched { layer_count: usize },
    /// A layer download started; its size when the registry reported one.
    LayerStarted { total_bytes: Option<u64> },
    /// Layer `index` has `bytes_downloaded` bytes so far.
    LayerProgress { index: usize, bytes_downloaded: u64 },
    /// A layer finished downloading.
    LayerDownloaded,
    /// A layer was stored.
    LayerStored,
    /// The whole install completed.
    InstallComplete,
}

/// What to do to the package's progress bar after an event.
#[derive(Clone, Copy, Debug, PartialEq, Eq, Structural)]
pub enum BarUpdate {
    /// Leave the bar as it is.
    Unchanged,
    /// Set the bar's length; `upgrade_style` asks to switch from the
    /// bytes-only style to the full bar.
    Length { length: u64, upgrade_style: bool },
    /// Set the bar's position.
    Position(u64),
}

/// The sum of a sequence of byte counts.
pub open spec fn sum(s: Seq<u64>) -> int
    decreases s.len(),
{
    if s.len() == 0 {
        0
    } else {
        sum(s.drop_last()) + s.last()
    }
}

proof fn lemma_sum_prefix(s: Seq<u64>, i: int)
    requires
        0 <= i <= s.len(),
    ensures
        0 <= sum(s.take(i)) <= sum(s),
    decreases s.len() - i,
{
    if i == s.len() {
        assert(s.take(i) =~= s);
        lemma_sum_nonneg(s);
    } else {
        lemma_sum_prefix(s, i + 1);
        assert(s.take(i + 1).drop_last() =~= s.take(i));
        lemma_sum_nonneg(s.take(i));
    }
}

proof fn lemma_sum_nonneg(s: Seq<u64>)
    ensures
        0 <= sum(s),
    decreases s.len(),
{
    if s.len() > 0 {
        lemma_sum_nonneg(s.drop_last());
    }
}

/// Per-layer progress after `layer_count` layers are announced: existing
/// entries kept up to that count, new ones at zero.
pub open spec fn resized(progress: Seq<u64>, layer_count: int) -> Seq<u64> {
    if layer_count <= progress.len() {
        progress.take(layer_count)
    } else {
        progress + Seq::new((layer_count - progress.len()) as nat, |i: int| 0u64)
    }
}

/// Aggregated download state of one package: bytes downloaded per layer,
/// the sum of the known layer sizes, and whether the full bar is shown.
pub struct LayerTotals {
    layer_progress: Vec<u64>,
    total_bytes: u64,
    style_upgraded: bool,
}

impl LayerTotals {
    /// Bytes downloaded so far, per layer.
    pub closed spec fn progress(&self) -> Seq<u64> {
        self.layer_progress@
    }

    /// Sum of the layer sizes reported so far.
    pub closed spec fn total(&self) -> int {
        self.total_bytes as int
    }

    /// Whether the bar has switched to the full style.
    pub closed spec fn upgraded(&self) -> bool {
        self.style_upgraded
    }

    /// The event can be applied without a byte count leaving `u64`.
    pub open spec fn accepts(&self, event: ProgressEvent) -> bool {
        match event {
            ProgressEvent::LayerStarted { total_bytes: Some(size) } => self.total() + size
                <= u64::MAX,
            ProgressEvent::LayerProgress { index, bytes_downloaded } => sum(
                if index < self.progress().len() {
                    self.progress().update(index as int, bytes_downloaded)
                } else {
                    self.progress()
                },
            ) <= u64::MAX,
            _ => true,
        }
    }

    /// Whether `event` can be applied without a byte count leaving `u64`.
    pub fn can_apply(&self, event: ProgressEvent) -> (r: bool)
        ensures
            r == self.accepts(event),
    {
        match event {
            ProgressEvent::LayerStarted { total_bytes: Some(size) } => self.total_bytes <= u64::MAX - size,
            ProgressEvent::LayerProgress { index, bytes_downloaded } => {
                let ghost updated = if index < self.layer_progress@.len() {
                    self.layer_progress@.update(index as int, bytes_downloaded)
                } else {
                    self.layer_progress@
                };
                let mut n: u64 = 0;
                let mut i: usize = 0;
                while i < self.layer_progress.len()
                    invariant
                        i <= self.layer_progress.len(),
                        event == (ProgressEvent::LayerProgress { index, bytes_downloaded }),
                        updated.len() == self.layer_progress@.len(),
                        updated == (if index < self.layer_progress@.len() {
                            self.layer_progress@.update(index as int, bytes_downloaded)
                        } else {
                            self.layer_progress@
                        }),
                        n == sum(updated.take(i as int)),
                    decreases self.layer_progress.len() - i,
                {
                    let x = if i == index {
                        bytes_downloaded
                    } else {
                        self.layer_progress[i]
                    };
                    assert(x == updated[i as int]);
                    assert(updated.take(i + 1).drop_last() =~= updated.take(i as int));
                    assert(sum(updated.take(i + 1)) == n + x);
                    if n > u64::MAX - x {
                        proof {
                            lemma_sum_prefix(updated, i + 1);
                        }
                        assert(sum(updated) > u64::MAX);
                        return false;
                    }
                    n = n + x;
                    i = i + 1;
                }
                assert(updated.take(i as int) =~= updated);
                true
            },
            _ => true,
        }
    }

    /// No layer known, nothing downloaded, the bytes-only style.
    pub fn new() -> (t: Self)
        ensures
            t.progress() == Seq::<u64>::empty(),
            t.total() == 0,
            !t.upgraded(),
    {
        LayerTotals { layer_progress: Vec::new(), total_bytes: 0, style_upgraded: false }
    }

    /// Record one event and say how the bar changes. All layers report to
    /// one bar: its length is the sum of the known layer sizes and its
    /// position the sum of the bytes downloaded per layer. The first known
    /// size switches the bar from bytes only to the full style.
    pub fn apply(&mut self, event: ProgressEvent) -> (u: BarUpdate)
        requires
            old(self).accepts(event),
        ensures
            match event {
                ProgressEvent::ManifestFetched { layer_count } => {
                    &&& final(self).progress() == resized(old(self).progress(), layer_count as int)
                    &&& final(self).total() == old(self).total()
                    &&& final(self).upgraded() == old(self).upgraded()
                    &&& u == BarUpdate::Unchanged
                },
                ProgressEvent::LayerStarted { total_bytes: Some(size) } => {
                    &&& final(self).progress() == old(self).progress()
                    &&& final(self).total() == old(self).total() + size
                    &&& final(self).upgraded()
                    &&& u == BarUpdate::Length {
                        length: (old(self).total() + size) as u64,
                        upgrade_style: !old(self).upgraded(),
                    }
                },
                ProgressEvent::LayerProgress { index, bytes_downloaded } => {
                    &&& final(self).progress() == if index < old(self).progress().len() {
                        old(self).progress().update(index as int, bytes_downloaded)
                    } else {
                        old(self).progress()
                    }
                    &&& final(self).total() == old(self).total()
                    &&& final(self).upgraded() == old(self).upgraded()
                    &&& u == BarUpdate::Position(sum(final(self).progress()) as u64)
                },
                _ => {
                    &&& final(self).progress() == old(self).progress()
                    &&& final(self).total() == old(self).total()
                    &&& final(self).upgraded() == old(self).upgraded()
                    &&& u == BarUpdate::Unchanged
                },
            },
    {
        match event {
            ProgressEvent::ManifestFetched { layer_count } => {
                let ghost before = self.layer_progress@;
                self.layer_progress.resize(layer_count, 0);
                proof {
                    if layer_count > before.len() {
                        assert(self.layer_progress@ =~= resized(before, layer_count as int));
                    }
                }
                BarUpdate::Unchanged
            },
            ProgressEvent::LayerStarted { total_bytes: Some(size) } => {
                self.total_bytes = self.total_bytes + size;
                let upgrade_style = !self.style_upgraded;
                self.style_upgraded = true;
                BarUpdate::Length { length: self.total_bytes, upgrade_style }
            },
            ProgressEvent::LayerProgress { index, bytes_downloaded } => {
                if index < self.layer_progress.len() {
                    self.layer_progress.set(index, bytes_downloaded);
                }
                let downloaded = sum_progress(&self.layer_progress);
                BarUpdate::Position(downloaded)
            },
            _ => BarUpdate::Unchanged,
        }
    }
}

fn sum_progress(v: &Vec<u64>) -> (n: u64)
    requires
        sum(v@) <= u64::MAX,
    ensures
        n == sum(v@),
{
    let mut n: u64 = 0;
    for i in 0..v.len()
        invariant
            sum(v@) <= u64::MAX,
            n == sum(v@.take(i as int)),
    {
        proof {
            lemma_sum_prefix(v@, i + 1);
        }
        assert(v@.take(i + 1).drop_last() =~= v@.take(i as int));
        n = n + v[i];
    }
    assert(v@.take(v.len() as int) =~= v@);
    n
}

// ---------------------------------------------------------------------------
// Planned installs

/// The parts of an OCI reference that the display reads.
pub struct InstallReference {
    /// Repository path (e.g. `webassembly/wasi-logging`).
    pub repository: String,
    /// Tag, when the reference has one.
    pub tag: Option<String>,
}

/// A package planned for installation: a top-level dependency from the
/// manifest or user input, or a transitive dependency found by the
/// resolver.
pub enum PlannedInstall {
    TopLevel { reference: InstallReference, update_manifest: bool, explicit_name: Option<String> },
    Transitive { reference: InstallReference, package_name: String },
}

/// The `(display name, version)` pair shown for a planned install.
pub open spec fn spec_display_info(p: PlannedInstall) -> (Seq<char>, Option<Seq<char>>) {
    match p {
        PlannedInstall::TopLevel { reference, explicit_name, .. } => {
            let (name, ver) = spec_display_parts(
                opt_string_view(explicit_name),
                opt_string_view(reference.tag),
            );
            (
                if name.len() == 0 {
                    spec_oci_repo_display_name(reference.repository@)
                } else {
                    name
                },
                ver,
            )
        },
        PlannedInstall::Transitive { reference, package_name } => {
            let (name, ver) = spec_display_parts(
                Some(package_name@),
                opt_string_view(reference.tag),
            );
            (
                if name.len() == 0 {
                    package_name@
                } else {
                    name
                },
                ver,
            )
        },
    }
}

fn as_opt_str(o: &Option<String>) -> (r: Option<&str>)
    ensures
        opt_view(r) == opt_string_view(*o),
{
    match o {
        Some(s) => Some(s.as_str()),
        None => None,
    }
}

impl PlannedInstall {
    /// Returns `true` when this entry is a transitive dependency.
    pub fn is_transitive(&self) -> (r: bool)
        ensures
            r == (*self is Transitive),
    {
        match self {
            PlannedInstall::Transitive { .. } => true,
            PlannedInstall::TopLevel { .. } => false,
        }
    }

    /// The reference this entry installs.
    pub fn reference(&self) -> (r: &InstallReference)
        ensures
            r == match *self {
                PlannedInstall::TopLevel { reference, .. } => reference,
                PlannedInstall::Transitive { reference, .. } => reference,
            },
    {
        match self {
            PlannedInstall::TopLevel { reference, .. } => reference,
            PlannedInstall::Transitive { reference, .. } => reference,
        }
    }

    /// Returns a `(display_name, version)` pair for progress display.
    pub fn display_info(&self) -> (r: (String, Option<String>))
        ensures
            (r.0@, opt_string_view(r.1)) == spec_display_info(*self),
    {
        match self {
            PlannedInstall::TopLevel { reference, explicit_name, .. } => {
                let (name, ver) = package_display_parts(
                    as_opt_str(explicit_name),
                    as_opt_str(&reference.tag),
                );
                let display = if name.as_str().is_empty() {
                    oci_repo_display_name(reference.repository.as_str())
                } else {
                    name
                };
                (display, ver)
            },
            PlannedInstall::Transitive { reference, package_name } => {
                let (name, ver) = package_display_parts(
                    Some(package_name.as_str()),
                    as_opt_str(&reference.tag),
                );
                let display = if name.as_str().is_empty() {
                    owned(package_name.as_str())
                } else {
                    name
                };
                (display, ver)
            },
        }
    }
}

} // verus!
