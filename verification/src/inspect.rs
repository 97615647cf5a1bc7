//! The tables that `component registry inspect` prints for a Wasm binary.
//!
//! A binary is a tree of payloads: a component holds nested components and
//! core modules. The summary table has one row per payload, in pre-order;
//! the details table lists one payload's metadata, and one such table is
//! printed for each payload, again in pre-order.
use comfy_table::modifiers::UTF8_ROUND_CORNERS;
use comfy_table::presets::UTF8_FULL;
use comfy_table::{CellAlignment, ContentArrangement, Table};
use vstd::prelude::*;
use wasm_metadata::{Metadata as WasmMetadata, Payload as WasmPayload};

use crate::text::{chars_of, decimal, owned, push_char, push_str, str_eq, to_decimal};

verus! {

/// The byte range a payload occupies in the binary.
pub struct ByteRange {
    pub start: usize,
    pub end: usize,
}

/// One tool of a producers section and the version it reports.
pub struct ProducerField {
    pub name: String,
    pub version: String,
}

/// One producers section entry (`language`, `processed-by`, `sdk`, ...).
pub struct Producer {
    pub name: String,
    pub fields: Vec<ProducerField>,
}

/// A package the binary was built from, as recorded in its dependencies.
pub struct Dependency {
    pub name: String,
    pub version: String,
}

/// The metadata of one payload. The textual annotations hold the text
/// they display as.
pub struct Metadata {
    pub name: Option<String>,
    pub authors: Option<String>,
    pub description: Option<String>,
    pub producers: Option<Vec<Producer>>,
    pub licenses: Option<String>,
    pub source: Option<String>,
    pub homepage: Option<String>,
    pub range: ByteRange,
    pub revision: Option<String>,
    pub version: Option<String>,
    pub dependencies: Option<Vec<Dependency>>,
}

/// A component with its nested payloads, or a core module.
pub enum Payload {
    Component { metadata: Metadata, children: Vec<Payload> },
    Module(Metadata),
}

/// The metadata of `p`.
pub open spec fn meta(p: Payload) -> Metadata {
    match p {
        Payload::Component { metadata, .. } => metadata,
        Payload::Module(metadata) => metadata,
    }
}

/// The payloads nested directly in `p`.
pub open spec fn kids(p: Payload) -> Seq<Payload> {
    match p {
        Payload::Component { children, .. } => children@,
        Payload::Module(_) => Seq::empty(),
    }
}

/// The largest end of a byte range in `p` and everything nested in it, or
/// `m` if that is larger.
pub open spec fn tree_max(p: Payload, m: nat) -> nat
    decreases p, 1nat, 0nat,
{
    let here = if meta(p).range.end > m { meta(p).range.end as nat } else { m };
    kids_max(p, 0, here)
}

/// `tree_max` over the payloads nested in `p` from index `i` on.
pub open spec fn kids_max(p: Payload, i: nat, m: nat) -> nat
    decreases p, 0nat, kids(p).len() - i,
{
    match p {
        Payload::Component { children, .. } => {
            if i < children.len() {
                kids_max(p, i + 1, tree_max(children[i as int], m))
            } else {
                m
            }
        },
        Payload::Module(_) => m,
    }
}

/// Raise `max` to the largest end of a byte range in `payload` and
/// everything nested in it.
pub fn find_range_max(max: &mut usize, payload: &Payload)
    ensures
        *final(max) == tree_max(*payload, *old(max) as nat),
    decreases payload, 1nat, 0nat,
{
    let range = &metadata(payload).range;
    if range.end > *max {
        *max = range.end;
    }
    if let Payload::Component { children, .. } = payload {
        let mut i: usize = 0;
        while i < children.len()
            invariant
                0 <= i <= children.len(),
                kids(*payload) == children@,
                kids_max(*payload, 0, if meta(*payload).range.end > *old(max) {
                    meta(*payload).range.end as nat
                } else {
                    *old(max) as nat
                }) == kids_max(*payload, i as nat, *max as nat),
            decreases children.len() - i,
        {
            find_range_max(max, &children[i]);
            i = i + 1;
        }
    }
}

/// The metadata of `payload`.
pub fn metadata(payload: &Payload) -> (m: &Metadata)
    ensures
        *m == meta(*payload),
{
    match payload {
        Payload::Component { metadata, .. } => metadata,
        Payload::Module(metadata) => metadata,
    }
}

/// Every byte range in `p` and everything nested in it starts no later
/// than it ends.
pub open spec fn ranges_ok(p: Payload) -> bool
    decreases p, 1nat, 0nat,
{
    meta(p).range.start <= meta(p).range.end && kids_ranges_ok(p, 0)
}

/// `ranges_ok` for the payloads nested in `p` from index `i` on.
pub open spec fn kids_ranges_ok(p: Payload, i: nat) -> bool
    decreases p, 0nat, kids(p).len() - i,
{
    match p {
        Payload::Component { children, .. } => {
            i < children.len() ==> ranges_ok(children[i as int]) && kids_ranges_ok(p, i + 1)
        },
        Payload::Module(_) => true,
    }
}

/// The SI short form of a byte count (`12.3M`) that the `bytesize` crate
/// prints.
pub uninterp spec fn si_short_size(bytes: u64) -> Seq<char>;

/// The name a payload is listed under: its own, or `unknown(id)`.
pub open spec fn shown_name(m: Metadata, id: nat) -> Seq<char> {
    match m.name {
        Some(n) => n@,
        None => "unknown("@ + decimal(id) + ")"@,
    }
}

/// The number the next unnamed payload gets after one with metadata `m`
/// was listed while `id` was next.
pub open spec fn next_id(m: Metadata, id: nat) -> nat {
    if m.name is Some {
        id
    } else {
        id + 1
    }
}

/// The word for the kind of `p`.
pub open spec fn kind_name(p: Payload) -> Seq<char> {
    match p {
        Payload::Component { .. } => "component"@,
        Payload::Module(_) => "module"@,
    }
}

/// The share of the binary, in whole percent, that `size` bytes take when
/// the largest range ends at `max`; `size * 100` saturates at the
/// largest `usize`.
pub open spec fn percent_of(size: nat, max: nat) -> nat {
    if max == 0 {
        0
    } else {
        let product = if size * 100 <= usize::MAX {
            size * 100
        } else {
            usize::MAX as nat
        };
        product / max
    }
}

/// The SIZE% cell: `<1%` for at most one percent, `>99%` for a full
/// hundred that does not reach the end of the binary, else the percent.
pub open spec fn usage_text(percent: nat, end: nat, max: nat) -> Seq<char> {
    let p = if percent < 100 {
        percent
    } else {
        100
    };
    if p <= 1 {
        "<1%"@
    } else if p == 100 && end != max {
        ">99%"@
    } else {
        decimal(p) + "%"@
    }
}

/// Index of the first producers entry named `language`, from index `i` on.
pub open spec fn language_entry(ps: Seq<Producer>, i: nat) -> Option<nat>
    decreases ps.len() - i,
{
    if i >= ps.len() {
        None
    } else if ps[i as int].name@ == "language"@ {
        Some(i)
    } else {
        language_entry(ps, i + 1)
    }
}

/// The tool names of `fs`, joined by `, `.
pub open spec fn joined_names(fs: Seq<ProducerField>) -> Seq<char>
    decreases fs.len(),
{
    if fs.len() == 0 {
        Seq::empty()
    } else if fs.len() == 1 {
        fs[0].name@
    } else {
        joined_names(fs.drop_last()) + ", "@ + fs.last().name@
    }
}

/// The LANGUAGES cell: the tools of the `language` producers entry, or
/// `-` when there is none.
pub open spec fn languages_text(m: Metadata) -> Seq<char> {
    match m.producers {
        Some(ps) => match language_entry(ps@, 0) {
            Some(i) => joined_names(ps@[i as int].fields@),
            None => "-"@,
        },
        None => "-"@,
    }
}

/// The summary row of `p`: kind, name, size, share, languages and parent.
pub open spec fn summary_row(p: Payload, parent: Seq<char>, id: nat, max: nat) -> Seq<Seq<char>> {
    let m = meta(p);
    let size = m.range.end - m.range.start;
    seq![
        kind_name(p),
        shown_name(m, id),
        si_short_size(size as u64),
        usage_text(percent_of(size as nat, max), m.range.end as nat, max),
        languages_text(m),
        parent,
    ]
}

/// The summary rows of `p` and everything nested in it, in pre-order,
/// with `id` the number of the next unnamed payload; and the number after
/// the last one used.
pub open spec fn summary(p: Payload, parent: Seq<char>, id: nat, max: nat) -> (Seq<Seq<Seq<char>>>, nat)
    decreases p, 1nat, 0nat,
{
    let m = meta(p);
    let rest = kids_summary(p, 0, shown_name(m, id), next_id(m, id), max);
    (seq![summary_row(p, parent, id, max)] + rest.0, rest.1)
}

/// `summary` over the payloads nested in `p` from index `i` on, all with
/// the parent `parent`.
pub open spec fn kids_summary(p: Payload, i: nat, parent: Seq<char>, id: nat, max: nat) -> (Seq<Seq<Seq<char>>>, nat)
    decreases p, 0nat, kids(p).len() - i,
{
    match p {
        Payload::Component { children, .. } => {
            if i < children.len() {
                let first = summary(children[i as int], parent, id, max);
                let rest = kids_summary(p, i + 1, parent, first.1, max);
                (first.0 + rest.0, rest.1)
            } else {
                (Seq::empty(), id)
            }
        },
        Payload::Module(_) => (Seq::empty(), id),
    }
}

/// The characters of each cell of each row.
pub open spec fn rows_view(rows: Seq<Vec<String>>) -> Seq<Seq<Seq<char>>> {
    rows.map_values(|r: Vec<String>| r@.map_values(|c: String| c@))
}

/// `ByteSize::b(bytes).display().si_short().to_string()`.
///
/// The text is named by `si_short_size`; below 1000 bytes the `bytesize`
/// source prints the count and `B`.
#[verifier::external_body]
fn si_short(bytes: u64) -> (s: String)
    ensures
        s@ == si_short_size(bytes),
        bytes < 1000 ==> s@ == decimal(bytes as nat) + "B"@,
{
    bytesize::ByteSize::b(bytes).display().si_short().to_string()
}

/// The tool names of `fields`, joined by `, `.
fn join_names(fields: &Vec<ProducerField>) -> (s: String)
    ensures
        s@ == joined_names(fields@),
{
    let mut s = String::new();
    let mut i: usize = 0;
    while i < fields.len()
        invariant
            i <= fields.len(),
            s@ == joined_names(fields@.take(i as int)),
        decreases fields.len() - i,
    {
        if i > 0 {
            push_str(&mut s, ", ");
        }
        push_str(&mut s, fields[i].name.as_str());
        assert(fields@.take(i + 1).drop_last() == fields@.take(i as int));
        i = i + 1;
    }
    assert(fields@.take(fields.len() as int) == fields@);
    s
}

/// The LANGUAGES cell of a payload with metadata `m`.
fn languages(m: &Metadata) -> (s: String)
    ensures
        s@ == languages_text(*m),
{
    match &m.producers {
        Some(ps) => {
            let mut i: usize = 0;
            while i < ps.len()
                invariant
                    i <= ps.len(),
                    m.producers == Some(*ps),
                    language_entry(ps@, 0) == language_entry(ps@, i as nat),
                decreases ps.len() - i,
            {
                if str_eq(ps[i].name.as_str(), "language") {
                    assert(language_entry(ps@, i as nat) == Some(i as nat));
                    return join_names(&ps[i].fields);
                }
                i = i + 1;
            }
            owned("-")
        },
        None => owned("-"),
    }
}

/// Append the summary rows of `payload` and everything nested in it to
/// `rows`, numbering unnamed payloads from `*unknown_id` on.
pub fn write_summary_table_inner(
    payload: &Payload,
    parent: &str,
    unknown_id: &mut u16,
    range_max: usize,
    rows: &mut Vec<Vec<String>>,
)
    requires
        ranges_ok(*payload),
        summary(*payload, parent@, *old(unknown_id) as nat, range_max as nat).1 <= u16::MAX,
    ensures
        rows_view(final(rows)@) == rows_view(old(rows)@) + summary(
            *payload,
            parent@,
            *old(unknown_id) as nat,
            range_max as nat,
        ).0,
        *final(unknown_id) as nat == summary(
            *payload,
            parent@,
            *old(unknown_id) as nat,
            range_max as nat,
        ).1,
    decreases payload, 1nat, 0nat,
{
    proof {
        broadcast use vstd::string::group_string_axioms;
    }
    let m = metadata(payload);
    let ghost id0 = *unknown_id as nat;
    let name = match &m.name {
        Some(n) => n.clone(),
        None => {
            let mut n = owned("unknown(");
            let digits = to_decimal(*unknown_id as u64);
            push_str(&mut n, digits.as_str());
            push_str(&mut n, ")");
            proof {
                lemma_summary_grows(*payload, parent@, id0, range_max as nat);
            }
            *unknown_id = *unknown_id + 1;
            n
        },
    };
    let size_bytes = m.range.end - m.range.start;
    let size = si_short(size_bytes as u64);
    let product = if size_bytes <= usize::MAX / 100 {
        size_bytes * 100
    } else {
        usize::MAX
    };
    let percent = if range_max == 0 {
        0
    } else {
        product / range_max
    };
    let shown = if percent < 100 {
        percent
    } else {
        100
    };
    let usep = if shown <= 1 {
        owned("<1%")
    } else if shown == 100 && m.range.end != range_max {
        owned(">99%")
    } else {
        let mut u = to_decimal(shown as u64);
        push_str(&mut u, "%");
        u
    };
    let kind = match payload {
        Payload::Component { .. } => owned("component"),
        Payload::Module(_) => owned("module"),
    };
    let langs = languages(m);
    let row = vec![kind, name.clone(), size, usep, langs, owned(parent)];
    let ghost before = rows@;
    let ghost srow = summary_row(*payload, parent@, id0, range_max as nat);
    assert(kind@ == srow[0]);
    assert(name@ == srow[1]);
    assert(size@ == srow[2]);
    assert(percent as nat == percent_of(size_bytes as nat, range_max as nat));
    assert(usep@ == srow[3]);
    assert(langs@ == srow[4]);
    assert(row@.map_values(|c: String| c@) == srow);
    rows.push(row);
    assert(rows_view(rows@) == rows_view(before) + seq![summary_row(*payload, parent@, id0, range_max as nat)]);
    let ghost all = kids_summary(*payload, 0, name@, next_id(*m, id0), range_max as nat);
    proof {
        lemma_summary_grows(*payload, parent@, id0, range_max as nat);
    }
    if let Payload::Component { children, .. } = payload {
        let ghost mut done: Seq<Seq<Seq<char>>> = Seq::empty();
        let mut i: usize = 0;
        while i < children.len()
            invariant
                0 <= i <= children.len(),
                kids(*payload) == children@,
                kids_ranges_ok(*payload, i as nat),
                all.1 <= u16::MAX,
                kids_summary(*payload, i as nat, name@, *unknown_id as nat, range_max as nat).1 == all.1,
                done + kids_summary(*payload, i as nat, name@, *unknown_id as nat, range_max as nat).0 == all.0,
                rows_view(rows@) == rows_view(before) + seq![summary_row(*payload, parent@, id0, range_max as nat)] + done,
            decreases children.len() - i,
        {
            let ghost cur = *unknown_id as nat;
            let ghost first = summary(children@[i as int], name@, cur, range_max as nat);
            let ghost rest = kids_summary(*payload, (i + 1) as nat, name@, first.1, range_max as nat);
            proof {
                lemma_kids_summary_grows(*payload, (i + 1) as nat, name@, first.1, range_max as nat);
            }
            let ghost mid = rows@;
            write_summary_table_inner(&children[i], name.as_str(), unknown_id, range_max, rows);
            proof {
                assert(done + first.0 + rest.0 == done + (first.0 + rest.0));
                done = done + first.0;
            }
            i = i + 1;
        }
        proof {
            assert(kids_summary(*payload, i as nat, name@, *unknown_id as nat, range_max as nat).0 == Seq::<Seq<Seq<char>>>::empty());
            assert(done + Seq::<Seq<Seq<char>>>::empty() == done);
        }
    } else {
        assert(all.0 == Seq::<Seq<Seq<char>>>::empty());
    }
    assert(seq![summary_row(*payload, parent@, id0, range_max as nat)] + all.0 == summary(*payload, parent@, id0, range_max as nat).0);
}

/// `summary` never hands out fewer numbers than it was given.
proof fn lemma_summary_grows(p: Payload, parent: Seq<char>, id: nat, max: nat)
    ensures
        summary(p, parent, id, max).1 >= next_id(meta(p), id) >= id,
    decreases p, 1nat, 0nat,
{
    lemma_kids_summary_grows(p, 0, shown_name(meta(p), id), next_id(meta(p), id), max);
}

/// `kids_summary` never hands out fewer numbers than it was given.
proof fn lemma_kids_summary_grows(p: Payload, i: nat, parent: Seq<char>, id: nat, max: nat)
    ensures
        kids_summary(p, i, parent, id, max).1 >= id,
    decreases p, 0nat, kids(p).len() - i,
{
    match p {
        Payload::Component { children, .. } => {
            if i < children.len() {
                lemma_summary_grows(children[i as int], parent, id, max);
                let first = summary(children[i as int], parent, id, max);
                lemma_kids_summary_grows(p, i + 1, parent, first.1, max);
            }
        },
        Payload::Module(_) => {},
    }
}

/// `a` sorts no later than `b` in the order of `String`: by code points
/// (which is the order of their UTF-8 bytes), a prefix first.
pub open spec fn lex_le(a: Seq<char>, b: Seq<char>) -> bool
    decreases a.len(),
{
    if a.len() == 0 {
        true
    } else if b.len() == 0 {
        false
    } else if a[0] != b[0] {
        a[0] < b[0]
    } else {
        lex_le(a.drop_first(), b.drop_first())
    }
}

/// Producers entry `a` is listed no later than entry `b`: `language`
/// first, the others by name.
pub open spec fn listed_before(a: Seq<char>, b: Seq<char>) -> bool {
    a == "language"@ || (b != "language"@ && lex_le(a, b))
}

/// Any two texts are ordered one way or the other.
pub proof fn lemma_lex_le_total(a: Seq<char>, b: Seq<char>)
    ensures
        lex_le(a, b) || lex_le(b, a),
    decreases a.len(),
{
    if a.len() > 0 && b.len() > 0 && a[0] == b[0] {
        lemma_lex_le_total(a.drop_first(), b.drop_first());
    }
}

/// The order of texts is transitive.
pub proof fn lemma_lex_le_transitive(a: Seq<char>, b: Seq<char>, c: Seq<char>)
    requires
        lex_le(a, b),
        lex_le(b, c),
    ensures
        lex_le(a, c),
    decreases a.len(),
{
    if a.len() > 0 && b.len() > 0 && c.len() > 0 && a[0] == b[0] && b[0] == c[0] {
        lemma_lex_le_transitive(a.drop_first(), b.drop_first(), c.drop_first());
    }
}

/// Whether `a` sorts no later than `b` (`a <= b` on `String`).
fn text_le(a: &str, b: &str) -> (r: bool)
    ensures
        r == lex_le(a@, b@),
{
    let x = chars_of(a);
    let y = chars_of(b);
    let mut i: usize = 0;
    assert(a@.skip(0) == a@ && b@.skip(0) == b@);
    while i < x.len() && i < y.len() && x[i] == y[i]
        invariant
            x@ == a@,
            y@ == b@,
            i <= x.len(),
            i <= y.len(),
            lex_le(a@, b@) == lex_le(a@.skip(i as int), b@.skip(i as int)),
        decreases x.len() - i,
    {
        assert(a@.skip(i as int).drop_first() == a@.skip(i + 1));
        assert(b@.skip(i as int).drop_first() == b@.skip(i + 1));
        i = i + 1;
    }
    if i == x.len() {
        true
    } else if i == y.len() {
        false
    } else {
        x[i] < y[i]
    }
}

/// Whether producers entry `a` is listed no later than entry `b`.
fn is_listed_before(a: &str, b: &str) -> (r: bool)
    ensures
        r == listed_before(a@, b@),
{
    str_eq(a, "language") || (!str_eq(b, "language") && text_le(a, b))
}

/// Entry `i` of `ps` is listed before entry `j`: by `listed_before` on
/// their names, and by position between entries that tie.
pub open spec fn precedes(ps: Seq<Producer>, i: usize, j: usize) -> bool {
    listed_before(ps[i as int].name@, ps[j as int].name@) && (listed_before(
        ps[j as int].name@,
        ps[i as int].name@,
    ) ==> i < j)
}

/// `order` lists every entry of `ps` exactly once, each before the ones it
/// precedes.
pub open spec fn producer_order(ps: Seq<Producer>, order: Seq<usize>) -> bool {
    &&& order.len() == ps.len()
    &&& forall|k: int| 0 <= k < order.len() ==> order[k] < ps.len()
    &&& forall|k: int, l: int| 0 <= k < l < order.len() ==> order[k] != order[l]
    &&& forall|x: usize| x < ps.len() ==> #[trigger] order.contains(x)
    &&& forall|k: int, l: int|
        0 <= k < l < order.len() ==> #[trigger] precedes(ps, order[k], order[l])
}

/// The order in which the details table lists the entries of `ps`:
/// `language` first, then the others by name.
pub open spec fn listing_order(ps: Seq<Producer>) -> Seq<usize> {
    choose|order: Seq<usize>| producer_order(ps, order)
}

/// `precedes` is transitive.
proof fn lemma_precedes_transitive(ps: Seq<Producer>, a: usize, b: usize, c: usize)
    requires
        a < ps.len(),
        b < ps.len(),
        c < ps.len(),
        precedes(ps, a, b),
        precedes(ps, b, c),
    ensures
        precedes(ps, a, c),
{
    let (na, nb, nc) = (ps[a as int].name@, ps[b as int].name@, ps[c as int].name@);
    assert(listed_before(na, nc)) by {
        if na != "language"@ && nb != "language"@ {
            lemma_lex_le_transitive(na, nb, nc);
        }
    }
    if listed_before(nc, na) {
        assert(listed_before(nc, nb)) by {
            if nc != "language"@ && na != "language"@ {
                lemma_lex_le_transitive(nc, na, nb);
            }
        }
        assert(listed_before(nb, na)) by {
            if nb != "language"@ && nc != "language"@ {
                lemma_lex_le_transitive(nb, nc, na);
            }
        }
    }
}

/// Only one order of the entries lists each before the ones it precedes.
pub proof fn lemma_producer_order_unique(ps: Seq<Producer>, o1: Seq<usize>, o2: Seq<usize>)
    requires
        producer_order(ps, o1),
        producer_order(ps, o2),
    ensures
        o1 == o2,
{
    lemma_producer_order_agrees_from(ps, o1, o2, 0);
}

proof fn lemma_producer_order_agrees_from(ps: Seq<Producer>, o1: Seq<usize>, o2: Seq<usize>, k: nat)
    requires
        producer_order(ps, o1),
        producer_order(ps, o2),
        k <= ps.len(),
        forall|i: int| 0 <= i < k ==> o1[i] == o2[i],
    ensures
        o1 == o2,
    decreases ps.len() - k,
{
    if k < ps.len() {
        let a = o1[k as int];
        let b = o2[k as int];
        if a != b {
            assert(o1.contains(b));
            assert(o2.contains(a));
            let l = choose|l: int| 0 <= l < o1.len() && o1[l] == b;
            let l2 = choose|l: int| 0 <= l < o2.len() && o2[l] == a;
            if l < k {
                assert(o2[l] == b);
            }
            if l2 < k {
                assert(o1[l2] == a);
            }
            assert(precedes(ps, o1[k as int], o1[l]));
            assert(precedes(ps, o2[k as int], o2[l2]));
        }
        lemma_producer_order_agrees_from(ps, o1, o2, k + 1);
    } else {
        assert(o1 =~= o2);
    }
}

/// The indices of `ps` in the order the details table lists them.
fn sorted_producers(ps: &Vec<Producer>) -> (order: Vec<usize>)
    ensures
        producer_order(ps@, order@),
        order@ == listing_order(ps@),
{
    let mut order: Vec<usize> = Vec::new();
    let mut j: usize = 0;
    while j < ps.len()
        invariant
            j <= ps.len(),
            order.len() == j,
            forall|k: int| 0 <= k < order.len() ==> order[k] < j,
            forall|k: int, l: int| 0 <= k < l < order.len() ==> order[k] != order[l],
            forall|x: usize| x < j ==> #[trigger] order@.contains(x),
            forall|k: int, l: int|
                0 <= k < l < order.len() ==> #[trigger] precedes(ps@, order[k], order[l]),
        decreases ps.len() - j,
    {
        let name = ps[j].name.as_str();
        let mut pos: usize = 0;
        while pos < order.len() && is_listed_before(ps[order[pos]].name.as_str(), name)
            invariant
                pos <= order.len(),
                j < ps.len(),
                name@ == ps@[j as int].name@,
                forall|k: int| 0 <= k < order.len() ==> order[k] < j,
                forall|k: int| 0 <= k < pos ==> #[trigger] precedes(ps@, order[k], j),
            decreases order.len() - pos,
        {
            pos = pos + 1;
        }
        proof {
            if pos < order.len() {
                let y0 = order[pos as int];
                lemma_lex_le_total(ps@[y0 as int].name@, name@);
                assert(precedes(ps@, j, y0));
                assert forall|l: int| pos <= l < order.len() implies #[trigger] precedes(
                    ps@,
                    j,
                    order[l],
                ) by {
                    if l > pos {
                        assert(precedes(ps@, order[pos as int], order[l]));
                        lemma_precedes_transitive(ps@, j, y0, order[l]);
                    }
                }
            }
        }
        let ghost old_order = order@;
        order.insert(pos, j);
        assert forall|k: int, l: int| 0 <= k < l < order.len() implies #[trigger] precedes(
            ps@,
            order[k],
            order[l],
        ) by {
            if k < pos && l < pos {
                assert(order[k] == old_order[k] && order[l] == old_order[l]);
            } else if k < pos && l == pos {
            } else if k < pos {
                assert(order[l] == old_order[l - 1]);
                assert(precedes(ps@, old_order[k], old_order[l - 1]));
            } else if k == pos {
                assert(order[l] == old_order[l - 1]);
            } else {
                assert(order[k] == old_order[k - 1] && order[l] == old_order[l - 1]);
                assert(precedes(ps@, old_order[k - 1], old_order[l - 1]));
            }
        }
        assert forall|x: usize| x < j + 1 implies #[trigger] order@.contains(x) by {
            if x == j {
                assert(order[pos as int] == j);
            } else {
                assert(old_order.contains(x));
                let k0 = choose|k: int| 0 <= k < old_order.len() && old_order[k] == x;
                if k0 < pos {
                    assert(order[k0] == x);
                } else {
                    assert(order[k0 + 1] == x);
                }
            }
        }
        j = j + 1;
    }
    proof {
        assert(producer_order(ps@, order@));
        lemma_producer_order_unique(ps@, order@, listing_order(ps@));
    }
    order
}

/// The lower-case hexadecimal digit for `d < 16`.
pub open spec fn hex_digit(d: nat) -> char {
    if d < 10 {
        ((48 + d) as u8) as char
    } else {
        ((87 + d) as u8) as char
    }
}

/// The lower-case hexadecimal representation of `n`, without leading
/// zeros.
pub open spec fn hex(n: nat) -> Seq<char>
    decreases n,
{
    if n < 16 {
        seq![hex_digit(n)]
    } else {
        hex(n / 16) + seq![hex_digit(n % 16)]
    }
}

/// The lower-case hexadecimal representation of `n` (`{:x}`).
fn to_hex(n: usize) -> (s: String)
    ensures
        s@ == hex(n as nat),
    decreases n,
{
    let d = n % 16;
    let c = if d < 10 {
        ((48 + d) as u8) as char
    } else {
        ((87 + d) as u8) as char
    };
    if n < 16 {
        let mut s = String::new();
        push_char(&mut s, c);
        s
    } else {
        let mut s = to_hex(n / 16);
        push_char(&mut s, c);
        s
    }
}

/// A details row.
pub open spec fn pair(key: Seq<char>, value: Seq<char>) -> Seq<Seq<char>> {
    seq![key, value]
}

/// The name of a payload, or `<unknown>`.
pub open spec fn name_or_unknown(m: Metadata) -> Seq<char> {
    match m.name {
        Some(n) => n@,
        None => "<unknown>"@,
    }
}

/// A row for an annotation that is present.
pub open spec fn annotation_rows(key: Seq<char>, value: Option<String>) -> Seq<Seq<Seq<char>>> {
    match value {
        Some(v) => seq![pair(key, v@)],
        None => Seq::empty(),
    }
}

/// A tool with its version in brackets, or alone when the version is
/// empty.
pub open spec fn field_text(f: ProducerField) -> Seq<char> {
    if f.version@.len() == 0 {
        f.name@
    } else {
        f.name@ + " ["@ + f.version@ + "]"@
    }
}

/// The rows of one producers entry: one per tool.
pub open spec fn entry_rows(entry: Producer) -> Seq<Seq<Seq<char>>> {
    entry.fields@.map_values(|f: ProducerField| pair(entry.name@, field_text(f)))
}

/// The rows of the entries of `ps` taken in the order `order`.
pub open spec fn ordered_rows(ps: Seq<Producer>, order: Seq<usize>) -> Seq<Seq<Seq<char>>>
    decreases order.len(),
{
    if order.len() == 0 {
        Seq::empty()
    } else {
        ordered_rows(ps, order.drop_last()) + entry_rows(ps[order.last() as int])
    }
}

/// The producer rows of a payload with metadata `m`.
pub open spec fn producer_rows(m: Metadata) -> Seq<Seq<Seq<char>>> {
    match m.producers {
        Some(ps) => ordered_rows(ps@, listing_order(ps@)),
        None => Seq::empty(),
    }
}

/// The details table rows of `p`: name, kind and range; the annotations
/// present; the producers, `language` first; the nested payloads; the
/// dependencies.
pub open spec fn detail_rows(p: Payload) -> Seq<Seq<Seq<char>>> {
    let m = meta(p);
    seq![
        pair("name"@, name_or_unknown(m)),
        pair("kind"@, kind_name(p)),
        pair("range"@, "0x"@ + hex(m.range.start as nat) + "..0x"@ + hex(m.range.end as nat)),
    ] + annotation_rows("description"@, m.description) + annotation_rows("authors"@, m.authors)
        + annotation_rows("version"@, m.version) + annotation_rows("revision"@, m.revision)
        + annotation_rows("licenses"@, m.licenses) + annotation_rows("source"@, m.source)
        + annotation_rows("homepage"@, m.homepage) + producer_rows(m) + kids(p).map_values(
        |c: Payload| pair("child"@, name_or_unknown(meta(c)) + " ["@ + kind_name(c) + "]"@),
    ) + match m.dependencies {
        Some(ds) => ds@.map_values(
            |d: Dependency| pair("dependency"@, d.name@ + " ["@ + d.version@ + "]"@),
        ),
        None => Seq::empty(),
    }
}

/// The value of the first row of `rows` keyed `key`, if any.
pub open spec fn first_value(rows: Seq<Seq<Seq<char>>>, key: Seq<char>) -> Option<Seq<char>>
    decreases rows.len(),
{
    if rows.len() == 0 {
        None
    } else if rows[0].len() == 2 && rows[0][0] == key {
        Some(rows[0][1])
    } else {
        first_value(rows.drop_first(), key)
    }
}

proof fn lemma_first_value_concat(a: Seq<Seq<Seq<char>>>, b: Seq<Seq<Seq<char>>>, key: Seq<char>)
    ensures
        first_value(a + b, key) == match first_value(a, key) {
            Some(v) => Some(v),
            None => first_value(b, key),
        },
    decreases a.len(),
{
    if a.len() == 0 {
        assert(a + b =~= b);
    } else {
        assert((a + b).drop_first() =~= a.drop_first() + b);
        assert((a + b)[0] == a[0]);
        lemma_first_value_concat(a.drop_first(), b, key);
    }
}

/// The row keys of the details table's head and annotations differ from
/// one another.
proof fn lemma_detail_keys_distinct()
    ensures
        "name"@ != "description"@ && "kind"@ != "description"@ && "range"@ != "description"@,
        "name"@ != "authors"@ && "kind"@ != "authors"@ && "range"@ != "authors"@,
        "name"@ != "version"@ && "kind"@ != "version"@ && "range"@ != "version"@,
        "name"@ != "revision"@ && "kind"@ != "revision"@ && "range"@ != "revision"@,
        "name"@ != "licenses"@ && "kind"@ != "licenses"@ && "range"@ != "licenses"@,
        "name"@ != "source"@ && "kind"@ != "source"@ && "range"@ != "source"@,
        "name"@ != "homepage"@ && "kind"@ != "homepage"@ && "range"@ != "homepage"@,
        "description"@ != "authors"@ && "description"@ != "version"@ && "description"@ != "revision"@,
        "description"@ != "licenses"@ && "description"@ != "source"@ && "description"@ != "homepage"@,
        "authors"@ != "version"@ && "authors"@ != "revision"@ && "authors"@ != "licenses"@,
        "authors"@ != "source"@ && "authors"@ != "homepage"@,
        "version"@ != "revision"@ && "version"@ != "licenses"@ && "version"@ != "source"@,
        "version"@ != "homepage"@,
        "revision"@ != "licenses"@ && "revision"@ != "source"@ && "revision"@ != "homepage"@,
        "licenses"@ != "source"@ && "licenses"@ != "homepage"@,
        "source"@ != "homepage"@,
{
    reveal_strlit("name");
    reveal_strlit("kind");
    reveal_strlit("range");
    reveal_strlit("description");
    reveal_strlit("authors");
    reveal_strlit("version");
    reveal_strlit("revision");
    reveal_strlit("licenses");
    reveal_strlit("source");
    reveal_strlit("homepage");
    assert("name"@.len() == 4 && "kind"@.len() == 4 && "range"@.len() == 5);
    assert("description"@.len() == 11 && "authors"@.len() == 7 && "version"@.len() == 7);
    assert("revision"@.len() == 8 && "licenses"@.len() == 8 && "source"@.len() == 6);
    assert("homepage"@.len() == 8);
    assert("name"@[0] != "kind"@[0]);
    assert("authors"@[0] != "version"@[0]);
    assert("licenses"@[0] != "revision"@[0]);
    assert("licenses"@[0] != "homepage"@[0]);
    assert("revision"@[0] != "homepage"@[0]);
}

/// An annotation with another key holds no row keyed `key`.
proof fn lemma_other_annotation(k: Seq<char>, value: Option<String>, key: Seq<char>)
    requires
        k != key,
    ensures
        first_value(annotation_rows(k, value), key) is None,
{
    match value {
        Some(v) => {
            let r = annotation_rows(k, value);
            assert(r[0] == pair(k, v@));
            assert(pair(k, v@)[0] == k);
            assert(r.drop_first() =~= Seq::<Seq<Seq<char>>>::empty());
            assert(first_value(r.drop_first(), key) is None);
        },
        None => {},
    }
}

/// An annotation that is present holds its value under its key.
proof fn lemma_own_annotation(k: Seq<char>, value: Option<String>)
    ensures
        value matches Some(v) ==> first_value(annotation_rows(k, value), k) == Some(v@),
{
    if let Some(v) = value {
        let r = annotation_rows(k, value);
        assert(r[0] == pair(k, v@));
        assert(pair(k, v@)[0] == k && pair(k, v@)[1] == v@ && pair(k, v@).len() == 2);
    }
}

/// The name, kind and range rows hold no row keyed `key`.
proof fn lemma_head_none(x: Seq<char>, y: Seq<char>, z: Seq<char>, key: Seq<char>)
    requires
        "name"@ != key,
        "kind"@ != key,
        "range"@ != key,
    ensures
        first_value(seq![pair("name"@, x), pair("kind"@, y), pair("range"@, z)], key) is None,
{
    let h = seq![pair("name"@, x), pair("kind"@, y), pair("range"@, z)];
    assert(h[0] == pair("name"@, x) && pair("name"@, x)[0] == "name"@);
    assert(h.drop_first() =~= seq![pair("kind"@, y), pair("range"@, z)]);
    assert(h.drop_first()[0] == pair("kind"@, y) && pair("kind"@, y)[0] == "kind"@);
    assert(h.drop_first().drop_first() =~= seq![pair("range"@, z)]);
    assert(h.drop_first().drop_first()[0] == pair("range"@, z) && pair("range"@, z)[0] == "range"@);
    assert(h.drop_first().drop_first().drop_first() =~= Seq::<Seq<Seq<char>>>::empty());
    assert(first_value(h.drop_first().drop_first().drop_first(), key) is None);
    assert(first_value(h.drop_first().drop_first(), key) is None);
    assert(first_value(h.drop_first(), key) is None);
}

/// Each annotation row carries its own field: the first details row keyed
/// `description`, `authors`, `version`, `revision`, `licenses`, `source`
/// or `homepage` holds that metadata field's text, whenever the field is
/// present.
pub proof fn law_annotation_rows_carry_their_fields(p: Payload)
    ensures
        meta(p).description matches Some(v) ==> first_value(detail_rows(p), "description"@) == Some(v@),
        meta(p).authors matches Some(v) ==> first_value(detail_rows(p), "authors"@) == Some(v@),
        meta(p).version matches Some(v) ==> first_value(detail_rows(p), "version"@) == Some(v@),
        meta(p).revision matches Some(v) ==> first_value(detail_rows(p), "revision"@) == Some(v@),
        meta(p).licenses matches Some(v) ==> first_value(detail_rows(p), "licenses"@) == Some(v@),
        meta(p).source matches Some(v) ==> first_value(detail_rows(p), "source"@) == Some(v@),
        meta(p).homepage matches Some(v) ==> first_value(detail_rows(p), "homepage"@) == Some(v@),
{
    lemma_detail_keys_distinct();
    let m = meta(p);
    let x = name_or_unknown(m);
    let y = kind_name(p);
    let z = "0x"@ + hex(m.range.start as nat) + "..0x"@ + hex(m.range.end as nat);
    let p0 = seq![pair("name"@, x), pair("kind"@, y), pair("range"@, z)];
    let a0 = annotation_rows("description"@, m.description);
    let p1 = p0 + a0;
    let a1 = annotation_rows("authors"@, m.authors);
    let p2 = p1 + a1;
    let a2 = annotation_rows("version"@, m.version);
    let p3 = p2 + a2;
    let a3 = annotation_rows("revision"@, m.revision);
    let p4 = p3 + a3;
    let a4 = annotation_rows("licenses"@, m.licenses);
    let p5 = p4 + a4;
    let a5 = annotation_rows("source"@, m.source);
    let p6 = p5 + a5;
    let a6 = annotation_rows("homepage"@, m.homepage);
    let p7 = p6 + a6;
    let pr = producer_rows(m);
    let kd = kids(p).map_values(|c: Payload| pair("child"@, name_or_unknown(meta(c)) + " ["@ + kind_name(c) + "]"@));
    let ds = match m.dependencies {
        Some(ds) => ds@.map_values(
            |d: Dependency| pair("dependency"@, d.name@ + " ["@ + d.version@ + "]"@),
        ),
        None => Seq::empty(),
    };
    assert(detail_rows(p) == p7 + pr + kd + ds);
    if m.description is Some {
        let key = "description"@;
        lemma_head_none(x, y, z, key);
        lemma_first_value_concat(p0, a0, key);
        lemma_own_annotation(key, m.description);
        lemma_first_value_concat(p1, a1, key);
        lemma_first_value_concat(p2, a2, key);
        lemma_first_value_concat(p3, a3, key);
        lemma_first_value_concat(p4, a4, key);
        lemma_first_value_concat(p5, a5, key);
        lemma_first_value_concat(p6, a6, key);
        lemma_first_value_concat(p7, pr, key);
        lemma_first_value_concat(p7 + pr, kd, key);
        lemma_first_value_concat(p7 + pr + kd, ds, key);
    }
    if m.authors is Some {
        let key = "authors"@;
        lemma_head_none(x, y, z, key);
        lemma_first_value_concat(p0, a0, key);
        lemma_other_annotation("description"@, m.description, key);
        lemma_first_value_concat(p1, a1, key);
        lemma_own_annotation(key, m.authors);
        lemma_first_value_concat(p2, a2, key);
        lemma_first_value_concat(p3, a3, key);
        lemma_first_value_concat(p4, a4, key);
        lemma_first_value_concat(p5, a5, key);
        lemma_first_value_concat(p6, a6, key);
        lemma_first_value_concat(p7, pr, key);
        lemma_first_value_concat(p7 + pr, kd, key);
        lemma_first_value_concat(p7 + pr + kd, ds, key);
    }
    if m.version is Some {
        let key = "version"@;
        lemma_head_none(x, y, z, key);
        lemma_first_value_concat(p0, a0, key);
        lemma_other_annotation("description"@, m.description, key);
        lemma_first_value_concat(p1, a1, key);
        lemma_other_annotation("authors"@, m.authors, key);
        lemma_first_value_concat(p2, a2, key);
        lemma_own_annotation(key, m.version);
        lemma_first_value_concat(p3, a3, key);
        lemma_first_value_concat(p4, a4, key);
        lemma_first_value_concat(p5, a5, key);
        lemma_first_value_concat(p6, a6, key);
        lemma_first_value_concat(p7, pr, key);
        lemma_first_value_concat(p7 + pr, kd, key);
        lemma_first_value_concat(p7 + pr + kd, ds, key);
    }
    if m.revision is Some {
        let key = "revision"@;
        lemma_head_none(x, y, z, key);
        lemma_first_value_concat(p0, a0, key);
        lemma_other_annotation("description"@, m.description, key);
        lemma_first_value_concat(p1, a1, key);
        lemma_other_annotation("authors"@, m.authors, key);
        lemma_first_value_concat(p2, a2, key);
        lemma_other_annotation("version"@, m.version, key);
        lemma_first_value_concat(p3, a3, key);
        lemma_own_annotation(key, m.revision);
        lemma_first_value_concat(p4, a4, key);
        lemma_first_value_concat(p5, a5, key);
        lemma_first_value_concat(p6, a6, key);
        lemma_first_value_concat(p7, pr, key);
        lemma_first_value_concat(p7 + pr, kd, key);
        lemma_first_value_concat(p7 + pr + kd, ds, key);
    }
    if m.licenses is Some {
        let key = "licenses"@;
        lemma_head_none(x, y, z, key);
        lemma_first_value_concat(p0, a0, key);
        lemma_other_annotation("description"@, m.description, key);
        lemma_first_value_concat(p1, a1, key);
        lemma_other_annotation("authors"@, m.authors, key);
        lemma_first_value_concat(p2, a2, key);
        lemma_other_annotation("version"@, m.version, key);
        lemma_first_value_concat(p3, a3, key);
        lemma_other_annotation("revision"@, m.revision, key);
        lemma_first_value_concat(p4, a4, key);
        lemma_own_annotation(key, m.licenses);
        lemma_first_value_concat(p5, a5, key);
        lemma_first_value_concat(p6, a6, key);
        lemma_first_value_concat(p7, pr, key);
        lemma_first_value_concat(p7 + pr, kd, key);
        lemma_first_value_concat(p7 + pr + kd, ds, key);
    }
    if m.source is Some {
        let key = "source"@;
        lemma_head_none(x, y, z, key);
        lemma_first_value_concat(p0, a0, key);
        lemma_other_annotation("description"@, m.description, key);
        lemma_first_value_concat(p1, a1, key);
        lemma_other_annotation("authors"@, m.authors, key);
        lemma_first_value_concat(p2, a2, key);
        lemma_other_annotation("version"@, m.version, key);
        lemma_first_value_concat(p3, a3, key);
        lemma_other_annotation("revision"@, m.revision, key);
        lemma_first_value_concat(p4, a4, key);
        lemma_other_annotation("licenses"@, m.licenses, key);
        lemma_first_value_concat(p5, a5, key);
        lemma_own_annotation(key, m.source);
        lemma_first_value_concat(p6, a6, key);
        lemma_first_value_concat(p7, pr, key);
        lemma_first_value_concat(p7 + pr, kd, key);
        lemma_first_value_concat(p7 + pr + kd, ds, key);
    }
    if m.homepage is Some {
        let key = "homepage"@;
        lemma_head_none(x, y, z, key);
        lemma_first_value_concat(p0, a0, key);
        lemma_other_annotation("description"@, m.description, key);
        lemma_first_value_concat(p1, a1, key);
        lemma_other_annotation("authors"@, m.authors, key);
        lemma_first_value_concat(p2, a2, key);
        lemma_other_annotation("version"@, m.version, key);
        lemma_first_value_concat(p3, a3, key);
        lemma_other_annotation("revision"@, m.revision, key);
        lemma_first_value_concat(p4, a4, key);
        lemma_other_annotation("licenses"@, m.licenses, key);
        lemma_first_value_concat(p5, a5, key);
        lemma_other_annotation("source"@, m.source, key);
        lemma_first_value_concat(p6, a6, key);
        lemma_own_annotation(key, m.homepage);
        lemma_first_value_concat(p7, pr, key);
        lemma_first_value_concat(p7 + pr, kd, key);
        lemma_first_value_concat(p7 + pr + kd, ds, key);
    }
}

/// A row of two cells.
fn row2(key: &str, value: String) -> (r: Vec<String>)
    ensures
        r@.map_values(|c: String| c@) == pair(key@, value@),
{
    let r = vec![owned(key), value];
    assert(r@.map_values(|c: String| c@) =~= pair(key@, value@));
    r
}

/// Append `row` to `rows`.
fn push_row(rows: &mut Vec<Vec<String>>, row: Vec<String>)
    ensures
        rows_view(final(rows)@) == rows_view(old(rows)@).push(row@.map_values(|c: String| c@)),
{
    rows.push(row);
    assert(rows_view(rows@) =~= rows_view(old(rows)@).push(row@.map_values(|c: String| c@)));
}

/// Append the row of an annotation, if it is present.
fn push_annotation(rows: &mut Vec<Vec<String>>, key: &str, value: &Option<String>)
    ensures
        rows_view(final(rows)@) == rows_view(old(rows)@) + annotation_rows(key@, *value),
{
    match value {
        Some(v) => {
            push_row(rows, row2(key, v.clone()));
            assert(rows_view(old(rows)@).push(pair(key@, v@)) == rows_view(old(rows)@)
                + annotation_rows(key@, *value));
        },
        None => {
            assert(rows_view(old(rows)@) + annotation_rows(key@, *value) == rows_view(old(rows)@));
        },
    }
}

/// The rows of one producers entry.
fn push_entry_rows(rows: &mut Vec<Vec<String>>, entry: &Producer)
    ensures
        rows_view(final(rows)@) == rows_view(old(rows)@) + entry_rows(*entry),
{
    let mut i: usize = 0;
    while i < entry.fields.len()
        invariant
            i <= entry.fields.len(),
            rows_view(rows@) == rows_view(old(rows)@) + entry_rows(*entry).take(i as int),
        decreases entry.fields.len() - i,
    {
        let f = &entry.fields[i];
        let text = if f.version.as_str().is_empty() {
            f.name.clone()
        } else {
            let mut t = f.name.clone();
            push_str(&mut t, " [");
            push_str(&mut t, f.version.as_str());
            push_str(&mut t, "]");
            t
        };
        assert(text@ == field_text(*f));
        push_row(rows, row2(entry.name.as_str(), text));
        assert(entry_rows(*entry).take(i + 1) == entry_rows(*entry).take(i as int).push(
            pair(entry.name@, field_text(*f)),
        ));
        i = i + 1;
    }
    assert(entry_rows(*entry).take(i as int) == entry_rows(*entry));
}

/// The rows of the details table of `payload`.
#[verifier::spinoff_prover]
#[verifier::rlimit(40)]
pub fn details_rows(payload: &Payload) -> (rows: Vec<Vec<String>>)
    ensures
        rows_view(rows@) == detail_rows(*payload),
{
    proof {
        broadcast use vstd::string::group_string_axioms;
    }
    let m = metadata(payload);
    let mut rows: Vec<Vec<String>> = Vec::new();
    let name = match &m.name {
        Some(n) => n.clone(),
        None => owned("<unknown>"),
    };
    push_row(&mut rows, row2("name", name));
    let kind = match payload {
        Payload::Component { .. } => owned("component"),
        Payload::Module(_) => owned("module"),
    };
    push_row(&mut rows, row2("kind", kind));
    let mut range = owned("0x");
    let start = to_hex(m.range.start);
    push_str(&mut range, start.as_str());
    push_str(&mut range, "..0x");
    let end = to_hex(m.range.end);
    push_str(&mut range, end.as_str());
    push_row(&mut rows, row2("range", range));
    let ghost head = rows_view(rows@);
    push_annotation(&mut rows, "description", &m.description);
    push_annotation(&mut rows, "authors", &m.authors);
    push_annotation(&mut rows, "version", &m.version);
    push_annotation(&mut rows, "revision", &m.revision);
    push_annotation(&mut rows, "licenses", &m.licenses);
    push_annotation(&mut rows, "source", &m.source);
    push_annotation(&mut rows, "homepage", &m.homepage);
    let ghost annotated = rows_view(rows@);
    if let Some(ps) = &m.producers {
        let order = sorted_producers(ps);
        let mut k: usize = 0;
        while k < order.len()
            invariant
                k <= order.len(),
                order@ == listing_order(ps@),
                producer_order(ps@, order@),
                rows_view(rows@) == annotated + ordered_rows(ps@, order@.take(k as int)),
            decreases order.len() - k,
        {
            push_entry_rows(&mut rows, &ps[order[k]]);
            assert(order@.take(k + 1).drop_last() == order@.take(k as int));
            k = k + 1;
        }
        assert(order@.take(k as int) == order@);
    }
    let ghost produced = rows_view(rows@);
    assert(produced == annotated + producer_rows(*m));
    if let Payload::Component { children, .. } = payload {
        let mut i: usize = 0;
        while i < children.len()
            invariant
                i <= children.len(),
                rows_view(rows@) == produced + children@.take(i as int).map_values(
                    |c: Payload| pair("child"@, name_or_unknown(meta(c)) + " ["@ + kind_name(c) + "]"@),
                ),
            decreases children.len() - i,
        {
            let cm = metadata(&children[i]);
            let mut text = match &cm.name {
                Some(n) => n.clone(),
                None => owned("<unknown>"),
            };
            push_str(&mut text, " [");
            match &children[i] {
                Payload::Component { .. } => push_str(&mut text, "component"),
                Payload::Module(_) => push_str(&mut text, "module"),
            }
            push_str(&mut text, "]");
            push_row(&mut rows, row2("child", text));
            assert(children@.take(i + 1) == children@.take(i as int).push(children@[i as int]));
            i = i + 1;
        }
        assert(children@.take(i as int) == children@);
    } else {
        assert(produced + kids(*payload).map_values(
            |c: Payload| pair("child"@, name_or_unknown(meta(c)) + " ["@ + kind_name(c) + "]"@),
        ) == produced);
    }
    let ghost childed = rows_view(rows@);
    if let Some(ds) = &m.dependencies {
        let mut i: usize = 0;
        while i < ds.len()
            invariant
                i <= ds.len(),
                rows_view(rows@) == childed + ds@.take(i as int).map_values(
                    |d: Dependency| pair("dependency"@, d.name@ + " ["@ + d.version@ + "]"@),
                ),
            decreases ds.len() - i,
        {
            let mut text = ds[i].name.clone();
            push_str(&mut text, " [");
            push_str(&mut text, ds[i].version.as_str());
            push_str(&mut text, "]");
            push_row(&mut rows, row2("dependency", text));
            assert(ds@.take(i + 1) == ds@.take(i as int).push(ds@[i as int]));
            i = i + 1;
        }
        assert(ds@.take(i as int) == ds@);
    }
    rows
}

/// The text of a table drawn by `comfy-table` with rounded UTF-8 borders,
/// dynamic arrangement at a width of 80 columns, the header `header`, the
/// rows `rows` and the columns `right_aligned` aligned right.
pub uninterp spec fn table_text(
    header: Seq<Seq<char>>,
    rows: Seq<Seq<Seq<char>>>,
    right_aligned: Seq<usize>,
) -> Seq<char>;

/// Draw a table with `comfy-table` (`Table::to_string`).
///
/// The text is named by `table_text`: with the width fixed and no styled
/// cell, the crate's source draws it from the arguments alone.
#[verifier::external_body]
fn render_table(header: &Vec<String>, rows: &Vec<Vec<String>>, right_aligned: &Vec<usize>) -> (s: String)
    requires
        forall|k: int| 0 <= k < right_aligned.len() ==> right_aligned[k] < header.len(),
    ensures
        s@ == table_text(header@.map_values(|h: String| h@), rows_view(rows@), right_aligned@),
{
    let mut table = Table::new();
    table.load_preset(UTF8_FULL).apply_modifier(UTF8_ROUND_CORNERS);
    table.set_content_arrangement(ContentArrangement::Dynamic).set_width(80);
    table.set_header(header.clone());
    for column in right_aligned {
        table.column_mut(*column).expect("a header cell").set_cell_alignment(CellAlignment::Right);
    }
    for row in rows {
        table.add_row(row.clone());
    }
    table.to_string()
}

/// The header of the summary table.
pub open spec fn summary_header() -> Seq<Seq<char>> {
    seq!["KIND"@, "NAME"@, "SIZE"@, "SIZE%"@, "LANGUAGES"@, "PARENT"@]
}

/// The header of the details table.
pub open spec fn details_header() -> Seq<Seq<char>> {
    seq!["KIND"@, "VALUE"@]
}

/// The summary table of `p`, with its line break.
pub open spec fn summary_text(p: Payload) -> Seq<char> {
    table_text(summary_header(), summary(p, "<root>"@, 0, tree_max(p, 0)).0, seq![2usize, 3usize])
        + "\n"@
}

/// The details tables of `p` and everything nested in it, in pre-order,
/// each with its line break.
pub open spec fn details_text(p: Payload) -> Seq<char>
    decreases p, 1nat, 0nat,
{
    table_text(details_header(), detail_rows(p), Seq::empty()) + "\n"@ + kids_details_text(p, 0)
}

/// `details_text` of the payloads nested in `p` from index `i` on.
pub open spec fn kids_details_text(p: Payload, i: nat) -> Seq<char>
    decreases p, 0nat, kids(p).len() - i,
{
    match p {
        Payload::Component { children, .. } => {
            if i < children.len() {
                details_text(children[i as int]) + kids_details_text(p, i + 1)
            } else {
                Seq::empty()
            }
        },
        Payload::Module(_) => Seq::empty(),
    }
}

/// The cells of a header.
fn header_of(cells: &Vec<&str>) -> (h: Vec<String>)
    ensures
        h@.map_values(|c: String| c@) == cells@.map_values(|c: &str| c@),
{
    let mut h: Vec<String> = Vec::new();
    let mut i: usize = 0;
    while i < cells.len()
        invariant
            i <= cells.len(),
            h@.map_values(|c: String| c@) == cells@.take(i as int).map_values(|c: &str| c@),
        decreases cells.len() - i,
    {
        let ghost hv = h@;
        let cell = owned(cells[i]);
        let ghost cv = cell@;
        h.push(cell);
        assert(h@.map_values(|c: String| c@) =~= hv.map_values(|c: String| c@).push(cv));
        assert(cells@.take(i + 1) == cells@.take(i as int).push(cells@[i as int]));
        assert(cells@.take(i + 1).map_values(|c: &str| c@) =~= cells@.take(i as int).map_values(|c: &str| c@).push(cv));
        i = i + 1;
    }
    assert(cells@.take(i as int) == cells@);
    h
}

/// Append the summary table of `payload`: one row per payload, in
/// pre-order, with its kind, name, size, share of the binary, languages
/// and parent.
pub fn write_summary_table(payload: &Payload, out: &mut String)
    requires
        ranges_ok(*payload),
        unnamed(*payload) <= u16::MAX,
    ensures
        final(out)@ == old(out)@ + summary_text(*payload),
{
    proof {
        law_unknown_numbers_count_unnamed(*payload, "<root>"@, 0, tree_max(*payload, 0));
    }
    let cells = vec!["KIND", "NAME", "SIZE", "SIZE%", "LANGUAGES", "PARENT"];
    let header = header_of(&cells);
    assert(cells@.map_values(|c: &str| c@) =~= summary_header());
    let mut range_max: usize = 0;
    find_range_max(&mut range_max, payload);
    let mut rows: Vec<Vec<String>> = Vec::new();
    let mut unknown_id: u16 = 0;
    write_summary_table_inner(payload, "<root>", &mut unknown_id, range_max, &mut rows);
    assert(rows_view(Seq::<Vec<String>>::empty()) =~= Seq::empty());
    let right = vec![2usize, 3usize];
    let text = render_table(&header, &rows, &right);
    push_str(out, text.as_str());
    push_str(out, "\n");
}

/// Append the details table of `payload`, then those of the payloads
/// nested in it, in pre-order.
pub fn write_details_table(payload: &Payload, out: &mut String)
    ensures
        final(out)@ == old(out)@ + details_text(*payload),
    decreases payload, 1nat, 0nat,
{
    let cells = vec!["KIND", "VALUE"];
    let header = header_of(&cells);
    assert(cells@.map_values(|c: &str| c@) =~= details_header());
    let rows = details_rows(payload);
    let right: Vec<usize> = Vec::new();
    let text = render_table(&header, &rows, &right);
    push_str(out, text.as_str());
    push_str(out, "\n");
    let ghost start = out@;
    if let Payload::Component { children, .. } = payload {
        let mut i: usize = 0;
        while i < children.len()
            invariant
                i <= children.len(),
                kids(*payload) == children@,
                start + kids_details_text(*payload, 0) == out@ + kids_details_text(*payload, i as nat),
            decreases children.len() - i,
        {
            let ghost before = out@;
            write_details_table(&children[i], out);
            assert(before + (details_text(children@[i as int]) + kids_details_text(*payload, (i + 1) as nat))
                == out@ + kids_details_text(*payload, (i + 1) as nat));
            i = i + 1;
        }
        assert(out@ + kids_details_text(*payload, i as nat) == out@);
    } else {
        assert(start + kids_details_text(*payload, 0) == start);
    }
}

/// The number of payloads in `p`, itself included.
pub open spec fn payload_count(p: Payload) -> nat
    decreases p, 1nat, 0nat,
{
    1 + kids_count(p, 0)
}

/// `payload_count` over the payloads nested in `p` from index `i` on.
pub open spec fn kids_count(p: Payload, i: nat) -> nat
    decreases p, 0nat, kids(p).len() - i,
{
    match p {
        Payload::Component { children, .. } => {
            if i < children.len() {
                payload_count(children[i as int]) + kids_count(p, i + 1)
            } else {
                0
            }
        },
        Payload::Module(_) => 0,
    }
}

/// The summary table has one row per payload, nested ones included.
pub proof fn law_one_summary_row_per_payload(p: Payload, parent: Seq<char>, id: nat, max: nat)
    ensures
        summary(p, parent, id, max).0.len() == payload_count(p),
    decreases p, 1nat, 0nat,
{
    lemma_kids_rows_counted(p, 0, shown_name(meta(p), id), next_id(meta(p), id), max);
}

proof fn lemma_kids_rows_counted(p: Payload, i: nat, parent: Seq<char>, id: nat, max: nat)
    ensures
        kids_summary(p, i, parent, id, max).0.len() == kids_count(p, i),
    decreases p, 0nat, kids(p).len() - i,
{
    match p {
        Payload::Component { children, .. } => {
            if i < children.len() {
                law_one_summary_row_per_payload(children[i as int], parent, id, max);
                let first = summary(children[i as int], parent, id, max);
                lemma_kids_rows_counted(p, i + 1, parent, first.1, max);
            }
        },
        Payload::Module(_) => {},
    }
}

/// Whichever order lists the producers entries, an entry named `language`
/// comes first.
pub proof fn law_language_listed_first(ps: Seq<Producer>, order: Seq<usize>, x: usize)
    requires
        producer_order(ps, order),
        x < ps.len(),
        ps[x as int].name@ == "language"@,
    ensures
        ps[order[0] as int].name@ == "language"@,
{
    assert(order.contains(x));
    let l = choose|l: int| 0 <= l < order.len() && order[l] == x;
    if l > 0 {
        assert(precedes(ps, order[0], order[l]));
    }
}

/// The number of payloads without a name in `p` and everything nested
/// in it.
pub open spec fn unnamed(p: Payload) -> nat
    decreases p, 1nat, 0nat,
{
    (if meta(p).name is None {
        1nat
    } else {
        0nat
    }) + kids_unnamed(p, 0)
}

/// `unnamed` over the payloads nested in `p` from index `i` on.
pub open spec fn kids_unnamed(p: Payload, i: nat) -> nat
    decreases p, 0nat, kids(p).len() - i,
{
    match p {
        Payload::Component { children, .. } => {
            if i < children.len() {
                unnamed(children[i as int]) + kids_unnamed(p, i + 1)
            } else {
                0
            }
        },
        Payload::Module(_) => 0,
    }
}

/// Each unnamed payload takes the next number: the summary hands out as
/// many numbers as there are unnamed payloads.
pub proof fn law_unknown_numbers_count_unnamed(p: Payload, parent: Seq<char>, id: nat, max: nat)
    ensures
        summary(p, parent, id, max).1 == id + unnamed(p),
    decreases p, 1nat, 0nat,
{
    lemma_kids_numbers(p, 0, shown_name(meta(p), id), next_id(meta(p), id), max);
}

proof fn lemma_kids_numbers(p: Payload, i: nat, parent: Seq<char>, id: nat, max: nat)
    ensures
        kids_summary(p, i, parent, id, max).1 == id + kids_unnamed(p, i),
    decreases p, 0nat, kids(p).len() - i,
{
    match p {
        Payload::Component { children, .. } => {
            if i < children.len() {
                law_unknown_numbers_count_unnamed(children[i as int], parent, id, max);
                let first = summary(children[i as int], parent, id, max);
                lemma_kids_numbers(p, i + 1, parent, first.1, max);
            }
        },
        Payload::Module(_) => {},
    }
}

/// The smaller of `a` and `b`.
pub open spec fn min_nat(a: nat, b: nat) -> nat {
    if a < b {
        a
    } else {
        b
    }
}

/// The number of unnamed payloads in `payload`, counted up to `cap + 1`.
fn unnamed_capped(payload: &Payload, cap: u32) -> (n: u32)
    requires
        cap < u32::MAX,
    ensures
        n == min_nat(unnamed(*payload), cap as nat + 1),
    decreases payload, 1nat, 0nat,
{
    let mut n: u32 = if metadata(payload).name.is_none() {
        1
    } else {
        0
    };
    if let Payload::Component { children, .. } = payload {
        let mut i: usize = 0;
        while i < children.len()
            invariant
                i <= children.len(),
                cap < u32::MAX,
                kids(*payload) == children@,
                min_nat(unnamed(*payload), cap as nat + 1) == min_nat(n as nat + kids_unnamed(*payload, i as nat), cap as nat + 1),
                n <= cap + 1,
            decreases children.len() - i,
        {
            let c = unnamed_capped(&children[i], cap);
            n = if n as u64 + c as u64 > cap as u64 + 1 {
                cap + 1
            } else {
                n + c
            };
            i = i + 1;
        }
    }
    n
}

/// Whether the unnamed payloads of `payload` can all be numbered within
/// `u16`: there are at most 65535 of them.
pub fn numbering_fits(payload: &Payload) -> (r: bool)
    ensures
        r == (unnamed(*payload) <= u16::MAX),
{
    unnamed_capped(payload, 65535) <= 65535
}

/// Whether every byte range in `payload` and everything nested in it
/// starts no later than it ends.
pub fn ranges_are_ordered(payload: &Payload) -> (r: bool)
    ensures
        r == ranges_ok(*payload),
    decreases payload, 1nat, 0nat,
{
    let m = metadata(payload);
    if m.range.start > m.range.end {
        return false;
    }
    if let Payload::Component { children, .. } = payload {
        let mut i: usize = 0;
        while i < children.len()
            invariant
                i <= children.len(),
                kids(*payload) == children@,
                meta(*payload).range.start <= meta(*payload).range.end,
                ranges_ok(*payload) == kids_ranges_ok(*payload, i as nat),
            decreases children.len() - i,
        {
            if !ranges_are_ordered(&children[i]) {
                return false;
            }
            i = i + 1;
        }
    }
    true
}

/// A parsed WebAssembly payload tree, as `wasm-metadata` returns it.
#[verifier::external_type_specification]
#[verifier::external_body]
pub struct ExWasmPayload(WasmPayload);

/// The metadata of one parsed payload, as `wasm-metadata` returns it.
#[verifier::external_type_specification]
#[verifier::external_body]
pub struct ExWasmMetadata(WasmMetadata);

/// A parsed producers section.
#[verifier::external_type_specification]
#[verifier::external_body]
pub struct ExWasmProducers(wasm_metadata::Producers);

/// A parsed dependencies section.
#[verifier::external_type_specification]
#[verifier::external_body]
pub struct ExWasmDependencies(wasm_metadata::Dependencies);

/// The payload tree `wasm_metadata::Payload::from_binary` reads from
/// `bytes`, in this library's model; none when it refuses them.
pub uninterp spec fn parsed_payload(bytes: Seq<u8>) -> Option<Payload>;

/// The message of the error `wasm_metadata::Payload::from_binary` refuses
/// `bytes` with, in `anyhow`'s alternate form (the error and its causes).
pub uninterp spec fn payload_error(bytes: Seq<u8>) -> Seq<char>;

/// `wasm_metadata::Payload::from_binary(bytes)`, converted to this
/// library's model.
///
/// Named by `parsed_payload` and `payload_error`: the crate's source reads
/// the payload tree from the bytes alone. The conversion keeps the tree's
/// shape and copies each field: names as they are, annotations as the
/// text they display as, byte ranges as `usize` (they lie inside `bytes`,
/// so they fit), producers in the order the section lists them, and each
/// dependency's name and version text.
#[verifier::external_body]
pub(crate) fn parse_payload(bytes: &[u8]) -> (r: Result<Payload, String>)
    ensures
        match r {
            Ok(p) => parsed_payload(bytes@) == Some(p),
            Err(e) => parsed_payload(bytes@) is None && e@ == payload_error(bytes@),
        },
{
    match WasmPayload::from_binary(bytes) {
        Ok(p) => Ok(payload_from(&p)),
        Err(e) => Err(format!("{e:#}")),
    }
}

/// The conversion of one parsed payload and those nested in it, for
/// `parse_payload`.
#[verifier::external_body]
fn payload_from(p: &WasmPayload) -> Payload {
    match p {
        WasmPayload::Component { metadata, children } => Payload::Component {
            metadata: metadata_from(metadata),
            children: children.iter().map(payload_from).collect(),
        },
        WasmPayload::Module(metadata) => Payload::Module(metadata_from(metadata)),
    }
}

/// The conversion of one payload's metadata, for `parse_payload`.
#[verifier::external_body]
fn metadata_from(m: &WasmMetadata) -> Metadata {
    Metadata {
        name: m.name.clone(),
        authors: m.authors.as_ref().map(ToString::to_string),
        description: m.description.as_ref().map(ToString::to_string),
        producers: m.producers.as_ref().map(producers_from),
        licenses: m.licenses.as_ref().map(ToString::to_string),
        source: m.source.as_ref().map(ToString::to_string),
        homepage: m.homepage.as_ref().map(ToString::to_string),
        range: ByteRange { start: m.range.start as usize, end: m.range.end as usize },
        revision: m.revision.as_ref().map(ToString::to_string),
        version: m.version.as_ref().map(ToString::to_string),
        dependencies: m.dependencies.as_ref().map(dependencies_from),
    }
}

/// The conversion of a producers section, in its order, for
/// `parse_payload`.
#[verifier::external_body]
fn producers_from(p: &wasm_metadata::Producers) -> Vec<Producer> {
    p.iter()
        .map(|(name, field)| Producer {
            name: name.clone(),
            fields: field.iter().map(|(n, v)| ProducerField { name: n.clone(), version: v.clone() }).collect(),
        })
        .collect()
}

/// The conversion of a dependencies section, for `parse_payload`.
#[verifier::external_body]
fn dependencies_from(d: &wasm_metadata::Dependencies) -> Vec<Dependency> {
    d.version_info()
        .packages
        .iter()
        .map(|p| Dependency { name: p.name.clone(), version: p.version.to_string() })
        .collect()
}

/// The summary table of `payload` followed by its details tables.
pub fn tables_text(payload: &Payload) -> (t: String)
    requires
        ranges_ok(*payload),
        unnamed(*payload) <= u16::MAX,
    ensures
        t@ == summary_text(*payload) + details_text(*payload),
{
    let mut out = String::new();
    write_summary_table(payload, &mut out);
    write_details_table(payload, &mut out);
    out
}

/// What `component registry inspect` prints for the Wasm binary `bytes`:
/// the summary table followed by the details tables of the payload tree it
/// parses to; the parser's message when it refuses the bytes; none when the
/// tree cannot be tabulated (a payload whose range ends before it starts,
/// or more unnamed payloads than `u16` numbers).
pub fn inspect_text(bytes: &[u8]) -> (r: Result<Option<String>, String>)
    ensures
        match r {
            Err(e) => parsed_payload(bytes@) is None && e@ == payload_error(bytes@),
            Ok(None) => parsed_payload(bytes@) matches Some(p) && !(ranges_ok(p) && unnamed(p)
                <= u16::MAX),
            Ok(Some(t)) => parsed_payload(bytes@) matches Some(p) && ranges_ok(p) && unnamed(p)
                <= u16::MAX && t@ == summary_text(p) + details_text(p),
        },
{
    match parse_payload(bytes) {
        Ok(p) => {
            if ranges_are_ordered(&p) && numbering_fits(&p) {
                Ok(Some(tables_text(&p)))
            } else {
                Ok(None)
            }
        },
        Err(e) => Err(e),
    }
}

} // verus!
