//! Landing-page search examples.
//!
//! Each example row beneath the landing search card either runs a search
//! (`/search?q=…`) or links straight to a page; a row can be struck out to
//! mark an example that does not work yet.
use vstd::prelude::*;

use crate::publish::hex_digit;
use crate::text::{decimal, owned, push_char, push_str, to_decimal};

verus! {

/// A single example row shown beneath the landing search card.
pub struct Example<'a> {
    /// Search query used to build the default `/search?q=…` link.
    pub query: &'a str,
    /// Human-readable description shown after the "Example:" label.
    pub description: &'a str,
    /// Explicit link target; overrides the derived search URL when set.
    pub href: Option<&'a str>,
    /// Cross the row out to signal the example is not working yet.
    pub struck: bool,
}

impl<'a> Example<'a> {
    /// An example row that runs a search for `query`.
    pub fn search(query: &'a str, description: &'a str) -> (e: Self)
        ensures
            e.query == query,
            e.description == description,
            e.href is None,
            !e.struck,
    {
        Example { query, description, href: None, struck: false }
    }

    /// An example row that links directly to `href` (e.g. a namespace page).
    pub fn link(href: &'a str, description: &'a str) -> (e: Self)
        ensures
            e.query@ == ""@,
            e.description == description,
            e.href == Some(href),
            !e.struck,
    {
        Example { query: "", description, href: Some(href), struck: false }
    }

    /// Cross the row out and dim it, signalling the example is not working
    /// yet. Typically paired with a dead (`#`) link.
    pub fn struck(self) -> (e: Self)
        ensures
            e.query == self.query,
            e.description == self.description,
            e.href == self.href,
            e.struck,
    {
        Example { query: self.query, description: self.description, href: self.href, struck: true }
    }
}

/// A byte that a `q=` parameter keeps as it is.
pub open spec fn is_query_safe(b: u8) -> bool {
    (0x41 <= b <= 0x5a) || (0x61 <= b <= 0x7a) || (0x30 <= b <= 0x39) || b == 0x2d || b == 0x5f
        || b == 0x2e || b == 0x7e
}

/// One byte of a query: kept, `+` for a space, or `%XX`.
pub open spec fn encode_query_byte(b: u8) -> Seq<char> {
    if is_query_safe(b) {
        seq![b as char]
    } else if b == 0x20 {
        seq!['+']
    } else {
        seq!['%', hex_digit(b / 16), hex_digit(b % 16)]
    }
}

/// The encoding of a query, byte by byte.
pub open spec fn query_encoded(bytes: Seq<u8>) -> Seq<char>
    decreases bytes.len(),
{
    if bytes.len() == 0 {
        Seq::empty()
    } else {
        query_encoded(bytes.drop_last()) + encode_query_byte(bytes.last())
    }
}

fn hex(n: u8) -> (c: char)
    requires
        n < 16,
    ensures
        c == hex_digit(n),
{
    if n < 10 {
        (0x30u8 + n) as char
    } else {
        (0x41u8 + n - 10) as char
    }
}

/// Minimal percent-encoding for an example query placed in a `q=`
/// parameter: unreserved bytes pass, a space becomes `+`, every other
/// UTF-8 byte becomes `%XX`.
pub fn encode_query(q: &str) -> (out: String)
    ensures
        out@ == query_encoded(vstd::utf8::encode_utf8(q@)),
{
    let bytes = q.as_bytes();
    let mut out = String::new();
    for i in 0..bytes.len()
        invariant
            bytes@ == vstd::utf8::encode_utf8(q@),
            out@ == query_encoded(bytes@.take(i as int)),
    {
        let b = bytes[i];
        assert(bytes@.take(i + 1).drop_last() == bytes@.take(i as int));
        if (0x41 <= b && b <= 0x5a) || (0x61 <= b && b <= 0x7a) || (0x30 <= b && b <= 0x39) || b
            == 0x2d || b == 0x5f || b == 0x2e || b == 0x7e {
            push_char(&mut out, b as char);
        } else if b == 0x20 {
            push_char(&mut out, '+');
        } else {
            push_char(&mut out, '%');
            push_char(&mut out, hex(b / 16));
            push_char(&mut out, hex(b % 16));
        }
    }
    assert(bytes@.take(bytes.len() as int) == bytes@);
    out
}

/// The link target of an example row.
pub open spec fn spec_example_href(example: Example) -> Seq<char> {
    match example.href {
        Some(href) => href@,
        None => "/search?q="@ + query_encoded(vstd::utf8::encode_utf8(example.query@)),
    }
}

/// Resolve the link target for an example row: an explicit `href` when set,
/// otherwise a `/search?q=…` link derived from the query.
pub fn example_href(example: &Example<'_>) -> (out: String)
    ensures
        out@ == spec_example_href(*example),
{
    match example.href {
        Some(href) => owned(href),
        None => {
            let mut out = owned("/search?q=");
            push_str(&mut out, encode_query(example.query).as_str());
            out
        },
    }
}

/// Pre-formatted registry counts shown on the landing search card.
pub struct LandingStats<'a> {
    /// Total indexed packages (already thousands-formatted).
    pub packages: &'a str,
    /// Distinct namespaces (already thousands-formatted).
    pub namespaces: &'a str,
    /// Total release versions (already thousands-formatted).
    pub versions: &'a str,
}

/// The placeholder of the landing search input.
pub fn landing_placeholder(stats: &LandingStats) -> (s: String)
    ensures
        s@ == "Search "@ + stats.packages@ + " packages\u{2026}"@,
{
    let mut s = owned("Search ");
    push_str(&mut s, stats.packages);
    push_str(&mut s, " packages\u{2026}");
    s
}

/// The label of the landing card's "browse all" link.
pub fn browse_label(stats: &LandingStats) -> (s: String)
    ensures
        s@ == "Browse "@ + stats.packages@ + " packages \u{00b7} "@ + stats.namespaces@
            + " namespaces \u{00b7} "@ + stats.versions@ + " versions"@,
{
    let mut s = owned("Browse ");
    push_str(&mut s, stats.packages);
    push_str(&mut s, " packages \u{00b7} ");
    push_str(&mut s, stats.namespaces);
    push_str(&mut s, " namespaces \u{00b7} ");
    push_str(&mut s, stats.versions);
    push_str(&mut s, " versions");
    s
}

/// The classes of a struck-out example's text.
pub const STRUCK_TEXT_CLASS: &'static str = "text-ink-500 line-through decoration-1";

/// The classes of a working example's text.
pub const TEXT_CLASS: &'static str = "text-ink-700 group-hover:text-ink-900";

/// The classes of a working example's description.
pub const DESC_HOVER_CLASS: &'static str = "group-hover:underline";

/// One example row as the landing card shows it.
pub struct ExampleRow {
    /// The row's number, two digits at least (`01`).
    pub number: String,
    pub href: String,
    pub description: String,
    /// Dimmed and crossed out when struck, emphasised on hover otherwise.
    pub text_class: &'static str,
    /// Underlined on hover unless struck.
    pub desc_class: &'static str,
}

/// A number with at least two digits (`{:02}`).
pub open spec fn two_digits(n: nat) -> Seq<char> {
    if n < 10 {
        "0"@ + decimal(n)
    } else {
        decimal(n)
    }
}

/// The row the landing card shows for the `k`-th example (from zero).
pub open spec fn example_row_ok(row: ExampleRow, example: Example, k: nat) -> bool {
    &&& row.number@ == two_digits(k + 1)
    &&& row.href@ == spec_example_href(example)
    &&& row.description@ == example.description@
    &&& row.text_class@ == if example.struck {
        STRUCK_TEXT_CLASS@
    } else {
        TEXT_CLASS@
    }
    &&& row.desc_class@ == if example.struck {
        ""@
    } else {
        DESC_HOVER_CLASS@
    }
}

/// The rows of the examples beneath the landing card, numbered from `01`.
pub fn example_rows(examples: &Vec<Example>) -> (rows: Vec<ExampleRow>)
    requires
        examples.len() < u64::MAX,
    ensures
        rows.len() == examples.len(),
        forall|k: int| 0 <= k < rows.len() ==> example_row_ok(#[trigger] rows@[k], examples@[k], k as nat),
{
    let mut rows: Vec<ExampleRow> = Vec::new();
    let mut i: usize = 0;
    while i < examples.len()
        invariant
            i <= examples.len(),
            examples.len() < u64::MAX,
            rows.len() == i,
            forall|k: int| 0 <= k < i ==> example_row_ok(#[trigger] rows@[k], examples@[k], k as nat),
        decreases examples.len() - i,
    {
        let ex = &examples[i];
        let n = (i as u64) + 1;
        let number = if n < 10 {
            let mut t = owned("0");
            let d = to_decimal(n);
            push_str(&mut t, d.as_str());
            t
        } else {
            to_decimal(n)
        };
        let row = ExampleRow {
            number,
            href: example_href(ex),
            description: owned(ex.description),
            text_class: if ex.struck {
                STRUCK_TEXT_CLASS
            } else {
                TEXT_CLASS
            },
            desc_class: if ex.struck {
                proof {
                    reveal_strlit("");
                }
                ""
            } else {
                DESC_HOVER_CLASS
            },
        };
        rows.push(row);
        i = i + 1;
    }
    rows
}

/// Configuration for the search bar.
pub struct SearchBar {
    /// Current query value (empty for no pre-fill).
    pub query: String,
    /// HTML id for the input element (for focus-on-/ shortcut).
    pub input_id: &'static str,
    /// Whether to show the animated carousel placeholder.
    pub carousel: bool,
}

impl Default for SearchBar {
    /// No query, the input `search-input`, no carousel.
    fn default() -> (bar: Self)
        ensures
            bar.query@.len() == 0,
            bar.input_id@ == "search-input"@,
            !bar.carousel,
    {
        SearchBar { query: String::new(), input_id: "search-input", carousel: false }
    }
}

} // verus!
