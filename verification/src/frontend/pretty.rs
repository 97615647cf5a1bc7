//! A plain pretty-printer for rendered markup: each tag and each non-blank
//! text run on a line of its own, indented two spaces per open element.
use vstd::prelude::*;

use crate::text::{
    chars_of, ends_with, has_prefix, has_suffix, is_whitespace, push_char, push_str, slice,
    starts_with, str_eq, trim, trimmed, whitespace,
};

verus! {

/// The first index at or after `i` where `s` holds `c`.
pub open spec fn first_from(s: Seq<char>, c: char, i: int) -> Option<int>
    decreases s.len() - i,
{
    if 0 <= i < s.len() {
        if s[i] == c {
            Some(i)
        } else {
            first_from(s, c, i + 1)
        }
    } else {
        None
    }
}

/// What `first_from` finds: the earliest match at or after `i`.
pub proof fn lemma_first_from(s: Seq<char>, c: char, i: int)
    requires
        0 <= i <= s.len(),
    ensures
        match first_from(s, c, i) {
            Some(j) => i <= j < s.len() && s[j] == c && forall|k: int| i <= k < j ==> s[k] != c,
            None => forall|k: int| i <= k < s.len() ==> s[k] != c,
        },
    decreases s.len() - i,
{
    if i < s.len() && s[i] != c {
        lemma_first_from(s, c, i + 1);
    }
}

/// The index of the first `needle` in `haystack` at or after `start`.
pub fn memchr(needle: char, haystack: &Vec<char>, start: usize) -> (r: Option<usize>)
    requires
        start <= haystack.len(),
    ensures
        match r {
            Some(j) => first_from(haystack@, needle, start as int) == Some(j as int),
            None => first_from(haystack@, needle, start as int) is None,
        },
{
    let mut k: usize = start;
    while k < haystack.len()
        invariant
            start <= k <= haystack.len(),
            first_from(haystack@, needle, start as int) == first_from(haystack@, needle, k as int),
        decreases haystack.len() - k,
    {
        if haystack[k] == needle {
            return Some(k);
        }
        k = k + 1;
    }
    None
}

/// Two spaces per level of `depth`.
pub open spec fn indent_text(depth: nat) -> Seq<char>
    decreases depth,
{
    if depth == 0 {
        Seq::empty()
    } else {
        indent_text((depth - 1) as nat) + seq![' ', ' ']
    }
}

/// Append the indentation of `depth` levels.
pub fn indent(out: &mut String, depth: usize)
    ensures
        final(out)@ == old(out)@ + indent_text(depth as nat),
{
    let mut k: usize = 0;
    while k < depth
        invariant
            k <= depth,
            out@ == old(out)@ + indent_text(k as nat),
        decreases depth - k,
    {
        push_char(out, ' ');
        push_char(out, ' ');
        k = k + 1;
    }
}

/// `s` without the `c` characters it starts with.
pub open spec fn without_leading(s: Seq<char>, c: char) -> Seq<char>
    decreases s.len(),
{
    if s.len() > 0 && s[0] == c {
        without_leading(s.drop_first(), c)
    } else {
        s
    }
}

/// A character that ends an element's name.
pub open spec fn ends_name(c: char) -> bool {
    is_whitespace(c) || c == '/' || c == '>'
}

/// The characters of `s` up to the first that ends a name.
pub open spec fn name_part(s: Seq<char>) -> Seq<char>
    decreases s.len(),
{
    if s.len() == 0 || ends_name(s[0]) {
        Seq::empty()
    } else {
        seq![s[0]] + name_part(s.drop_first())
    }
}

/// The element name of the tag `tag`.
pub open spec fn tag_name(tag: Seq<char>) -> Seq<char> {
    name_part(without_leading(tag, '<'))
}

/// Whether `name` is one of the void elements the printer knows.
pub open spec fn is_void_name(name: Seq<char>) -> bool {
    ||| name == "br"@
    ||| name == "hr"@
    ||| name == "img"@
    ||| name == "input"@
    ||| name == "meta"@
    ||| name == "link"@
    ||| name == "source"@
    ||| name == "area"@
    ||| name == "base"@
    ||| name == "col"@
}

/// Whether the tag `tag` opens a void element, one without a closing tag.
pub fn is_void_element(tag: &str) -> (r: bool)
    ensures
        r == is_void_name(tag_name(tag@)),
{
    let v = chars_of(tag);
    let n = v.len();
    let mut i: usize = 0;
    assert(tag@.skip(0) =~= tag@);
    while i < n && v[i] == '<'
        invariant
            v@ == tag@,
            n == v@.len(),
            i <= n,
            without_leading(tag@, '<') == without_leading(tag@.skip(i as int), '<'),
        decreases n - i,
    {
        assert(tag@.skip(i as int).drop_first() =~= tag@.skip(i + 1));
        i = i + 1;
    }
    let ghost rest = tag@.skip(i as int);
    assert(without_leading(rest, '<') == rest);
    let mut j: usize = i;
    assert(tag@.subrange(i as int, i as int) =~= Seq::<char>::empty());
    assert(tag@.skip(i as int) =~= rest);
    while j < n && !(whitespace(v[j]) || v[j] == '/' || v[j] == '>')
        invariant
            v@ == tag@,
            n == v@.len(),
            i <= j <= n,
            rest == tag@.skip(i as int),
            name_part(rest) == tag@.subrange(i as int, j as int) + name_part(tag@.skip(j as int)),
        decreases n - j,
    {
        assert(tag@.skip(j as int).drop_first() =~= tag@.skip(j + 1));
        assert(tag@.subrange(i as int, j + 1) =~= tag@.subrange(i as int, j as int) + seq![v@[j as int]]);
        j = j + 1;
    }
    assert(name_part(tag@.skip(j as int)) =~= Seq::<char>::empty());
    assert(name_part(rest) =~= tag@.subrange(i as int, j as int));
    let name = slice(tag, i, j);
    str_eq(name, "br") || str_eq(name, "hr") || str_eq(name, "img") || str_eq(name, "input")
        || str_eq(name, "meta") || str_eq(name, "link") || str_eq(name, "source") || str_eq(
        name,
        "area",
    ) || str_eq(name, "base") || str_eq(name, "col")
}

/// Whether the tag `tag` closes an element.
pub open spec fn closes(tag: Seq<char>) -> bool {
    has_prefix(tag, "</"@)
}

/// Whether the tag `tag` opens nothing that a later tag closes.
pub open spec fn stands_alone(tag: Seq<char>) -> bool {
    has_suffix(tag, "/>"@) || is_void_name(tag_name(tag))
}

/// The depth before a tag is printed: one less for a closing tag, never
/// below zero.
pub open spec fn depth_at(tag: Seq<char>, depth: nat) -> nat {
    if closes(tag) && depth > 0 {
        (depth - 1) as nat
    } else if closes(tag) {
        0
    } else {
        depth
    }
}

/// The depth after a tag is printed.
pub open spec fn depth_after(tag: Seq<char>, depth: nat) -> nat {
    if !closes(tag) && !stands_alone(tag) {
        depth_at(tag, depth) + 1
    } else {
        depth_at(tag, depth)
    }
}

/// The printed form of `s` from index `i` on, at nesting depth `depth`;
/// `started` says whether anything was printed before.
pub open spec fn pretty_from(s: Seq<char>, i: int, depth: nat, started: bool) -> Seq<char>
    decreases s.len() - i,
{
    if 0 <= i < s.len() {
        if s[i] == '<' {
            match first_from(s, '>', i) {
                Some(e) => {
                    if i < e + 1 <= s.len() {
                        let tag = s.subrange(i, e + 1);
                        (if started {
                            seq!['\n']
                        } else {
                            Seq::empty()
                        }) + indent_text(depth_at(tag, depth)) + tag + pretty_from(
                            s,
                            e + 1,
                            depth_after(tag, depth),
                            true,
                        )
                    } else {
                        Seq::empty()
                    }
                },
                None => Seq::empty(),
            }
        } else {
            let end = match first_from(s, '<', i) {
                Some(e) => e,
                None => s.len() as int,
            };
            if i < end <= s.len() {
                let text = trimmed(s.subrange(i, end));
                if text.len() > 0 {
                    seq!['\n'] + indent_text(depth) + text + pretty_from(s, end, depth, true)
                } else {
                    pretty_from(s, end, depth, started)
                }
            } else {
                Seq::empty()
            }
        }
    } else {
        Seq::empty()
    }
}

/// The printed form of the markup `s`.
pub open spec fn pretty(s: Seq<char>) -> Seq<char> {
    pretty_from(s, 0, 0, false)
}

/// Print the markup `html` with each tag and each non-blank text run on a
/// line of its own, indented by nesting depth. A `<` without a closing
/// `>` ends the output.
pub fn pretty_html(html: &str) -> (out: String)
    ensures
        out@ == pretty(html@),
{
    let v = chars_of(html);
    let n = v.len();
    let mut out = String::new();
    let mut depth: usize = 0;
    let mut i: usize = 0;
    while i < n
        invariant
            v@ == html@,
            n == v@.len(),
            i <= n,
            depth <= i,
            out@ + pretty_from(html@, i as int, depth as nat, out@.len() > 0) == pretty(html@),
        decreases n - i,
    {
        if v[i] == '<' {
            let found = memchr('>', &v, i);
            proof {
                lemma_first_from(html@, '>', i as int);
            }
            if found.is_none() {
                i = n;
                continue;
            }
            let tag_end = found.unwrap();
            let tag = slice(html, i, tag_end + 1);
            let is_close = starts_with(tag, "</");
            let is_void = ends_with(tag, "/>") || is_void_element(tag);
            if is_close {
                depth = if depth > 0 {
                    depth - 1
                } else {
                    0
                };
            }
            if !out.as_str().is_empty() {
                push_char(&mut out, '\n');
            }
            indent(&mut out, depth);
            push_str(&mut out, tag);
            if !is_close && !is_void {
                depth = depth + 1;
            }
            i = tag_end + 1;
        } else {
            let text_end = match memchr('<', &v, i) {
                Some(pos) => pos,
                None => n,
            };
            proof {
                lemma_first_from(html@, '<', i as int);
            }
            let text = slice(html, i, text_end);
            let t = trim(text);
            if !t.is_empty() {
                push_char(&mut out, '\n');
                indent(&mut out, depth);
                push_str(&mut out, t);
            }
            i = text_end;
        }
    }
    out
}

} // verus!
