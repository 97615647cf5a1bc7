//! Lucide outline icons drawn inline.
use vstd::prelude::*;

use crate::text::{decimal, push_str, to_decimal, trim, trimmed};

verus! {

/// The `<svg>` element of an icon of `size` pixels around the fragment
/// `inner`, without its surrounding whitespace.
pub open spec fn spec_icon(size: u8, inner: Seq<char>) -> Seq<char> {
    "<svg width=\""@ + decimal(size as nat) + "\" height=\""@ + decimal(size as nat) + "\" viewBox=\"0 0 24 24\" fill=\"none\" stroke=\"currentColor\" stroke-width=\"1.75\" stroke-linecap=\"round\" stroke-linejoin=\"round\">"@ + trimmed(inner) + "</svg>"@
}

/// Render a Lucide icon SVG at the given size.
///
/// `inner` is the SVG fragment of a vendored icon file. Returns a full
/// `<svg>` string.
pub fn icon(size: u8, inner: &str) -> (out: String)
    ensures
        out@ == spec_icon(size, inner@),
{
    let size_text = to_decimal(size as u64);
    let trimmed_inner = trim(inner);
    let mut out = String::new();
    push_str(&mut out, "<svg width=\"");
    push_str(&mut out, size_text.as_str());
    push_str(&mut out, "\" height=\"");
    push_str(&mut out, size_text.as_str());
    push_str(&mut out, "\" viewBox=\"0 0 24 24\" fill=\"none\" stroke=\"currentColor\" stroke-width=\"1.75\" stroke-linecap=\"round\" stroke-linejoin=\"round\">");
    push_str(&mut out, trimmed_inner);
    push_str(&mut out, "</svg>");
    out
}

} // verus!
