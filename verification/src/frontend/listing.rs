//! Counts and names shown by flowing result lists.
use vstd::prelude::*;

use crate::frontend::escape::{escape_html_text, escaped_text};
use crate::text::{decimal, owned, push_str, to_decimal};

verus! {

/// A total that is smaller than the page it counts is no total.
pub open spec fn consistent_total(page_count: nat, total: Option<u64>) -> Option<nat> {
    match total {
        Some(t) => if t < page_count {
            None
        } else {
            Some(t as nat)
        },
        None => None,
    }
}

/// The count shown above a result list: the results on the page out of
/// the total, or the page alone when the total is unknown or smaller.
pub open spec fn spec_result_summary(page_count: nat, total: Option<u64>) -> Seq<char> {
    match consistent_total(page_count, total) {
        Some(t) => if t == 1 {
            "showing "@ + decimal(page_count) + " of 1 result"@
        } else {
            "showing "@ + decimal(page_count) + " of "@ + decimal(t) + " results"@
        },
        None => if page_count == 1 {
            "showing 1 result (total unavailable)"@
        } else {
            "showing "@ + decimal(page_count) + " results (total unavailable)"@
        },
    }
}

/// Render a page count without inventing an unavailable or inconsistent
/// total.
pub fn result_summary(page_count: usize, total: Option<u64>) -> (s: String)
    ensures
        s@ == spec_result_summary(page_count as nat, total),
{
    let page = page_count as u64;
    let known = match total {
        Some(t) => if t < page {
            None
        } else {
            Some(t)
        },
        None => None,
    };
    match known {
        Some(t) => {
            let mut s = owned("showing ");
            push_str(&mut s, to_decimal(page).as_str());
            if t == 1 {
                push_str(&mut s, " of 1 result");
            } else {
                push_str(&mut s, " of ");
                push_str(&mut s, to_decimal(t).as_str());
                push_str(&mut s, " results");
            }
            s
        },
        None => {
            if page == 1 {
                owned("showing 1 result (total unavailable)")
            } else {
                let mut s = owned("showing ");
                push_str(&mut s, to_decimal(page).as_str());
                push_str(&mut s, " results (total unavailable)");
                s
            }
        },
    }
}

/// The name of an item row, with its version badge when it has a version.
pub open spec fn spec_item_name_html(name: Seq<char>, version: Seq<char>) -> Seq<char> {
    "<span class=\"name\">"@ + escaped_text(name) + "</span>"@ + if version.len() == 0 {
        Seq::empty()
    } else {
        " <span class=\"inline-flex items-center px-1.5 h-5 rounded border border-line text-[10px] mono text-ink-500 ml-2 align-middle\" title=\"The version of the item we're targeting\">"@
            + escaped_text(version) + "</span>"@
    }
}

/// The name of an item row, with its version badge when it has a version.
pub fn item_name_html(name: &str, version: &str) -> (s: String)
    ensures
        s@ == spec_item_name_html(name@, version@),
{
    let mut s = owned("<span class=\"name\">");
    push_str(&mut s, escape_html_text(name).as_str());
    push_str(&mut s, "</span>");
    if !version.is_empty() {
        push_str(
            &mut s,
            " <span class=\"inline-flex items-center px-1.5 h-5 rounded border border-line text-[10px] mono text-ink-500 ml-2 align-middle\" title=\"The version of the item we're targeting\">",
        );
        push_str(&mut s, escape_html_text(version).as_str());
        push_str(&mut s, "</span>");
    }
    s
}

} // verus!
