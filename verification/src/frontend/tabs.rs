//! Switchable panel tabs: a tab strip fused to the panel below it, with
//! one panel per tab and a small script that shows the panel of the
//! clicked tab.
use vstd::prelude::*;

use crate::text::{decimal, digit_char, push_str, to_decimal};

verus! {

/// The script that switches the panels of one group, after the group's
/// name.
pub const SCRIPT_TAIL: &'static str = r#"';var tabs=document.querySelectorAll('[data-ptabs-group="'+g+'"][data-ptabs-target]');var panels=document.querySelectorAll('[data-ptabs-group="'+g+'"][data-ptabs-panel]');function activate(t){var target=t.getAttribute('data-ptabs-target');tabs.forEach(function(o){var on=o===t;o.classList.toggle('is-active',on);o.style.background=on?'var(--c-canvas)':'';});panels.forEach(function(p){p.hidden=p.getAttribute('data-ptabs-panel')!==target;});}tabs.forEach(function(t){t.addEventListener('click',function(){activate(t);});t.addEventListener('keydown',function(e){if(e.key==='Enter'||e.key===' '){e.preventDefault();activate(t);}});});})();</script>"#;

/// The name shared by the tabs and panels of the group numbered `id`.
pub open spec fn group_name(id: nat) -> Seq<char> {
    "ptabs-"@ + decimal(id)
}

/// The tab at position `i`, labelled `label`; the first tab is active.
pub open spec fn tab_markup(i: nat, label: Seq<char>, group: Seq<char>) -> Seq<char> {
    "<span class=\""@ + (if i == 0 {
        "id-lang-tab is-clickable is-active"@
    } else {
        "id-lang-tab is-clickable"@
    }) + "\""@ + (if i == 0 {
        " style=\"background: var(--c-canvas);\""@
    } else {
        Seq::empty()
    }) + " tabindex=\"0\" data-ptabs-group=\""@ + group + "\" data-ptabs-target=\""@ + decimal(i)
        + "\"><span class=\"dot\"></span>"@ + label + "</span>"@
}

/// The panel at position `i` holding `body`; all but the first are hidden.
pub open spec fn panel_markup(i: nat, body: Seq<char>, group: Seq<char>) -> Seq<char> {
    "<div data-ptabs-group=\""@ + group + "\" data-ptabs-panel=\""@ + decimal(i) + "\""@ + (if i
        == 0 {
        Seq::empty()
    } else {
        " hidden"@
    }) + ">"@ + body + "</div>"@
}

/// The tabs of the first `k` items.
pub open spec fn tabs_markup(items: Seq<(&str, &str)>, group: Seq<char>, k: nat) -> Seq<char>
    decreases k,
{
    if k == 0 {
        Seq::empty()
    } else {
        tabs_markup(items, group, (k - 1) as nat) + tab_markup(
            (k - 1) as nat,
            items[k - 1].0@,
            group,
        )
    }
}

/// The panels of the first `k` items.
pub open spec fn panels_markup(items: Seq<(&str, &str)>, group: Seq<char>, k: nat) -> Seq<char>
    decreases k,
{
    if k == 0 {
        Seq::empty()
    } else {
        panels_markup(items, group, (k - 1) as nat) + panel_markup(
            (k - 1) as nat,
            items[k - 1].1@,
            group,
        )
    }
}

/// The whole control for `items` (label, body) in the group numbered `id`.
pub open spec fn switchable_markup(items: Seq<(&str, &str)>, id: nat) -> Seq<char> {
    let group = group_name(id);
    "<div class=\"flex flex-col\">"@ + "<div class=\"id-lang-tabs\">"@ + tabs_markup(
        items,
        group,
        items.len(),
    ) + "</div>"@ + "<div class=\"border border-lineSoft rounded-md rounded-tl-none bg-canvas p-4\">"@
        + panels_markup(items, group, items.len()) + "</div></div>"@ + "<script>(function(){var g='"@
        + group + SCRIPT_TAIL@
}

/// The counter after a group takes its number: one more, wrapping at
/// `u64::MAX` (as `AtomicU64::fetch_add` does).
pub open spec fn next_group(counter: u64) -> u64 {
    if counter == u64::MAX {
        0
    } else {
        (counter + 1) as u64
    }
}

/// Render tabs that switch between their own panels, the first active.
/// The group takes its number from `counter`, which then moves on, so
/// that several groups rendered with one counter stay apart; the labels
/// and bodies are markup and go in as they are.
pub fn panel_tabs_switchable(items: &[(&str, &str)], counter: &mut u64) -> (html: String)
    ensures
        html@ == switchable_markup(items@, *old(counter) as nat),
        *final(counter) == next_group(*old(counter)),
{
    let id = *counter;
    *counter = if id == u64::MAX {
        0
    } else {
        id + 1
    };
    let mut group = String::new();
    push_str(&mut group, "ptabs-");
    let digits = to_decimal(id);
    push_str(&mut group, digits.as_str());
    let ghost g = group@;
    let mut tabs_html = String::new();
    push_str(&mut tabs_html, "<div class=\"id-lang-tabs\">");
    let ghost tabs_start = tabs_html@;
    let mut panels_html = String::new();
    let mut i: usize = 0;
    while i < items.len()
        invariant
            i <= items.len(),
            group@ == g,
            g == group_name(id as nat),
            tabs_html@ == tabs_start + tabs_markup(items@, g, i as nat),
            panels_html@ == panels_markup(items@, g, i as nat),
        decreases items.len() - i,
    {
        let (label, body) = items[i];
        let n = to_decimal(i as u64);
        let ghost tabs_before = tabs_html@;
        if i == 0 {
            push_str(&mut tabs_html, "<span class=\"");
            push_str(&mut tabs_html, "id-lang-tab is-clickable is-active");
            push_str(&mut tabs_html, "\"");
            push_str(&mut tabs_html, " style=\"background: var(--c-canvas);\"");
        } else {
            push_str(&mut tabs_html, "<span class=\"");
            push_str(&mut tabs_html, "id-lang-tab is-clickable");
            push_str(&mut tabs_html, "\"");
        }
        push_str(&mut tabs_html, " tabindex=\"0\" data-ptabs-group=\"");
        push_str(&mut tabs_html, group.as_str());
        push_str(&mut tabs_html, "\" data-ptabs-target=\"");
        push_str(&mut tabs_html, n.as_str());
        push_str(&mut tabs_html, "\"><span class=\"dot\"></span>");
        push_str(&mut tabs_html, label);
        push_str(&mut tabs_html, "</span>");
        assert(tabs_html@ =~= tabs_before + tab_markup(i as nat, label@, g));
        let ghost panels_before = panels_html@;
        push_str(&mut panels_html, "<div data-ptabs-group=\"");
        push_str(&mut panels_html, group.as_str());
        push_str(&mut panels_html, "\" data-ptabs-panel=\"");
        push_str(&mut panels_html, n.as_str());
        push_str(&mut panels_html, "\"");
        if i != 0 {
            push_str(&mut panels_html, " hidden");
        }
        push_str(&mut panels_html, ">");
        push_str(&mut panels_html, body);
        push_str(&mut panels_html, "</div>");
        assert(panels_html@ =~= panels_before + panel_markup(i as nat, body@, g));
        i = i + 1;
    }
    push_str(&mut tabs_html, "</div>");
    let mut html = String::new();
    push_str(&mut html, "<div class=\"flex flex-col\">");
    push_str(&mut html, tabs_html.as_str());
    push_str(&mut html, "<div class=\"border border-lineSoft rounded-md rounded-tl-none bg-canvas p-4\">");
    push_str(&mut html, panels_html.as_str());
    push_str(&mut html, "</div></div>");
    push_str(&mut html, "<script>(function(){var g='");
    push_str(&mut html, group.as_str());
    push_str(&mut html, SCRIPT_TAIL);
    assert(html@ =~= switchable_markup(items@, id as nat));
    html
}

/// The texts of `parts`, one after the other.
pub open spec fn concat_all(parts: Seq<Seq<char>>) -> Seq<char>
    decreases parts.len(),
{
    if parts.len() == 0 {
        Seq::empty()
    } else {
        concat_all(parts.drop_last()) + parts.last()
    }
}

/// One tab per item, in order; only the first is active.
pub open spec fn tab_list(items: Seq<(&str, &str)>, group: Seq<char>) -> Seq<Seq<char>> {
    Seq::new(items.len(), |i: int| tab_markup(i as nat, items[i].0@, group))
}

/// One panel per item, in order; all but the first are hidden.
pub open spec fn panel_list(items: Seq<(&str, &str)>, group: Seq<char>) -> Seq<Seq<char>> {
    Seq::new(items.len(), |i: int| panel_markup(i as nat, items[i].1@, group))
}

proof fn lemma_lists(items: Seq<(&str, &str)>, group: Seq<char>, k: nat)
    requires
        k <= items.len(),
    ensures
        tabs_markup(items, group, k) == concat_all(tab_list(items, group).take(k as int)),
        panels_markup(items, group, k) == concat_all(panel_list(items, group).take(k as int)),
    decreases k,
{
    if k > 0 {
        lemma_lists(items, group, (k - 1) as nat);
        assert(tab_list(items, group).take(k as int).drop_last() =~= tab_list(items, group).take(k - 1));
        assert(panel_list(items, group).take(k as int).drop_last() =~= panel_list(items, group).take(k - 1));
    }
}

/// The tabs markup holds one tab per item and the panels markup one panel
/// per item, in order, all in the same group; the first tab alone is
/// marked active and the first panel alone is shown.
pub proof fn law_one_tab_and_panel_per_item(items: Seq<(&str, &str)>, id: nat)
    ensures
        tabs_markup(items, group_name(id), items.len()) == concat_all(tab_list(items, group_name(id))),
        panels_markup(items, group_name(id), items.len()) == concat_all(
            panel_list(items, group_name(id)),
        ),
        tab_list(items, group_name(id)).len() == items.len(),
        panel_list(items, group_name(id)).len() == items.len(),
        forall|i: int|
            0 <= i < items.len() ==> #[trigger] tab_list(items, group_name(id))[i] == tab_markup(
                i as nat,
                items[i].0@,
                group_name(id),
            ),
        forall|i: int|
            0 <= i < items.len() ==> #[trigger] panel_list(items, group_name(id))[i] == panel_markup(
                i as nat,
                items[i].1@,
                group_name(id),
            ),
{
    lemma_lists(items, group_name(id), items.len());
    assert(tab_list(items, group_name(id)).take(items.len() as int) =~= tab_list(items, group_name(id)));
    assert(panel_list(items, group_name(id)).take(items.len() as int) =~= panel_list(items, group_name(id)));
}

proof fn lemma_digit_injective(a: nat, b: nat)
    requires
        a < 10,
        b < 10,
        digit_char(a) == digit_char(b),
    ensures
        a == b,
{
    assert(((48 + a) as u8) as u32 == 48 + a);
    assert(((48 + b) as u8) as u32 == 48 + b);
}

proof fn lemma_decimal_injective(a: nat, b: nat)
    requires
        decimal(a) == decimal(b),
    ensures
        a == b,
    decreases a,
{
    if a >= 10 {
        assert(decimal(a / 10).len() >= 1) by {
            lemma_decimal_nonempty(a / 10);
        }
    }
    if b >= 10 {
        assert(decimal(b / 10).len() >= 1) by {
            lemma_decimal_nonempty(b / 10);
        }
    }
    if a < 10 {
        assert(decimal(a) =~= seq![digit_char(a)]);
    } else {
        assert(decimal(a) =~= decimal(a / 10) + seq![digit_char(a % 10)]);
    }
    if b < 10 {
        assert(decimal(b) =~= seq![digit_char(b)]);
    } else {
        assert(decimal(b) =~= decimal(b / 10) + seq![digit_char(b % 10)]);
    }
    if a < 10 && b < 10 {
        assert(decimal(a)[0] == digit_char(a));
        assert(decimal(b)[0] == digit_char(b));
        lemma_digit_injective(a, b);
    } else if a >= 10 && b >= 10 {
        let (da, db) = (decimal(a), decimal(b));
        assert(da.last() == digit_char(a % 10));
        assert(db.last() == digit_char(b % 10));
        lemma_digit_injective(a % 10, b % 10);
        assert(da.drop_last() =~= decimal(a / 10));
        assert(db.drop_last() =~= decimal(b / 10));
        lemma_decimal_injective(a / 10, b / 10);
    } else {
        assert(decimal(a).len() != decimal(b).len());
    }
}

proof fn lemma_decimal_nonempty(n: nat)
    ensures
        decimal(n).len() >= 1,
    decreases n,
{
    if n >= 10 {
        lemma_decimal_nonempty(n / 10);
    }
}

/// Groups numbered differently have different names, so the groups that
/// successive calls render with one counter stay apart (until the counter
/// wraps after `u64::MAX` calls).
pub proof fn law_groups_stay_apart(a: nat, b: nat)
    ensures
        a != b ==> group_name(a) != group_name(b),
        (a as int) < u64::MAX ==> group_name(a) != group_name(next_group(a as u64) as nat),
{
    if group_name(a) == group_name(b) {
        assert(decimal(a) =~= group_name(a).subrange(6, group_name(a).len() as int)) by {
            reveal_strlit("ptabs-");
        }
        assert(decimal(b) =~= group_name(b).subrange(6, group_name(b).len() as int)) by {
            reveal_strlit("ptabs-");
        }
        lemma_decimal_injective(a, b);
    }
    if (a as int) < u64::MAX {
        let c = next_group(a as u64) as nat;
        if group_name(a) == group_name(c) {
            assert(decimal(a) =~= group_name(a).subrange(6, group_name(a).len() as int)) by {
                reveal_strlit("ptabs-");
            }
            assert(decimal(c) =~= group_name(c).subrange(6, group_name(c).len() as int)) by {
                reveal_strlit("ptabs-");
            }
            lemma_decimal_injective(a, c);
        }
    }
}

} // verus!
