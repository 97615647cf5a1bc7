//! Sidebar building blocks.
use vstd::prelude::*;

use crate::frontend::escape::{escape_html_attr, escape_html_text, escaped_attr, escaped_text};
use crate::text::{decimal, owned, push_str, str_eq, to_decimal};

verus! {

/// The sigil badge markup with the given colours and text.
pub open spec fn spec_sigil(bg: Seq<char>, color: Seq<char>, text: Seq<char>) -> Seq<char> {
    "<span class=\"sigil\" style=\"background:"@ + bg + ";color:"@ + color + ";\">"@ + text + "</span>"@
}

/// A coloured sigil badge. Written as raw markup so that the colours land
/// in an inline `style` attribute.
pub fn sigil(bg: &str, color: &str, text: &str) -> (out: String)
    ensures
        out@ == spec_sigil(bg@, color@, text@),
{
    let mut out = String::new();
    push_str(&mut out, "<span class=\"sigil\" style=\"background:");
    push_str(&mut out, bg);
    push_str(&mut out, ";color:");
    push_str(&mut out, color);
    push_str(&mut out, ";\">");
    push_str(&mut out, text);
    push_str(&mut out, "</span>");
    out
}

/// The options of the version selector: one per version, the first
/// marked latest, the current one selected, each leading to
/// `base_url` followed by the version.
pub open spec fn version_options(current: Seq<char>, versions: Seq<&str>, base_url: Seq<char>) -> Seq<char>
    decreases versions.len(),
{
    if versions.len() == 0 {
        Seq::empty()
    } else {
        let k = versions.len() - 1;
        let v = versions[k]@;
        version_options(current, versions.drop_last(), base_url) + "<option value=\""@
            + escaped_attr(base_url + v) + "\""@ + (if v == current {
            " selected"@
        } else {
            Seq::empty()
        }) + ">"@ + escaped_text(
            "v"@ + v + if k == 0 {
                " (latest)"@
            } else {
                Seq::empty()
            },
        ) + "</option>"@
    }
}

/// The `<option>` list of the version selector, or none without versions.
pub fn render_version_options(current_version: &str, versions: &Vec<&str>, base_url: &str) -> (r: Option<String>)
    ensures
        match r {
            Some(o) => versions@.len() > 0 && o@ == version_options(current_version@, versions@, base_url@),
            None => versions@.len() == 0,
        },
{
    if versions.len() == 0 {
        return None;
    }
    let mut options = String::new();
    let mut i: usize = 0;
    while i < versions.len()
        invariant
            i <= versions.len(),
            options@ == version_options(current_version@, versions@.take(i as int), base_url@),
        decreases versions.len() - i,
    {
        let v = versions[i];
        let mut target = owned(base_url);
        push_str(&mut target, v);
        let mut label = owned("v");
        push_str(&mut label, v);
        if i == 0 {
            push_str(&mut label, " (latest)");
        }
        push_str(&mut options, "<option value=\"");
        push_str(&mut options, escape_html_attr(target.as_str()).as_str());
        push_str(&mut options, "\"");
        if str_eq(v, current_version) {
            push_str(&mut options, " selected");
        }
        push_str(&mut options, ">");
        push_str(&mut options, escape_html_text(label.as_str()).as_str());
        push_str(&mut options, "</option>");
        proof {
            let t = versions@.take(i + 1);
            assert(t.drop_last() == versions@.take(i as int));
            assert(t.len() - 1 == i);
            assert(t[i as int] == v);
        }
        i = i + 1;
    }
    assert(versions@.take(i as int) == versions@);
    Some(options)
}

/// A sidebar nav entry.
pub struct SidebarEntry {
    pub sigil_bg: &'static str,
    pub sigil_color: &'static str,
    pub sigil_text: &'static str,
    pub name: String,
    pub href: String,
    /// Trailing meta markup (trusted, already escaped).
    pub meta: String,
    /// Whether this entry is currently active.
    pub active: bool,
}

/// A collapsible group in the sidebar.
pub struct SidebarGroup {
    pub label: String,
    /// Link target of the group label.
    pub href: Option<String>,
    /// Sigil background; the group lilac by default.
    pub sigil_bg: Option<&'static str>,
    /// Sigil colour; the group lilac ink by default.
    pub sigil_color: Option<&'static str>,
    /// Sigil character; `G` by default.
    pub sigil_text: Option<&'static str>,
    pub open: bool,
    /// The count shown; the number of children by default.
    pub count: Option<usize>,
    pub children: Vec<SidebarEntry>,
}

pub const SIGIL_GRP: &'static str = "var(--c-cat-lilac)";

pub const SIGIL_GRP_INK: &'static str = "var(--c-cat-lilac-ink)";

/// The group is shown open and active: it was opened, or one of its
/// entries is active.
pub open spec fn group_active(group: SidebarGroup) -> bool {
    group.open || exists|k: int| 0 <= k < group.children@.len() && #[trigger] group.children@[k].active
}

/// Whether a group is shown open and marked active.
pub fn group_is_active(group: &SidebarGroup) -> (r: bool)
    ensures
        r == group_active(*group),
{
    if group.open {
        return true;
    }
    let mut k: usize = 0;
    while k < group.children.len()
        invariant
            k <= group.children.len(),
            forall|j: int| 0 <= j < k ==> !(#[trigger] group.children@[j].active),
        decreases group.children.len() - k,
    {
        if group.children[k].active {
            return true;
        }
        k = k + 1;
    }
    false
}

/// The label of a group's summary: its sigil, name and count, inside a
/// link that does not toggle the group when it has a target.
pub open spec fn spec_group_label(group: SidebarGroup) -> Seq<char> {
    let sigil = spec_sigil(
        match group.sigil_bg {
            Some(b) => b@,
            None => SIGIL_GRP@,
        },
        match group.sigil_color {
            Some(c) => c@,
            None => SIGIL_GRP_INK@,
        },
        match group.sigil_text {
            Some(t) => t@,
            None => "G"@,
        },
    );
    let count = match group.count {
        Some(c) => c as nat,
        None => group.children@.len(),
    };
    let inner = sigil + "<span class=\"mono\">"@ + escaped_text(group.label@)
        + "</span><span class=\"ml-auto mono text-[10.5px] text-ink-400\">"@ + decimal(count)
        + "</span>"@;
    match group.href {
        Some(h) => "<a href=\""@ + escaped_attr(h@)
            + "\" class=\"flex items-center gap-1.5 flex-1 min-w-0\" onclick=\"event.stopPropagation()\">"@
            + inner + "</a>"@,
        None => inner,
    }
}

/// The label markup of a group's summary.
pub fn group_label(group: &SidebarGroup) -> (r: String)
    ensures
        r@ == spec_group_label(*group),
{
    let bg = match group.sigil_bg {
        Some(b) => b,
        None => SIGIL_GRP,
    };
    let color = match group.sigil_color {
        Some(c) => c,
        None => SIGIL_GRP_INK,
    };
    let text = match group.sigil_text {
        Some(t) => t,
        None => "G",
    };
    let count = match group.count {
        Some(c) => c,
        None => group.children.len(),
    };
    let mut inner = sigil(bg, color, text);
    push_str(&mut inner, "<span class=\"mono\">");
    push_str(&mut inner, escape_html_text(group.label.as_str()).as_str());
    push_str(&mut inner, "</span><span class=\"ml-auto mono text-[10.5px] text-ink-400\">");
    push_str(&mut inner, to_decimal(count as u64).as_str());
    push_str(&mut inner, "</span>");
    match &group.href {
        Some(h) => {
            let mut r = owned("<a href=\"");
            push_str(&mut r, escape_html_attr(h.as_str()).as_str());
            push_str(
                &mut r,
                "\" class=\"flex items-center gap-1.5 flex-1 min-w-0\" onclick=\"event.stopPropagation()\">",
            );
            push_str(&mut r, inner.as_str());
            push_str(&mut r, "</a>");
            r
        },
        None => inner,
    }
}

} // verus!
