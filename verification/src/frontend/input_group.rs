//! Input group: a leading dropdown button fused to a field. Picking an
//! option from the dropdown updates the trigger's label and swaps the field's
//! value (the design system's "Input group · button with dropdown").
//!
//! The control is self-contained: one inline script (emitted with every
//! render, but idempotent) wires up every `[data-input-group]` on the page:
//! toggling the menu, closing it on outside-click or Escape, and applying the
//! selection. Each root also exposes an `igSelect(id)` method so callers can
//! drive the selection programmatically (e.g. platform auto-detection).
use vstd::prelude::*;

use crate::frontend::escape::{escape_html_attr, escape_html_text, escaped_attr, escaped_text};
use crate::text::push_str;

verus! {

/// One choice in the dropdown menu.
pub struct DropdownOption<'a> {
    /// Stable id used in markup and for programmatic selection via `igSelect`.
    pub id: &'a str,
    /// Label shown in the menu and on the trigger button when selected.
    pub label: &'a str,
    /// Value written into the field when this option is selected.
    pub value: &'a str,
}

/// Configuration for [`button_with_dropdown`].
pub struct ButtonWithDropdown<'a> {
    /// Options in menu order. The `selected` one is shown before any input.
    pub options: &'a [DropdownOption<'a>],
    /// Index of the option shown on first render. Clamped to a valid index; an
    /// empty `options` slice renders nothing.
    pub selected: usize,
    /// Accessible name for the dropdown trigger button.
    pub trigger_aria_label: &'a str,
    /// Accessible name for the field.
    pub field_aria_label: &'a str,
    /// Extra classes appended to the field input (e.g. `"mono"`).
    pub field_class: &'a str,
    /// When true, a trailing copy button is fused to the field; clicking it
    /// copies the field's current value (which tracks the selected option).
    pub with_copy: bool,
    /// Optional static addon rendered in a bordered box between the trigger and
    /// the field (for example a `$` shell prompt). Decorative and excluded from
    /// the copied value; an empty string renders nothing.
    pub prefix: &'a str,
}

pub const CHEVRON: &'static str = "<svg width=\"12\" height=\"12\" viewBox=\"0 0 24 24\" fill=\"none\" stroke=\"currentColor\" stroke-width=\"2\" stroke-linecap=\"round\" stroke-linejoin=\"round\" aria-hidden=\"true\"><path d=\"m6 9 6 6 6-6\" /></svg>";

pub const COPY_ICON: &'static str = "<svg width=\"14\" height=\"14\" viewBox=\"0 0 24 24\" fill=\"none\" stroke=\"currentColor\" stroke-width=\"1.75\" stroke-linecap=\"round\" stroke-linejoin=\"round\" aria-hidden=\"true\"><rect x=\"9\" y=\"9\" width=\"11\" height=\"11\" rx=\"2\" /><path d=\"M5 15V6a2 2 0 0 1 2-2h9\" /></svg>";

pub const CHECK_ICON: &'static str = "<svg width=\"14\" height=\"14\" viewBox=\"0 0 24 24\" fill=\"none\" stroke=\"currentColor\" stroke-width=\"2\" stroke-linecap=\"round\" stroke-linejoin=\"round\" aria-hidden=\"true\"><path d=\"M20 6 9 17l-5-5\" /></svg>";

pub const COPY_BTN_CLASS: &'static str = "flex-none inline-flex items-center justify-center w-9 h-9 rounded-r-md border border-l-0 border-line bg-surface text-ink-500 hover:text-ink-900 hover:bg-surfaceMuted focus-visible:outline focus-visible:outline-2 focus-visible:outline-offset-[-2px] focus-visible:outline-ink-900";

pub const ADDON_CLASS: &'static str = "flex-none inline-flex items-center px-3 h-9 border border-r-0 border-line bg-surfaceMuted text-[13px] text-ink-500 mono select-none";

/// Behaviour for every input group on the page. Idempotent: re-running it (when
/// more than one component is rendered) skips roots it has already wired.
pub const SCRIPT: &'static str = r#"<script>
(function(){
  document.querySelectorAll('[data-input-group]').forEach(function(root){
    if (root.dataset.igReady) return;
    root.dataset.igReady = '1';
    var trigger = root.querySelector('[data-ig-trigger]');
    var menu = root.querySelector('[data-ig-menu]');
    var label = root.querySelector('[data-ig-label]');
    var field = root.querySelector('[data-ig-field]');
    var options = Array.prototype.slice.call(root.querySelectorAll('[data-ig-option]'));
    if(!trigger || !menu) return;
    function open(){ menu.hidden = false; trigger.setAttribute('aria-expanded','true'); }
    function close(){ menu.hidden = true; trigger.setAttribute('aria-expanded','false'); }
    function focusOption(i){ if(options.length){ options[Math.max(0, Math.min(i, options.length - 1))].focus(); } }
    function openToOption(){ open(); focusOption(options.findIndex(function(o){ return o.getAttribute('aria-selected') === 'true'; })); }
    function select(opt){
      if(!opt) return;
      options.forEach(function(o){ o.setAttribute('aria-selected', o === opt ? 'true' : 'false'); });
      if (label) label.textContent = opt.getAttribute('data-label');
      if (field) field.value = opt.getAttribute('data-value');
      close();
    }
    trigger.addEventListener('click', function(e){ e.stopPropagation(); if(menu.hidden){ open(); } else { close(); } });
    trigger.addEventListener('keydown', function(e){ if(e.key === 'ArrowDown' || e.key === 'ArrowUp'){ e.preventDefault(); openToOption(); } });
    options.forEach(function(o){
      o.addEventListener('click', function(e){ e.stopPropagation(); select(o); trigger.focus(); });
    });
    menu.addEventListener('keydown', function(e){
      var i = options.indexOf(document.activeElement);
      if(e.key === 'ArrowDown'){ e.preventDefault(); focusOption(i + 1); }
      else if(e.key === 'ArrowUp'){ e.preventDefault(); focusOption(i - 1); }
      else if(e.key === 'Home'){ e.preventDefault(); focusOption(0); }
      else if(e.key === 'End'){ e.preventDefault(); focusOption(options.length - 1); }
      else if(e.key === 'Tab'){ close(); }
    });
    document.addEventListener('click', function(e){ if(!root.contains(e.target)) close(); });
    document.addEventListener('keydown', function(e){ if(e.key === 'Escape' && !menu.hidden){ close(); trigger.focus(); } });
    if (field && field.hasAttribute('readonly')) {
      field.addEventListener('focus', function(){ field.select(); });
      field.addEventListener('click', function(){ field.select(); });
    }
    var copyBtn = root.querySelector('[data-ig-copy]');
    if (copyBtn && field) {
      copyBtn.addEventListener('click', function(){
        if(!navigator.clipboard) return;
        navigator.clipboard.writeText(field.value).then(function(){
          var c = copyBtn.querySelector('[data-ig-copy-icon="copy"]');
          var k = copyBtn.querySelector('[data-ig-copy-icon="check"]');
          if(c) c.hidden = true;
          if(k) k.hidden = false;
          copyBtn.setAttribute('aria-label', 'Copied');
          setTimeout(function(){
            if(c) c.hidden = false;
            if(k) k.hidden = true;
            copyBtn.setAttribute('aria-label', 'Copy command');
          }, 1500);
        });
      });
    }
    root.igSelect = function(id){ select(root.querySelector('[data-ig-option="' + id + '"]')); };
  });
})();
</script>"#;

/// The markup of one menu option.
pub open spec fn spec_menu_item(opt: DropdownOption, active: bool) -> Seq<char> {
    "<button type=\"button\" role=\"option\" data-ig-option=\""@ + escaped_attr(opt.id@) + "\" data-label=\""@ + escaped_text(opt.label@) + "\" data-value=\""@ + escaped_attr(opt.value@) + "\" aria-selected=\""@ + (if active { "true"@ } else { "false"@ }) + "\" class=\"flex items-center gap-2.5 px-3 h-8 rounded-md text-ink-700 text-[13px] hover:bg-surfaceMuted hover:text-ink-900 cursor-pointer w-full whitespace-nowrap\">"@ + escaped_text(opt.label@) + "</button>"@
}

/// The menu options, the one at `selected` marked as chosen.
pub open spec fn spec_menu(opts: Seq<DropdownOption>, selected: int) -> Seq<char>
    decreases opts.len(),
{
    if opts.len() == 0 {
        Seq::empty()
    } else {
        spec_menu(opts.drop_last(), selected) + spec_menu_item(opts.last(), opts.len() - 1 == selected)
    }
}

/// The decorative addon box, or nothing for an empty prefix.
pub open spec fn spec_prefix_box(prefix: Seq<char>) -> Seq<char> {
    if prefix.len() == 0 {
        Seq::empty()
    } else {
        "\n  <span aria-hidden=\"true\" class=\""@ + ADDON_CLASS@ + "\">"@ + escaped_text(prefix) + "</span>"@
    }
}

/// The copy button fused to the field, when asked for.
pub open spec fn spec_copy_button(with_copy: bool) -> Seq<char> {
    if with_copy {
        "\n  <button type=\"button\" data-ig-copy aria-label=\"Copy command\" class=\""@ + COPY_BTN_CLASS@ + "\"><span data-ig-copy-icon=\"copy\">"@ + COPY_ICON@ + "</span><span data-ig-copy-icon=\"check\" hidden class=\"text-positive\">"@ + CHECK_ICON@ + "</span></button>"@
    } else {
        Seq::empty()
    }
}

/// The field keeps its right radius unless the copy button takes it.
pub open spec fn spec_field_round(with_copy: bool) -> Seq<char> {
    if with_copy {
        Seq::empty()
    } else {
        " rounded-r-md"@
    }
}

/// The trigger button showing the label of `current`.
pub open spec fn spec_group_head(current: DropdownOption, trigger_aria_label: Seq<char>) -> Seq<char> {
    "<div class=\"flex relative\" data-input-group>\n  <button type=\"button\" data-ig-trigger aria-haspopup=\"listbox\" aria-expanded=\"false\" aria-label=\""@ + escaped_attr(trigger_aria_label) + "\" class=\"inline-flex items-center gap-2 px-3 h-9 rounded-l-md border border-r-0 border-line bg-surfaceMuted text-ink-700 text-[13px] hover:bg-ink-300 hover:text-ink-900 whitespace-nowrap focus:outline-none focus:border-ink-900\"><span data-ig-label>"@ + escaped_text(current.label@) + "</span>"@ + CHEVRON@ + "</button>"@
}

/// The read-only field holding the value of `current`.
pub open spec fn spec_field(
    current: DropdownOption,
    field_aria_label: Seq<char>,
    field_class: Seq<char>,
    with_copy: bool,
) -> Seq<char> {
    "\n  <input type=\"text\" data-ig-field readonly value=\""@ + escaped_attr(current.value@) + "\" aria-label=\""@ + escaped_attr(field_aria_label) + "\" class=\"block w-full h-9 px-3"@ + spec_field_round(with_copy) + " border border-line bg-surface text-[14px] text-ink-900 focus:outline-none focus:border-ink-900 "@ + field_class + "\">"@
}

/// The opening of the hidden option menu.
pub open spec fn spec_menu_open() -> Seq<char> {
    "\n  <div data-ig-menu role=\"listbox\" hidden class=\"absolute left-0 top-[calc(100%+4px)] z-20 w-max min-w-[10rem] bg-surface rounded-lg border border-line shadow-tooltip p-1\">"@
}

/// The end of the menu and of the group, then the driving script.
pub open spec fn spec_group_tail() -> Seq<char> {
    "</div>\n</div>"@ + SCRIPT@
}

/// The option shown first: `selected`, clamped to the last option.
pub open spec fn clamped(len: int, selected: int) -> int {
    if selected < len - 1 {
        selected
    } else {
        len - 1
    }
}

/// The rendered input group; nothing when there are no options.
pub open spec fn spec_button_with_dropdown(
    opts: Seq<DropdownOption>,
    selected: int,
    trigger_aria_label: Seq<char>,
    field_aria_label: Seq<char>,
    field_class: Seq<char>,
    with_copy: bool,
    prefix: Seq<char>,
) -> Seq<char> {
    if opts.len() == 0 {
        Seq::empty()
    } else {
        let sel = clamped(opts.len() as int, selected);
        spec_group_head(opts[sel], trigger_aria_label) + spec_prefix_box(prefix) + spec_field(
            opts[sel],
            field_aria_label,
            field_class,
            with_copy,
        ) + spec_copy_button(with_copy) + spec_menu_open() + spec_menu(opts, sel) + spec_group_tail()
    }
}

/// The menu's option elements, one per option, the one at `k` marked
/// selected.
pub open spec fn menu_items(opts: Seq<DropdownOption>, k: int) -> Seq<Seq<char>> {
    Seq::new(opts.len(), |i: int| spec_menu_item(opts[i], i == k))
}

/// The texts of `parts`, one after the other.
pub open spec fn concat_all(parts: Seq<Seq<char>>) -> Seq<char>
    decreases parts.len(),
{
    if parts.len() == 0 {
        Seq::empty()
    } else {
        concat_all(parts.drop_last()) + parts.last()
    }
}

proof fn lemma_menu_items(opts: Seq<DropdownOption>, k: int)
    ensures
        spec_menu(opts, k) == concat_all(menu_items(opts, k)),
    decreases opts.len(),
{
    if opts.len() > 0 {
        lemma_menu_items(opts.drop_last(), k);
        assert(menu_items(opts.drop_last(), k) =~= menu_items(opts, k).drop_last());
    }
}

/// The shape of an input group with at least one option: it renders as if
/// `selected` were clamped to the last option; its menu holds one option
/// element per option, in order, of which exactly the one shown is marked
/// selected; the copy button is there exactly when asked for, and the
/// addon box exactly when the prefix is not empty.
pub proof fn law_input_group_shape(
    opts: Seq<DropdownOption>,
    selected: int,
    trigger_aria_label: Seq<char>,
    field_aria_label: Seq<char>,
    field_class: Seq<char>,
    with_copy: bool,
    prefix: Seq<char>,
)
    requires
        opts.len() > 0,
        selected >= 0,
    ensures
        ({
            let k = clamped(opts.len() as int, selected);
            &&& 0 <= k < opts.len()
            &&& selected < opts.len() ==> k == selected
            &&& spec_button_with_dropdown(
                opts,
                selected,
                trigger_aria_label,
                field_aria_label,
                field_class,
                with_copy,
                prefix,
            ) == spec_button_with_dropdown(
                opts,
                k,
                trigger_aria_label,
                field_aria_label,
                field_class,
                with_copy,
                prefix,
            )
            &&& spec_button_with_dropdown(
                opts,
                selected,
                trigger_aria_label,
                field_aria_label,
                field_class,
                with_copy,
                prefix,
            ) == spec_group_head(opts[k], trigger_aria_label) + spec_prefix_box(prefix) + spec_field(
                opts[k],
                field_aria_label,
                field_class,
                with_copy,
            ) + spec_copy_button(with_copy) + spec_menu_open() + concat_all(menu_items(opts, k))
                + spec_group_tail()
            &&& menu_items(opts, k).len() == opts.len()
            &&& forall|i: int|
                0 <= i < opts.len() ==> #[trigger] menu_items(opts, k)[i] == spec_menu_item(
                    opts[i],
                    i == k,
                )
            &&& (spec_copy_button(with_copy).len() > 0 <==> with_copy)
            &&& (spec_prefix_box(prefix).len() > 0 <==> prefix.len() > 0)
        }),
{
    let k = clamped(opts.len() as int, selected);
    lemma_menu_items(opts, k);
    reveal_strlit("</span></button>");
    reveal_strlit("</span>");
}

/// Append one menu option button to `out`.
pub fn push_menu_item(out: &mut String, opt: &DropdownOption<'_>, active: bool)
    ensures
        final(out)@ == old(out)@ + spec_menu_item(*opt, active),
{
    let id = escape_html_attr(opt.id);
    let label = escape_html_text(opt.label);
    let value = escape_html_attr(opt.value);
    let selected = if active {
        "true"
    } else {
        "false"
    };
    push_str(out, "<button type=\"button\" role=\"option\" data-ig-option=\"");
    push_str(out, id.as_str());
    push_str(out, "\" data-label=\"");
    push_str(out, label.as_str());
    push_str(out, "\" data-value=\"");
    push_str(out, value.as_str());
    push_str(out, "\" aria-selected=\"");
    push_str(out, selected);
    push_str(out, "\" class=\"flex items-center gap-2.5 px-3 h-8 rounded-md text-ink-700 text-[13px] hover:bg-surfaceMuted hover:text-ink-900 cursor-pointer w-full whitespace-nowrap\">");
    push_str(out, label.as_str());
    push_str(out, "</button>");
}

fn prefix_box(prefix: &str) -> (s: String)
    ensures
        s@ == spec_prefix_box(prefix@),
{
    if prefix.is_empty() {
        return String::new();
    }
    let text = escape_html_text(prefix);
    let mut out = String::new();
    push_str(&mut out, "\n  <span aria-hidden=\"true\" class=\"");
    push_str(&mut out, ADDON_CLASS);
    push_str(&mut out, "\">");
    push_str(&mut out, text.as_str());
    push_str(&mut out, "</span>");
    out
}

fn copy_button(with_copy: bool) -> (s: String)
    ensures
        s@ == spec_copy_button(with_copy),
{
    if !with_copy {
        return String::new();
    }
    let mut out = String::new();
    push_str(&mut out, "\n  <button type=\"button\" data-ig-copy aria-label=\"Copy command\" class=\"");
    push_str(&mut out, COPY_BTN_CLASS);
    push_str(&mut out, "\"><span data-ig-copy-icon=\"copy\">");
    push_str(&mut out, COPY_ICON);
    push_str(&mut out, "</span><span data-ig-copy-icon=\"check\" hidden class=\"text-positive\">");
    push_str(&mut out, CHECK_ICON);
    push_str(&mut out, "</span></button>");
    out
}

fn field_round(with_copy: bool) -> (s: String)
    ensures
        s@ == spec_field_round(with_copy),
{
    let mut out = String::new();
    if !with_copy {
        push_str(&mut out, " rounded-r-md");
    }
    out
}

/// Render an input group: a leading dropdown button joined to a value field.
///
/// Returns the markup plus the (idempotent) driving script. Callers that render
/// several groups can concatenate the results safely: the script wires each
/// root only once.
#[verifier::rlimit(30)]
pub fn button_with_dropdown(cfg: &ButtonWithDropdown<'_>) -> (out: String)
    ensures
        out@ == spec_button_with_dropdown(
            cfg.options@,
            cfg.selected as int,
            cfg.trigger_aria_label@,
            cfg.field_aria_label@,
            cfg.field_class@,
            cfg.with_copy,
            cfg.prefix@,
        ),
{
    let n = cfg.options.len();
    if n == 0 {
        return String::new();
    }
    let selected = if cfg.selected < n - 1 {
        cfg.selected
    } else {
        n - 1
    };
    let current = &cfg.options[selected];
    let current_label = escape_html_text(current.label);
    let current_value = escape_html_attr(current.value);
    let trigger_aria = escape_html_attr(cfg.trigger_aria_label);
    let field_aria = escape_html_attr(cfg.field_aria_label);
    let mut menu = String::new();
    for i in 0..n
        invariant
            n == cfg.options@.len(),
            menu@ == spec_menu(cfg.options@.take(i as int), selected as int),
    {
        push_menu_item(&mut menu, &cfg.options[i], i == selected);
        assert(cfg.options@.take(i + 1).drop_last() =~= cfg.options@.take(i as int));
    }
    assert(cfg.options@.take(n as int) =~= cfg.options@);
    let round = field_round(cfg.with_copy);
    let prefix_html = prefix_box(cfg.prefix);
    let copy = copy_button(cfg.with_copy);
    let mut out = String::new();
    push_str(&mut out, "<div class=\"flex relative\" data-input-group>\n  <button type=\"button\" data-ig-trigger aria-haspopup=\"listbox\" aria-expanded=\"false\" aria-label=\"");
    push_str(&mut out, trigger_aria.as_str());
    push_str(&mut out, "\" class=\"inline-flex items-center gap-2 px-3 h-9 rounded-l-md border border-r-0 border-line bg-surfaceMuted text-ink-700 text-[13px] hover:bg-ink-300 hover:text-ink-900 whitespace-nowrap focus:outline-none focus:border-ink-900\"><span data-ig-label>");
    push_str(&mut out, current_label.as_str());
    push_str(&mut out, "</span>");
    push_str(&mut out, CHEVRON);
    push_str(&mut out, "</button>");
    assert(out@ =~= spec_group_head(*current, cfg.trigger_aria_label@));
    let ghost head = out@;
    push_str(&mut out, prefix_html.as_str());
    let ghost with_prefix = out@;
    push_str(&mut out, "\n  <input type=\"text\" data-ig-field readonly value=\"");
    push_str(&mut out, current_value.as_str());
    push_str(&mut out, "\" aria-label=\"");
    push_str(&mut out, field_aria.as_str());
    push_str(&mut out, "\" class=\"block w-full h-9 px-3");
    push_str(&mut out, round.as_str());
    push_str(&mut out, " border border-line bg-surface text-[14px] text-ink-900 focus:outline-none focus:border-ink-900 ");
    push_str(&mut out, cfg.field_class);
    push_str(&mut out, "\">");
    assert(out@ =~= with_prefix + spec_field(
        *current,
        cfg.field_aria_label@,
        cfg.field_class@,
        cfg.with_copy,
    ));
    push_str(&mut out, copy.as_str());
    push_str(&mut out, "\n  <div data-ig-menu role=\"listbox\" hidden class=\"absolute left-0 top-[calc(100%+4px)] z-20 w-max min-w-[10rem] bg-surface rounded-lg border border-line shadow-tooltip p-1\">");
    push_str(&mut out, menu.as_str());
    push_str(&mut out, "</div>\n</div>");
    push_str(&mut out, SCRIPT);
    assert(out@ =~= spec_button_with_dropdown(
        cfg.options@,
        cfg.selected as int,
        cfg.trigger_aria_label@,
        cfg.field_aria_label@,
        cfg.field_class@,
        cfg.with_copy,
        cfg.prefix@,
    ));
    out
}

} // verus!
