//! Quick-start walkthrough: a numbered list of steps that take a visitor
//! from installing the CLI to a running `wasi:http` server. Each step is a
//! two-column row, an explainer on the left and a command on the right; on
//! narrow viewports the row reflows to a single column.
//!
//! Most steps render a copyable command block (`$` prefix, the command in a
//! `<code>` field, and a copy button). A step may instead supply arbitrary
//! right-column markup, such as the platform install widget.
use vstd::prelude::*;

use crate::frontend::escape::{escape_html_attr, escape_html_text, escaped_attr, escaped_text};
use crate::frontend::input_group::{CHECK_ICON, COPY_ICON};
use crate::text::{decimal, push_str, to_decimal};

verus! {

/// A single quick-start step.
pub struct QuickStartStep<'a> {
    /// Short step title shown next to the number (e.g. `"Install the CLI"`).
    pub title: &'a str,
    /// Prose explaining the step. HTML is allowed.
    pub body_html: &'a str,
    /// Shell command rendered as a copyable `$` block (without the `$`
    /// prompt). Ignored when `command_html` is non-empty.
    pub command: &'a str,
    /// Custom right-column markup. When non-empty it replaces the `$` command
    /// block.
    pub command_html: &'a str,
}

pub const DOLLAR_CLASS: &'static str = "inline-flex items-center px-3 h-9 rounded-l-md border border-r-0 border-line bg-surfaceMuted text-[13px] text-ink-500 mono select-none";

pub const CODE_CLASS: &'static str = "block w-full h-9 px-3 inline-flex items-center border border-line bg-surface mono text-[13px] text-ink-900 overflow-x-auto whitespace-nowrap";

pub const COPY_BTN_CLASS: &'static str = "flex-none inline-flex items-center justify-center w-9 h-9 rounded-r-md border border-l-0 border-line bg-surface text-ink-500 hover:text-ink-900 hover:bg-surfaceMuted focus-visible:outline focus-visible:outline-2 focus-visible:outline-offset-[-2px] focus-visible:outline-ink-900";

/// Copy behaviour for every command block on the page. Idempotent: each
/// button is wired at most once. On success the icon flips to a check for
/// 1.5s.
pub const COPY_SCRIPT: &'static str = r#"<script>
(function(){
  document.querySelectorAll('[data-cmd-copy]').forEach(function(btn){
    if(btn.dataset.cmdReady) return;
    btn.dataset.cmdReady = '1';
    btn.addEventListener('click', function(){
      var cmd = btn.getAttribute('data-copy');
      if(!cmd || !navigator.clipboard) return;
      navigator.clipboard.writeText(cmd).then(function(){
        var copy = btn.querySelector('[data-cmd-icon="copy"]');
        var check = btn.querySelector('[data-cmd-icon="check"]');
        if(copy) copy.hidden = true;
        if(check) check.hidden = false;
        btn.setAttribute('aria-label', 'Copied');
        setTimeout(function(){
          if(copy) copy.hidden = false;
          if(check) check.hidden = true;
          btn.setAttribute('aria-label', 'Copy command');
        }, 1500);
      });
    });
  });
})();
</script>"#;

/// The right column of a step: the custom markup when there is some, or
/// else the copyable command block.
pub open spec fn spec_right_column(command: Seq<char>, command_html: Seq<char>) -> Seq<char> {
    if command_html.len() > 0 {
        command_html
    } else {
        "<div class=\"flex\">\n      <span aria-hidden=\"true\" class=\""@ + DOLLAR_CLASS@ + "\">$</span>\n      <code class=\""@ + CODE_CLASS@ + "\">"@ + escaped_text(command) + "</code>\n      <button type=\"button\" data-cmd-copy data-copy=\""@ + escaped_attr(command) + "\" aria-label=\"Copy command\" class=\""@ + COPY_BTN_CLASS@ + "\"><span data-cmd-icon=\"copy\">"@ + COPY_ICON@ + "</span><span data-cmd-icon=\"check\" hidden class=\"text-positive\">"@ + CHECK_ICON@ + "</span></button>\n    </div>"@
    }
}

/// The markup of step number `n`.
pub open spec fn spec_step(n: usize, step: QuickStartStep) -> Seq<char> {
    "<li class=\"grid grid-cols-1 gap-y-4 md:grid-cols-[20rem_1fr] md:gap-x-10 md:items-start py-7 first:pt-0\">\n  <div class=\"flex gap-4\">\n    <span aria-hidden=\"true\" class=\"flex-none flex items-center justify-center w-7 h-7 rounded-full border border-line bg-surface text-ink-900 mono text-[13px] font-medium\">"@ + decimal(n as nat) + "</span>\n    <div class=\"min-w-0\">\n      <h4 class=\"text-[15px] font-semibold tracking-tight text-ink-900\">"@ + escaped_text(step.title@) + "</h4>\n      <p class=\"mt-1.5 text-[13px] text-ink-700 leading-relaxed\">"@ + step.body_html@ + "</p>\n    </div>\n  </div>\n  <div class=\"min-w-0 pl-11 md:pl-0 md:max-w-[50%]\">\n    <h4 aria-hidden=\"true\" class=\"hidden md:block invisible text-[15px] font-semibold tracking-tight\">"@ + escaped_text(step.title@) + "</h4>\n    <div class=\"md:mt-1.5\">"@ + spec_right_column(step.command@, step.command_html@) + "</div>\n  </div>\n</li>"@
}

/// Build the right-column content for a step: either the caller's custom
/// markup or a copyable `$` command block.
pub fn right_column(step: &QuickStartStep<'_>) -> (out: String)
    ensures
        out@ == spec_right_column(step.command@, step.command_html@),
{
    let mut out = String::new();
    if !step.command_html.is_empty() {
        push_str(&mut out, step.command_html);
        return out;
    }
    let command_text = escape_html_text(step.command);
    let command_attr = escape_html_attr(step.command);
    push_str(&mut out, "<div class=\"flex\">\n      <span aria-hidden=\"true\" class=\"");
    push_str(&mut out, DOLLAR_CLASS);
    push_str(&mut out, "\">$</span>\n      <code class=\"");
    push_str(&mut out, CODE_CLASS);
    push_str(&mut out, "\">");
    push_str(&mut out, command_text.as_str());
    push_str(&mut out, "</code>\n      <button type=\"button\" data-cmd-copy data-copy=\"");
    push_str(&mut out, command_attr.as_str());
    push_str(&mut out, "\" aria-label=\"Copy command\" class=\"");
    push_str(&mut out, COPY_BTN_CLASS);
    push_str(&mut out, "\"><span data-cmd-icon=\"copy\">");
    push_str(&mut out, COPY_ICON);
    push_str(&mut out, "</span><span data-cmd-icon=\"check\" hidden class=\"text-positive\">");
    push_str(&mut out, CHECK_ICON);
    push_str(&mut out, "</span></button>\n    </div>");
    out
}

/// Append step number `n` to `out`: a two-column row (explainer left,
/// command right) that stacks to a single column on narrow viewports.
pub fn push_step(out: &mut String, n: usize, step: &QuickStartStep<'_>)
    ensures
        final(out)@ == old(out)@ + spec_step(n, *step),
{
    let title = escape_html_text(step.title);
    let command = right_column(step);
    let number = to_decimal(n as u64);
    push_str(out, "<li class=\"grid grid-cols-1 gap-y-4 md:grid-cols-[20rem_1fr] md:gap-x-10 md:items-start py-7 first:pt-0\">\n  <div class=\"flex gap-4\">\n    <span aria-hidden=\"true\" class=\"flex-none flex items-center justify-center w-7 h-7 rounded-full border border-line bg-surface text-ink-900 mono text-[13px] font-medium\">");
    push_str(out, number.as_str());
    push_str(out, "</span>\n    <div class=\"min-w-0\">\n      <h4 class=\"text-[15px] font-semibold tracking-tight text-ink-900\">");
    push_str(out, title.as_str());
    push_str(out, "</h4>\n      <p class=\"mt-1.5 text-[13px] text-ink-700 leading-relaxed\">");
    push_str(out, step.body_html);
    push_str(out, "</p>\n    </div>\n  </div>\n  <div class=\"min-w-0 pl-11 md:pl-0 md:max-w-[50%]\">\n    <h4 aria-hidden=\"true\" class=\"hidden md:block invisible text-[15px] font-semibold tracking-tight\">");
    push_str(out, title.as_str());
    push_str(out, "</h4>\n    <div class=\"md:mt-1.5\">");
    push_str(out, command.as_str());
    push_str(out, "</div>\n  </div>\n</li>");
}

} // verus!
