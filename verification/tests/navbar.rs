use component_cli::frontend::navbar::{render_search_modal, theme_dropdown, ThemeIcons};

const MOON: &str = "<path d=\"M12 3a6 6 0 0 0 9 9 9 9 0 1 1-9-9Z\"/>";
const ECLIPSE: &str = "<circle cx=\"12\" cy=\"12\" r=\"10\"/>";
const SEARCH: &str = "<circle cx=\"11\" cy=\"11\" r=\"8\"/>";

const THEME_TEMPLATE: &str = r#"<div class="relative" id="theme-dropdown">
<button type="button" id="theme-trigger" aria-label="Color theme" aria-haspopup="true" aria-expanded="false" class="inline-flex items-center justify-center h-7 w-7 rounded-md text-ink-500 hover:bg-surfaceMuted hover:text-ink-900 transition-colors">
<span class="theme-icon theme-icon-auto">{THEME_AUTO}</span>
<span class="theme-icon theme-icon-light" style="display:none">{THEME_SUN}</span>
<span class="theme-icon theme-icon-dark" style="display:none">{THEME_MOON}</span>
</button>
<div id="theme-menu" class="absolute right-0 mt-1.5 w-36 rounded-md bg-surface border border-line shadow-tooltip py-1 text-[13px] hidden z-50">
<button type="button" data-theme-value="auto" class="theme-option w-full text-left px-3 h-8 flex items-center gap-2.5 text-ink-700 hover:bg-surfaceMuted hover:text-ink-900 rounded-sm">{THEME_AUTO} Auto</button>
<button type="button" data-theme-value="light" class="theme-option w-full text-left px-3 h-8 flex items-center gap-2.5 text-ink-700 hover:bg-surfaceMuted hover:text-ink-900 rounded-sm">{THEME_SUN} Light</button>
<button type="button" data-theme-value="dark" class="theme-option w-full text-left px-3 h-8 flex items-center gap-2.5 text-ink-700 hover:bg-surfaceMuted hover:text-ink-900 rounded-sm">{THEME_MOON} Dark</button>
</div>
</div>"#;
const SEARCH_TEMPLATE: &str = r#"<div id="search-modal" class="search-modal hidden">
<div class="search-scrim"></div>
<div class="search-dialog">
<form action="/search" method="get" class="search-input-row">
{SVG_SEARCH_LG}
<input id="search-modal-input" type="search" name="q" placeholder="Search packages…" autocomplete="off" class="flex-1 bg-transparent text-[15px] text-ink-900 placeholder:text-ink-400 outline-none" />
<kbd class="mono text-[11px] text-ink-400 border border-line rounded px-1.5 py-0.5 cursor-pointer" id="search-close-hint">/</kbd>
</form>
<div class="search-hint">Type a query and press <kbd class="mono">Enter</kbd> to search.</div>
</div>
</div>"#;
const ICON_OPEN: &str = r#"<svg class="h-3.5 w-3.5" viewBox="0 0 24 24" fill="none" stroke="currentColor" stroke-width="2" stroke-linecap="round" stroke-linejoin="round">"#;
const SUN: &str = r#"<svg class="h-3.5 w-3.5" viewBox="0 0 24 24" fill="none" stroke="currentColor" stroke-width="2" stroke-linecap="round"><circle cx="12" cy="12" r="5"/><path d="M12 1v2M12 21v2M4.22 4.22l1.42 1.42M18.36 18.36l1.42 1.42M1 12h2M21 12h2M4.22 19.78l1.42-1.42M18.36 5.64l1.42-1.42"/></svg>"#;
const SEARCH_OPEN: &str = r#"<svg class="h-4 w-4" viewBox="0 0 24 24" fill="none" stroke="currentColor" stroke-width="2" stroke-linecap="round">"#;

#[test]
fn theme_dropdown_places_each_icon() {
    let auto = format!("{ICON_OPEN}{ECLIPSE}</svg>");
    let dark = format!("{ICON_OPEN}{MOON}</svg>");
    let expected = THEME_TEMPLATE
        .replace("{THEME_AUTO}", &auto)
        .replace("{THEME_SUN}", SUN)
        .replace("{THEME_MOON}", &dark);
    let html = theme_dropdown(&ThemeIcons { moon: MOON, eclipse: ECLIPSE });
    assert_eq!(html, expected);
    assert_eq!(html.matches("data-theme-value=").count(), 3);
}

#[test]
fn search_modal_holds_the_search_form() {
    let expected = SEARCH_TEMPLATE.replace("{SVG_SEARCH_LG}", &format!("{SEARCH_OPEN}{SEARCH}</svg>"));
    let html = render_search_modal(SEARCH);
    assert_eq!(html, expected);
    assert!(html.contains("<form action=\"/search\" method=\"get\""));
}
