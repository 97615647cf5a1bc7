//! Pieces of the site's header: the colour-theme menu and the search
//! palette.
use vstd::prelude::*;

use crate::text::push_str;

verus! {

/// The theme trigger button, up to its automatic-theme icon.
pub const THEME_TRIGGER_OPEN: &'static str = "<div class=\"relative\" id=\"theme-dropdown\">\n<button type=\"button\" id=\"theme-trigger\" aria-label=\"Color theme\" aria-haspopup=\"true\" aria-expanded=\"false\" class=\"inline-flex items-center justify-center h-7 w-7 rounded-md text-ink-500 hover:bg-surfaceMuted hover:text-ink-900 transition-colors\">\n<span class=\"theme-icon theme-icon-auto\">";

/// Between the automatic-theme and light-theme icons of the trigger.
pub const THEME_LIGHT_SLOT: &'static str = "</span>\n<span class=\"theme-icon theme-icon-light\" style=\"display:none\">";

/// Between the light-theme and dark-theme icons of the trigger.
pub const THEME_DARK_SLOT: &'static str = "</span>\n<span class=\"theme-icon theme-icon-dark\" style=\"display:none\">";

/// The end of the trigger and the start of the menu, up to the icon of its automatic option.
pub const THEME_MENU_OPEN: &'static str = "</span>\n</button>\n<div id=\"theme-menu\" class=\"absolute right-0 mt-1.5 w-36 rounded-md bg-surface border border-line shadow-tooltip py-1 text-[13px] hidden z-50\">\n<button type=\"button\" data-theme-value=\"auto\" class=\"theme-option w-full text-left px-3 h-8 flex items-center gap-2.5 text-ink-700 hover:bg-surfaceMuted hover:text-ink-900 rounded-sm\">";

/// The end of the automatic option, up to the icon of the light option.
pub const THEME_LIGHT_OPTION: &'static str = " Auto</button>\n<button type=\"button\" data-theme-value=\"light\" class=\"theme-option w-full text-left px-3 h-8 flex items-center gap-2.5 text-ink-700 hover:bg-surfaceMuted hover:text-ink-900 rounded-sm\">";

/// The end of the light option, up to the icon of the dark option.
pub const THEME_DARK_OPTION: &'static str = " Light</button>\n<button type=\"button\" data-theme-value=\"dark\" class=\"theme-option w-full text-left px-3 h-8 flex items-center gap-2.5 text-ink-700 hover:bg-surfaceMuted hover:text-ink-900 rounded-sm\">";

/// The end of the dark option and of the menu.
pub const THEME_MENU_CLOSE: &'static str = " Dark</button>\n</div>\n</div>";

/// The opening tag of the theme icons.
pub const THEME_ICON_OPEN: &'static str = "<svg class=\"h-3.5 w-3.5\" viewBox=\"0 0 24 24\" fill=\"none\" stroke=\"currentColor\" stroke-width=\"2\" stroke-linecap=\"round\" stroke-linejoin=\"round\">";

/// The sun icon of the light theme.
pub const THEME_SUN: &'static str = "<svg class=\"h-3.5 w-3.5\" viewBox=\"0 0 24 24\" fill=\"none\" stroke=\"currentColor\" stroke-width=\"2\" stroke-linecap=\"round\"><circle cx=\"12\" cy=\"12\" r=\"5\"/><path d=\"M12 1v2M12 21v2M4.22 4.22l1.42 1.42M18.36 18.36l1.42 1.42M1 12h2M21 12h2M4.22 19.78l1.42-1.42M18.36 5.64l1.42-1.42\"/></svg>";

/// The palette up to its search icon.
pub const SEARCH_MODAL_OPEN: &'static str = "<div id=\"search-modal\" class=\"search-modal hidden\">\n<div class=\"search-scrim\"></div>\n<div class=\"search-dialog\">\n<form action=\"/search\" method=\"get\" class=\"search-input-row\">\n";

/// The palette after its search icon.
pub const SEARCH_MODAL_CLOSE: &'static str = "\n<input id=\"search-modal-input\" type=\"search\" name=\"q\" placeholder=\"Search packages\u{2026}\" autocomplete=\"off\" class=\"flex-1 bg-transparent text-[15px] text-ink-900 placeholder:text-ink-400 outline-none\" />\n<kbd class=\"mono text-[11px] text-ink-400 border border-line rounded px-1.5 py-0.5 cursor-pointer\" id=\"search-close-hint\">/</kbd>\n</form>\n<div class=\"search-hint\">Type a query and press <kbd class=\"mono\">Enter</kbd> to search.</div>\n</div>\n</div>";

/// The opening tag of the palette's search icon.
pub const SEARCH_ICON_OPEN: &'static str = "<svg class=\"h-4 w-4\" viewBox=\"0 0 24 24\" fill=\"none\" stroke=\"currentColor\" stroke-width=\"2\" stroke-linecap=\"round\">";

/// An icon drawn from its opening tag and its shapes.
pub open spec fn icon_svg(open: Seq<char>, shapes: Seq<char>) -> Seq<char> {
    open + shapes + "</svg>"@
}

/// Append an icon.
fn push_icon(out: &mut String, open: &str, shapes: &str)
    ensures
        final(out)@ == old(out)@ + icon_svg(open@, shapes@),
{
    push_str(out, open);
    push_str(out, shapes);
    push_str(out, "</svg>");
}

/// The shapes of the icons the theme menu draws, as the icon set ships
/// them: the moon of the dark theme and the eclipse of the automatic one.
pub struct ThemeIcons<'a> {
    pub moon: &'a str,
    pub eclipse: &'a str,
}

/// The theme menu: a trigger showing the icon of each theme (only the
/// automatic one visible at first) and a hidden menu of the three themes.
pub open spec fn theme_dropdown_markup(moon: Seq<char>, eclipse: Seq<char>) -> Seq<char> {
    let auto = icon_svg(THEME_ICON_OPEN@, eclipse);
    let dark = icon_svg(THEME_ICON_OPEN@, moon);
    THEME_TRIGGER_OPEN@ + auto + THEME_LIGHT_SLOT@ + THEME_SUN@ + THEME_DARK_SLOT@ + dark
        + THEME_MENU_OPEN@ + auto + THEME_LIGHT_OPTION@ + THEME_SUN@ + THEME_DARK_OPTION@ + dark
        + THEME_MENU_CLOSE@
}

/// Render the theme dropdown (Auto / Light / Dark) with icons and labels.
pub fn theme_dropdown(icons: &ThemeIcons) -> (html: String)
    ensures
        html@ == theme_dropdown_markup(icons.moon@, icons.eclipse@),
{
    let mut html = String::new();
    push_str(&mut html, THEME_TRIGGER_OPEN);
    push_icon(&mut html, THEME_ICON_OPEN, icons.eclipse);
    push_str(&mut html, THEME_LIGHT_SLOT);
    push_str(&mut html, THEME_SUN);
    push_str(&mut html, THEME_DARK_SLOT);
    push_icon(&mut html, THEME_ICON_OPEN, icons.moon);
    push_str(&mut html, THEME_MENU_OPEN);
    push_icon(&mut html, THEME_ICON_OPEN, icons.eclipse);
    push_str(&mut html, THEME_LIGHT_OPTION);
    push_str(&mut html, THEME_SUN);
    push_str(&mut html, THEME_DARK_OPTION);
    push_icon(&mut html, THEME_ICON_OPEN, icons.moon);
    push_str(&mut html, THEME_MENU_CLOSE);
    html
}

/// The search palette around the shapes `search` of its icon.
pub open spec fn search_modal_markup(search: Seq<char>) -> Seq<char> {
    SEARCH_MODAL_OPEN@ + icon_svg(SEARCH_ICON_OPEN@, search) + SEARCH_MODAL_CLOSE@
}

/// Render the search command palette: hidden at first, a form that sends
/// `q` to `/search`, with the search icon drawn from the shapes `search`.
pub fn render_search_modal(search: &str) -> (html: String)
    ensures
        html@ == search_modal_markup(search@),
{
    let mut html = String::new();
    push_str(&mut html, SEARCH_MODAL_OPEN);
    push_icon(&mut html, SEARCH_ICON_OPEN, search);
    push_str(&mut html, SEARCH_MODAL_CLOSE);
    html
}

} // verus!
