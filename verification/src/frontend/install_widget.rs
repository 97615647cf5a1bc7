//! Install widget: the platform picker for installing the `component` CLI.
//! A leading dropdown selects the platform (Linux, macOS, Windows) and the
//! joined field shows the matching install command. Inline JS auto-detects the
//! visitor's platform on load and pre-selects it; without JS the first option
//! stays selected and its command remains visible.
use vstd::prelude::*;

use crate::frontend::input_group::{
    button_with_dropdown, spec_button_with_dropdown, ButtonWithDropdown, DropdownOption,
};
use crate::text::push_str;

verus! {

/// A single platform's install instructions.
pub struct InstallOption<'a> {
    /// Slug used in markup and platform auto-detection: `"linux"`, `"macos"`,
    /// or `"windows"`.
    pub id: &'a str,
    /// Dropdown label shown to the user (e.g. `"Linux"`).
    pub label: &'a str,
    /// Shell command that installs the CLI on this platform.
    pub command: &'a str,
}

/// One-shot platform auto-detection. Scoped to the install widget so it is a
/// no-op on pages without it, it maps the visitor's platform to an option id
/// and drives the dropdown through the input group's `igSelect` API.
pub const AUTODETECT_SCRIPT: &'static str = r#"<script>
(function(){
  var root = document.querySelector('[data-install-cta] [data-input-group]');
  if(!root || typeof root.igSelect !== 'function') return;
  var ua = ((navigator.userAgentData && navigator.userAgentData.platform) || navigator.platform || navigator.userAgent || '').toLowerCase();
  var id = null;
  if (ua.indexOf('win') !== -1) id = 'windows';
  else if (ua.indexOf('mac') !== -1) id = 'macos';
  else if (ua.indexOf('linux') !== -1 || ua.indexOf('x11') !== -1) id = 'linux';
  if (id) root.igSelect(id);
})();
</script>"#;

/// The dropdown option of each platform: its id, label and command.
pub open spec fn platform_choices(options: Seq<InstallOption>) -> Seq<DropdownOption> {
    options.map_values(|o: InstallOption| DropdownOption { id: o.id, label: o.label, value: o.command })
}

/// The widget: the platform dropdown (first platform selected, `$` prompt,
/// copy button) wrapped for auto-detection, then the detection script.
pub open spec fn spec_widget(options: Seq<InstallOption>) -> Seq<char> {
    "<div class=\"min-w-0\" data-install-cta>"@ + spec_button_with_dropdown(
        platform_choices(options),
        0,
        "Choose your platform"@,
        "Install command"@,
        "mono"@,
        true,
        "$"@,
    ) + "</div>"@ + AUTODETECT_SCRIPT@
}

/// Render the platform install widget: a dropdown joined to the command field,
/// plus the platform auto-detection script.
pub fn widget(options: &[InstallOption<'_>]) -> (out: String)
    ensures
        out@ == spec_widget(options@),
{
    let mut choices: Vec<DropdownOption<'_>> = Vec::new();
    for i in 0..options.len()
        invariant
            choices@ == platform_choices(options@.take(i as int)),
    {
        let o = &options[i];
        choices.push(DropdownOption { id: o.id, label: o.label, value: o.command });
        assert(platform_choices(options@.take(i + 1)) =~= platform_choices(options@.take(i as int)).push(
            DropdownOption { id: o.id, label: o.label, value: o.command },
        ));
    }
    assert(options@.take(options.len() as int) =~= options@);
    let group = button_with_dropdown(
        &ButtonWithDropdown {
            options: choices.as_slice(),
            selected: 0,
            trigger_aria_label: "Choose your platform",
            field_aria_label: "Install command",
            field_class: "mono",
            with_copy: true,
            prefix: "$",
        },
    );
    let mut out = String::new();
    push_str(&mut out, "<div class=\"min-w-0\" data-install-cta>");
    push_str(&mut out, group.as_str());
    push_str(&mut out, "</div>");
    push_str(&mut out, AUTODETECT_SCRIPT);
    out
}

} // verus!
