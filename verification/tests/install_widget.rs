use component_cli::frontend::install_widget::{widget, InstallOption};

fn sample() -> String {
    widget(&[
        InstallOption {
            id: "linux",
            label: "Linux",
            command: "curl -LsSf https://example.com/install.sh | sh",
        },
        InstallOption {
            id: "macos",
            label: "macOS",
            command: "curl -LsSf https://example.com/install.sh | sh",
        },
        InstallOption {
            id: "windows",
            label: "Windows",
            command: "irm https://example.com/install.ps1 | iex",
        },
    ])
}

#[test]
fn renders_a_dropdown_option_per_platform() {
    let html = sample();
    for id in ["linux", "macos", "windows"] {
        assert!(
            html.contains(&format!(r#"data-ig-option="{id}""#)),
            "missing dropdown option for {id}"
        );
    }
    assert!(html.contains(">Linux<") && html.contains(">macOS<") && html.contains(">Windows<"));
}

#[test]
fn linux_is_selected_before_js_runs() {
    let html = sample();
    // The first option is pre-selected server-side; auto-detect corrects it.
    assert!(html.contains(r#"data-ig-option="linux" data-label="Linux" data-value="curl -LsSf https://example.com/install.sh | sh" aria-selected="true""#));
    assert!(html.contains(r#"data-ig-option="macos" data-label="macOS" data-value="curl -LsSf https://example.com/install.sh | sh" aria-selected="false""#));
    // The command field shows the selected platform's command up front.
    assert!(html.contains(
        r#"data-ig-field readonly value="curl -LsSf https://example.com/install.sh | sh""#
    ));
}

#[test]
fn each_platform_command_is_present() {
    let html = sample();
    assert!(html.contains("curl -LsSf https://example.com/install.sh | sh"));
    assert!(html.contains("irm https://example.com/install.ps1 | iex"));
}

#[test]
fn includes_platform_autodetect_script() {
    let html = sample();
    assert!(html.contains("data-install-cta"));
    assert!(html.contains("navigator.userAgentData"));
    assert!(html.contains("navigator.platform"));
    assert!(html.contains("root.igSelect"));
    // Detects each supported platform.
    assert!(html.contains("'windows'") && html.contains("'macos'") && html.contains("'linux'"));
}

#[test]
fn shows_a_dollar_prompt_addon() {
    let html = sample();
    // A decorative `$` prompt sits between the platform picker and the
    // command field.
    assert!(html.contains(r#"aria-hidden="true""#));
    assert!(html.contains(">$</span>"));
}
