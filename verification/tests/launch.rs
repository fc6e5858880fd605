use neo3_gui::decimal::port_text;
use neo3_gui::launch::{launch_plan, Platform, StreamMode};
use neo3_gui::message::with_detail;

fn pair(name: &str, value: &str) -> (String, String) {
    (name.to_string(), value.to_string())
}

#[test]
fn port_text_is_plain_decimal() {
    assert_eq!(port_text(0), "0");
    assert_eq!(port_text(7), "7");
    assert_eq!(port_text(10), "10");
    assert_eq!(port_text(99), "99");
    assert_eq!(port_text(100), "100");
    assert_eq!(port_text(8081), "8081");
    assert_eq!(port_text(9090), "9090");
    assert_eq!(port_text(10000), "10000");
    assert_eq!(port_text(65535), "65535");
}

#[test]
fn port_text_agrees_with_the_standard_formatting() {
    let mut port: u16 = 0;
    loop {
        assert_eq!(port_text(port), port.to_string());
        if port == u16::MAX {
            break;
        }
        port += 1;
    }
}

#[test]
fn with_detail_appends_the_detail() {
    assert_eq!(with_detail("Failed: ", "reason"), "Failed: reason");
    assert_eq!(with_detail("", "reason"), "reason");
    assert_eq!(with_detail("lead", ""), "lead");
}

#[test]
fn platform_is_keyed_by_the_os_identifier() {
    assert_eq!(Platform::from_os("windows"), Platform::Windows);
    assert_eq!(Platform::from_os("macos"), Platform::MacOs);
    assert_eq!(Platform::from_os("linux"), Platform::Other);
    assert_eq!(Platform::from_os("freebsd"), Platform::Other);
    assert_eq!(Platform::from_os(""), Platform::Other);
    assert_eq!(Platform::from_os("Windows"), Platform::Other);
}

#[test]
fn executable_name_depends_on_the_platform() {
    assert_eq!(Platform::Windows.executable_name(), "neo3-gui.exe");
    assert_eq!(Platform::MacOs.executable_name(), "neo3-gui");
    assert_eq!(Platform::Other.executable_name(), "neo3-gui");
}

#[test]
fn only_macos_has_a_toolchain_directory() {
    assert_eq!(Platform::MacOs.toolchain_directory(), Some("/usr/local/share/dotnet"));
    assert_eq!(Platform::Windows.toolchain_directory(), None);
    assert_eq!(Platform::Other.toolchain_directory(), None);
}

#[test]
fn plan_without_selection_sets_no_variables() {
    let plan = launch_plan(Platform::Other, None, None, None);
    assert_eq!(plan.directory, "build-neo-node");
    assert_eq!(plan.executable, "neo3-gui");
    assert!(plan.env.is_empty());
    assert_eq!(plan.stdout, StreamMode::Piped);
    assert_eq!(plan.stderr, StreamMode::Piped);
}

#[test]
fn plan_hands_network_and_port_to_the_child() {
    let plan = launch_plan(
        Platform::Other,
        Some("testnet".to_string()),
        Some(9090),
        Some("/usr/bin".to_string()),
    );
    assert_eq!(plan.env, vec![pair("NEO_NETWORK", "testnet"), pair("NEO_GUI_PORT", "9090")]);
}

#[test]
fn plan_sets_only_what_was_given() {
    let plan = launch_plan(Platform::Other, Some("mainnet".to_string()), None, None);
    assert_eq!(plan.env, vec![pair("NEO_NETWORK", "mainnet")]);
    let plan = launch_plan(Platform::Other, None, Some(8081), None);
    assert_eq!(plan.env, vec![pair("NEO_GUI_PORT", "8081")]);
}

#[test]
fn plan_on_windows_names_the_exe_and_leaves_the_search_path() {
    let plan = launch_plan(Platform::Windows, None, Some(1), Some("C:\\bin".to_string()));
    assert_eq!(plan.directory, "build-neo-node");
    assert_eq!(plan.executable, "neo3-gui.exe");
    assert_eq!(plan.env, vec![pair("NEO_GUI_PORT", "1")]);
    assert_eq!(plan.stdout, StreamMode::Piped);
    assert_eq!(plan.stderr, StreamMode::Piped);
}

#[test]
fn plan_on_macos_extends_the_search_path() {
    let plan = launch_plan(
        Platform::MacOs,
        Some("testnet".to_string()),
        Some(9090),
        Some("/usr/bin:/bin".to_string()),
    );
    assert_eq!(plan.executable, "neo3-gui");
    assert_eq!(
        plan.env,
        vec![
            pair("NEO_NETWORK", "testnet"),
            pair("NEO_GUI_PORT", "9090"),
            pair("PATH", "/usr/bin:/bin:/usr/local/share/dotnet"),
        ]
    );
}

#[test]
fn plan_on_macos_without_search_path_sets_none() {
    let plan = launch_plan(Platform::MacOs, None, None, None);
    assert!(plan.env.is_empty());
}

#[test]
fn plan_on_macos_with_empty_search_path_still_extends_it() {
    let plan = launch_plan(Platform::MacOs, None, None, Some(String::new()));
    assert_eq!(plan.env, vec![pair("PATH", ":/usr/local/share/dotnet")]);
}
