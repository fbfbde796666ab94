use input_bridge::settings::{
    open_accessibility_settings, settings_pane_target, LaunchError, OsPolicy,
};

#[test]
fn ungated_os_always_succeeds() {
    assert!(open_accessibility_settings(OsPolicy::Ungated, true).is_ok());
    assert!(open_accessibility_settings(OsPolicy::Ungated, false).is_ok());
}

#[test]
fn ungated_os_has_no_pane_to_open() {
    assert_eq!(settings_pane_target(OsPolicy::Ungated), None);
}

#[test]
fn gated_os_opens_the_accessibility_pane() {
    assert_eq!(
        settings_pane_target(OsPolicy::Gated),
        Some("x-apple.systempreferences:com.apple.preference.security?Privacy_Accessibility")
    );
}

#[test]
fn gated_os_reports_the_shell_outcome() {
    assert!(open_accessibility_settings(OsPolicy::Gated, true).is_ok());
    assert_eq!(
        open_accessibility_settings(OsPolicy::Gated, false),
        Err(LaunchError::ShellFailed)
    );
}

#[test]
fn launch_failure_names_the_pane() {
    assert_eq!(
        LaunchError::ShellFailed.message(),
        "failed to open the accessibility settings pane"
    );
}
