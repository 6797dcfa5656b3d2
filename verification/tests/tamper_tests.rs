use open_accountability::tamper::check_service_descriptor;

#[test]
fn descriptor_with_both_directives_passes() {
    let contents = "[Service]\nExecStart=/usr/bin/agent\nRestart=always\nRestartSec=30s\n";
    assert!(check_service_descriptor(contents));
}

#[test]
fn descriptor_with_overridden_restart_and_no_delay_fails() {
    // The always-restart line is the last restart line, but the delay
    // directive is missing altogether.
    let contents = "Restart=on-failure\nRestart=always\n";
    assert!(!check_service_descriptor(contents));
}

#[test]
fn later_restart_line_overrides_earlier_one() {
    let contents = "Restart=always\nRestart=on-failure\nRestartSec=30s\n";
    assert!(!check_service_descriptor(contents));

    let contents = "Restart=on-failure\nRestart=always\nRestartSec=30s\n";
    assert!(check_service_descriptor(contents));
}

#[test]
fn later_restart_sec_line_overrides_earlier_one() {
    let contents = "Restart=always\nRestartSec=30s\nRestartSec=10s\n";
    assert!(!check_service_descriptor(contents));
}

#[test]
fn commented_restart_line_counts_as_override() {
    // Any line holding the restart key that is not exactly the required
    // directive overrides it.
    let contents = "Restart=always\n# Restart=always\nRestartSec=30s\n";
    assert!(!check_service_descriptor(contents));
}

#[test]
fn descriptor_with_carriage_returns_passes() {
    let contents = "Restart=always\r\nRestartSec=30s\r\n";
    assert!(check_service_descriptor(contents));
}

#[test]
fn empty_descriptor_fails() {
    assert!(!check_service_descriptor(""));
}

#[test]
fn missing_restart_fails() {
    assert!(!check_service_descriptor("RestartSec=30s\n"));
}
