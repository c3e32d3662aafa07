use panoptic::bootstrap::boot;
use panoptic::bootstrap::fatal_diagnostic;
use panoptic::bootstrap::setup_action;
use panoptic::bootstrap::version_command_name;
use panoptic::bootstrap::BuildMode;
use panoptic::bootstrap::Bootstrapper;
use panoptic::bootstrap::Phase;
use panoptic::bootstrap::SetupAction;
use panoptic::plugins::plugin_order;
use panoptic::plugins::Plugin;

#[test]
fn plugin_order_is_the_fixed_registration_order() {
    assert_eq!(
        plugin_order(),
        vec![
            Plugin::Opener,
            Plugin::Sql,
            Plugin::OsInfo,
            Plugin::Http,
            Plugin::Clipboard,
            Plugin::Notification,
            Plugin::Dialog,
            Plugin::Fs,
        ]
    );
}

#[test]
fn plugin_order_has_no_duplicates() {
    let order = plugin_order();
    for i in 0..order.len() {
        for j in 0..order.len() {
            if i != j {
                assert_ne!(order[i], order[j]);
            }
        }
    }
}

#[test]
fn debug_setup_with_main_window_opens_devtools() {
    assert_eq!(setup_action(BuildMode::Debug, true), SetupAction::OpenDevtools);
    let host = boot(BuildMode::Debug, true);
    assert_eq!(host.phase, Phase::Running);
    assert_eq!(host.devtools_requests, 1);
    assert_eq!(host.fatal, None);
}

#[test]
fn debug_setup_without_main_window_is_fatal() {
    assert_eq!(
        setup_action(BuildMode::Debug, false),
        SetupAction::FatalMissingWindow
    );
    let host = boot(BuildMode::Debug, false);
    assert_eq!(host.phase, Phase::Terminated);
    assert_eq!(host.devtools_requests, 0);
    assert!(host.fatal.is_some());
}

#[test]
fn release_setup_never_touches_devtools() {
    assert_eq!(setup_action(BuildMode::Release, true), SetupAction::Proceed);
    assert_eq!(setup_action(BuildMode::Release, false), SetupAction::Proceed);
    let with_window = boot(BuildMode::Release, true);
    let without_window = boot(BuildMode::Release, false);
    assert_eq!(with_window.devtools_requests, 0);
    assert_eq!(without_window.devtools_requests, 0);
    assert_eq!(with_window.phase, Phase::Running);
    assert_eq!(without_window.phase, Phase::Running);
}

#[test]
fn release_run_with_no_commands_terminates_cleanly() {
    let mut host = boot(BuildMode::Release, false);
    assert_eq!(host.phase, Phase::Running);
    host.windows_closed();
    assert_eq!(host.phase, Phase::Terminated);
    assert_eq!(host.fatal, None);
    assert_eq!(host.devtools_requests, 0);
}

#[test]
fn version_command_round_trip() {
    let host = boot(BuildMode::Release, true);
    let response = host.handle_command(&version_command_name());
    assert_eq!(response, Some("0.1.0".to_string()));
    let again = host.handle_command(&"get_app_version".to_string());
    assert_eq!(again, Some("0.1.0".to_string()));
}

#[test]
fn unknown_command_gets_no_response() {
    let host = boot(BuildMode::Release, true);
    assert_eq!(host.handle_command(&"open_devtools".to_string()), None);
}

#[test]
fn run_error_carries_the_fixed_diagnostic() {
    let mut host = boot(BuildMode::Release, false);
    host.run_error();
    assert_eq!(host.phase, Phase::Terminated);
    assert_eq!(host.fatal, Some("error while running Panoptic".to_string()));
    assert_eq!(fatal_diagnostic(), "error while running Panoptic".to_string());
}

#[test]
fn bootstrap_walks_the_phases_in_order() {
    let mut host = Bootstrapper::new(BuildMode::Release);
    assert_eq!(host.phase, Phase::Unstarted);
    assert!(host.plugins.is_empty());
    host.build();
    assert_eq!(host.phase, Phase::Building);
    assert_eq!(host.plugins, plugin_order());
    let registered = host.configure_commands();
    assert_eq!(registered, Ok(()));
    assert_eq!(host.phase, Phase::Configured);
    let action = host.setup(false);
    assert_eq!(action, SetupAction::Proceed);
    assert_eq!(host.phase, Phase::Running);
    host.windows_closed();
    assert_eq!(host.phase, Phase::Terminated);
}
