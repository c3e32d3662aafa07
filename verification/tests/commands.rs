use panoptic::commands::CommandHandler;
use panoptic::commands::CommandTable;
use panoptic::commands::RegistrationError;
use panoptic::commands::run_handler;

#[test]
fn empty_table_dispatches_nothing() {
    let table = CommandTable::new();
    assert_eq!(table.dispatch(&"get_app_version".to_string()), None);
}

#[test]
fn registered_command_dispatches_its_handler_output() {
    let mut table = CommandTable::new();
    let registered = table.register("get_app_version".to_string(), CommandHandler::AppVersion);
    assert_eq!(registered, Ok(()));
    assert_eq!(
        table.dispatch(&"get_app_version".to_string()),
        Some("0.1.0".to_string())
    );
}

#[test]
fn unknown_name_dispatches_nothing() {
    let mut table = CommandTable::new();
    table
        .register("get_app_version".to_string(), CommandHandler::AppVersion)
        .unwrap();
    assert_eq!(table.dispatch(&"get_app_versio".to_string()), None);
    assert_eq!(table.dispatch(&"".to_string()), None);
}

#[test]
fn duplicate_name_is_rejected_not_overwritten() {
    let mut table = CommandTable::new();
    table
        .register("get_app_version".to_string(), CommandHandler::AppVersion)
        .unwrap();
    let second = table.register("get_app_version".to_string(), CommandHandler::AppVersion);
    assert_eq!(second, Err(RegistrationError::DuplicateName));
    assert_eq!(table.entries.len(), 1);
    assert_eq!(
        table.dispatch(&"get_app_version".to_string()),
        Some("0.1.0".to_string())
    );
}

#[test]
fn contains_name_reports_registration() {
    let mut table = CommandTable::new();
    assert!(!table.contains_name(&"get_app_version".to_string()));
    table
        .register("get_app_version".to_string(), CommandHandler::AppVersion)
        .unwrap();
    assert!(table.contains_name(&"get_app_version".to_string()));
    assert!(!table.contains_name(&"other".to_string()));
}

#[test]
fn version_handler_outputs_version() {
    assert_eq!(run_handler(&CommandHandler::AppVersion), "0.1.0".to_string());
}
