use new_home_server::console::{ConsoleCommand, ConsoleMessage};
use new_home_server::text::{ends_with, starts_with};

#[test]
fn console_message_is_matched_by_prefix() {
    let msg = ConsoleMessage("/reload_shortcuts now".to_string());
    assert!(msg.is("/reload_shortcuts"));
    assert!(msg.is("/reload"));
    assert!(msg.is(""));
    assert!(!msg.is("/show_shortcuts"));
    assert!(!msg.is("/reload_shortcuts now and more"));
    assert!(!ConsoleMessage(" /reload_shortcuts".to_string()).is("/reload_shortcuts"));
}

#[test]
fn console_commands_are_recognised() {
    let command = |line: &str| ConsoleMessage(line.to_string()).command();
    assert_eq!(command("/reload_web_config"), ConsoleCommand::ReloadWebConfig);
    assert_eq!(command("/show_web_config"), ConsoleCommand::ShowWebConfig);
    assert_eq!(command("/show_shortcuts"), ConsoleCommand::ShowShortcuts);
    assert_eq!(command("/reload_shortcuts"), ConsoleCommand::ReloadShortcuts);
    assert_eq!(command("/reload_dashboards"), ConsoleCommand::ReloadDashboards);
    assert_eq!(command("/reload_groups"), ConsoleCommand::ReloadGroups);
    assert_eq!(command("/reload_groups_and_more"), ConsoleCommand::ReloadGroups);
}

#[test]
fn unknown_console_lines_are_not_found() {
    let command = |line: &str| ConsoleMessage(line.to_string()).command();
    assert_eq!(command(""), ConsoleCommand::NotFound);
    assert_eq!(command("reload_groups"), ConsoleCommand::NotFound);
    assert_eq!(command("/reload_group"), ConsoleCommand::NotFound);
    assert_eq!(command("/RELOAD_GROUPS"), ConsoleCommand::NotFound);
}

#[test]
fn prefix_and_suffix_go_by_characters() {
    assert!(starts_with("äbc", "ä"));
    assert!(!starts_with("äbc", "a"));
    assert!(ends_with("abcä", "cä"));
    assert!(ends_with("abc", ""));
    assert!(!ends_with("bc", "abc"));
    assert!(!starts_with("ab", "abc"));
    assert!(starts_with("abc", "abc"));
    assert!(ends_with("abc", "abc"));
}
