//! The commands of the operator's console.

use vstd::prelude::*;
use crate::text::starts_with;

verus! {

/// One line typed at the console.
#[derive(Debug, PartialEq)]
pub struct ConsoleMessage(pub String);

/// What a console line asks for.
#[derive(Clone, Copy, Debug, PartialEq, Eq)]
pub enum ConsoleCommand {
    /// Reload the settings and compile their script anew.
    ReloadWebConfig,
    /// Print the settings.
    ShowWebConfig,
    /// Print the shortcuts.
    ShowShortcuts,
    /// Reload the shortcuts.
    ReloadShortcuts,
    /// Reload the dashboards.
    ReloadDashboards,
    /// Reload the groups.
    ReloadGroups,
    /// The line is no command.
    NotFound,
}

/// The command that a line stands for: the first of the known commands
/// with which the line begins.
pub open spec fn command_of(line: Seq<char>) -> ConsoleCommand {
    if "/reload_web_config"@.is_prefix_of(line) {
        ConsoleCommand::ReloadWebConfig
    } else if "/show_web_config"@.is_prefix_of(line) {
        ConsoleCommand::ShowWebConfig
    } else if "/show_shortcuts"@.is_prefix_of(line) {
        ConsoleCommand::ShowShortcuts
    } else if "/reload_shortcuts"@.is_prefix_of(line) {
        ConsoleCommand::ReloadShortcuts
    } else if "/reload_dashboards"@.is_prefix_of(line) {
        ConsoleCommand::ReloadDashboards
    } else if "/reload_groups"@.is_prefix_of(line) {
        ConsoleCommand::ReloadGroups
    } else {
        ConsoleCommand::NotFound
    }
}

impl ConsoleMessage {
    /// Whether the line begins with the given command.
    pub fn is(&self, cmd: &str) -> (r: bool)
        ensures
            r == cmd@.is_prefix_of(self.0@),
    {
        starts_with(self.0.as_str(), cmd)
    }

    /// The command that the line stands for.
    pub fn command(&self) -> (r: ConsoleCommand)
        ensures
            r == command_of(self.0@),
    {
        if self.is("/reload_web_config") {
            ConsoleCommand::ReloadWebConfig
        } else if self.is("/show_web_config") {
            ConsoleCommand::ShowWebConfig
        } else if self.is("/show_shortcuts") {
            ConsoleCommand::ShowShortcuts
        } else if self.is("/reload_shortcuts") {
            ConsoleCommand::ReloadShortcuts
        } else if self.is("/reload_dashboards") {
            ConsoleCommand::ReloadDashboards
        } else if self.is("/reload_groups") {
            ConsoleCommand::ReloadGroups
        } else {
            ConsoleCommand::NotFound
        }
    }
}

} // verus!
