//! What the tray menu shows and what its items do. Building the menu is the
//! shell's part; the texts and the choices are made here.

use vstd::prelude::*;
use crate::dto::ServiceStatus;
use crate::dto::ServiceStatusView;

verus! {

/// The id of the menu item that shows the version.
pub const MENU_VERSION: &'static str = "version-label";

/// The id of the menu item that shows the status line.
pub const MENU_STATUS: &'static str = "status-label";

/// The id of the menu item that starts or pauses the watching.
pub const MENU_TOGGLE_RUNNING: &'static str = "toggle-running";

/// The id of the menu item that switches dry run.
pub const MENU_TOGGLE_DRY_RUN: &'static str = "toggle-dry-run";

/// The id of the menu item that switches launch on login.
pub const MENU_LAUNCH_ON_LOGIN: &'static str = "launch-on-login";

/// The id of the menu item that undoes the last rename.
pub const MENU_UNDO: &'static str = "undo";

/// The id of the menu item that opens the main window.
pub const MENU_OPEN_MAIN: &'static str = "open-main";

/// The id of the menu item that leaves the application.
pub const MENU_QUIT: &'static str = "quit";

/// The id of the menu that lists the directories.
pub const MENU_DIRECTORIES: &'static str = "directories";

/// What the choice of a menu item asks for.
#[derive(Debug, Clone, Copy, PartialEq, Eq, Structural)]
pub enum MenuAction {
    /// Ask the worker to switch between watching and pausing.
    ToggleRunning,
    /// Ask the worker to set dry run to this.
    SetDryRun(bool),
    /// Ask the worker to set launch on login to this.
    SetLaunchOnLogin(bool),
    /// Ask the worker to undo its last rename.
    Undo,
    /// Show the main window.
    OpenMain,
    /// Leave the application.
    Quit,
    /// The item does nothing.
    Nothing,
}

/// The kind of a build, as the version label names it.
pub open spec fn build_kind(debug_build: bool, official_build: bool) -> Seq<char> {
    if debug_build {
        "debug"@
    } else if official_build {
        "release"@
    } else {
        "local"@
    }
}

/// The version label: `v`, the version, and the kind of build in brackets.
pub open spec fn version_label(version: Seq<char>, debug_build: bool, official_build: bool) -> Seq<
    char,
> {
    "v"@ + version + " ("@ + build_kind(debug_build, official_build) + ")"@
}

/// The one digit `d` as a text.
pub open spec fn digit_text(d: nat) -> Seq<char> {
    if d == 0 {
        "0"@
    } else if d == 1 {
        "1"@
    } else if d == 2 {
        "2"@
    } else if d == 3 {
        "3"@
    } else if d == 4 {
        "4"@
    } else if d == 5 {
        "5"@
    } else if d == 6 {
        "6"@
    } else if d == 7 {
        "7"@
    } else if d == 8 {
        "8"@
    } else {
        "9"@
    }
}

/// A number in decimal digits, without leading zeros.
pub open spec fn decimal(n: nat) -> Seq<char>
    decreases n,
{
    if n < 10 {
        digit_text(n)
    } else {
        decimal(n / 10) + digit_text(n % 10)
    }
}

/// The label of the item that starts or pauses the watching.
pub open spec fn run_label_spec(running: bool) -> Seq<char> {
    if running {
        "Pause Watching"@
    } else {
        "Start Watching"@
    }
}

/// The status line: paused with no directories, watching so many of them,
/// or paused.
pub open spec fn status_label_spec(status: ServiceStatusView) -> Seq<char> {
    if status.directories.len() == 0 {
        "Status: Paused (no directories)"@
    } else if status.running {
        "Status: Watching "@ + decimal(status.directories.len()) + (if status.directories.len()
            == 1 {
            " dir"@
        } else {
            " dirs"@
        })
    } else {
        "Status: Paused"@
    }
}

/// What the menu item `item` asks for, given the status that the tray shows.
pub open spec fn menu_action_spec(item: Seq<char>, status: ServiceStatusView) -> MenuAction {
    if item == MENU_TOGGLE_RUNNING@ {
        MenuAction::ToggleRunning
    } else if item == MENU_TOGGLE_DRY_RUN@ {
        MenuAction::SetDryRun(!status.dry_run)
    } else if item == MENU_LAUNCH_ON_LOGIN@ {
        MenuAction::SetLaunchOnLogin(!status.launch_on_login)
    } else if item == MENU_UNDO@ {
        MenuAction::Undo
    } else if item == MENU_OPEN_MAIN@ {
        MenuAction::OpenMain
    } else if item == MENU_QUIT@ {
        MenuAction::Quit
    } else {
        MenuAction::Nothing
    }
}

/// The label of a directory in the menu: its last component where the path
/// has one that is text, and the whole path where it has not.
pub open spec fn directory_label_spec(directory: Seq<char>, file_name: Option<Seq<char>>) -> Seq<
    char,
> {
    match file_name {
        Some(name) => name,
        None => directory,
    }
}

/// The version label, such as `v1.2.0 (release)`. A debug build is `debug`,
/// an official build that is no debug build is `release`, every other is
/// `local`.
pub fn get_version_string(version: &str, debug_build: bool, official_build: bool) -> (label: String)
    ensures
        label@ == version_label(version@, debug_build, official_build),
{
    let kind = if debug_build {
        "debug"
    } else if official_build {
        "release"
    } else {
        "local"
    };
    let label = String::from_str("v").concat(version).concat(" (").concat(kind).concat(")");
    label
}

/// The one digit `d` as a text.
fn digit(d: usize) -> (text: &'static str)
    requires
        d < 10,
    ensures
        text@ == digit_text(d as nat),
{
    if d == 0 {
        "0"
    } else if d == 1 {
        "1"
    } else if d == 2 {
        "2"
    } else if d == 3 {
        "3"
    } else if d == 4 {
        "4"
    } else if d == 5 {
        "5"
    } else if d == 6 {
        "6"
    } else if d == 7 {
        "7"
    } else if d == 8 {
        "8"
    } else {
        "9"
    }
}

/// A number in decimal digits, without leading zeros.
pub fn decimal_text(n: usize) -> (text: String)
    ensures
        text@ == decimal(n as nat),
    decreases n,
{
    if n < 10 {
        String::from_str(digit(n))
    } else {
        decimal_text(n / 10).concat(digit(n % 10))
    }
}

/// The label of the item that starts or pauses the watching.
pub fn run_label(running: bool) -> (label: &'static str)
    ensures
        label@ == run_label_spec(running),
{
    if running {
        "Pause Watching"
    } else {
        "Start Watching"
    }
}

/// The status line of the menu.
pub fn status_label(status: &ServiceStatus) -> (label: String)
    ensures
        label@ == status_label_spec(status@),
{
    let count: usize = status.directories.len();
    if count == 0 {
        String::from_str("Status: Paused (no directories)")
    } else if status.running {
        let unit = if count == 1 {
            " dir"
        } else {
            " dirs"
        };
        String::from_str("Status: Watching ").concat(decimal_text(count).as_str()).concat(unit)
    } else {
        String::from_str("Status: Paused")
    }
}

/// The text of the one entry that the directories menu holds while no
/// directory is watched.
pub fn no_directories_label() -> (label: &'static str)
    ensures
        label@ == "No directories configured"@,
{
    "No directories configured"
}

/// The label of a directory in the menu, given the last component of its
/// path where it has one that is text.
pub fn directory_label(directory: &str, file_name: Option<String>) -> (label: String)
    ensures
        label@ == directory_label_spec(
            directory@,
            match file_name {
                Some(name) => Some(name@),
                None => None,
            },
        ),
{
    match file_name {
        Some(name) => name,
        None => String::from_str(directory),
    }
}

/// Whether two texts are the same.
fn same_text(left: &str, right: &str) -> (same: bool)
    ensures
        same == (left@ == right@),
{
    String::from_str(left) == String::from_str(right)
}

/// What the menu item `item` asks for, given the status that the tray
/// shows. The two switches ask for the opposite of what is shown. An item
/// that is not known asks for nothing.
pub fn menu_action(item: &str, status: &ServiceStatus) -> (action: MenuAction)
    ensures
        action == menu_action_spec(item@, status@),
{
    if same_text(item, MENU_TOGGLE_RUNNING) {
        MenuAction::ToggleRunning
    } else if same_text(item, MENU_TOGGLE_DRY_RUN) {
        MenuAction::SetDryRun(!status.dry_run)
    } else if same_text(item, MENU_LAUNCH_ON_LOGIN) {
        MenuAction::SetLaunchOnLogin(!status.launch_on_login)
    } else if same_text(item, MENU_UNDO) {
        MenuAction::Undo
    } else if same_text(item, MENU_OPEN_MAIN) {
        MenuAction::OpenMain
    } else if same_text(item, MENU_QUIT) {
        MenuAction::Quit
    } else {
        MenuAction::Nothing
    }
}

} // verus!
