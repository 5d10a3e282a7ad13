use namefix_bridge::dto::ServiceStatus;
use namefix_bridge::tray::{
    decimal_text, directory_label, get_version_string, menu_action, no_directories_label, run_label,
    status_label, MenuAction, MENU_DIRECTORIES, MENU_LAUNCH_ON_LOGIN, MENU_OPEN_MAIN, MENU_QUIT,
    MENU_STATUS, MENU_TOGGLE_DRY_RUN, MENU_TOGGLE_RUNNING, MENU_UNDO, MENU_VERSION,
};

fn status(running: bool, directories: usize) -> ServiceStatus {
    ServiceStatus {
        running,
        directories: (0..directories).map(|n| format!("/dir/{}", n)).collect(),
        dry_run: true,
        launch_on_login: false,
    }
}

#[test]
fn version_string_names_the_build() {
    assert_eq!(get_version_string("1.2.0", true, false), "v1.2.0 (debug)");
    assert_eq!(get_version_string("1.2.0", true, true), "v1.2.0 (debug)");
    assert_eq!(get_version_string("1.2.0", false, true), "v1.2.0 (release)");
    assert_eq!(get_version_string("0.0.1-beta", false, false), "v0.0.1-beta (local)");
    assert_eq!(get_version_string("", false, false), "v (local)");
}

#[test]
fn decimal_text_agrees_with_std() {
    for n in [0usize, 1, 9, 10, 11, 99, 100, 101, 12345, 1_000_000, usize::MAX] {
        assert_eq!(decimal_text(n), n.to_string());
    }
}

#[test]
fn run_label_offers_the_other_state() {
    assert_eq!(run_label(true), "Pause Watching");
    assert_eq!(run_label(false), "Start Watching");
}

#[test]
fn status_label_counts_directories() {
    assert_eq!(status_label(&status(true, 0)), "Status: Paused (no directories)");
    assert_eq!(status_label(&status(false, 0)), "Status: Paused (no directories)");
    assert_eq!(status_label(&status(true, 1)), "Status: Watching 1 dir");
    assert_eq!(status_label(&status(true, 2)), "Status: Watching 2 dirs");
    assert_eq!(status_label(&status(true, 12)), "Status: Watching 12 dirs");
    assert_eq!(status_label(&status(false, 3)), "Status: Paused");
}

#[test]
fn directory_label_prefers_the_last_component() {
    assert_eq!(directory_label("/Users/me/Desktop", Some("Desktop".to_string())), "Desktop");
    assert_eq!(directory_label("/", None), "/");
    assert_eq!(no_directories_label(), "No directories configured");
}

#[test]
fn menu_items_ask_for_their_action() {
    let shown = ServiceStatus {
        running: true,
        directories: vec![],
        dry_run: true,
        launch_on_login: false,
    };
    assert_eq!(menu_action("toggle-running", &shown), MenuAction::ToggleRunning);
    assert_eq!(menu_action("toggle-dry-run", &shown), MenuAction::SetDryRun(false));
    assert_eq!(menu_action("launch-on-login", &shown), MenuAction::SetLaunchOnLogin(true));
    assert_eq!(menu_action("undo", &shown), MenuAction::Undo);
    assert_eq!(menu_action("open-main", &shown), MenuAction::OpenMain);
    assert_eq!(menu_action("quit", &shown), MenuAction::Quit);
    for other in ["", "version-label", "status-label", "directories", "Quit", "undo "] {
        assert_eq!(menu_action(other, &shown), MenuAction::Nothing);
    }
}

#[test]
fn switches_ask_for_the_opposite_of_what_is_shown() {
    let shown = ServiceStatus {
        running: false,
        directories: vec![],
        dry_run: false,
        launch_on_login: true,
    };
    assert_eq!(menu_action("toggle-dry-run", &shown), MenuAction::SetDryRun(true));
    assert_eq!(menu_action("launch-on-login", &shown), MenuAction::SetLaunchOnLogin(false));
}

#[test]
fn menu_ids() {
    assert_eq!(
        [
            MENU_VERSION,
            MENU_STATUS,
            MENU_TOGGLE_RUNNING,
            MENU_TOGGLE_DRY_RUN,
            MENU_LAUNCH_ON_LOGIN,
            MENU_UNDO,
            MENU_OPEN_MAIN,
            MENU_QUIT,
            MENU_DIRECTORIES,
        ],
        [
            "version-label",
            "status-label",
            "toggle-running",
            "toggle-dry-run",
            "launch-on-login",
            "undo",
            "open-main",
            "quit",
            "directories",
        ]
    );
}
