use nebula_tower::readiness::ReadinessResult;
use nebula_tower::supervisor::SupervisorState;
use nebula_tower::tray::{
    refresh, toggle_action, tray_command, tray_menu, ToggleAction, TrayCommand, TrayMenuModel,
};

fn rows(menu: &TrayMenuModel) -> Vec<(String, String, bool)> {
    let mut out = Vec::new();
    for item in &menu.items {
        out.push((item.id.clone(), item.title.clone(), item.enabled));
    }
    out
}

fn row(id: &str, title: &str, enabled: bool) -> (String, String, bool) {
    (id.to_string(), title.to_string(), enabled)
}

fn install_menu() -> Vec<(String, String, bool)> {
    vec![
        row("download_nebula", "Download Nebula", true),
        row("settings", "Settings…", true),
        row("quit", "Quit", true),
    ]
}

#[test]
fn without_the_binary_only_install_settings_quit() {
    for version in [None, Some("1.9.0")] {
        for config_ok in [false, true] {
            for running in [false, true] {
                for latency in [0u64, 12, u64::MAX] {
                    let menu = tray_menu(false, version, config_ok, running, latency);
                    assert_eq!(rows(&menu), install_menu());
                }
            }
        }
    }
}

#[test]
fn without_configuration_connect_is_disabled() {
    let menu = tray_menu(true, Some("1.9.0"), false, true, 33);
    assert_eq!(
        rows(&menu),
        vec![
            row("nebula_version", "Nebula: 1.9.0", false),
            row("toggle", "Connect", false),
            row("settings", "Settings…", true),
            row("quit", "Quit", true),
        ]
    );
    let unknown = tray_menu(true, None, false, false, 0);
    assert_eq!(unknown.items[0].title, "Nebula: (version unknown)");
    assert!(!unknown.items[0].enabled);
}

#[test]
fn ready_menu_when_stopped() {
    let menu = tray_menu(true, Some("1.9.0"), true, false, 0);
    assert_eq!(
        rows(&menu),
        vec![
            row("nebula_version", "Nebula: 1.9.0", false),
            row("toggle", "Start", true),
            row("status", "Status: Stopped  |  Ping: 0ms", false),
            row("settings", "Settings…", true),
            row("open_log", "Open Debug Log", true),
            row("install_nebula", "Install Nebula", true),
            row("quit", "Quit", true),
        ]
    );
}

#[test]
fn ready_menu_when_running() {
    let menu = tray_menu(true, None, true, true, 128);
    assert_eq!(
        rows(&menu),
        vec![
            row("nebula_version", "Nebula: (version unknown)", false),
            row("toggle", "Stop", true),
            row("status", "Status: Running  |  Ping: 128ms", false),
            row("settings", "Settings…", true),
            row("open_log", "Open Debug Log", true),
            row("install_nebula", "Install Nebula", true),
            row("quit", "Quit", true),
        ]
    );
}

#[test]
fn refresh_reads_the_record_and_the_readiness() {
    let mut state: SupervisorState<u32> = SupervisorState::new();
    let ready = ReadinessResult {
        binary_present: true,
        config_and_certs_present: true,
        ping_host_valid: true,
    };
    assert_eq!(rows(&refresh(&state, &ready, None)), rows(&tray_menu(true, None, true, false, 0)));
    state.adopt(4);
    state.record_latency(21);
    assert_eq!(
        rows(&refresh(&state, &ready, Some("v"))),
        rows(&tray_menu(true, Some("v"), true, true, 21))
    );
    let no_host = ReadinessResult { ping_host_valid: false, ..ready };
    assert_eq!(
        rows(&refresh(&state, &no_host, Some("v"))),
        rows(&tray_menu(true, Some("v"), false, true, 21))
    );
    let no_binary = ReadinessResult { binary_present: false, ..ready };
    assert_eq!(rows(&refresh(&state, &no_binary, Some("v"))), install_menu());
}

#[test]
fn toggle_is_guarded_when_it_is_chosen() {
    assert_eq!(toggle_action(false, true, true), ToggleAction::Ignore);
    assert_eq!(toggle_action(true, false, false), ToggleAction::Ignore);
    assert_eq!(toggle_action(false, false, false), ToggleAction::Ignore);
    assert_eq!(toggle_action(true, true, true), ToggleAction::Stop);
    assert_eq!(toggle_action(true, true, false), ToggleAction::Start);
}

#[test]
fn items_send_their_commands() {
    assert_eq!(tray_command("toggle"), TrayCommand::Toggle);
    assert_eq!(tray_command("download_nebula"), TrayCommand::Install);
    assert_eq!(tray_command("install_nebula"), TrayCommand::Install);
    assert_eq!(tray_command("settings"), TrayCommand::OpenSettings);
    assert_eq!(tray_command("open_log"), TrayCommand::OpenLog);
    assert_eq!(tray_command("quit"), TrayCommand::Quit);
    assert_eq!(tray_command("status"), TrayCommand::Unknown);
    assert_eq!(tray_command("nebula_version"), TrayCommand::Unknown);
    assert_eq!(tray_command(""), TrayCommand::Unknown);
    assert_eq!(tray_command("Quit"), TrayCommand::Unknown);
}
