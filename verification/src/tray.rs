//! The tray menu: a view that is rebuilt as a whole from the state of the
//! supervisor and the readiness of the machine, and the commands that its items
//! send back.

use crate::readiness::ReadinessResult;
use crate::supervisor::SupervisorState;
use crate::text::{decimal, decimal_string, same_text};
use vstd::prelude::*;

verus! {

/// One item of the tray menu.
#[derive(Debug)]
pub struct MenuItem {
    pub id: String,
    pub title: String,
    pub enabled: bool,
}

/// A menu item as plain text.
pub struct MenuItemView {
    pub id: Seq<char>,
    pub title: Seq<char>,
    pub enabled: bool,
}

impl View for MenuItem {
    type V = MenuItemView;

    open spec fn view(&self) -> MenuItemView {
        MenuItemView { id: self.id@, title: self.title@, enabled: self.enabled }
    }
}

/// The tray menu: its items from top to bottom.
#[derive(Debug)]
pub struct TrayMenuModel {
    pub items: Vec<MenuItem>,
}

impl View for TrayMenuModel {
    type V = Seq<MenuItemView>;

    open spec fn view(&self) -> Seq<MenuItemView> {
        self.items@.map_values(|item: MenuItem| item@)
    }
}

/// An item that can be chosen.
pub open spec fn action(id: Seq<char>, title: Seq<char>) -> MenuItemView {
    MenuItemView { id, title, enabled: true }
}

/// An item that only shows something.
pub open spec fn label(id: Seq<char>, title: Seq<char>) -> MenuItemView {
    MenuItemView { id, title, enabled: false }
}

/// The line that shows the version of the managed executable.
pub open spec fn version_title(version: Option<Seq<char>>) -> Seq<char> {
    match version {
        Some(v) => "Nebula: "@ + v,
        None => "Nebula: (version unknown)"@,
    }
}

/// The line that shows whether the process runs, and the round-trip time.
pub open spec fn status_title(running: bool, latency_ms: u64) -> Seq<char> {
    "Status: "@ + (if running {
        "Running"@
    } else {
        "Stopped"@
    }) + "  |  Ping: "@ + decimal(latency_ms as nat) + "ms"@
}

/// The menu when the managed executable is missing: install, settings, quit.
pub open spec fn menu_without_binary() -> Seq<MenuItemView> {
    seq![
        action("download_nebula"@, "Download Nebula"@),
        action("settings"@, "Settings…"@),
        action("quit"@, "Quit"@),
    ]
}

/// The menu when the executable is there and the configuration is not
/// complete: the version, a connect item that cannot be chosen, settings, quit.
pub open spec fn menu_without_config(version: Option<Seq<char>>) -> Seq<MenuItemView> {
    seq![
        label("nebula_version"@, version_title(version)),
        label("toggle"@, "Connect"@),
        action("settings"@, "Settings…"@),
        action("quit"@, "Quit"@),
    ]
}

/// The menu when everything is ready.
pub open spec fn menu_when_ready(version: Option<Seq<char>>, running: bool, latency_ms: u64)
    -> Seq<MenuItemView> {
    seq![
        label("nebula_version"@, version_title(version)),
        action("toggle"@, if running { "Stop"@ } else { "Start"@ }),
        label("status"@, status_title(running, latency_ms)),
        action("settings"@, "Settings…"@),
        action("open_log"@, "Open Debug Log"@),
        action("install_nebula"@, "Install Nebula"@),
        action("quit"@, "Quit"@),
    ]
}

/// The tray menu for the given facts. The three layouts exclude each other, the
/// most restrictive first.
pub open spec fn menu_of(
    binary_present: bool,
    version: Option<Seq<char>>,
    config_ok: bool,
    running: bool,
    latency_ms: u64,
) -> Seq<MenuItemView> {
    if !binary_present {
        menu_without_binary()
    } else if !config_ok {
        menu_without_config(version)
    } else {
        menu_when_ready(version, running, latency_ms)
    }
}

/// The view of an optional version string.
pub open spec fn version_text(version: Option<&str>) -> Option<Seq<char>> {
    match version {
        Some(v) => Some(v@),
        None => None,
    }
}

fn new_item(id: &str, title: &str, enabled: bool) -> (item: MenuItem)
    ensures
        item@ == (MenuItemView { id: id@, title: title@, enabled }),
{
    MenuItem { id: String::from_str(id), title: String::from_str(title), enabled }
}

fn version_item(version: Option<&str>) -> (item: MenuItem)
    ensures
        item@ == label("nebula_version"@, version_title(version_text(version))),
{
    let title = match version {
        Some(v) => {
            let mut t = String::from_str("Nebula: ");
            t.append(v);
            t
        },
        None => String::from_str("Nebula: (version unknown)"),
    };
    MenuItem { id: String::from_str("nebula_version"), title, enabled: false }
}

fn status_item(running: bool, latency_ms: u64) -> (item: MenuItem)
    ensures
        item@ == label("status"@, status_title(running, latency_ms)),
{
    let mut title = String::from_str("Status: ");
    title.append(if running { "Running" } else { "Stopped" });
    title.append("  |  Ping: ");
    title.append(decimal_string(latency_ms).as_str());
    title.append("ms");
    MenuItem { id: String::from_str("status"), title, enabled: false }
}

/// Builds the tray menu for the given facts: whether the managed executable is
/// there, the version that it reports (if it could be asked), whether the
/// configuration is complete, whether the process runs, and the round-trip time
/// that was measured last.
pub fn tray_menu(
    binary_present: bool,
    version: Option<&str>,
    config_ok: bool,
    running: bool,
    latency_ms: u64,
) -> (menu: TrayMenuModel)
    ensures
        menu@ == menu_of(binary_present, version_text(version), config_ok, running, latency_ms),
{
    let mut items: Vec<MenuItem> = Vec::new();
    if !binary_present {
        items.push(new_item("download_nebula", "Download Nebula", true));
        items.push(new_item("settings", "Settings…", true));
        items.push(new_item("quit", "Quit", true));
        return TrayMenuModel { items };
    }
    items.push(version_item(version));
    if !config_ok {
        items.push(new_item("toggle", "Connect", false));
        items.push(new_item("settings", "Settings…", true));
        items.push(new_item("quit", "Quit", true));
        return TrayMenuModel { items };
    }
    items.push(new_item("toggle", if running { "Stop" } else { "Start" }, true));
    items.push(status_item(running, latency_ms));
    items.push(new_item("settings", "Settings…", true));
    items.push(new_item("open_log", "Open Debug Log", true));
    items.push(new_item("install_nebula", "Install Nebula", true));
    items.push(new_item("quit", "Quit", true));
    TrayMenuModel { items }
}

/// Rebuilds the tray menu from the supervisor's record and the readiness of the
/// machine. The configuration counts as complete when the files are there and a
/// host is configured.
pub fn refresh<H>(state: &SupervisorState<H>, readiness: &ReadinessResult, version: Option<&str>)
    -> (menu: TrayMenuModel)
    ensures
        menu@ == menu_of(
            readiness.binary_present,
            version_text(version),
            readiness.config_and_certs_present && readiness.ping_host_valid,
            state.running(),
            state.last_latency_ms,
        ),
{
    tray_menu(
        readiness.binary_present,
        version,
        readiness.config_and_certs_present && readiness.ping_host_valid,
        state.is_running(),
        state.last_latency_ms,
    )
}

/// Without the managed executable the menu holds the install, settings and quit
/// actions and nothing else, whatever the other facts are.
pub proof fn law_missing_binary_menu(
    version: Option<Seq<char>>,
    config_ok: bool,
    running: bool,
    latency_ms: u64,
)
    ensures
        menu_of(false, version, config_ok, running, latency_ms) == seq![
            action("download_nebula"@, "Download Nebula"@),
            action("settings"@, "Settings…"@),
            action("quit"@, "Quit"@),
        ],
{
}

/// What choosing the start/stop item comes to.
#[derive(Clone, Copy, Debug, PartialEq, Eq, Structural)]
pub enum ToggleAction {
    /// The menu was stale: the executable or the configuration is gone.
    Ignore,
    /// The process runs: stop it.
    Stop,
    /// No process runs: start one.
    Start,
}

/// Decides what choosing the start/stop item does, on the facts as they are when
/// the item is chosen, not as they were when the menu was built.
pub fn toggle_action(binary_present: bool, config_ok: bool, running: bool) -> (a: ToggleAction)
    ensures
        a == ToggleAction::Ignore <==> !(binary_present && config_ok),
        a == ToggleAction::Stop <==> binary_present && config_ok && running,
        a == ToggleAction::Start <==> binary_present && config_ok && !running,
{
    if !binary_present || !config_ok {
        ToggleAction::Ignore
    } else if running {
        ToggleAction::Stop
    } else {
        ToggleAction::Start
    }
}

/// What a menu item asks for.
#[derive(Clone, Copy, Debug, PartialEq, Eq, Structural)]
pub enum TrayCommand {
    Toggle,
    Install,
    OpenSettings,
    OpenLog,
    Quit,
    Unknown,
}

/// The command behind the identifier of a menu item.
pub open spec fn command_of(id: Seq<char>) -> TrayCommand {
    if id == "toggle"@ {
        TrayCommand::Toggle
    } else if id == "download_nebula"@ || id == "install_nebula"@ {
        TrayCommand::Install
    } else if id == "settings"@ {
        TrayCommand::OpenSettings
    } else if id == "open_log"@ {
        TrayCommand::OpenLog
    } else if id == "quit"@ {
        TrayCommand::Quit
    } else {
        TrayCommand::Unknown
    }
}

/// Finds the command behind the identifier of the menu item that was chosen.
pub fn tray_command(id: &str) -> (c: TrayCommand)
    ensures
        c == command_of(id@),
{
    if same_text(id, "toggle") {
        TrayCommand::Toggle
    } else if same_text(id, "download_nebula") || same_text(id, "install_nebula") {
        TrayCommand::Install
    } else if same_text(id, "settings") {
        TrayCommand::OpenSettings
    } else if same_text(id, "open_log") {
        TrayCommand::OpenLog
    } else if same_text(id, "quit") {
        TrayCommand::Quit
    } else {
        TrayCommand::Unknown
    }
}

} // verus!
