//! The closed vocabulary of action identifiers that menu and tray items
//! carry and that the event handlers understand.

use vstd::prelude::*;
use crate::text::str_eq;

verus! {

/// An action that a menu item or a tray item stands for.
#[derive(Clone, Copy, Debug, PartialEq, Eq, Structural)]
pub enum Action {
    /// Shows the version of the application.
    About,
    /// Looks for a newer version.
    CheckUpdate,
    /// Restarts the process.
    Restart,
    /// Opens the user's script file.
    InjectScript,
    /// Opens the folder of the settings file.
    GoConf,
    /// Deletes the stored configuration.
    ClearConf,
    /// Toggles the search popup.
    PopupSearch,
    /// Takes the application out of the dock.
    HideDockIcon,
    /// Toggles the native title bar.
    Titlebar,
    /// Toggles the tray icon.
    SystemTray,
    /// Selects the light scheme.
    ThemeLight,
    /// Selects the dark scheme.
    ThemeDark,
    /// Selects the scheme of the system.
    ThemeSystem,
    /// Asks before an update is installed.
    UpdatePrompt,
    /// Installs updates without asking.
    UpdateSilent,
    /// Toggles keeping the window above all others.
    StayOnTop,
    /// Resets the zoom.
    Zoom0,
    /// Zooms out.
    ZoomOut,
    /// Zooms in.
    ZoomIn,
    /// Reloads the content.
    Reload,
    /// Goes one step back in the history.
    GoBack,
    /// Goes one step forward in the history.
    GoForward,
    /// Scrolls to the top.
    ScrollTop,
    /// Scrolls to the bottom.
    ScrollBottom,
    /// Opens the log file.
    QuicktypeLog,
    /// Opens the list of changes.
    UpdateLog,
    /// Toggles the developer tools.
    DevTools,
    /// Puts the application back into the dock.
    ShowDockIcon,
    /// Brings the primary window back.
    ShowCore,
    /// Ends the process.
    Quit,
}

impl Action {
    /// The action that an identifier names, if it names one.
    pub open spec fn of_id(id: Seq<char>) -> Option<Action> {
        if id == "about"@ {
            Some(Action::About)
        } else if id == "check_update"@ {
            Some(Action::CheckUpdate)
        } else if id == "restart"@ {
            Some(Action::Restart)
        } else if id == "inject_script"@ {
            Some(Action::InjectScript)
        } else if id == "go_conf"@ {
            Some(Action::GoConf)
        } else if id == "clear_conf"@ {
            Some(Action::ClearConf)
        } else if id == "popup_search"@ {
            Some(Action::PopupSearch)
        } else if id == "hide_dock_icon"@ {
            Some(Action::HideDockIcon)
        } else if id == "titlebar"@ {
            Some(Action::Titlebar)
        } else if id == "system_tray"@ {
            Some(Action::SystemTray)
        } else if id == "theme_light"@ {
            Some(Action::ThemeLight)
        } else if id == "theme_dark"@ {
            Some(Action::ThemeDark)
        } else if id == "theme_system"@ {
            Some(Action::ThemeSystem)
        } else if id == "update_prompt"@ {
            Some(Action::UpdatePrompt)
        } else if id == "update_silent"@ {
            Some(Action::UpdateSilent)
        } else if id == "stay_on_top"@ {
            Some(Action::StayOnTop)
        } else if id == "zoom_0"@ {
            Some(Action::Zoom0)
        } else if id == "zoom_out"@ {
            Some(Action::ZoomOut)
        } else if id == "zoom_in"@ {
            Some(Action::ZoomIn)
        } else if id == "reload"@ {
            Some(Action::Reload)
        } else if id == "go_back"@ {
            Some(Action::GoBack)
        } else if id == "go_forward"@ {
            Some(Action::GoForward)
        } else if id == "scroll_top"@ {
            Some(Action::ScrollTop)
        } else if id == "scroll_bottom"@ {
            Some(Action::ScrollBottom)
        } else if id == "quicktype_log"@ {
            Some(Action::QuicktypeLog)
        } else if id == "update_log"@ {
            Some(Action::UpdateLog)
        } else if id == "dev_tools"@ {
            Some(Action::DevTools)
        } else if id == "show_dock_icon"@ {
            Some(Action::ShowDockIcon)
        } else if id == "show_core"@ {
            Some(Action::ShowCore)
        } else if id == "quit"@ {
            Some(Action::Quit)
        } else {
            None
        }
    }

    /// The identifier of the action.
    pub open spec fn id_spec(self) -> Seq<char> {
        match self {
            Action::About => "about"@,
            Action::CheckUpdate => "check_update"@,
            Action::Restart => "restart"@,
            Action::InjectScript => "inject_script"@,
            Action::GoConf => "go_conf"@,
            Action::ClearConf => "clear_conf"@,
            Action::PopupSearch => "popup_search"@,
            Action::HideDockIcon => "hide_dock_icon"@,
            Action::Titlebar => "titlebar"@,
            Action::SystemTray => "system_tray"@,
            Action::ThemeLight => "theme_light"@,
            Action::ThemeDark => "theme_dark"@,
            Action::ThemeSystem => "theme_system"@,
            Action::UpdatePrompt => "update_prompt"@,
            Action::UpdateSilent => "update_silent"@,
            Action::StayOnTop => "stay_on_top"@,
            Action::Zoom0 => "zoom_0"@,
            Action::ZoomOut => "zoom_out"@,
            Action::ZoomIn => "zoom_in"@,
            Action::Reload => "reload"@,
            Action::GoBack => "go_back"@,
            Action::GoForward => "go_forward"@,
            Action::ScrollTop => "scroll_top"@,
            Action::ScrollBottom => "scroll_bottom"@,
            Action::QuicktypeLog => "quicktype_log"@,
            Action::UpdateLog => "update_log"@,
            Action::DevTools => "dev_tools"@,
            Action::ShowDockIcon => "show_dock_icon"@,
            Action::ShowCore => "show_core"@,
            Action::Quit => "quit"@,
        }
    }

    /// The text that the item of the action shows.
    pub open spec fn label_spec(self) -> Seq<char> {
        match self {
            Action::About => "About QuickType"@,
            Action::CheckUpdate => "Check for Updates"@,
            Action::Restart => "Restart QuickType"@,
            Action::InjectScript => "Inject Script"@,
            Action::GoConf => "Go to Config"@,
            Action::ClearConf => "Clear Config"@,
            Action::PopupSearch => "Pop-up Search"@,
            Action::HideDockIcon => "Hide Dock Icon"@,
            Action::Titlebar => "Titlebar"@,
            Action::SystemTray => "System Tray"@,
            Action::ThemeLight => "Light"@,
            Action::ThemeDark => "Dark"@,
            Action::ThemeSystem => "System"@,
            Action::UpdatePrompt => "Prompt"@,
            Action::UpdateSilent => "Silent"@,
            Action::StayOnTop => "Stay On Top"@,
            Action::Zoom0 => "Zoom to Actual Size"@,
            Action::ZoomOut => "Zoom Out"@,
            Action::ZoomIn => "Zoom In"@,
            Action::Reload => "Refresh the Screen"@,
            Action::GoBack => "Go Back"@,
            Action::GoForward => "Go Forward"@,
            Action::ScrollTop => "Scroll to Top of Screen"@,
            Action::ScrollBottom => "Scroll to Bottom of Screen"@,
            Action::QuicktypeLog => "QuickType Log"@,
            Action::UpdateLog => "Update Log"@,
            Action::DevTools => "Toggle Developer Tools"@,
            Action::ShowDockIcon => "Show Dock Icon"@,
            Action::ShowCore => "Show Window"@,
            Action::Quit => "Quit"@,
        }
    }

    /// The keyboard shortcut of the action, if it has one.
    pub open spec fn accelerator_spec(self) -> Option<Seq<char>> {
        match self {
            Action::Restart => Some("CmdOrCtrl+Shift+R"@),
            Action::InjectScript => Some("CmdOrCtrl+J"@),
            Action::GoConf => Some("CmdOrCtrl+Shift+G"@),
            Action::Titlebar => Some("CmdOrCtrl+B"@),
            Action::StayOnTop => Some("CmdOrCtrl+T"@),
            Action::Zoom0 => Some("CmdOrCtrl+0"@),
            Action::ZoomOut => Some("CmdOrCtrl+-"@),
            Action::ZoomIn => Some("CmdOrCtrl+Plus"@),
            Action::Reload => Some("CmdOrCtrl+R"@),
            Action::GoBack => Some("CmdOrCtrl+["@),
            Action::GoForward => Some("CmdOrCtrl+]"@),
            Action::ScrollTop => Some("CmdOrCtrl+Up"@),
            Action::ScrollBottom => Some("CmdOrCtrl+Down"@),
            Action::DevTools => Some("CmdOrCtrl+Shift+I"@),
            _ => None,
        }
    }

    /// Reads an identifier. An identifier outside the vocabulary names no
    /// action.
    pub fn parse(id: &str) -> (r: Option<Action>)
        ensures
            r == Action::of_id(id@),
    {
        if str_eq(id, "about") {
            Some(Action::About)
        } else if str_eq(id, "check_update") {
            Some(Action::CheckUpdate)
        } else if str_eq(id, "restart") {
            Some(Action::Restart)
        } else if str_eq(id, "inject_script") {
            Some(Action::InjectScript)
        } else if str_eq(id, "go_conf") {
            Some(Action::GoConf)
        } else if str_eq(id, "clear_conf") {
            Some(Action::ClearConf)
        } else if str_eq(id, "popup_search") {
            Some(Action::PopupSearch)
        } else if str_eq(id, "hide_dock_icon") {
            Some(Action::HideDockIcon)
        } else if str_eq(id, "titlebar") {
            Some(Action::Titlebar)
        } else if str_eq(id, "system_tray") {
            Some(Action::SystemTray)
        } else if str_eq(id, "theme_light") {
            Some(Action::ThemeLight)
        } else if str_eq(id, "theme_dark") {
            Some(Action::ThemeDark)
        } else if str_eq(id, "theme_system") {
            Some(Action::ThemeSystem)
        } else if str_eq(id, "update_prompt") {
            Some(Action::UpdatePrompt)
        } else if str_eq(id, "update_silent") {
            Some(Action::UpdateSilent)
        } else if str_eq(id, "stay_on_top") {
            Some(Action::StayOnTop)
        } else if str_eq(id, "zoom_0") {
            Some(Action::Zoom0)
        } else if str_eq(id, "zoom_out") {
            Some(Action::ZoomOut)
        } else if str_eq(id, "zoom_in") {
            Some(Action::ZoomIn)
        } else if str_eq(id, "reload") {
            Some(Action::Reload)
        } else if str_eq(id, "go_back") {
            Some(Action::GoBack)
        } else if str_eq(id, "go_forward") {
            Some(Action::GoForward)
        } else if str_eq(id, "scroll_top") {
            Some(Action::ScrollTop)
        } else if str_eq(id, "scroll_bottom") {
            Some(Action::ScrollBottom)
        } else if str_eq(id, "quicktype_log") {
            Some(Action::QuicktypeLog)
        } else if str_eq(id, "update_log") {
            Some(Action::UpdateLog)
        } else if str_eq(id, "dev_tools") {
            Some(Action::DevTools)
        } else if str_eq(id, "show_dock_icon") {
            Some(Action::ShowDockIcon)
        } else if str_eq(id, "show_core") {
            Some(Action::ShowCore)
        } else if str_eq(id, "quit") {
            Some(Action::Quit)
        } else {
            None
        }
    }

    /// The identifier of the action.
    pub fn id(self) -> (r: &'static str)
        ensures
            r@ == self.id_spec(),
    {
        match self {
            Action::About => "about",
            Action::CheckUpdate => "check_update",
            Action::Restart => "restart",
            Action::InjectScript => "inject_script",
            Action::GoConf => "go_conf",
            Action::ClearConf => "clear_conf",
            Action::PopupSearch => "popup_search",
            Action::HideDockIcon => "hide_dock_icon",
            Action::Titlebar => "titlebar",
            Action::SystemTray => "system_tray",
            Action::ThemeLight => "theme_light",
            Action::ThemeDark => "theme_dark",
            Action::ThemeSystem => "theme_system",
            Action::UpdatePrompt => "update_prompt",
            Action::UpdateSilent => "update_silent",
            Action::StayOnTop => "stay_on_top",
            Action::Zoom0 => "zoom_0",
            Action::ZoomOut => "zoom_out",
            Action::ZoomIn => "zoom_in",
            Action::Reload => "reload",
            Action::GoBack => "go_back",
            Action::GoForward => "go_forward",
            Action::ScrollTop => "scroll_top",
            Action::ScrollBottom => "scroll_bottom",
            Action::QuicktypeLog => "quicktype_log",
            Action::UpdateLog => "update_log",
            Action::DevTools => "dev_tools",
            Action::ShowDockIcon => "show_dock_icon",
            Action::ShowCore => "show_core",
            Action::Quit => "quit",
        }
    }

    /// The text that the item of the action shows.
    pub fn label(self) -> (r: &'static str)
        ensures
            r@ == self.label_spec(),
    {
        match self {
            Action::About => "About QuickType",
            Action::CheckUpdate => "Check for Updates",
            Action::Restart => "Restart QuickType",
            Action::InjectScript => "Inject Script",
            Action::GoConf => "Go to Config",
            Action::ClearConf => "Clear Config",
            Action::PopupSearch => "Pop-up Search",
            Action::HideDockIcon => "Hide Dock Icon",
            Action::Titlebar => "Titlebar",
            Action::SystemTray => "System Tray",
            Action::ThemeLight => "Light",
            Action::ThemeDark => "Dark",
            Action::ThemeSystem => "System",
            Action::UpdatePrompt => "Prompt",
            Action::UpdateSilent => "Silent",
            Action::StayOnTop => "Stay On Top",
            Action::Zoom0 => "Zoom to Actual Size",
            Action::ZoomOut => "Zoom Out",
            Action::ZoomIn => "Zoom In",
            Action::Reload => "Refresh the Screen",
            Action::GoBack => "Go Back",
            Action::GoForward => "Go Forward",
            Action::ScrollTop => "Scroll to Top of Screen",
            Action::ScrollBottom => "Scroll to Bottom of Screen",
            Action::QuicktypeLog => "QuickType Log",
            Action::UpdateLog => "Update Log",
            Action::DevTools => "Toggle Developer Tools",
            Action::ShowDockIcon => "Show Dock Icon",
            Action::ShowCore => "Show Window",
            Action::Quit => "Quit",
        }
    }

    /// The keyboard shortcut of the action, if it has one.
    pub fn accelerator(self) -> (r: Option<&'static str>)
        ensures
            r is Some == self.accelerator_spec() is Some,
            r matches Some(keys) ==> Some(keys@) == self.accelerator_spec(),
    {
        match self {
            Action::Restart => Some("CmdOrCtrl+Shift+R"),
            Action::InjectScript => Some("CmdOrCtrl+J"),
            Action::GoConf => Some("CmdOrCtrl+Shift+G"),
            Action::Titlebar => Some("CmdOrCtrl+B"),
            Action::StayOnTop => Some("CmdOrCtrl+T"),
            Action::Zoom0 => Some("CmdOrCtrl+0"),
            Action::ZoomOut => Some("CmdOrCtrl+-"),
            Action::ZoomIn => Some("CmdOrCtrl+Plus"),
            Action::Reload => Some("CmdOrCtrl+R"),
            Action::GoBack => Some("CmdOrCtrl+["),
            Action::GoForward => Some("CmdOrCtrl+]"),
            Action::ScrollTop => Some("CmdOrCtrl+Up"),
            Action::ScrollBottom => Some("CmdOrCtrl+Down"),
            Action::DevTools => Some("CmdOrCtrl+Shift+I"),
            _ => None,
        }
    }
}

/// No two actions share an identifier: reading the identifier of an action
/// gives that action back. Any two identifiers differ in their length, in
/// their fourth character or in their eighth.
pub proof fn lemma_id_round_trip(action: Action)
    ensures
        Action::of_id(action.id_spec()) == Some(action),
{
    reveal_strlit("about");
    reveal_strlit("check_update");
    reveal_strlit("restart");
    reveal_strlit("inject_script");
    reveal_strlit("go_conf");
    reveal_strlit("clear_conf");
    reveal_strlit("popup_search");
    reveal_strlit("hide_dock_icon");
    reveal_strlit("titlebar");
    reveal_strlit("system_tray");
    reveal_strlit("theme_light");
    reveal_strlit("theme_dark");
    reveal_strlit("theme_system");
    reveal_strlit("update_prompt");
    reveal_strlit("update_silent");
    reveal_strlit("stay_on_top");
    reveal_strlit("zoom_0");
    reveal_strlit("zoom_out");
    reveal_strlit("zoom_in");
    reveal_strlit("reload");
    reveal_strlit("go_back");
    reveal_strlit("go_forward");
    reveal_strlit("scroll_top");
    reveal_strlit("scroll_bottom");
    reveal_strlit("quicktype_log");
    reveal_strlit("update_log");
    reveal_strlit("dev_tools");
    reveal_strlit("show_dock_icon");
    reveal_strlit("show_core");
    reveal_strlit("quit");
    assert("about"@.len() == 5 && "about"@[3] == 'u');
    assert("check_update"@.len() == 12 && "check_update"@[3] == 'c' && "check_update"@[7] == 'p');
    assert("restart"@.len() == 7 && "restart"@[3] == 't');
    assert("inject_script"@.len() == 13 && "inject_script"@[3] == 'e' && "inject_script"@[7] == 's');
    assert("go_conf"@.len() == 7 && "go_conf"@[3] == 'c');
    assert("clear_conf"@.len() == 10 && "clear_conf"@[3] == 'a' && "clear_conf"@[7] == 'o');
    assert("popup_search"@.len() == 12 && "popup_search"@[3] == 'u' && "popup_search"@[7] == 'e');
    assert("hide_dock_icon"@.len() == 14 && "hide_dock_icon"@[3] == 'e' && "hide_dock_icon"@[7] == 'c');
    assert("titlebar"@.len() == 8 && "titlebar"@[3] == 'l' && "titlebar"@[7] == 'r');
    assert("system_tray"@.len() == 11 && "system_tray"@[3] == 't' && "system_tray"@[7] == 't');
    assert("theme_light"@.len() == 11 && "theme_light"@[3] == 'm' && "theme_light"@[7] == 'i');
    assert("theme_dark"@.len() == 10 && "theme_dark"@[3] == 'm' && "theme_dark"@[7] == 'a');
    assert("theme_system"@.len() == 12 && "theme_system"@[3] == 'm' && "theme_system"@[7] == 'y');
    assert("update_prompt"@.len() == 13 && "update_prompt"@[3] == 'a' && "update_prompt"@[7] == 'p');
    assert("update_silent"@.len() == 13 && "update_silent"@[3] == 'a' && "update_silent"@[7] == 's');
    assert("stay_on_top"@.len() == 11 && "stay_on_top"@[3] == 'y' && "stay_on_top"@[7] == '_');
    assert("zoom_0"@.len() == 6 && "zoom_0"@[3] == 'm');
    assert("zoom_out"@.len() == 8 && "zoom_out"@[3] == 'm' && "zoom_out"@[7] == 't');
    assert("zoom_in"@.len() == 7 && "zoom_in"@[3] == 'm');
    assert("reload"@.len() == 6 && "reload"@[3] == 'o');
    assert("go_back"@.len() == 7 && "go_back"@[3] == 'b');
    assert("go_forward"@.len() == 10 && "go_forward"@[3] == 'f' && "go_forward"@[7] == 'a');
    assert("scroll_top"@.len() == 10 && "scroll_top"@[3] == 'o' && "scroll_top"@[7] == 't');
    assert("scroll_bottom"@.len() == 13 && "scroll_bottom"@[3] == 'o' && "scroll_bottom"@[7] == 'b');
    assert("quicktype_log"@.len() == 13 && "quicktype_log"@[3] == 'c' && "quicktype_log"@[7] == 'p');
    assert("update_log"@.len() == 10 && "update_log"@[3] == 'a' && "update_log"@[7] == 'l');
    assert("dev_tools"@.len() == 9 && "dev_tools"@[3] == '_' && "dev_tools"@[7] == 'l');
    assert("show_dock_icon"@.len() == 14 && "show_dock_icon"@[3] == 'w' && "show_dock_icon"@[7] == 'c');
    assert("show_core"@.len() == 9 && "show_core"@[3] == 'w' && "show_core"@[7] == 'r');
    assert("quit"@.len() == 4 && "quit"@[3] == 't');
}

/// An identifier that names an action is the identifier of that action.
pub proof fn lemma_parsed_id(id: Seq<char>)
    ensures
        Action::of_id(id) matches Some(action) ==> action.id_spec() == id,
{
}

} // verus!
