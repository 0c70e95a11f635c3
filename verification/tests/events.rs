use quicktype_shell::action::Action;
use quicktype_shell::close::{
    close_answered, close_intent, close_requested, route_answer, route_close, CloseChoice,
    CloseIntent,
};
use quicktype_shell::conf::{AutoUpdate, ConfigStore, Settings, SettingsPatch, Theme};
use quicktype_shell::effect::{Change, Effect, Script, Target};
use quicktype_shell::menu::Platform;
use quicktype_shell::router::{menu_handler, route_menu, route_tray, tray_handler, TrayEvent};
use quicktype_shell::shell::{Process, Shell};
use quicktype_shell::window::{Opened, TrayConfig, WindowError, WindowState};

fn started(record: SettingsPatch) -> Shell {
    let mut shell = Shell::start(ConfigStore::holding(record), Platform::MacOs);
    shell.open_window("core", "QuickType", "index.html", None);
    let tray = TrayConfig {
        dashboard: true,
        origin: "https://app.quicktype.io".to_string(),
        user_agent: "agent".to_string(),
    };
    shell.open_tray(&tray).unwrap();
    shell
}

fn click(id: &str) -> TrayEvent {
    TrayEvent::MenuItemClick(id.to_string())
}

fn visible() -> Option<WindowState> {
    Some(WindowState {
        visible: true,
        focused: false,
        minimized: false,
        always_on_top: false,
        decorations: true,
        at_tray: false,
    })
}

fn hidden() -> Option<WindowState> {
    Some(WindowState { visible: false, ..visible().unwrap() })
}

#[test]
fn start_builds_the_menu_from_the_store() {
    let record = SettingsPatch { stay_on_top: Some(true), ..SettingsPatch::empty() };
    let shell = Shell::start(ConfigStore::holding(record), Platform::Other);
    assert_eq!(shell.process(), Process::Running);
    assert!(!shell.is_asking());
    assert_eq!(shell.windows().len(), 0);
    assert!(shell.menu().is_checked(Action::StayOnTop));
    assert!(shell.settings().stay_on_top);
    assert_eq!(shell.platform(), Platform::Other);
}

#[test]
fn pure_window_operations_of_the_menu() {
    let s = Settings::default();
    let cases = [
        ("about", Effect::ShowAbout),
        ("check_update", Effect::CheckUpdate),
        ("restart", Effect::Restart),
        ("inject_script", Effect::OpenScriptFile),
        ("go_conf", Effect::OpenConfigFolder),
        ("clear_conf", Effect::ClearConfig),
        ("zoom_0", Effect::Eval(Target::Source, Script::Zoom0)),
        ("zoom_out", Effect::Eval(Target::Source, Script::ZoomOut)),
        ("zoom_in", Effect::Eval(Target::Source, Script::ZoomIn)),
        ("reload", Effect::Eval(Target::Source, Script::Reload)),
        ("go_back", Effect::Eval(Target::Source, Script::GoBack)),
        ("go_forward", Effect::Eval(Target::Source, Script::GoForward)),
        ("scroll_top", Effect::Eval(Target::Source, Script::ScrollTop)),
        ("scroll_bottom", Effect::Eval(Target::Source, Script::ScrollBottom)),
        ("quicktype_log", Effect::OpenLogFile),
        ("update_log", Effect::OpenUpdateLog),
        ("dev_tools", Effect::ToggleDevtools(Target::Source)),
    ];
    for (id, effect) in cases {
        assert_eq!(route_menu(Action::parse(id), &s, true, true), vec![effect]);
    }
}

#[test]
fn unknown_and_tray_only_identifiers_do_nothing_in_the_menu() {
    let mut shell = started(SettingsPatch::empty());
    let before = shell.settings();
    for id in ["update_disable", "", "show_core", "show_dock_icon", "quit", "nonsense"] {
        assert_eq!(menu_handler(&mut shell, "core", id), vec![]);
    }
    assert_eq!(shell.settings(), before);
    assert_eq!(shell.process(), Process::Running);
    assert_eq!(route_menu(None, &before, true, true), vec![]);
}

#[test]
fn toggling_popup_search_persists_and_reloads_without_restart() {
    let mut shell = started(SettingsPatch::empty());
    let before = shell.settings();
    assert!(!before.popup_search);
    let effects = menu_handler(&mut shell, "core", "popup_search");
    assert_eq!(
        effects,
        vec![
            Effect::SetChecked(Action::PopupSearch, true),
            Effect::Persist(Settings { popup_search: true, ..before }),
            Effect::Eval(Target::Core, Script::Reload),
            Effect::Eval(Target::Tray, Script::Reload),
        ]
    );
    assert_eq!(shell.settings(), Settings { popup_search: true, ..before });
    assert!(shell.menu().is_checked(Action::PopupSearch));
    assert_eq!(shell.process(), Process::Running);
    let effects = menu_handler(&mut shell, "core", "popup_search");
    assert_eq!(effects[0], Effect::SetChecked(Action::PopupSearch, false));
    assert_eq!(shell.settings(), before);
    assert!(!shell.menu().is_checked(Action::PopupSearch));
}

#[test]
fn popup_search_reloads_only_open_windows() {
    let s = Settings { popup_search: true, ..Settings::default() };
    let head = vec![
        Effect::SetChecked(Action::PopupSearch, false),
        Effect::Persist(Settings { popup_search: false, ..s }),
    ];
    assert_eq!(route_menu(Some(Action::PopupSearch), &s, false, false), head);
    let mut core_only = head.clone();
    core_only.push(Effect::Eval(Target::Core, Script::Reload));
    assert_eq!(route_menu(Some(Action::PopupSearch), &s, true, false), core_only);
    let mut tray_only = head.clone();
    tray_only.push(Effect::Eval(Target::Tray, Script::Reload));
    assert_eq!(route_menu(Some(Action::PopupSearch), &s, false, true), tray_only);
}

#[test]
fn toggling_stay_on_top_applies_live() {
    let mut shell = started(SettingsPatch::empty());
    let before = shell.settings();
    let effects = menu_handler(&mut shell, "core", "stay_on_top");
    assert_eq!(
        effects,
        vec![
            Effect::SetChecked(Action::StayOnTop, true),
            Effect::Persist(Settings { stay_on_top: true, ..before }),
            Effect::Window(Target::Source, Change::AlwaysOnTop(true)),
        ]
    );
    assert!(shell.settings().stay_on_top);
    assert!(shell.menu().is_checked(Action::StayOnTop));
    assert!(shell.window_state("core").unwrap().always_on_top);
    assert!(shell.window_state("tray").unwrap().always_on_top);
    assert_eq!(shell.process(), Process::Running);
    menu_handler(&mut shell, "core", "stay_on_top");
    assert!(!shell.settings().stay_on_top);
    assert!(!shell.menu().is_checked(Action::StayOnTop));
    assert!(!shell.window_state("core").unwrap().always_on_top);
}

#[test]
fn stay_on_top_applies_to_the_window_of_the_menu() {
    let mut shell = started(SettingsPatch::empty());
    shell.open_window("help", "Help", "help.html", None);
    menu_handler(&mut shell, "help", "stay_on_top");
    assert!(shell.window_state("help").unwrap().always_on_top);
    assert!(!shell.window_state("core").unwrap().always_on_top);
}

#[test]
fn startup_only_toggles_persist_and_restart() {
    let s = Settings::default();
    assert_eq!(
        route_menu(Some(Action::HideDockIcon), &s, true, true),
        vec![Effect::Persist(Settings { hide_dock_icon: true, ..s }), Effect::Restart]
    );
    assert_eq!(
        route_menu(Some(Action::Titlebar), &s, true, true),
        vec![Effect::Persist(Settings { titlebar: false, ..s }), Effect::Restart]
    );
    assert_eq!(
        route_menu(Some(Action::SystemTray), &s, true, true),
        vec![Effect::Persist(Settings { tray: false, ..s }), Effect::Restart]
    );
    let hidden = Settings { hide_dock_icon: true, ..s };
    assert_eq!(
        route_menu(Some(Action::HideDockIcon), &hidden, true, true),
        vec![Effect::Persist(hidden), Effect::Restart]
    );
    let mut shell = started(SettingsPatch::empty());
    menu_handler(&mut shell, "core", "system_tray");
    assert!(!shell.settings().tray);
    assert_eq!(shell.process(), Process::Restarting);
}

#[test]
fn choosing_the_dark_theme_checks_it_alone_and_restarts() {
    let mut shell = started(SettingsPatch::empty());
    let before = shell.settings();
    let effects = menu_handler(&mut shell, "core", "theme_dark");
    assert_eq!(
        effects,
        vec![
            Effect::SetChecked(Action::ThemeLight, false),
            Effect::SetChecked(Action::ThemeDark, false),
            Effect::SetChecked(Action::ThemeSystem, false),
            Effect::SetChecked(Action::ThemeDark, true),
            Effect::Persist(Settings { theme: Theme::Dark, ..before }),
            Effect::Restart,
        ]
    );
    assert!(shell.menu().is_checked(Action::ThemeDark));
    assert!(!shell.menu().is_checked(Action::ThemeLight));
    assert!(!shell.menu().is_checked(Action::ThemeSystem));
    assert_eq!(shell.settings().theme, Theme::Dark);
    assert_eq!(shell.process(), Process::Restarting);
}

#[test]
fn each_theme_item_stores_its_theme() {
    for (id, theme) in
        [("theme_light", Theme::Light), ("theme_dark", Theme::Dark), ("theme_system", Theme::System)]
    {
        let mut shell = started(SettingsPatch { theme: Some(Theme::Dark), ..SettingsPatch::empty() });
        menu_handler(&mut shell, "core", id);
        assert_eq!(shell.settings().theme, theme);
        assert_eq!(shell.menu().is_checked(Action::ThemeLight), theme == Theme::Light);
        assert_eq!(shell.menu().is_checked(Action::ThemeDark), theme == Theme::Dark);
        assert_eq!(shell.menu().is_checked(Action::ThemeSystem), theme == Theme::System);
    }
}

#[test]
fn choosing_an_update_mode_applies_live() {
    let mut shell = started(SettingsPatch::empty());
    let before = shell.settings();
    let effects = menu_handler(&mut shell, "core", "update_silent");
    assert_eq!(
        effects,
        vec![
            Effect::SetChecked(Action::UpdatePrompt, false),
            Effect::SetChecked(Action::UpdateSilent, false),
            Effect::SetChecked(Action::UpdateSilent, true),
            Effect::Persist(Settings { auto_update: AutoUpdate::Silent, ..before }),
        ]
    );
    assert!(shell.menu().is_checked(Action::UpdateSilent));
    assert!(!shell.menu().is_checked(Action::UpdatePrompt));
    assert_eq!(shell.settings().auto_update, AutoUpdate::Silent);
    assert_eq!(shell.process(), Process::Running);
    menu_handler(&mut shell, "core", "update_prompt");
    assert!(shell.menu().is_checked(Action::UpdatePrompt));
    assert!(!shell.menu().is_checked(Action::UpdateSilent));
    assert_eq!(shell.settings().auto_update, AutoUpdate::Prompt);
}

#[test]
fn menu_and_store_agree_after_live_toggles() {
    let mut shell = started(SettingsPatch::empty());
    for id in ["popup_search", "stay_on_top", "update_silent", "popup_search", "update_prompt"] {
        menu_handler(&mut shell, "core", id);
        let s = shell.settings();
        assert_eq!(shell.menu().is_checked(Action::PopupSearch), s.popup_search);
        assert_eq!(shell.menu().is_checked(Action::StayOnTop), s.stay_on_top);
        assert_eq!(shell.menu().is_checked(Action::SystemTray), s.tray);
        assert_eq!(shell.menu().is_checked(Action::Titlebar), s.titlebar);
        assert_eq!(shell.menu().is_checked(Action::UpdateSilent), s.auto_update == AutoUpdate::Silent);
        assert_eq!(shell.menu().is_checked(Action::UpdatePrompt), s.auto_update == AutoUpdate::Prompt);
        assert_eq!(shell.menu().is_checked(Action::ThemeLight), s.theme == Theme::Light);
    }
}

#[test]
fn tray_left_click_shows_then_hides_the_popup() {
    let mut shell = started(SettingsPatch::empty());
    assert!(!shell.window_state("tray").unwrap().visible);
    let first = tray_handler(&mut shell, &TrayEvent::LeftClick).unwrap();
    assert_eq!(
        first,
        vec![
            Effect::Window(Target::Core, Change::Minimize),
            Effect::Window(Target::Tray, Change::MoveToTray),
            Effect::Window(Target::Tray, Change::Show),
        ]
    );
    let tray = shell.window_state("tray").unwrap();
    assert!(tray.visible);
    assert!(tray.at_tray);
    assert!(shell.window_state("core").unwrap().minimized);
    let second = tray_handler(&mut shell, &TrayEvent::LeftClick).unwrap();
    assert_eq!(
        second,
        vec![
            Effect::Window(Target::Core, Change::Minimize),
            Effect::Window(Target::Tray, Change::Hide),
        ]
    );
    assert!(!shell.window_state("tray").unwrap().visible);
}

#[test]
fn tray_left_click_leaves_the_primary_window_when_the_dock_icon_is_hidden() {
    let s = Settings { hide_dock_icon: true, ..Settings::default() };
    assert_eq!(
        route_tray(&TrayEvent::LeftClick, &s, visible(), hidden()),
        Ok(vec![
            Effect::Window(Target::Tray, Change::MoveToTray),
            Effect::Window(Target::Tray, Change::Show),
        ])
    );
    assert_eq!(
        route_tray(&TrayEvent::LeftClick, &s, visible(), visible()),
        Ok(vec![Effect::Window(Target::Tray, Change::Hide)])
    );
    assert_eq!(route_tray(&TrayEvent::LeftClick, &s, visible(), None), Ok(vec![]));
    let shown = Settings::default();
    assert_eq!(
        route_tray(&TrayEvent::LeftClick, &shown, visible(), None),
        Ok(vec![Effect::Window(Target::Core, Change::Minimize)])
    );
    assert_eq!(route_tray(&TrayEvent::LeftClick, &shown, None, None), Ok(vec![]));
}

#[test]
fn tray_menu_items() {
    let s = Settings::default();
    assert_eq!(route_tray(&click("restart"), &s, None, None), Ok(vec![Effect::Restart]));
    assert_eq!(route_tray(&click("quit"), &s, None, None), Ok(vec![Effect::Exit(0)]));
    assert_eq!(
        route_tray(&click("hide_dock_icon"), &s, None, None),
        Ok(vec![Effect::Persist(Settings { hide_dock_icon: true, ..s }), Effect::Restart])
    );
    let hidden_icon = Settings { hide_dock_icon: true, ..s };
    assert_eq!(route_tray(&click("hide_dock_icon"), &hidden_icon, None, None), Ok(vec![]));
    assert_eq!(
        route_tray(&click("show_dock_icon"), &hidden_icon, None, None),
        Ok(vec![Effect::Persist(s), Effect::Restart])
    );
    assert_eq!(
        route_tray(&click("show_dock_icon"), &s, None, None),
        Ok(vec![Effect::Persist(s), Effect::Restart])
    );
    for id in ["about", "popup_search", "theme_dark", "nonsense", ""] {
        assert_eq!(route_tray(&click(id), &s, visible(), visible()), Ok(vec![]));
    }
    assert_eq!(route_tray(&TrayEvent::Other, &s, visible(), visible()), Ok(vec![]));
}

#[test]
fn show_core_brings_a_hidden_primary_window_back() {
    let s = Settings::default();
    assert_eq!(
        route_tray(&click("show_core"), &s, hidden(), visible()),
        Ok(vec![
            Effect::Window(Target::Core, Change::Show),
            Effect::Window(Target::Core, Change::Focus),
            Effect::Window(Target::Tray, Change::Hide),
        ])
    );
    assert_eq!(route_tray(&click("show_core"), &s, visible(), visible()), Ok(vec![]));
    assert_eq!(route_tray(&click("show_core"), &s, None, None), Ok(vec![]));
    assert_eq!(route_tray(&click("show_core"), &s, None, visible()), Ok(vec![]));
    assert_eq!(route_tray(&click("show_core"), &s, hidden(), None), Err(WindowError::NotFound));
    assert_eq!(route_tray(&click("show_core"), &s, visible(), None), Err(WindowError::NotFound));
}

#[test]
fn show_core_on_the_shell() {
    let mut shell = started(SettingsPatch::empty());
    shell.perform("core", Effect::Window(Target::Source, Change::Hide));
    shell.perform("tray", Effect::Window(Target::Source, Change::Show));
    tray_handler(&mut shell, &click("show_core")).unwrap();
    let core = shell.window_state("core").unwrap();
    assert!(core.visible && core.focused);
    assert!(!shell.window_state("tray").unwrap().visible);
    shell.perform("tray", Effect::Destroy(Target::Source));
    assert_eq!(tray_handler(&mut shell, &click("show_core")), Err(WindowError::NotFound));
    assert!(shell.window_state("core").unwrap().visible);
}

#[test]
fn quit_from_the_tray_exits_with_status_zero() {
    let mut shell = started(SettingsPatch::empty());
    assert_eq!(tray_handler(&mut shell, &click("quit")), Ok(vec![Effect::Exit(0)]));
    assert_eq!(shell.process(), Process::Exited(0));
}

#[test]
fn close_intent_follows_the_settings() {
    let s = Settings::default();
    assert_eq!(close_intent(&s), CloseIntent::AskPending);
    assert_eq!(
        close_intent(&Settings { isinit: true, main_close: true, ..s }),
        CloseIntent::AskPending
    );
    assert_eq!(
        close_intent(&Settings { isinit: false, main_close: true, ..s }),
        CloseIntent::Remembered(CloseChoice::Exit)
    );
    assert_eq!(
        close_intent(&Settings { isinit: false, main_close: false, ..s }),
        CloseIntent::Remembered(CloseChoice::Minimize)
    );
}

#[test]
fn first_close_asks_and_answer_no_minimizes_from_then_on() {
    let mut shell = started(SettingsPatch::empty());
    assert!(shell.settings().isinit);
    let asked = close_requested(&mut shell, "core");
    assert_eq!(asked, vec![Effect::PreventClose, Effect::AskExitOnClose]);
    assert!(shell.is_asking());
    assert!(shell.has_window("core"));
    assert!(!shell.window_state("core").unwrap().minimized);
    let before = Settings::default();
    let answered = close_answered(&mut shell, false);
    assert_eq!(
        answered,
        vec![
            Effect::Persist(Settings { isinit: false, main_close: false, ..before }),
            Effect::Window(Target::Core, Change::Minimize),
        ]
    );
    assert!(!shell.is_asking());
    assert!(shell.has_window("core"));
    assert!(shell.window_state("core").unwrap().minimized);
    assert!(!shell.settings().isinit);
    assert!(!shell.settings().main_close);
    assert_eq!(shell.process(), Process::Running);
    let again = close_requested(&mut shell, "core");
    assert_eq!(again, vec![Effect::PreventClose, Effect::Window(Target::Core, Change::Minimize)]);
    assert!(!shell.is_asking());
    assert!(shell.window_state("core").unwrap().minimized);
    assert_eq!(shell.process(), Process::Running);
}

#[test]
fn answer_yes_is_remembered_and_exits() {
    let mut shell = started(SettingsPatch::empty());
    close_requested(&mut shell, "core");
    let answered = close_answered(&mut shell, true);
    assert_eq!(
        answered,
        vec![
            Effect::Persist(Settings { isinit: false, main_close: true, ..Settings::default() }),
            Effect::Exit(0),
        ]
    );
    assert!(shell.settings().main_close);
    assert!(!shell.settings().isinit);
    assert_eq!(shell.process(), Process::Exited(0));
}

#[test]
fn remembered_exit_terminates_without_prompting() {
    let record =
        SettingsPatch { isinit: Some(false), main_close: Some(true), ..SettingsPatch::empty() };
    let mut shell = started(record);
    let effects = close_requested(&mut shell, "core");
    assert_eq!(effects, vec![Effect::PreventClose, Effect::Exit(0)]);
    assert!(!shell.is_asking());
    assert_eq!(shell.process(), Process::Exited(0));
}

#[test]
fn other_windows_close_at_once() {
    let mut shell = started(SettingsPatch::empty());
    shell.open_window("help", "Help", "help.html", None);
    let effects = close_requested(&mut shell, "help");
    assert_eq!(effects, vec![Effect::PreventClose, Effect::Destroy(Target::Source)]);
    assert!(!shell.has_window("help"));
    assert!(shell.has_window("core"));
    assert!(!shell.is_asking());
    assert_eq!(close_requested(&mut shell, "tray"), effects);
    assert!(!shell.has_window("tray"));
}

#[test]
fn close_and_answer_routes() {
    let s = Settings::default();
    assert_eq!(route_close(true, &s), vec![Effect::PreventClose, Effect::AskExitOnClose]);
    assert_eq!(route_close(false, &s), vec![Effect::PreventClose, Effect::Destroy(Target::Source)]);
    let exit = Settings { isinit: false, main_close: true, ..s };
    assert_eq!(route_close(true, &exit), vec![Effect::PreventClose, Effect::Exit(0)]);
    assert_eq!(route_close(false, &exit), vec![Effect::PreventClose, Effect::Destroy(Target::Source)]);
    assert_eq!(route_answer(&exit, false)[0], Effect::Persist(Settings { main_close: false, ..exit }));
    assert_eq!(route_answer(&s, true)[1], Effect::Exit(0));
}

#[test]
fn perform_all_carries_out_effects_in_order() {
    let mut shell = started(SettingsPatch::empty());
    let s = Settings { tray: false, ..Settings::default() };
    shell.perform_all(
        "core",
        &vec![
            Effect::Window(Target::Source, Change::Hide),
            Effect::Window(Target::Source, Change::Show),
            Effect::Persist(s),
            Effect::SetChecked(Action::SystemTray, false),
            Effect::AskExitOnClose,
            Effect::Destroy(Target::Tray),
            Effect::Eval(Target::Core, Script::Reload),
        ],
    );
    let core = shell.window_state("core").unwrap();
    assert!(core.visible);
    assert!(!core.focused);
    assert_eq!(shell.settings(), s);
    assert!(!shell.menu().is_checked(Action::SystemTray));
    assert!(shell.is_asking());
    assert!(!shell.has_window("tray"));
    assert_eq!(shell.process(), Process::Running);
    shell.perform("core", Effect::Exit(3));
    assert_eq!(shell.process(), Process::Exited(3));
    assert_eq!(shell.windows().len(), 0);
    assert_eq!(shell.settings(), s);
}

#[test]
fn restart_persists_first() {
    let s = Settings { titlebar: false, ..Settings::default() };
    assert_eq!(s.restart(), vec![Effect::Persist(s), Effect::Restart]);
    let mut shell = started(SettingsPatch::empty());
    shell.perform_all("core", &s.restart());
    assert_eq!(shell.settings(), s);
    assert_eq!(shell.process(), Process::Restarting);
    assert_eq!(shell.windows().len(), 0);
}

#[test]
fn shell_opens_windows_once() {
    let mut shell = Shell::start(ConfigStore::absent(), Platform::Other);
    assert!(matches!(shell.open_window("core", "QuickType", "index.html", None), Opened::Create(_)));
    let again = shell.open_window("core", "QuickType", "index.html", None);
    assert_eq!(
        again,
        Opened::Refresh(vec![
            Effect::Eval(Target::Source, Script::Reload),
            Effect::Window(Target::Source, Change::Focus),
        ])
    );
    if let Opened::Refresh(effects) = again {
        shell.perform("core", Effect::Window(Target::Source, Change::Hide));
        shell.perform_all("core", &effects);
        assert!(!shell.window_state("core").unwrap().visible);
        assert!(shell.window_state("core").unwrap().focused);
        shell.perform("core", Effect::Window(Target::Source, Change::Show));
    }
    assert_eq!(shell.windows().len(), 1);
    let core = shell.window_state("core").unwrap();
    assert!(core.visible && core.focused);
    let tray = TrayConfig {
        dashboard: false,
        origin: "https://example.org".to_string(),
        user_agent: String::new(),
    };
    let plan = shell.open_tray(&tray).unwrap();
    assert_eq!(plan.url, "https://example.org");
    assert_eq!(plan.theme, Some(Theme::Light));
    assert_eq!(shell.open_tray(&tray), Err(WindowError::AlreadyOpen));
    assert_eq!(shell.windows().len(), 2);
    assert!(!shell.window_state("tray").unwrap().visible);
}

#[test]
fn host_can_replace_the_windows() {
    let mut shell = started(SettingsPatch::empty());
    let mut live = quicktype_shell::window::WindowSet::new();
    live.insert("core", visible().unwrap()).unwrap();
    shell.set_windows(live);
    assert_eq!(shell.windows().len(), 1);
    assert!(!shell.has_window("tray"));
    assert_eq!(shell.window_state("core"), visible());
    assert_eq!(
        menu_handler(&mut shell, "core", "popup_search")[2..],
        [Effect::Eval(Target::Core, Script::Reload)]
    );
    assert_eq!(shell.store().record, Some(SettingsPatch::full(&shell.settings())));
}

#[test]
fn store_can_be_read_anew() {
    let mut shell = started(SettingsPatch::empty());
    let record = SettingsPatch { popup_search: Some(true), ..SettingsPatch::empty() };
    shell.set_store(ConfigStore::holding(record));
    assert!(shell.settings().popup_search);
    assert_eq!(shell.store().record, Some(record));
    assert!(shell.has_window("core"));
    let effects = menu_handler(&mut shell, "core", "popup_search");
    assert_eq!(effects[0], Effect::SetChecked(Action::PopupSearch, false));
    assert!(!shell.settings().popup_search);
}
