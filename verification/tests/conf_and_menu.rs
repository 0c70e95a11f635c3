use quicktype_shell::action::Action;
use quicktype_shell::conf::{AutoUpdate, ConfigStore, Settings, SettingsPatch, Theme};
use quicktype_shell::menu::{bare_menu, init, tray_menu, Platform};
use quicktype_shell::tree::{Marking, MenuEntry, MenuItem, NativeItem, Title};

fn plain(action: Action) -> MenuEntry {
    MenuEntry::Item(MenuItem { action, selected: false })
}

fn native(item: NativeItem) -> MenuEntry {
    MenuEntry::Native(item)
}

#[test]
fn theme_names_are_read_back() {
    assert_eq!(Theme::from_name("light"), Theme::Light);
    assert_eq!(Theme::from_name("dark"), Theme::Dark);
    assert_eq!(Theme::from_name("system"), Theme::System);
    for theme in [Theme::Light, Theme::Dark, Theme::System] {
        assert_eq!(Theme::from_name(theme.name()), theme);
    }
    assert_eq!(Theme::Dark.name(), "dark");
}

#[test]
fn unknown_theme_name_is_the_first_theme() {
    assert_eq!(Theme::from_name("solarized"), Theme::Light);
    assert_eq!(Theme::from_name(""), Theme::Light);
    assert_eq!(Theme::from_name("Dark"), Theme::Light);
}

#[test]
fn update_mode_names_are_read_back() {
    assert_eq!(AutoUpdate::from_name("prompt"), AutoUpdate::Prompt);
    assert_eq!(AutoUpdate::from_name("silent"), AutoUpdate::Silent);
    assert_eq!(AutoUpdate::from_name("disable"), AutoUpdate::Prompt);
    assert_eq!(AutoUpdate::Silent.name(), "silent");
    assert_eq!(AutoUpdate::Prompt.name(), "prompt");
}

#[test]
fn defaults_of_a_first_start() {
    let s = Settings::default();
    assert_eq!(
        s,
        Settings {
            stay_on_top: false,
            popup_search: false,
            tray: true,
            titlebar: true,
            hide_dock_icon: false,
            theme: Theme::Light,
            auto_update: AutoUpdate::Prompt,
            isinit: true,
            main_close: false,
        }
    );
    assert_eq!(Settings::read(&ConfigStore::absent()), s);
}

#[test]
fn amend_overrides_only_named_fields() {
    let before = Settings::default();
    let patch = SettingsPatch {
        popup_search: Some(true),
        theme: Some(Theme::Dark),
        ..SettingsPatch::empty()
    };
    let after = before.amend(&patch);
    assert_eq!(after, Settings { popup_search: true, theme: Theme::Dark, ..before });
    assert_eq!(before.amend(&SettingsPatch::empty()), before);
}

#[test]
fn amend_with_full_patch_replaces_everything() {
    let target = Settings {
        stay_on_top: true,
        popup_search: true,
        tray: false,
        titlebar: false,
        hide_dock_icon: true,
        theme: Theme::System,
        auto_update: AutoUpdate::Silent,
        isinit: false,
        main_close: true,
    };
    assert_eq!(Settings::default().amend(&SettingsPatch::full(&target)), target);
}

#[test]
fn read_applies_defaults_to_missing_fields() {
    let record = SettingsPatch { tray: Some(false), isinit: Some(false), ..SettingsPatch::empty() };
    let store = ConfigStore::holding(record);
    let s = Settings::read(&store);
    assert_eq!(s, Settings { tray: false, isinit: false, ..Settings::default() });
}

#[test]
fn read_after_write_round_trips_a_patch() {
    let mut store = ConfigStore::holding(SettingsPatch {
        stay_on_top: Some(true),
        ..SettingsPatch::empty()
    });
    let before = Settings::read(&store);
    let patch = SettingsPatch {
        auto_update: Some(AutoUpdate::Silent),
        main_close: Some(true),
        ..SettingsPatch::empty()
    };
    let written = before.amend(&patch).write(&mut store);
    let after = Settings::read(&store);
    assert_eq!(after, written);
    assert_eq!(after.auto_update, AutoUpdate::Silent);
    assert!(after.main_close);
    assert!(after.stay_on_top);
    assert_eq!(after.popup_search, before.popup_search);
    assert_eq!(after.theme, before.theme);
    assert_eq!(after.isinit, before.isinit);
}

#[test]
fn write_is_idempotent() {
    let mut store = ConfigStore::absent();
    let s = Settings { titlebar: false, ..Settings::default() };
    s.write(&mut store);
    let once = store;
    s.write(&mut store);
    assert_eq!(store, once);
    assert_eq!(store.record, Some(SettingsPatch::full(&s)));
}

#[test]
fn every_action_is_read_back_from_its_identifier() {
    let all = [
        (Action::About, "about"),
        (Action::CheckUpdate, "check_update"),
        (Action::Restart, "restart"),
        (Action::InjectScript, "inject_script"),
        (Action::GoConf, "go_conf"),
        (Action::ClearConf, "clear_conf"),
        (Action::PopupSearch, "popup_search"),
        (Action::HideDockIcon, "hide_dock_icon"),
        (Action::Titlebar, "titlebar"),
        (Action::SystemTray, "system_tray"),
        (Action::ThemeLight, "theme_light"),
        (Action::ThemeDark, "theme_dark"),
        (Action::ThemeSystem, "theme_system"),
        (Action::UpdatePrompt, "update_prompt"),
        (Action::UpdateSilent, "update_silent"),
        (Action::StayOnTop, "stay_on_top"),
        (Action::Zoom0, "zoom_0"),
        (Action::ZoomOut, "zoom_out"),
        (Action::ZoomIn, "zoom_in"),
        (Action::Reload, "reload"),
        (Action::GoBack, "go_back"),
        (Action::GoForward, "go_forward"),
        (Action::ScrollTop, "scroll_top"),
        (Action::ScrollBottom, "scroll_bottom"),
        (Action::QuicktypeLog, "quicktype_log"),
        (Action::UpdateLog, "update_log"),
        (Action::DevTools, "dev_tools"),
        (Action::ShowDockIcon, "show_dock_icon"),
        (Action::ShowCore, "show_core"),
        (Action::Quit, "quit"),
    ];
    for (action, id) in all {
        assert_eq!(action.id(), id);
        assert_eq!(Action::parse(id), Some(action));
    }
}

#[test]
fn unknown_identifiers_name_no_action() {
    assert_eq!(Action::parse("update_disable"), None);
    assert_eq!(Action::parse(""), None);
    assert_eq!(Action::parse("About"), None);
    assert_eq!(Action::parse("quit "), None);
}

#[test]
fn labels_and_accelerators() {
    assert_eq!(Action::About.label(), "About QuickType");
    assert_eq!(Action::StayOnTop.label(), "Stay On Top");
    assert_eq!(Action::StayOnTop.accelerator(), Some("CmdOrCtrl+T"));
    assert_eq!(Action::ZoomIn.accelerator(), Some("CmdOrCtrl+Plus"));
    assert_eq!(Action::DevTools.accelerator(), Some("CmdOrCtrl+Shift+I"));
    assert_eq!(Action::About.accelerator(), None);
    assert_eq!(Action::Quit.label(), "Quit");
    assert_eq!(Title::App.text(), "QuickType");
    assert_eq!(Title::AutoUpdate.text(), "Auto Update");
}

#[test]
fn menu_of_other_platforms_has_the_exact_tree() {
    let menu = init(&ConfigStore::absent(), Platform::Other);
    assert_eq!(menu.submenus.len(), 5);
    assert_eq!(menu.submenus[0].title, Title::App);
    assert_eq!(
        menu.submenus[0].entries,
        vec![
            plain(Action::About),
            plain(Action::CheckUpdate),
            native(NativeItem::Services),
            native(NativeItem::Hide),
            native(NativeItem::HideOthers),
            native(NativeItem::ShowAll),
            native(NativeItem::Separator),
            native(NativeItem::Quit),
        ]
    );
    assert_eq!(menu.submenus[1].title, Title::Preferences);
    assert_eq!(
        menu.submenus[1].entries,
        vec![
            plain(Action::StayOnTop),
            MenuEntry::Item(MenuItem { action: Action::SystemTray, selected: true }),
            plain(Action::InjectScript),
            native(NativeItem::Separator),
            MenuEntry::Group(
                Title::Theme,
                vec![
                    MenuItem { action: Action::ThemeLight, selected: true },
                    MenuItem { action: Action::ThemeDark, selected: false },
                    MenuItem { action: Action::ThemeSystem, selected: false },
                ]
            ),
            MenuEntry::Group(
                Title::AutoUpdate,
                vec![
                    MenuItem { action: Action::UpdatePrompt, selected: true },
                    MenuItem { action: Action::UpdateSilent, selected: false },
                ]
            ),
            native(NativeItem::Separator),
            plain(Action::PopupSearch),
            native(NativeItem::Separator),
            plain(Action::GoConf),
            plain(Action::Restart),
            plain(Action::ClearConf),
            native(NativeItem::Separator),
        ]
    );
    assert_eq!(menu.submenus[2].title, Title::Edit);
    assert_eq!(
        menu.submenus[2].entries,
        vec![
            native(NativeItem::Undo),
            native(NativeItem::Redo),
            native(NativeItem::Separator),
            native(NativeItem::Cut),
            native(NativeItem::Copy),
            native(NativeItem::Paste),
            native(NativeItem::SelectAll),
        ]
    );
    assert_eq!(menu.submenus[3].title, Title::View);
    assert_eq!(
        menu.submenus[3].entries,
        vec![
            plain(Action::GoBack),
            plain(Action::GoForward),
            plain(Action::ScrollTop),
            plain(Action::ScrollBottom),
            native(NativeItem::Separator),
            plain(Action::Zoom0),
            plain(Action::ZoomOut),
            plain(Action::ZoomIn),
            native(NativeItem::Separator),
            plain(Action::Reload),
        ]
    );
    assert_eq!(menu.submenus[4].title, Title::Help);
    assert_eq!(
        menu.submenus[4].entries,
        vec![plain(Action::QuicktypeLog), plain(Action::UpdateLog), plain(Action::DevTools)]
    );
}

#[test]
fn menu_of_macos_has_native_about_and_dock_entries() {
    let menu = init(&ConfigStore::absent(), Platform::MacOs);
    assert_eq!(menu.submenus[0].entries[0], native(NativeItem::About));
    assert_eq!(menu.submenus[1].entries.len(), 15);
    assert_eq!(menu.submenus[1].entries[0], plain(Action::StayOnTop));
    assert_eq!(
        menu.submenus[1].entries[1],
        MenuEntry::Item(MenuItem { action: Action::Titlebar, selected: true })
    );
    assert_eq!(menu.submenus[1].entries[2], plain(Action::HideDockIcon));
    assert!(menu.has_item(Action::Titlebar));
    assert!(!menu.has_item(Action::About));
    let other = init(&ConfigStore::absent(), Platform::Other);
    assert!(!other.has_item(Action::Titlebar));
    assert!(!other.has_item(Action::HideDockIcon));
    assert!(other.has_item(Action::About));
}

#[test]
fn bare_menu_has_nothing_checked() {
    let menu = bare_menu(Platform::MacOs);
    for action in [
        Action::StayOnTop,
        Action::Titlebar,
        Action::SystemTray,
        Action::PopupSearch,
        Action::ThemeLight,
        Action::UpdatePrompt,
    ] {
        assert!(menu.has_item(action));
        assert!(!menu.is_checked(action));
    }
}

#[test]
fn fresh_menu_shows_each_patched_toggle() {
    for value in [false, true] {
        let mut store = ConfigStore::absent();
        let patch = SettingsPatch {
            stay_on_top: Some(value),
            popup_search: Some(value),
            tray: Some(value),
            titlebar: Some(value),
            ..SettingsPatch::empty()
        };
        Settings::read(&store).amend(&patch).write(&mut store);
        let menu = init(&store, Platform::MacOs);
        assert_eq!(menu.is_checked(Action::StayOnTop), value);
        assert_eq!(menu.is_checked(Action::PopupSearch), value);
        assert_eq!(menu.is_checked(Action::SystemTray), value);
        assert_eq!(menu.is_checked(Action::Titlebar), value);
    }
}

#[test]
fn fresh_menu_checks_exactly_one_item_of_each_choice() {
    let themes = [
        (Theme::Light, Action::ThemeLight),
        (Theme::Dark, Action::ThemeDark),
        (Theme::System, Action::ThemeSystem),
    ];
    let modes =
        [(AutoUpdate::Prompt, Action::UpdatePrompt), (AutoUpdate::Silent, Action::UpdateSilent)];
    for (theme, _) in themes {
        for (mode, _) in modes {
            let mut store = ConfigStore::absent();
            let patch = SettingsPatch {
                theme: Some(theme),
                auto_update: Some(mode),
                ..SettingsPatch::empty()
            };
            Settings::read(&store).amend(&patch).write(&mut store);
            let menu = init(&store, Platform::Other);
            for (t, action) in themes {
                assert_eq!(menu.is_checked(action), t == theme);
            }
            for (m, action) in modes {
                assert_eq!(menu.is_checked(action), m == mode);
            }
        }
    }
}

#[test]
fn items_without_a_toggle_are_never_checked() {
    let mut store = ConfigStore::absent();
    let s = Settings { hide_dock_icon: true, main_close: true, ..Settings::default() };
    s.write(&mut store);
    let menu = init(&store, Platform::MacOs);
    assert!(menu.has_item(Action::HideDockIcon));
    assert!(!menu.is_checked(Action::HideDockIcon));
    assert!(!menu.is_checked(Action::Restart));
    assert!(!menu.is_checked(Action::Quit));
    assert!(!menu.has_item(Action::Quit));
}

#[test]
fn set_selected_changes_one_action_only() {
    let mut menu = init(&ConfigStore::absent(), Platform::MacOs);
    menu.set_selected(Action::ThemeDark, true);
    assert!(menu.is_checked(Action::ThemeDark));
    assert!(menu.is_checked(Action::ThemeLight));
    assert!(menu.is_checked(Action::SystemTray));
    menu.set_selected(Action::ThemeLight, false);
    assert!(!menu.is_checked(Action::ThemeLight));
    assert!(menu.is_checked(Action::ThemeDark));
    menu.set_selected(Action::Quit, true);
    assert!(!menu.is_checked(Action::Quit));
    let again = init(&ConfigStore::absent(), Platform::MacOs);
    assert_eq!(menu.submenus[0], again.submenus[0]);
    assert_eq!(menu.submenus.len(), again.submenus.len());
}

#[test]
fn mark_from_settings_equals_a_fresh_menu() {
    let s = Settings {
        stay_on_top: true,
        theme: Theme::System,
        auto_update: AutoUpdate::Silent,
        tray: false,
        ..Settings::default()
    };
    let mut store = ConfigStore::absent();
    s.write(&mut store);
    let fresh = init(&store, Platform::MacOs);
    let mut marked = bare_menu(Platform::MacOs);
    marked.mark(&Marking::FromSettings(s));
    assert_eq!(marked, fresh);
}

#[test]
fn tray_menu_by_platform_and_dock_state() {
    let absent = ConfigStore::absent();
    assert_eq!(
        tray_menu(&absent, Platform::Other),
        vec![plain(Action::ShowCore), native(NativeItem::Separator), plain(Action::Quit)]
    );
    assert_eq!(
        tray_menu(&absent, Platform::MacOs),
        vec![
            plain(Action::HideDockIcon),
            plain(Action::ShowCore),
            native(NativeItem::Separator),
            plain(Action::Quit),
        ]
    );
    let hidden = ConfigStore::holding(SettingsPatch {
        hide_dock_icon: Some(true),
        ..SettingsPatch::empty()
    });
    assert_eq!(
        tray_menu(&hidden, Platform::MacOs),
        vec![plain(Action::ShowDockIcon), native(NativeItem::Separator), plain(Action::Quit)]
    );
    assert_eq!(
        tray_menu(&hidden, Platform::Other),
        vec![plain(Action::ShowCore), native(NativeItem::Separator), plain(Action::Quit)]
    );
}
