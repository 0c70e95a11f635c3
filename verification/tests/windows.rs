use quicktype_shell::conf::{Settings, Theme};
use quicktype_shell::effect::{Change, Effect, Script, Target};
use quicktype_shell::window::{
    change_state, refresh, tray_window, wa_window, window_reload, InitScript, Opened, TrayConfig,
    WindowError, WindowPlan, WindowSet, WindowState,
};

fn content_state() -> WindowState {
    WindowState {
        visible: true,
        focused: true,
        minimized: false,
        always_on_top: false,
        decorations: true,
        at_tray: false,
    }
}

fn tray_state() -> WindowState {
    WindowState {
        visible: false,
        focused: false,
        minimized: false,
        always_on_top: true,
        decorations: false,
        at_tray: false,
    }
}

fn remote_tray() -> TrayConfig {
    TrayConfig {
        dashboard: false,
        origin: "https://app.quicktype.io".to_string(),
        user_agent: "agent/1".to_string(),
    }
}

#[test]
fn opening_a_missing_window_plans_it() {
    let mut windows = WindowSet::new();
    let r = wa_window(&mut windows, "core", "QuickType", "https://example.org/", None);
    assert_eq!(
        r,
        Opened::Create(WindowPlan {
            label: "core".to_string(),
            title: "QuickType".to_string(),
            url: "https://example.org/".to_string(),
            scripts: vec![InitScript::Core],
            size: Some((960, 700)),
            resizable: true,
            fullscreen: false,
            theme: None,
            user_agent: None,
            state: content_state(),
        })
    );
    assert_eq!(windows.len(), 1);
    assert_eq!(windows.state("core"), Some(content_state()));
}

#[test]
fn extra_script_comes_after_the_baseline() {
    let mut windows = WindowSet::new();
    let r = wa_window(&mut windows, "help", "Help", "help.html", Some("alert(1)".to_string()));
    match r {
        Opened::Create(plan) => {
            assert_eq!(
                plan.scripts,
                vec![InitScript::Core, InitScript::Extra("alert(1)".to_string())]
            );
            assert_eq!(plan.label, "help");
            assert_eq!(plan.title, "Help");
            assert_eq!(plan.url, "help.html");
        }
        Opened::Refresh(_) => panic!("the window was missing"),
    }
}

#[test]
fn opening_twice_leaves_one_visible_focused_window() {
    let mut windows = WindowSet::new();
    let first = wa_window(&mut windows, "core", "QuickType", "index.html", None);
    assert!(matches!(first, Opened::Create(_)));
    let second = wa_window(&mut windows, "core", "QuickType", "index.html", None);
    assert_eq!(
        second,
        Opened::Refresh(vec![
            Effect::Eval(Target::Source, Script::Reload),
            Effect::Window(Target::Source, Change::Focus),
        ])
    );
    assert_eq!(windows.len(), 1);
    let state = windows.state("core").unwrap();
    assert!(state.visible);
    assert!(state.focused);
}

#[test]
fn opening_a_hidden_window_shows_and_focuses_it() {
    let mut windows = WindowSet::new();
    wa_window(&mut windows, "core", "QuickType", "index.html", None);
    wa_window(&mut windows, "other", "Other", "other.html", None);
    assert_eq!(windows.change("core", Change::Hide), Ok(()));
    assert_eq!(
        windows.state("core"),
        Some(WindowState { visible: false, focused: false, ..content_state() })
    );
    let r = wa_window(&mut windows, "core", "ignored", "ignored", Some("x".to_string()));
    assert_eq!(
        r,
        Opened::Refresh(vec![
            Effect::Window(Target::Source, Change::Show),
            Effect::Eval(Target::Source, Script::Reload),
            Effect::Window(Target::Source, Change::Focus),
        ])
    );
    assert_eq!(refresh(true).len(), 3);
    assert_eq!(refresh(false)[0], Effect::Eval(Target::Source, Script::Reload));
    assert_eq!(windows.state("core"), Some(content_state()));
    assert_eq!(windows.state("other"), Some(content_state()));
    assert_eq!(windows.len(), 2);
}

#[test]
fn reload_needs_the_window() {
    let mut windows = WindowSet::new();
    assert_eq!(window_reload(&windows, "core"), Err(WindowError::NotFound));
    wa_window(&mut windows, "core", "QuickType", "index.html", None);
    assert_eq!(window_reload(&windows, "core"), Ok(Script::Reload));
    assert_eq!(window_reload(&windows, "tray"), Err(WindowError::NotFound));
    assert_eq!(Script::Reload.source(), "window.location.reload()");
}

#[test]
fn tray_window_starts_hidden_with_helpers_for_the_remote_origin() {
    let mut windows = WindowSet::new();
    let settings = Settings { theme: Theme::Dark, ..Settings::default() };
    let plan = tray_window(&mut windows, &settings, &remote_tray()).unwrap();
    assert_eq!(
        plan,
        WindowPlan {
            label: "tray".to_string(),
            title: "QuickType".to_string(),
            url: "https://app.quicktype.io".to_string(),
            scripts: vec![
                InitScript::User,
                InitScript::Core,
                InitScript::FloatingUiCore,
                InitScript::FloatingUiDom,
            ],
            size: None,
            resizable: false,
            fullscreen: false,
            theme: Some(Theme::Dark),
            user_agent: Some("agent/1".to_string()),
            state: tray_state(),
        }
    );
    assert!(windows.contains("tray"));
    assert_eq!(windows.state("tray"), Some(tray_state()));
}

#[test]
fn tray_window_of_the_dashboard_loads_the_bundled_page() {
    let mut windows = WindowSet::new();
    let tray = TrayConfig { dashboard: true, ..remote_tray() };
    let plan = tray_window(&mut windows, &Settings::default(), &tray).unwrap();
    assert_eq!(plan.url, "index.html");
    assert_eq!(plan.scripts, vec![InitScript::User, InitScript::Core]);
    assert_eq!(plan.theme, Some(Theme::Light));
}

#[test]
fn tray_window_of_another_origin_gets_no_helpers() {
    let mut windows = WindowSet::new();
    let tray = TrayConfig { origin: "https://example.org".to_string(), ..remote_tray() };
    let plan = tray_window(&mut windows, &Settings::default(), &tray).unwrap();
    assert_eq!(plan.url, "https://example.org");
    assert_eq!(plan.scripts, vec![InitScript::User, InitScript::Core]);
}

#[test]
fn tray_window_is_planned_once() {
    let mut windows = WindowSet::new();
    assert!(tray_window(&mut windows, &Settings::default(), &remote_tray()).is_ok());
    windows.change("tray", Change::Show).unwrap();
    let again = tray_window(&mut windows, &Settings::default(), &remote_tray());
    assert_eq!(again, Err(WindowError::AlreadyOpen));
    assert_eq!(windows.len(), 1);
    assert_eq!(windows.state("tray"), Some(WindowState { visible: true, ..tray_state() }));
}

#[test]
fn changes_of_a_window_state() {
    let s = content_state();
    assert_eq!(change_state(s, Change::Hide), WindowState { visible: false, focused: false, ..s });
    assert_eq!(
        change_state(s, Change::Minimize),
        WindowState { minimized: true, focused: false, ..s }
    );
    assert_eq!(change_state(tray_state(), Change::Show), WindowState { visible: true, ..tray_state() });
    assert_eq!(change_state(tray_state(), Change::Focus), WindowState { focused: true, ..tray_state() });
    assert_eq!(
        change_state(tray_state(), Change::MoveToTray),
        WindowState { at_tray: true, ..tray_state() }
    );
    assert_eq!(
        change_state(s, Change::AlwaysOnTop(true)),
        WindowState { always_on_top: true, ..s }
    );
    assert_eq!(change_state(tray_state(), Change::AlwaysOnTop(false)).always_on_top, false);
}

#[test]
fn insert_change_and_remove_by_label() {
    let mut windows = WindowSet::new();
    assert_eq!(windows.insert("a", content_state()), Ok(()));
    assert_eq!(windows.insert("b", tray_state()), Ok(()));
    assert_eq!(windows.insert("a", tray_state()), Err(WindowError::AlreadyOpen));
    assert_eq!(windows.len(), 2);
    assert_eq!(windows.state("a"), Some(content_state()));
    assert_eq!(windows.change("c", Change::Show), Err(WindowError::NotFound));
    assert_eq!(windows.change("b", Change::Show), Ok(()));
    assert_eq!(windows.state("b"), Some(WindowState { visible: true, ..tray_state() }));
    assert_eq!(windows.state("a"), Some(content_state()));
    assert_eq!(windows.remove("a"), Ok(()));
    assert_eq!(windows.remove("a"), Err(WindowError::NotFound));
    assert!(!windows.contains("a"));
    assert!(windows.contains("b"));
    assert_eq!(windows.len(), 1);
}

#[test]
fn targets_resolve_to_labels() {
    assert_eq!(Target::Source.label("help"), "help");
    assert_eq!(Target::Core.label("help"), "core");
    assert_eq!(Target::Tray.label("help"), "tray");
}

#[test]
fn scripts_have_their_code() {
    assert_eq!(Script::Zoom0.source(), "window.__zoom0 && window.__zoom0()");
    assert_eq!(Script::ZoomOut.source(), "window.__zoomOut && window.__zoomOut()");
    assert_eq!(Script::ZoomIn.source(), "window.__zoomIn && window.__zoomIn()");
    assert_eq!(Script::GoBack.source(), "window.history.go(-1)");
    assert_eq!(Script::GoForward.source(), "window.history.go(1)");
    assert_eq!(
        Script::ScrollTop.source(),
        "window.scroll({top: 0, left: 0, behavior: \"smooth\"})"
    );
    assert_eq!(
        Script::ScrollBottom.source(),
        "window.scroll({top: document.body.scrollHeight, left: 0, behavior: \"smooth\"})"
    );
}
