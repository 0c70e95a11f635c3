//! The event router: what a click on a menu item or on the tray icon comes
//! to.

use vstd::prelude::*;
use crate::action::Action;
use crate::conf::{AutoUpdate, Settings, SettingsPatch, Theme};
use crate::effect::{core_label, ends_process, tray_label, Change, Effect, Script, Target};
use crate::menu::{is_offered_toggle, layout, lemma_layout_offers};
use crate::shell::{
    lemma_after_all_keeps_wf, lemma_after_all_push, lemma_after_four, lemma_after_none,
    lemma_after_one, lemma_after_three, lemma_after_two, lemma_process_ended, lemma_sync_reads,
    lemma_untouched, touches_settings, Process, Shell, ShellView,
};
use crate::tree::{
    checked, lemma_marked_offers, lemma_marked_single, marked, offers, shows, Marking, SubmenuView,
};
use crate::window::{
    distinct, has_label, lemma_change_keeps_labels, lemma_state_after_change, state_of, WindowError,
    WindowState,
};

verus! {

/// The reloads of the primary window and of the popup, for those of the two
/// that are open.
pub open spec fn reloads(core_open: bool, tray_open: bool) -> Seq<Effect> {
    let core = if core_open {
        seq![Effect::Eval(Target::Core, Script::Reload)]
    } else {
        Seq::<Effect>::empty()
    };
    if tray_open {
        core.push(Effect::Eval(Target::Tray, Script::Reload))
    } else {
        core
    }
}

/// The effects of choosing a colour scheme: the marks of the three items are
/// cleared, the chosen item is checked, the scheme is persisted, and the
/// process restarts.
pub open spec fn theme_effects(settings: Settings, action: Action, theme: Theme) -> Seq<Effect> {
    seq![
        Effect::SetChecked(Action::ThemeLight, false),
        Effect::SetChecked(Action::ThemeDark, false),
        Effect::SetChecked(Action::ThemeSystem, false),
        Effect::SetChecked(action, true),
        Effect::Persist(Settings { theme, ..settings }),
        Effect::Restart,
    ]
}

/// The effects of choosing an update mode: the marks of the two items are
/// cleared, the chosen item is checked and the mode is persisted.
pub open spec fn update_effects(settings: Settings, action: Action, mode: AutoUpdate) -> Seq<
    Effect,
> {
    seq![
        Effect::SetChecked(Action::UpdatePrompt, false),
        Effect::SetChecked(Action::UpdateSilent, false),
        Effect::SetChecked(action, true),
        Effect::Persist(Settings { auto_update: mode, ..settings }),
    ]
}

/// The effects of a click on the menu item with the given action, under the
/// given settings. An identifier outside the vocabulary, and an action that
/// only the tray menu has, come to nothing.
pub open spec fn menu_effects(
    action: Option<Action>,
    settings: Settings,
    core_open: bool,
    tray_open: bool,
) -> Seq<Effect> {
    match action {
        None => Seq::<Effect>::empty(),
        Some(action) => match action {
            Action::About => seq![Effect::ShowAbout],
            Action::CheckUpdate => seq![Effect::CheckUpdate],
            Action::Restart => seq![Effect::Restart],
            Action::InjectScript => seq![Effect::OpenScriptFile],
            Action::GoConf => seq![Effect::OpenConfigFolder],
            Action::ClearConf => seq![Effect::ClearConfig],
            Action::PopupSearch => seq![
                Effect::SetChecked(Action::PopupSearch, !settings.popup_search),
                Effect::Persist(Settings { popup_search: !settings.popup_search, ..settings }),
            ] + reloads(core_open, tray_open),
            Action::HideDockIcon => seq![
                Effect::Persist(Settings { hide_dock_icon: true, ..settings }),
                Effect::Restart,
            ],
            Action::Titlebar => seq![
                Effect::Persist(Settings { titlebar: !settings.titlebar, ..settings }),
                Effect::Restart,
            ],
            Action::SystemTray => seq![
                Effect::Persist(Settings { tray: !settings.tray, ..settings }),
                Effect::Restart,
            ],
            Action::ThemeLight => theme_effects(settings, action, Theme::Light),
            Action::ThemeDark => theme_effects(settings, action, Theme::Dark),
            Action::ThemeSystem => theme_effects(settings, action, Theme::System),
            Action::UpdatePrompt => update_effects(settings, action, AutoUpdate::Prompt),
            Action::UpdateSilent => update_effects(settings, action, AutoUpdate::Silent),
            Action::StayOnTop => seq![
                Effect::SetChecked(Action::StayOnTop, !settings.stay_on_top),
                Effect::Persist(Settings { stay_on_top: !settings.stay_on_top, ..settings }),
                Effect::Window(Target::Source, Change::AlwaysOnTop(!settings.stay_on_top)),
            ],
            Action::Zoom0 => seq![Effect::Eval(Target::Source, Script::Zoom0)],
            Action::ZoomOut => seq![Effect::Eval(Target::Source, Script::ZoomOut)],
            Action::ZoomIn => seq![Effect::Eval(Target::Source, Script::ZoomIn)],
            Action::Reload => seq![Effect::Eval(Target::Source, Script::Reload)],
            Action::GoBack => seq![Effect::Eval(Target::Source, Script::GoBack)],
            Action::GoForward => seq![Effect::Eval(Target::Source, Script::GoForward)],
            Action::ScrollTop => seq![Effect::Eval(Target::Source, Script::ScrollTop)],
            Action::ScrollBottom => seq![Effect::Eval(Target::Source, Script::ScrollBottom)],
            Action::QuicktypeLog => seq![Effect::OpenLogFile],
            Action::UpdateLog => seq![Effect::OpenUpdateLog],
            Action::DevTools => seq![Effect::ToggleDevtools(Target::Source)],
            Action::ShowDockIcon | Action::ShowCore | Action::Quit => Seq::<Effect>::empty(),
        },
    }
}

fn choose_theme(settings: &Settings, action: Action, theme: Theme) -> (r: Vec<Effect>)
    ensures
        r@ == theme_effects(*settings, action, theme),
{
    let patch = SettingsPatch { theme: Some(theme), ..SettingsPatch::empty() };
    let r = vec![
        Effect::SetChecked(Action::ThemeLight, false),
        Effect::SetChecked(Action::ThemeDark, false),
        Effect::SetChecked(Action::ThemeSystem, false),
        Effect::SetChecked(action, true),
        Effect::Persist(settings.amend(&patch)),
        Effect::Restart,
    ];
    assert(r@ =~= theme_effects(*settings, action, theme));
    r
}

fn choose_update(settings: &Settings, action: Action, mode: AutoUpdate) -> (r: Vec<Effect>)
    ensures
        r@ == update_effects(*settings, action, mode),
{
    let patch = SettingsPatch { auto_update: Some(mode), ..SettingsPatch::empty() };
    let r = vec![
        Effect::SetChecked(Action::UpdatePrompt, false),
        Effect::SetChecked(Action::UpdateSilent, false),
        Effect::SetChecked(action, true),
        Effect::Persist(settings.amend(&patch)),
    ];
    assert(r@ =~= update_effects(*settings, action, mode));
    r
}

fn eval_in_source(script: Script) -> (r: Vec<Effect>)
    ensures
        r@ == seq![Effect::Eval(Target::Source, script)],
{
    let r = vec![Effect::Eval(Target::Source, script)];
    assert(r@ =~= seq![Effect::Eval(Target::Source, script)]);
    r
}

fn only(effect: Effect) -> (r: Vec<Effect>)
    ensures
        r@ == seq![effect],
{
    let r = vec![effect];
    assert(r@ =~= seq![effect]);
    r
}

fn toggle_popup_search(settings: &Settings, core_open: bool, tray_open: bool) -> (r: Vec<Effect>)
    ensures
        r@ == seq![
            Effect::SetChecked(Action::PopupSearch, !settings.popup_search),
            Effect::Persist(Settings { popup_search: !settings.popup_search, ..*settings }),
        ] + reloads(core_open, tray_open),
{
    let value = !settings.popup_search;
    let patch = SettingsPatch { popup_search: Some(value), ..SettingsPatch::empty() };
    let mut r = vec![
        Effect::SetChecked(Action::PopupSearch, value),
        Effect::Persist(settings.amend(&patch)),
    ];
    if core_open {
        r.push(Effect::Eval(Target::Core, Script::Reload));
    }
    if tray_open {
        r.push(Effect::Eval(Target::Tray, Script::Reload));
    }
    assert(r@ =~= seq![
        Effect::SetChecked(Action::PopupSearch, !settings.popup_search),
        Effect::Persist(Settings { popup_search: !settings.popup_search, ..*settings }),
    ] + reloads(core_open, tray_open));
    r
}

fn toggle_stay_on_top(settings: &Settings) -> (r: Vec<Effect>)
    ensures
        r@ == seq![
            Effect::SetChecked(Action::StayOnTop, !settings.stay_on_top),
            Effect::Persist(Settings { stay_on_top: !settings.stay_on_top, ..*settings }),
            Effect::Window(Target::Source, Change::AlwaysOnTop(!settings.stay_on_top)),
        ],
{
    let value = !settings.stay_on_top;
    let patch = SettingsPatch { stay_on_top: Some(value), ..SettingsPatch::empty() };
    let r = vec![
        Effect::SetChecked(Action::StayOnTop, value),
        Effect::Persist(settings.amend(&patch)),
        Effect::Window(Target::Source, Change::AlwaysOnTop(value)),
    ];
    assert(r@ =~= seq![
        Effect::SetChecked(Action::StayOnTop, !settings.stay_on_top),
        Effect::Persist(Settings { stay_on_top: !settings.stay_on_top, ..*settings }),
        Effect::Window(Target::Source, Change::AlwaysOnTop(!settings.stay_on_top)),
    ]);
    r
}

fn nothing() -> (r: Vec<Effect>)
    ensures
        r@ == Seq::<Effect>::empty(),
{
    Vec::new()
}

/// Decides what a click on a menu item comes to.
pub fn route_menu(action: Option<Action>, settings: &Settings, core_open: bool, tray_open: bool) -> (r:
    Vec<Effect>)
    ensures
        r@ == menu_effects(action, *settings, core_open, tray_open),
{
    let action = match action {
        Some(action) => action,
        None => {
            return nothing();
        },
    };
    match action {
        Action::About => only(Effect::ShowAbout),
        Action::CheckUpdate => only(Effect::CheckUpdate),
        Action::Restart => only(Effect::Restart),
        Action::InjectScript => only(Effect::OpenScriptFile),
        Action::GoConf => only(Effect::OpenConfigFolder),
        Action::ClearConf => only(Effect::ClearConfig),
        Action::PopupSearch => toggle_popup_search(settings, core_open, tray_open),
        Action::HideDockIcon => {
            let patch = SettingsPatch { hide_dock_icon: Some(true), ..SettingsPatch::empty() };
            settings.amend(&patch).restart()
        },
        Action::Titlebar => {
            let patch = SettingsPatch {
                titlebar: Some(!settings.titlebar),
                ..SettingsPatch::empty()
            };
            settings.amend(&patch).restart()
        },
        Action::SystemTray => {
            let patch = SettingsPatch { tray: Some(!settings.tray), ..SettingsPatch::empty() };
            settings.amend(&patch).restart()
        },
        Action::ThemeLight => choose_theme(settings, action, Theme::Light),
        Action::ThemeDark => choose_theme(settings, action, Theme::Dark),
        Action::ThemeSystem => choose_theme(settings, action, Theme::System),
        Action::UpdatePrompt => choose_update(settings, action, AutoUpdate::Prompt),
        Action::UpdateSilent => choose_update(settings, action, AutoUpdate::Silent),
        Action::StayOnTop => toggle_stay_on_top(settings),
        Action::Zoom0 => eval_in_source(Script::Zoom0),
        Action::ZoomOut => eval_in_source(Script::ZoomOut),
        Action::ZoomIn => eval_in_source(Script::ZoomIn),
        Action::Reload => eval_in_source(Script::Reload),
        Action::GoBack => eval_in_source(Script::GoBack),
        Action::GoForward => eval_in_source(Script::GoForward),
        Action::ScrollTop => eval_in_source(Script::ScrollTop),
        Action::ScrollBottom => eval_in_source(Script::ScrollBottom),
        Action::QuicktypeLog => only(Effect::OpenLogFile),
        Action::UpdateLog => only(Effect::OpenUpdateLog),
        Action::DevTools => only(Effect::ToggleDevtools(Target::Source)),
        Action::ShowDockIcon | Action::ShowCore | Action::Quit => nothing(),
    }
}

/// Handles a click on the menu item with the identifier `menu_id`, in the
/// menu of the window `source`: decides the effects, carries them out on the
/// state and hands them to the host. An identifier outside the vocabulary is
/// ignored.
pub fn menu_handler(shell: &mut Shell, source: &str, menu_id: &str) -> (effects: Vec<Effect>)
    ensures
        old(shell).wf(),
        final(shell).wf(),
        effects@ == menu_effects(
            Action::of_id(menu_id@),
            old(shell)@.store.settings(),
            has_label(old(shell)@.windows, core_label()),
            has_label(old(shell)@.windows, tray_label()),
        ),
        final(shell)@ == old(shell)@.after_all(source@, effects@),
        old(shell)@.in_sync() ==> final(shell)@.in_sync(),
{
    let settings = shell.settings();
    let core_open = shell.has_window("core");
    let tray_open = shell.has_window("tray");
    let effects = route_menu(Action::parse(menu_id), &settings, core_open, tray_open);
    proof {
        if shell@.in_sync() {
            lemma_menu_keeps_sync(shell@, source@, Action::of_id(menu_id@));
        }
    }
    shell.perform_all(source, &effects);
    effects
}

/// What the tray icon reports.
#[derive(Debug, PartialEq, Eq)]
pub enum TrayEvent {
    /// A click with the left button on the icon.
    LeftClick,
    /// A click on the item of the tray menu with the given identifier.
    MenuItemClick(String),
    /// Anything else.
    Other,
}

/// What the tray icon reports, the identifier read.
pub enum TrayInput {
    LeftClick,
    Item(Option<Action>),
    Other,
}

impl TrayEvent {
    /// The event with its identifier read.
    pub open spec fn input(&self) -> TrayInput {
        match *self {
            TrayEvent::LeftClick => TrayInput::LeftClick,
            TrayEvent::MenuItemClick(id) => TrayInput::Item(Action::of_id(id@)),
            TrayEvent::Other => TrayInput::Other,
        }
    }
}

/// The effects of a left click on the tray icon. Unless the dock icon is
/// hidden, the primary window is minimized if there is one. The popup, if
/// there is one, is hidden where it was visible, and put at the icon and
/// shown where it was hidden.
pub open spec fn left_click_effects(
    settings: Settings,
    core: Option<WindowState>,
    tray: Option<WindowState>,
) -> Seq<Effect> {
    let first = if !settings.hide_dock_icon && core is Some {
        seq![Effect::Window(Target::Core, Change::Minimize)]
    } else {
        Seq::<Effect>::empty()
    };
    match tray {
        Some(state) => if state.visible {
            first.push(Effect::Window(Target::Tray, Change::Hide))
        } else {
            first.push(Effect::Window(Target::Tray, Change::MoveToTray)).push(
                Effect::Window(Target::Tray, Change::Show),
            )
        },
        None => first,
    }
}

/// The effects of bringing the primary window back from the tray menu, or
/// the error where the primary window is there and the popup is not.
pub open spec fn show_core_effects(core: Option<WindowState>, tray: Option<WindowState>) -> Result<
    Seq<Effect>,
    WindowError,
> {
    match core {
        None => Ok(Seq::<Effect>::empty()),
        Some(state) => if tray is None {
            Err(WindowError::NotFound)
        } else if state.visible {
            Ok(Seq::<Effect>::empty())
        } else {
            Ok(
                seq![
                    Effect::Window(Target::Core, Change::Show),
                    Effect::Window(Target::Core, Change::Focus),
                    Effect::Window(Target::Tray, Change::Hide),
                ],
            )
        },
    }
}

/// The effects of an event of the tray icon, under the given settings and
/// with the primary window and the popup in the given states.
pub open spec fn tray_effects(
    input: TrayInput,
    settings: Settings,
    core: Option<WindowState>,
    tray: Option<WindowState>,
) -> Result<Seq<Effect>, WindowError> {
    match input {
        TrayInput::LeftClick => Ok(left_click_effects(settings, core, tray)),
        TrayInput::Item(Some(Action::Restart)) => Ok(seq![Effect::Restart]),
        TrayInput::Item(Some(Action::ShowDockIcon)) => Ok(
            seq![Effect::Persist(Settings { hide_dock_icon: false, ..settings }), Effect::Restart],
        ),
        TrayInput::Item(Some(Action::HideDockIcon)) => if settings.hide_dock_icon {
            Ok(Seq::<Effect>::empty())
        } else {
            Ok(
                seq![
                    Effect::Persist(Settings { hide_dock_icon: true, ..settings }),
                    Effect::Restart,
                ],
            )
        },
        TrayInput::Item(Some(Action::ShowCore)) => show_core_effects(core, tray),
        TrayInput::Item(Some(Action::Quit)) => Ok(seq![Effect::Exit(0)]),
        _ => Ok(Seq::<Effect>::empty()),
    }
}

fn on_left_click(settings: &Settings, core: Option<WindowState>, tray: Option<WindowState>) -> (r:
    Vec<Effect>)
    ensures
        r@ == left_click_effects(*settings, core, tray),
{
    let mut r: Vec<Effect> = Vec::new();
    if !settings.hide_dock_icon && core.is_some() {
        r.push(Effect::Window(Target::Core, Change::Minimize));
    }
    match tray {
        Some(state) => {
            if state.visible {
                r.push(Effect::Window(Target::Tray, Change::Hide));
            } else {
                r.push(Effect::Window(Target::Tray, Change::MoveToTray));
                r.push(Effect::Window(Target::Tray, Change::Show));
            }
        },
        None => {},
    }
    assert(r@ =~= left_click_effects(*settings, core, tray));
    r
}

fn on_show_core(core: Option<WindowState>, tray: Option<WindowState>) -> (r: Result<
    Vec<Effect>,
    WindowError,
>)
    ensures
        effects_view(r) == show_core_effects(core, tray),
{
    match core {
        None => Ok(nothing()),
        Some(state) => {
            if tray.is_none() {
                Err(WindowError::NotFound)
            } else if state.visible {
                Ok(nothing())
            } else {
                let r = vec![
                    Effect::Window(Target::Core, Change::Show),
                    Effect::Window(Target::Core, Change::Focus),
                    Effect::Window(Target::Tray, Change::Hide),
                ];
                assert(r@ =~= seq![
                    Effect::Window(Target::Core, Change::Show),
                    Effect::Window(Target::Core, Change::Focus),
                    Effect::Window(Target::Tray, Change::Hide),
                ]);
                Ok(r)
            }
        },
    }
}

/// What a handler's result holds.
pub open spec fn effects_view(r: Result<Vec<Effect>, WindowError>) -> Result<
    Seq<Effect>,
    WindowError,
> {
    match r {
        Ok(effects) => Ok(effects@),
        Err(e) => Err(e),
    }
}

/// Decides what an event of the tray icon comes to.
pub fn route_tray(
    event: &TrayEvent,
    settings: &Settings,
    core: Option<WindowState>,
    tray: Option<WindowState>,
) -> (r: Result<Vec<Effect>, WindowError>)
    ensures
        effects_view(r) == tray_effects(event.input(), *settings, core, tray),
{
    match event {
        TrayEvent::LeftClick => Ok(on_left_click(settings, core, tray)),
        TrayEvent::MenuItemClick(id) => match Action::parse(id.as_str()) {
            Some(Action::Restart) => Ok(only(Effect::Restart)),
            Some(Action::ShowDockIcon) => {
                let patch = SettingsPatch { hide_dock_icon: Some(false), ..SettingsPatch::empty() };
                Ok(settings.amend(&patch).restart())
            },
            Some(Action::HideDockIcon) => {
                if settings.hide_dock_icon {
                    Ok(nothing())
                } else {
                    let patch = SettingsPatch {
                        hide_dock_icon: Some(true),
                        ..SettingsPatch::empty()
                    };
                    Ok(settings.amend(&patch).restart())
                }
            },
            Some(Action::ShowCore) => on_show_core(core, tray),
            Some(Action::Quit) => Ok(only(Effect::Exit(0))),
            _ => Ok(nothing()),
        },
        TrayEvent::Other => Ok(nothing()),
    }
}

/// The label under which the events of the tray icon are carried out. No
/// effect of such an event is aimed at the window in which it arose.
pub open spec fn no_source() -> Seq<char> {
    ""@
}

/// Handles an event of the tray icon: decides the effects, carries them out
/// on the state and hands them to the host. Where the primary window is to
/// be brought back and the popup is missing, that is the error, and nothing
/// changes.
pub fn tray_handler(shell: &mut Shell, event: &TrayEvent) -> (r: Result<Vec<Effect>, WindowError>)
    ensures
        old(shell).wf(),
        final(shell).wf(),
        effects_view(r) == tray_effects(
            event.input(),
            old(shell)@.store.settings(),
            state_of(old(shell)@.windows, core_label()),
            state_of(old(shell)@.windows, tray_label()),
        ),
        r matches Ok(effects) ==> final(shell)@ == old(shell)@.after_all(no_source(), effects@),
        r is Err ==> final(shell)@ == old(shell)@,
        old(shell)@.in_sync() ==> final(shell)@.in_sync(),
{
    let settings = shell.settings();
    let core = shell.window_state("core");
    let tray = shell.window_state("tray");
    let r = route_tray(event, &settings, core, tray);
    match &r {
        Ok(effects) => {
            proof {
                if shell@.in_sync() {
                    lemma_tray_keeps_sync(shell@, event.input());
                }
            }
            shell.perform_all("", effects);
        },
        Err(_) => {},
    }
    r
}

/// The state after the reloads is the state before them.
pub proof fn lemma_after_reloads(
    state: ShellView,
    source: Seq<char>,
    effects: Seq<Effect>,
    core_open: bool,
    tray_open: bool,
)
    ensures
        state.after_all(source, effects + reloads(core_open, tray_open)) == state.after_all(
            source,
            effects,
        ),
{
    let core = Effect::Eval(Target::Core, Script::Reload);
    let tray = Effect::Eval(Target::Tray, Script::Reload);
    let all = effects + reloads(core_open, tray_open);
    if core_open {
        lemma_after_all_push(state, source, effects, core);
        if tray_open {
            assert(all =~= effects.push(core).push(tray));
            lemma_after_all_push(state, source, effects.push(core), tray);
        } else {
            assert(all =~= effects.push(core));
        }
    } else {
        if tray_open {
            assert(all =~= effects.push(tray));
            lemma_after_all_push(state, source, effects, tray);
        } else {
            assert(all =~= effects);
        }
    }
}

/// The state after a colour scheme was chosen.
pub proof fn lemma_after_theme(
    state: ShellView,
    source: Seq<char>,
    action: Action,
    theme: Theme,
)
    ensures
        ({
            let settings = state.store.settings();
            let after = state.after_all(source, theme_effects(settings, action, theme));
            let cleared = marked(
                marked(
                    marked(state.menu, Marking::Single(Action::ThemeLight, false)),
                    Marking::Single(Action::ThemeDark, false),
                ),
                Marking::Single(Action::ThemeSystem, false),
            );
            after == ShellView {
                menu: marked(cleared, Marking::Single(action, true)),
                store: state.store.written(Settings { theme, ..settings }),
                process: Process::Restarting,
                windows: Seq::empty(),
                ..state
            }
        }),
{
    let settings = state.store.settings();
    let a = Effect::SetChecked(Action::ThemeLight, false);
    let b = Effect::SetChecked(Action::ThemeDark, false);
    let c = Effect::SetChecked(Action::ThemeSystem, false);
    let d = Effect::SetChecked(action, true);
    let e = Effect::Persist(Settings { theme, ..settings });
    lemma_after_four(state, source, a, b, c, d);
    lemma_after_all_push(state, source, seq![a, b, c, d], e);
    lemma_after_all_push(state, source, seq![a, b, c, d].push(e), Effect::Restart);
    assert(theme_effects(settings, action, theme) =~= seq![a, b, c, d].push(e).push(
        Effect::Restart,
    ));
}

/// The state after an update mode was chosen.
pub proof fn lemma_after_update(
    state: ShellView,
    source: Seq<char>,
    action: Action,
    mode: AutoUpdate,
)
    ensures
        ({
            let settings = state.store.settings();
            let after = state.after_all(source, update_effects(settings, action, mode));
            let cleared = marked(
                marked(state.menu, Marking::Single(Action::UpdatePrompt, false)),
                Marking::Single(Action::UpdateSilent, false),
            );
            after == ShellView {
                menu: marked(cleared, Marking::Single(action, true)),
                store: state.store.written(Settings { auto_update: mode, ..settings }),
                ..state
            }
        }),
{
    let settings = state.store.settings();
    let a = Effect::SetChecked(Action::UpdatePrompt, false);
    let b = Effect::SetChecked(Action::UpdateSilent, false);
    let c = Effect::SetChecked(action, true);
    let d = Effect::Persist(Settings { auto_update: mode, ..settings });
    lemma_after_four(state, source, a, b, c, d);
}

proof fn lemma_single_mark_in_sync(
    state: ShellView,
    action: Action,
    value: bool,
    settings: Settings,
)
    requires
        state.wf(),
        state.in_sync(),
        is_offered_toggle(state.platform, action),
        shows(settings, action) == value,
        forall|other: Action|
            other != action ==> #[trigger] shows(settings, other) == shows(
                state.store.settings(),
                other,
            ),
    ensures
        (ShellView {
            menu: marked(state.menu, Marking::Single(action, value)),
            store: state.store.written(settings),
            ..state
        }).in_sync(),
{
    reveal(ShellView::in_sync);
    let after = ShellView {
        menu: marked(state.menu, Marking::Single(action, value)),
        store: state.store.written(settings),
        ..state
    };
    if state.process == Process::Running {
        assert forall|other: Action| is_offered_toggle(after.platform, other) implies #[trigger] checked(
            after.menu,
            other,
        ) == shows(after.store.settings(), other) by {
            lemma_marked_single(state.menu, action, value, other);
            lemma_layout_offers(state.platform, action);
            assert(offers(state.menu, action) == offers(layout(state.platform), action));
            if other != action {
                assert(checked(state.menu, other) == shows(state.store.settings(), other));
            }
        }
    }
}

proof fn lemma_update_in_sync(state: ShellView, source: Seq<char>, action: Action, mode: AutoUpdate)
    requires
        state.wf(),
        state.in_sync(),
        action == Action::UpdatePrompt && mode == AutoUpdate::Prompt || action
            == Action::UpdateSilent && mode == AutoUpdate::Silent,
    ensures
        state.after_all(source, update_effects(state.store.settings(), action, mode)).in_sync(),
{
    reveal(ShellView::in_sync);
    let settings = state.store.settings();
    let after = state.after_all(source, update_effects(settings, action, mode));
    lemma_after_update(state, source, action, mode);
    let m1 = marked(state.menu, Marking::Single(Action::UpdatePrompt, false));
    let m2 = marked(m1, Marking::Single(Action::UpdateSilent, false));
    let m3 = marked(m2, Marking::Single(action, true));
    if state.process == Process::Running {
        assert forall|other: Action| is_offered_toggle(after.platform, other) implies #[trigger] checked(
            after.menu,
            other,
        ) == shows(after.store.settings(), other) by {
            lemma_marked_single(state.menu, Action::UpdatePrompt, false, other);
            lemma_marked_single(m1, Action::UpdateSilent, false, other);
            lemma_marked_single(m2, action, true, other);
            lemma_marked_offers(state.menu, Marking::Single(Action::UpdatePrompt, false), action);
            lemma_marked_offers(m1, Marking::Single(Action::UpdateSilent, false), action);
            lemma_layout_offers(state.platform, action);
            assert(offers(state.menu, action) == offers(layout(state.platform), action));
            assert(checked(state.menu, other) == shows(settings, other));
        }
    }
}

/// A click on a menu item leaves menu and store in agreement.
pub proof fn lemma_menu_keeps_sync(state: ShellView, source: Seq<char>, action: Option<Action>)
    requires
        state.wf(),
        state.in_sync(),
    ensures
        state.after_all(
            source,
            menu_effects(
                action,
                state.store.settings(),
                has_label(state.windows, core_label()),
                has_label(state.windows, tray_label()),
            ),
        ).in_sync(),
{
    let settings = state.store.settings();
    let core_open = has_label(state.windows, core_label());
    let tray_open = has_label(state.windows, tray_label());
    let effects = menu_effects(action, settings, core_open, tray_open);
    match action {
        None => {
            lemma_after_none(state, source);
        },
        Some(a) => match a {
            Action::PopupSearch => {
                let value = !settings.popup_search;
                let next = Settings { popup_search: value, ..settings };
                let first = Effect::SetChecked(Action::PopupSearch, value);
                let second = Effect::Persist(next);
                lemma_after_reloads(state, source, seq![first, second], core_open, tray_open);
                lemma_after_two(state, source, first, second);
                lemma_single_mark_in_sync(state, Action::PopupSearch, value, next);
            },
            Action::StayOnTop => {
                let value = !settings.stay_on_top;
                let next = Settings { stay_on_top: value, ..settings };
                lemma_after_three(
                    state,
                    source,
                    Effect::SetChecked(Action::StayOnTop, value),
                    Effect::Persist(next),
                    Effect::Window(Target::Source, Change::AlwaysOnTop(value)),
                );
                lemma_single_mark_in_sync(state, Action::StayOnTop, value, next);
                lemma_sync_reads(
                    ShellView {
                        menu: marked(state.menu, Marking::Single(Action::StayOnTop, value)),
                        store: state.store.written(next),
                        ..state
                    },
                    state.after_all(source, effects),
                );
            },
            Action::UpdatePrompt => {
                lemma_update_in_sync(state, source, a, AutoUpdate::Prompt);
            },
            Action::UpdateSilent => {
                lemma_update_in_sync(state, source, a, AutoUpdate::Silent);
            },
            Action::Restart | Action::HideDockIcon | Action::Titlebar | Action::SystemTray
            | Action::ThemeLight | Action::ThemeDark | Action::ThemeSystem => {
                lemma_process_ended(state, source, effects);
            },
            Action::ShowDockIcon | Action::ShowCore | Action::Quit => {
                lemma_after_none(state, source);
            },
            _ => {
                lemma_neutral_one(state, source, effects[0]);
                assert(effects =~= seq![effects[0]]);
            },
        },
    }
}

proof fn lemma_neutral_one(state: ShellView, source: Seq<char>, effect: Effect)
    requires
        !touches_settings(effect),
        !ends_process(effect),
        state.in_sync(),
    ensures
        state.after_all(source, seq![effect]).in_sync(),
{
    reveal(ShellView::in_sync);
    lemma_after_one(state, source, effect);
}

/// An event of the tray icon leaves menu and store in agreement.
pub proof fn lemma_tray_keeps_sync(state: ShellView, input: TrayInput)
    requires
        state.wf(),
        state.in_sync(),
    ensures
        tray_effects(
            input,
            state.store.settings(),
            state_of(state.windows, core_label()),
            state_of(state.windows, tray_label()),
        ) matches Ok(effects) ==> state.after_all(no_source(), effects).in_sync(),
{
    let settings = state.store.settings();
    let r = tray_effects(
        input,
        settings,
        state_of(state.windows, core_label()),
        state_of(state.windows, tray_label()),
    );
    match r {
        Ok(effects) => {
            if effects.len() > 0 && ends_process(effects.last()) {
                lemma_process_ended(state, no_source(), effects);
            } else {
                lemma_untouched(state, no_source(), effects);
            }
        },
        Err(_) => {},
    }
}

/// Whether a list of effects keeps the order of the store: it writes at most
/// once, and only its last effect may end the process.
pub open spec fn disciplined(effects: Seq<Effect>) -> bool {
    &&& forall|i: int|
        0 <= i < effects.len() && ends_process(#[trigger] effects[i]) ==> i
            == effects.len() - 1
    &&& forall|i: int, j: int|
        0 <= i < j < effects.len() ==> !((#[trigger] effects[i]) is Persist && (
        #[trigger] effects[j]) is Persist)
}

/// Whatever is clicked in the menu, the store is written at most once, and
/// the process is ended, if at all, by the last effect.
pub proof fn lemma_menu_disciplined(
    action: Option<Action>,
    settings: Settings,
    core_open: bool,
    tray_open: bool,
)
    ensures
        disciplined(menu_effects(action, settings, core_open, tray_open)),
{
    let effects = menu_effects(action, settings, core_open, tray_open);
    match action {
        None => lemma_short_is_disciplined(effects),
        Some(a) => match a {
            Action::PopupSearch => {
                let head = seq![
                    Effect::SetChecked(Action::PopupSearch, !settings.popup_search),
                    Effect::Persist(Settings { popup_search: !settings.popup_search, ..settings }),
                ];
                assert(head.len() == 2);
                assert(reloads(core_open, tray_open).len() <= 2);
                assert forall|i: int| 0 <= i < effects.len() implies !ends_process(
                    #[trigger] effects[i],
                ) && (effects[i] is Persist ==> i == 1) by {
                    if i >= 2 {
                        assert(effects[i] == reloads(core_open, tray_open)[i - 2]);
                    } else {
                        assert(effects[i] == head[i]);
                    }
                }
            },
            Action::HideDockIcon | Action::Titlebar | Action::SystemTray => {
                assert(effects.len() == 2);
            },
            Action::ThemeLight | Action::ThemeDark | Action::ThemeSystem => {
                assert(effects.len() == 6);
            },
            Action::UpdatePrompt | Action::UpdateSilent => {
                assert(effects.len() == 4);
            },
            Action::StayOnTop => {
                assert(effects.len() == 3);
            },
            _ => lemma_short_is_disciplined(effects),
        },
    }
}

/// A list of at most one effect keeps the order of the store.
pub proof fn lemma_short_is_disciplined(effects: Seq<Effect>)
    requires
        effects.len() <= 1,
    ensures
        disciplined(effects),
{
}

/// Whatever the tray icon reports, the store is written at most once, and
/// the process is ended, if at all, by the last effect.
pub proof fn lemma_tray_disciplined(
    input: TrayInput,
    settings: Settings,
    core: Option<WindowState>,
    tray: Option<WindowState>,
)
    ensures
        tray_effects(input, settings, core, tray) matches Ok(effects) ==> disciplined(effects),
{
}

/// The action of a colour scheme's item.
pub open spec fn theme_action(theme: Theme) -> Action {
    match theme {
        Theme::Light => Action::ThemeLight,
        Theme::Dark => Action::ThemeDark,
        Theme::System => Action::ThemeSystem,
    }
}

/// After a colour scheme was chosen in the menu, of the three items of the
/// schemes exactly the chosen one is checked, the store holds the chosen
/// scheme, and the process restarts.
pub proof fn lemma_theme_chosen(state: ShellView, source: Seq<char>, theme: Theme)
    requires
        state.wf(),
    ensures
        ({
            let after = state.after_all(
                source,
                menu_effects(
                    Some(theme_action(theme)),
                    state.store.settings(),
                    has_label(state.windows, core_label()),
                    has_label(state.windows, tray_label()),
                ),
            );
            &&& checked(after.menu, Action::ThemeLight) == (theme == Theme::Light)
            &&& checked(after.menu, Action::ThemeDark) == (theme == Theme::Dark)
            &&& checked(after.menu, Action::ThemeSystem) == (theme == Theme::System)
            &&& after.store.settings() == Settings { theme, ..state.store.settings() }
            &&& after.process == Process::Restarting
            &&& theme_effects(state.store.settings(), theme_action(theme), theme).last()
                == Effect::Restart
        }),
{
    let action = theme_action(theme);
    lemma_after_theme(state, source, action, theme);
    assert(theme_effects(state.store.settings(), action, theme).len() == 6);
    let m1 = marked(state.menu, Marking::Single(Action::ThemeLight, false));
    let m2 = marked(m1, Marking::Single(Action::ThemeDark, false));
    let m3 = marked(m2, Marking::Single(Action::ThemeSystem, false));
    let m4 = marked(m3, Marking::Single(action, true));
    lemma_marked_offers(state.menu, Marking::Single(Action::ThemeLight, false), action);
    lemma_marked_offers(m1, Marking::Single(Action::ThemeDark, false), action);
    lemma_marked_offers(m2, Marking::Single(Action::ThemeSystem, false), action);
    lemma_layout_offers(state.platform, action);
    assert(offers(state.menu, action) == offers(layout(state.platform), action));
    lemma_three_cleared(state.menu, Action::ThemeLight);
    lemma_three_cleared(state.menu, Action::ThemeDark);
    lemma_three_cleared(state.menu, Action::ThemeSystem);
    lemma_marked_single(m3, action, true, Action::ThemeLight);
    lemma_marked_single(m3, action, true, Action::ThemeDark);
    lemma_marked_single(m3, action, true, Action::ThemeSystem);
}

proof fn lemma_three_cleared(menu: Seq<SubmenuView>, which: Action)
    requires
        which == Action::ThemeLight || which == Action::ThemeDark || which == Action::ThemeSystem,
    ensures
        !checked(
            marked(
                marked(
                    marked(menu, Marking::Single(Action::ThemeLight, false)),
                    Marking::Single(Action::ThemeDark, false),
                ),
                Marking::Single(Action::ThemeSystem, false),
            ),
            which,
        ),
{
    let m1 = marked(menu, Marking::Single(Action::ThemeLight, false));
    let m2 = marked(m1, Marking::Single(Action::ThemeDark, false));
    lemma_marked_single(menu, Action::ThemeLight, false, which);
    lemma_marked_single(m1, Action::ThemeDark, false, which);
    lemma_marked_single(m2, Action::ThemeSystem, false, which);
}

/// A click on the item of the search popup flips the stored value and the
/// item's mark, reloads the primary window and the popup where they are
/// open, and leaves the process running as it was.
pub proof fn lemma_popup_search_toggled(state: ShellView, source: Seq<char>)
    requires
        state.wf(),
    ensures
        ({
            let before = state.store.settings();
            let core_open = has_label(state.windows, core_label());
            let tray_open = has_label(state.windows, tray_label());
            let effects = menu_effects(Some(Action::PopupSearch), before, core_open, tray_open);
            let after = state.after_all(source, effects);
            &&& after.store.settings() == Settings {
                popup_search: !before.popup_search,
                ..before
            }
            &&& checked(after.menu, Action::PopupSearch) == !before.popup_search
            &&& core_open ==> effects.contains(Effect::Eval(Target::Core, Script::Reload))
            &&& tray_open ==> effects.contains(Effect::Eval(Target::Tray, Script::Reload))
            &&& forall|i: int|
                0 <= i < effects.len() ==> !ends_process(#[trigger] effects[i])
            &&& after.process == state.process
            &&& after.windows == state.windows
        }),
{
    let before = state.store.settings();
    let core_open = has_label(state.windows, core_label());
    let tray_open = has_label(state.windows, tray_label());
    let value = !before.popup_search;
    let first = Effect::SetChecked(Action::PopupSearch, value);
    let second = Effect::Persist(Settings { popup_search: value, ..before });
    let effects = menu_effects(Some(Action::PopupSearch), before, core_open, tray_open);
    lemma_after_reloads(state, source, seq![first, second], core_open, tray_open);
    lemma_after_two(state, source, first, second);
    lemma_marked_single(state.menu, Action::PopupSearch, value, Action::PopupSearch);
    lemma_layout_offers(state.platform, Action::PopupSearch);
    assert(offers(state.menu, Action::PopupSearch) == offers(
        layout(state.platform),
        Action::PopupSearch,
    ));
    if core_open {
        assert(effects[2] == Effect::Eval(Target::Core, Script::Reload));
        if tray_open {
            assert(effects[3] == Effect::Eval(Target::Tray, Script::Reload));
        }
    } else if tray_open {
        assert(effects[2] == Effect::Eval(Target::Tray, Script::Reload));
    }
}

/// The two labels that the shell gives out itself differ.
pub proof fn lemma_core_is_not_tray()
    ensures
        core_label() != tray_label(),
{
    reveal_strlit("core");
    reveal_strlit("tray");
    assert(core_label()[0] == 'c' && tray_label()[0] == 't');
}

/// The windows after a left click on the tray icon.
pub open spec fn after_left_click(state: ShellView) -> ShellView {
    state.after_all(
        no_source(),
        left_click_effects(
            state.store.settings(),
            state_of(state.windows, core_label()),
            state_of(state.windows, tray_label()),
        ),
    )
}

/// A left click on the tray icon while the popup is hidden makes the popup
/// visible and puts it at the icon; a second left click hides it again.
pub proof fn lemma_left_click_twice(state: ShellView)
    requires
        state.wf(),
        state_of(state.windows, tray_label()) matches Some(tray) && !tray.visible,
    ensures
        ({
            let once = after_left_click(state);
            let twice = after_left_click(once);
            &&& state_of(once.windows, tray_label()) matches Some(tray) && tray.visible
                && tray.at_tray
            &&& state_of(twice.windows, tray_label()) matches Some(tray) && !tray.visible
        }),
{
    lemma_left_click(state);
    lemma_left_click(after_left_click(state));
}

/// What a left click on the tray icon does to the popup: it flips whether
/// the popup is visible, and puts it at the icon where it makes it visible.
pub proof fn lemma_left_click(state: ShellView)
    requires
        state.wf(),
        state_of(state.windows, tray_label()) is Some,
    ensures
        ({
            let before = state_of(state.windows, tray_label())->Some_0;
            let after = after_left_click(state);
            &&& after.wf()
            &&& state_of(after.windows, tray_label()) matches Some(tray) && tray.visible
                == !before.visible && (tray.visible ==> tray.at_tray)
        }),
{
    lemma_core_is_not_tray();
    let settings = state.store.settings();
    let core = state_of(state.windows, core_label());
    let tray = state_of(state.windows, tray_label());
    let before = tray->Some_0;
    let minimize = Effect::Window(Target::Core, Change::Minimize);
    let first = if !settings.hide_dock_icon && core is Some {
        seq![minimize]
    } else {
        Seq::<Effect>::empty()
    };
    let s1 = state.after_all(no_source(), first);
    if first.len() > 0 {
        lemma_after_one(state, no_source(), minimize);
        lemma_state_after_change(state.windows, core_label(), Change::Minimize, tray_label());
        lemma_change_keeps_labels(state.windows, core_label(), Change::Minimize, tray_label());
    } else {
        lemma_after_none(state, no_source());
    }
    assert(distinct(s1.windows));
    assert(state_of(s1.windows, tray_label()) == Some(before));
    if before.visible {
        let hide = Effect::Window(Target::Tray, Change::Hide);
        lemma_after_all_push(state, no_source(), first, hide);
        lemma_state_after_change(s1.windows, tray_label(), Change::Hide, tray_label());
        lemma_change_keeps_labels(s1.windows, tray_label(), Change::Hide, tray_label());
    } else {
        let place = Effect::Window(Target::Tray, Change::MoveToTray);
        let show = Effect::Window(Target::Tray, Change::Show);
        lemma_after_all_push(state, no_source(), first, place);
        lemma_after_all_push(state, no_source(), first.push(place), show);
        let s2 = s1.after(no_source(), place);
        lemma_state_after_change(s1.windows, tray_label(), Change::MoveToTray, tray_label());
        lemma_change_keeps_labels(s1.windows, tray_label(), Change::MoveToTray, tray_label());
        lemma_state_after_change(s2.windows, tray_label(), Change::Show, tray_label());
        lemma_change_keeps_labels(s2.windows, tray_label(), Change::Show, tray_label());
    }
    lemma_after_all_keeps_wf(
        state,
        no_source(),
        left_click_effects(settings, core, tray),
    );
}

} // verus!
