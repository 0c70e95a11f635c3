//! The named windows: which exist, in what state, and how they are opened.

use vstd::prelude::*;
use crate::conf::{Settings, Theme};
use crate::effect::{tray_label, Change, Effect, Script, Target};
use crate::text::{str_eq, text_of};

verus! {

/// The state of a live window.
#[derive(Clone, Copy, Debug, PartialEq, Eq, Structural)]
pub struct WindowState {
    pub visible: bool,
    /// The window was given the input focus and was neither hidden nor
    /// minimized since.
    pub focused: bool,
    pub minimized: bool,
    pub always_on_top: bool,
    pub decorations: bool,
    /// The window was put at the tray icon.
    pub at_tray: bool,
}

/// A live window.
#[derive(Debug, PartialEq, Eq)]
pub struct Window {
    pub label: String,
    pub state: WindowState,
}

/// What a live window is: its label and its state.
pub struct WindowView {
    pub label: Seq<char>,
    pub state: WindowState,
}

impl View for Window {
    type V = WindowView;

    open spec fn view(&self) -> WindowView {
        WindowView { label: self.label@, state: self.state }
    }
}

/// Why a window operation was not carried out.
#[derive(Clone, Copy, Debug, PartialEq, Eq, Structural)]
pub enum WindowError {
    /// No window has the label.
    NotFound,
    /// A window has the label already.
    AlreadyOpen,
}

/// The state after a change.
pub open spec fn changed(state: WindowState, change: Change) -> WindowState {
    match change {
        Change::Show => WindowState { visible: true, ..state },
        Change::Hide => WindowState { visible: false, focused: false, ..state },
        Change::Focus => WindowState { focused: true, ..state },
        Change::Minimize => WindowState { minimized: true, focused: false, ..state },
        Change::MoveToTray => WindowState { at_tray: true, ..state },
        Change::AlwaysOnTop(on) => WindowState { always_on_top: on, ..state },
    }
}

/// Whether a window has the label.
pub open spec fn has_label(windows: Seq<WindowView>, label: Seq<char>) -> bool {
    exists|i: int| 0 <= i < windows.len() && (#[trigger] windows[i]).label == label
}

/// Whether no two windows share a label.
pub open spec fn distinct(windows: Seq<WindowView>) -> bool {
    forall|i: int, j: int|
        0 <= i < j < windows.len() ==> (#[trigger] windows[i]).label != (#[trigger] windows[j]).label
}

/// The place of the window with the label, if there is one.
pub open spec fn place_of(windows: Seq<WindowView>, label: Seq<char>) -> Option<int> {
    if has_label(windows, label) {
        Some(choose|i: int| 0 <= i < windows.len() && (#[trigger] windows[i]).label == label)
    } else {
        None
    }
}

/// The state of the window with the label, if there is one.
pub open spec fn state_of(windows: Seq<WindowView>, label: Seq<char>) -> Option<WindowState> {
    match place_of(windows, label) {
        Some(i) => Some(windows[i].state),
        None => None,
    }
}

/// The windows after the one with the label, if there is one, was changed.
pub open spec fn with_change(windows: Seq<WindowView>, label: Seq<char>, change: Change) -> Seq<
    WindowView,
> {
    windows.map_values(
        |w: WindowView|
            if w.label == label {
                WindowView { label: w.label, state: changed(w.state, change) }
            } else {
                w
            },
    )
}

/// The windows without the one with the label.
pub open spec fn without(windows: Seq<WindowView>, label: Seq<char>) -> Seq<WindowView> {
    match place_of(windows, label) {
        Some(i) => windows.remove(i),
        None => windows,
    }
}

/// The windows with one more, unless its label is taken.
pub open spec fn with_window(windows: Seq<WindowView>, label: Seq<char>, state: WindowState) -> Seq<
    WindowView,
> {
    if has_label(windows, label) {
        windows
    } else {
        windows.push(WindowView { label, state })
    }
}

/// The live windows. No two of them share a label.
#[derive(Debug, PartialEq, Eq)]
pub struct WindowSet {
    windows: Vec<Window>,
}

impl View for WindowSet {
    type V = Seq<WindowView>;

    closed spec fn view(&self) -> Seq<WindowView> {
        self.windows@.map_values(|w: Window| w@)
    }
}

impl WindowSet {
    /// Whether the set is well formed: no two windows share a label. Every
    /// set is.
    #[verifier::type_invariant]
    pub open spec fn wf(&self) -> bool {
        distinct(self@)
    }

    /// The set without a window.
    pub fn new() -> (r: WindowSet)
        ensures
            r.wf(),
            r@ == Seq::<WindowView>::empty(),
    {
        let windows: Vec<Window> = Vec::new();
        assert(windows@.map_values(|w: Window| w@) =~= Seq::<WindowView>::empty());
        WindowSet { windows }
    }

    /// How many windows there are.
    pub fn len(&self) -> (r: usize)
        ensures
            self.wf(),
            r == self@.len(),
    {
        proof {
            use_type_invariant(self);
        }
        self.windows.len()
    }

    fn position(&self, label: &str) -> (r: Option<usize>)
        ensures
            self.wf(),
            match r {
                Some(i) => i < self@.len() && self@[i as int].label == label@,
                None => !has_label(self@, label@),
            },
    {
        proof {
            use_type_invariant(self);
        }
        let mut i: usize = 0;
        while i < self.windows.len()
            invariant
                self.wf(),
                i <= self.windows.len(),
                forall|n: int| 0 <= n < i ==> (#[trigger] self@[n]).label != label@,
            decreases self.windows.len() - i,
        {
            if str_eq(self.windows[i].label.as_str(), label) {
                return Some(i);
            }
            i += 1;
        }
        None
    }

    /// Whether a window has the label.
    pub fn contains(&self, label: &str) -> (r: bool)
        ensures
            self.wf(),
            r == has_label(self@, label@),
    {
        self.position(label).is_some()
    }

    /// The state of the window with the label.
    pub fn state(&self, label: &str) -> (r: Option<WindowState>)
        ensures
            self.wf(),
            r == state_of(self@, label@),
    {
        match self.position(label) {
            Some(i) => {
                proof {
                    lemma_place_unique(self@, label@, i as int);
                }
                Some(self.windows[i].state)
            },
            None => None,
        }
    }

    /// Takes a new window into the set. Where the label is taken, nothing
    /// changes.
    pub fn insert(&mut self, label: &str, state: WindowState) -> (r: Result<(), WindowError>)
        ensures
            old(self).wf(),
            final(self).wf(),
            final(self)@ == with_window(old(self)@, label@, state),
            r is Ok == !has_label(old(self)@, label@),
            r is Err ==> r == Err::<(), WindowError>(WindowError::AlreadyOpen),
    {
        if self.contains(label) {
            return Err(WindowError::AlreadyOpen);
        }
        let ghost before = self@;
        let mut windows: Vec<Window> = Vec::new();
        core::mem::swap(&mut self.windows, &mut windows);
        windows.push(Window { label: String::from_str(label), state });
        proof {
            let after = before.push(WindowView { label: label@, state });
            assert(windows@.map_values(|w: Window| w@) =~= after);
            assert forall|i: int, j: int| 0 <= i < j < after.len() implies (#[trigger] after[i]).label
                != (#[trigger] after[j]).label by {
                assert(after[i] == before[i]);
                if j < before.len() {
                    assert(after[j] == before[j]);
                }
            }
        }
        self.windows = windows;
        Ok(())
    }

    /// Changes the state of the window with the label. Where there is none,
    /// nothing changes.
    pub fn change(&mut self, label: &str, change: Change) -> (r: Result<(), WindowError>)
        ensures
            old(self).wf(),
            final(self).wf(),
            final(self)@ == with_change(old(self)@, label@, change),
            r is Ok == has_label(old(self)@, label@),
            r is Err ==> r == Err::<(), WindowError>(WindowError::NotFound),
    {
        let found = self.contains(label);
        let mut out: Vec<Window> = Vec::new();
        let mut i: usize = 0;
        while i < self.windows.len()
            invariant
                i <= self.windows.len(),
                out@.len() == i,
                forall|n: int| 0 <= n < i ==> (#[trigger] out@[n])@ == with_change(
                    self@,
                    label@,
                    change,
                )[n],
            decreases self.windows.len() - i,
        {
            let w = &self.windows[i];
            let state = if str_eq(w.label.as_str(), label) {
                change_state(w.state, change)
            } else {
                w.state
            };
            out.push(Window { label: w.label.clone(), state });
            i += 1;
        }
        proof {
            let after = with_change(self@, label@, change);
            assert(out@.map_values(|w: Window| w@) =~= after);
            lemma_change_keeps_labels(self@, label@, change, label@);
        }
        self.windows = out;
        if found {
            Ok(())
        } else {
            Err(WindowError::NotFound)
        }
    }

    /// Takes the window with the label out of the set. Where there is none,
    /// nothing changes.
    pub fn remove(&mut self, label: &str) -> (r: Result<(), WindowError>)
        ensures
            old(self).wf(),
            final(self).wf(),
            final(self)@ == without(old(self)@, label@),
            !has_label(final(self)@, label@),
            r is Ok == has_label(old(self)@, label@),
            r is Err ==> r == Err::<(), WindowError>(WindowError::NotFound),
    {
        match self.position(label) {
            Some(i) => {
                let ghost before = self@;
                proof {
                    lemma_place_unique(before, label@, i as int);
                    lemma_without(before, label@);
                }
                let mut windows: Vec<Window> = Vec::new();
                core::mem::swap(&mut self.windows, &mut windows);
                windows.remove(i);
                assert(windows@.map_values(|w: Window| w@) =~= before.remove(i as int));
                self.windows = windows;
                Ok(())
            },
            None => Err(WindowError::NotFound),
        }
    }
}

/// The state after a change.
pub fn change_state(state: WindowState, change: Change) -> (r: WindowState)
    ensures
        r == changed(state, change),
{
    match change {
        Change::Show => WindowState { visible: true, ..state },
        Change::Hide => WindowState { visible: false, focused: false, ..state },
        Change::Focus => WindowState { focused: true, ..state },
        Change::Minimize => WindowState { minimized: true, focused: false, ..state },
        Change::MoveToTray => WindowState { at_tray: true, ..state },
        Change::AlwaysOnTop(on) => WindowState { always_on_top: on, ..state },
    }
}

/// Among windows with distinct labels, a window with the label stands at the
/// one place that `place_of` names.
pub proof fn lemma_place_unique(windows: Seq<WindowView>, label: Seq<char>, i: int)
    requires
        distinct(windows),
        0 <= i < windows.len(),
        windows[i].label == label,
    ensures
        has_label(windows, label),
        place_of(windows, label) == Some(i),
        state_of(windows, label) == Some(windows[i].state),
{
    let j = choose|j: int| 0 <= j < windows.len() && (#[trigger] windows[j]).label == label;
    if j < i {
        assert(windows[j].label != windows[i].label);
    } else if i < j {
        assert(windows[i].label != windows[j].label);
    }
}

/// A script that is injected into a window before its content loads.
#[derive(Debug, PartialEq, Eq)]
pub enum InitScript {
    /// The user's own script.
    User,
    /// The baseline script that every window gets.
    Core,
    /// The first helper for floating elements.
    FloatingUiCore,
    /// The second helper for floating elements.
    FloatingUiDom,
    /// Code that the caller supplied.
    Extra(String),
}

/// What an injected script is.
pub enum ScriptView {
    User,
    Core,
    FloatingUiCore,
    FloatingUiDom,
    Extra(Seq<char>),
}

impl View for InitScript {
    type V = ScriptView;

    open spec fn view(&self) -> ScriptView {
        match *self {
            InitScript::User => ScriptView::User,
            InitScript::Core => ScriptView::Core,
            InitScript::FloatingUiCore => ScriptView::FloatingUiCore,
            InitScript::FloatingUiDom => ScriptView::FloatingUiDom,
            InitScript::Extra(code) => ScriptView::Extra(code@),
        }
    }
}

/// What a list of injected scripts holds.
pub open spec fn script_views(scripts: Seq<InitScript>) -> Seq<ScriptView> {
    scripts.map_values(|s: InitScript| s@)
}

/// How a window is to be built.
#[derive(Debug, PartialEq, Eq)]
pub struct WindowPlan {
    pub label: String,
    pub title: String,
    /// The page that the window loads.
    pub url: String,
    /// The scripts to inject, in their order.
    pub scripts: Vec<InitScript>,
    /// Width and height of the content, where the plan fixes them.
    pub size: Option<(u32, u32)>,
    pub resizable: bool,
    pub fullscreen: bool,
    /// The colour scheme, where the plan fixes it.
    pub theme: Option<Theme>,
    /// The user agent, where the plan fixes it.
    pub user_agent: Option<String>,
    /// The state in which the window starts.
    pub state: WindowState,
}

/// What a plan holds.
pub struct PlanView {
    pub label: Seq<char>,
    pub title: Seq<char>,
    pub url: Seq<char>,
    pub scripts: Seq<ScriptView>,
    pub size: Option<(u32, u32)>,
    pub resizable: bool,
    pub fullscreen: bool,
    pub theme: Option<Theme>,
    pub user_agent: Option<Seq<char>>,
    pub state: WindowState,
}

impl View for WindowPlan {
    type V = PlanView;

    open spec fn view(&self) -> PlanView {
        PlanView {
            label: self.label@,
            title: self.title@,
            url: self.url@,
            scripts: script_views(self.scripts@),
            size: self.size,
            resizable: self.resizable,
            fullscreen: self.fullscreen,
            theme: self.theme,
            user_agent: text_of(self.user_agent),
            state: self.state,
        }
    }
}

/// The part of the configuration that only the popup of the tray icon reads.
#[derive(Debug, PartialEq, Eq)]
pub struct TrayConfig {
    /// Show the bundled page in place of the remote one.
    pub dashboard: bool,
    /// The remote origin.
    pub origin: String,
    /// The user agent of the popup.
    pub user_agent: String,
}

/// The remote origin for which the helper scripts are made.
pub open spec fn helped_origin() -> Seq<char> {
    "https://app.quicktype.io"@
}

/// The page that the popup of the tray icon loads.
pub open spec fn tray_url(dashboard: bool, origin: Seq<char>) -> Seq<char> {
    if dashboard {
        "index.html"@
    } else {
        origin
    }
}

/// The scripts of the popup of the tray icon: the user's, the baseline, and
/// for the one remote origin the two helpers.
pub open spec fn tray_scripts(dashboard: bool, origin: Seq<char>) -> Seq<ScriptView> {
    if origin == helped_origin() && !dashboard {
        seq![
            ScriptView::User,
            ScriptView::Core,
            ScriptView::FloatingUiCore,
            ScriptView::FloatingUiDom,
        ]
    } else {
        seq![ScriptView::User, ScriptView::Core]
    }
}

/// The state in which the popup of the tray icon starts: hidden, without
/// decorations, above all others.
pub open spec fn tray_state() -> WindowState {
    WindowState {
        visible: false,
        focused: false,
        minimized: false,
        always_on_top: true,
        decorations: false,
        at_tray: false,
    }
}

/// The plan of the popup of the tray icon.
pub open spec fn tray_plan(
    settings: Settings,
    dashboard: bool,
    origin: Seq<char>,
    user_agent: Seq<char>,
) -> PlanView {
    PlanView {
        label: tray_label(),
        title: "QuickType"@,
        url: tray_url(dashboard, origin),
        scripts: tray_scripts(dashboard, origin),
        size: None,
        resizable: false,
        fullscreen: false,
        theme: Some(settings.theme),
        user_agent: Some(user_agent),
        state: tray_state(),
    }
}

/// The state in which a content window starts.
pub open spec fn content_state() -> WindowState {
    WindowState {
        visible: true,
        focused: true,
        minimized: false,
        always_on_top: false,
        decorations: true,
        at_tray: false,
    }
}

/// The scripts of a content window: the baseline, then what the caller
/// supplied.
pub open spec fn content_scripts(script: Option<Seq<char>>) -> Seq<ScriptView> {
    match script {
        Some(code) => seq![ScriptView::Core, ScriptView::Extra(code)],
        None => seq![ScriptView::Core],
    }
}

/// The plan of a content window.
pub open spec fn content_plan(
    label: Seq<char>,
    title: Seq<char>,
    url: Seq<char>,
    script: Option<Seq<char>>,
) -> PlanView {
    PlanView {
        label,
        title,
        url,
        scripts: content_scripts(script),
        size: Some((960u32, 700u32)),
        resizable: true,
        fullscreen: false,
        theme: None,
        user_agent: None,
        state: content_state(),
    }
}

/// The windows after the one with the label was opened or brought to the
/// front: where it was missing it is there now, as it starts; where it was
/// there it is visible and has the focus.
pub open spec fn opened(windows: Seq<WindowView>, label: Seq<char>) -> Seq<WindowView> {
    if has_label(windows, label) {
        with_change(with_change(windows, label, Change::Show), label, Change::Focus)
    } else {
        windows.push(WindowView { label, state: content_state() })
    }
}

/// Whether exactly one window has the label.
pub open spec fn exactly_one(windows: Seq<WindowView>, label: Seq<char>) -> bool {
    exists|i: int|
        0 <= i < windows.len() && (#[trigger] windows[i]).label == label && forall|j: int|
            0 <= j < windows.len() && (#[trigger] windows[j]).label == label ==> j == i
}

/// What opening a window came to.
#[derive(Debug, PartialEq, Eq)]
pub enum Opened {
    /// There was no such window: the host builds it from the plan, off the
    /// path of the call.
    Create(WindowPlan),
    /// The window was there: the host carries out these effects on it, as
    /// for an event that arose in that window.
    Refresh(Vec<Effect>),
}

/// The effects that bring a window to the front: it is shown where it was
/// hidden, its content is reloaded, and it is given the focus.
pub open spec fn refresh_effects(hidden: bool) -> Seq<Effect> {
    if hidden {
        seq![
            Effect::Window(Target::Source, Change::Show),
            Effect::Eval(Target::Source, Script::Reload),
            Effect::Window(Target::Source, Change::Focus),
        ]
    } else {
        seq![
            Effect::Eval(Target::Source, Script::Reload),
            Effect::Window(Target::Source, Change::Focus),
        ]
    }
}

/// The effects that bring a window to the front.
pub fn refresh(hidden: bool) -> (r: Vec<Effect>)
    ensures
        r@ == refresh_effects(hidden),
{
    let mut r: Vec<Effect> = Vec::new();
    if hidden {
        r.push(Effect::Window(Target::Source, Change::Show));
    }
    r.push(Effect::Eval(Target::Source, Script::Reload));
    r.push(Effect::Window(Target::Source, Change::Focus));
    assert(r@ =~= refresh_effects(hidden));
    r
}

/// Plans the popup of the tray icon and takes it into the set, hidden. Where
/// the popup is there already, nothing changes.
pub fn tray_window(windows: &mut WindowSet, settings: &Settings, tray: &TrayConfig) -> (r: Result<
    WindowPlan,
    WindowError,
>)
    ensures
        old(windows).wf(),
        final(windows).wf(),
        final(windows)@ == with_window(old(windows)@, tray_label(), tray_state()),
        r is Ok == !has_label(old(windows)@, tray_label()),
        r matches Ok(plan) ==> plan@ == tray_plan(
            *settings,
            tray.dashboard,
            tray.origin@,
            tray.user_agent@,
        ),
        r matches Err(e) ==> e == WindowError::AlreadyOpen,
{
    let state = WindowState {
        visible: false,
        focused: false,
        minimized: false,
        always_on_top: true,
        decorations: false,
        at_tray: false,
    };
    match windows.insert("tray", state) {
        Err(e) => Err(e),
        Ok(()) => {
            let url = if tray.dashboard {
                String::from_str("index.html")
            } else {
                tray.origin.clone()
            };
            let mut scripts: Vec<InitScript> = Vec::new();
            scripts.push(InitScript::User);
            scripts.push(InitScript::Core);
            if str_eq(tray.origin.as_str(), "https://app.quicktype.io") && !tray.dashboard {
                scripts.push(InitScript::FloatingUiCore);
                scripts.push(InitScript::FloatingUiDom);
            }
            assert(script_views(scripts@) =~= tray_scripts(tray.dashboard, tray.origin@));
            Ok(
                WindowPlan {
                    label: String::from_str("tray"),
                    title: String::from_str("QuickType"),
                    url,
                    scripts,
                    size: None,
                    resizable: false,
                    fullscreen: false,
                    theme: Some(settings.theme),
                    user_agent: Some(tray.user_agent.clone()),
                    state,
                },
            )
        },
    }
}

/// Opens the window with the label, or brings it to the front. Where no
/// window has the label, one is planned with the title, the page and, after
/// the baseline script, the caller's script, and taken into the set. Where
/// one has it, it is made visible and given the focus in the set, and the
/// effects that do so on the platform, the reload of its content among
/// them, are handed out.
pub fn wa_window(
    windows: &mut WindowSet,
    label: &str,
    title: &str,
    url: &str,
    script: Option<String>,
) -> (r: Opened)
    ensures
        old(windows).wf(),
        final(windows).wf(),
        final(windows)@ == opened(old(windows)@, label@),
        r is Create == !has_label(old(windows)@, label@),
        r matches Opened::Create(plan) ==> plan@ == content_plan(
            label@,
            title@,
            url@,
            text_of(script),
        ),
        r matches Opened::Refresh(effects) ==> state_of(old(windows)@, label@) matches Some(state)
            && effects@ == refresh_effects(!state.visible),
{
    match windows.state(label) {
        Some(state) => {
            let _ = windows.change(label, Change::Show);
            let _ = windows.change(label, Change::Focus);
            Opened::Refresh(refresh(!state.visible))
        },
        None => {
            let state = WindowState {
                visible: true,
                focused: true,
                minimized: false,
                always_on_top: false,
                decorations: true,
                at_tray: false,
            };
            let _ = windows.insert(label, state);
            let mut scripts: Vec<InitScript> = Vec::new();
            scripts.push(InitScript::Core);
            match script {
                Some(code) => {
                    scripts.push(InitScript::Extra(code));
                },
                None => {},
            }
            assert(script_views(scripts@) =~= content_scripts(text_of(script)));
            Opened::Create(
                WindowPlan {
                    label: String::from_str(label),
                    title: String::from_str(title),
                    url: String::from_str(url),
                    scripts,
                    size: Some((960, 700)),
                    resizable: true,
                    fullscreen: false,
                    theme: None,
                    user_agent: None,
                    state,
                },
            )
        },
    }
}

/// The script that reloads the content of the window with the label. Where
/// no window has the label, that is the error.
pub fn window_reload(windows: &WindowSet, label: &str) -> (r: Result<Script, WindowError>)
    ensures
        windows.wf(),
        has_label(windows@, label@) ==> r == Ok::<Script, WindowError>(Script::Reload),
        !has_label(windows@, label@) ==> r == Err::<Script, WindowError>(WindowError::NotFound),
{
    if windows.contains(label) {
        Ok(Script::Reload)
    } else {
        Err(WindowError::NotFound)
    }
}

/// A change keeps the labels, and so which windows there are.
pub proof fn lemma_change_keeps_labels(
    windows: Seq<WindowView>,
    label: Seq<char>,
    change: Change,
    other: Seq<char>,
)
    ensures
        has_label(with_change(windows, label, change), other) == has_label(windows, other),
        distinct(windows) ==> distinct(with_change(windows, label, change)),
{
    let after = with_change(windows, label, change);
    if has_label(windows, other) {
        let i = choose|i: int| 0 <= i < windows.len() && (#[trigger] windows[i]).label == other;
        assert(after[i].label == other);
    }
    if has_label(after, other) {
        let i = choose|i: int| 0 <= i < after.len() && (#[trigger] after[i]).label == other;
        assert(windows[i].label == other);
    }
    if distinct(windows) {
        assert forall|i: int, j: int| 0 <= i < j < after.len() implies (#[trigger] after[i]).label != (
        #[trigger] after[j]).label by {
            assert(after[i].label == windows[i].label);
            assert(after[j].label == windows[j].label);
        }
    }
}

/// The state of a window after a change: changed where the change was aimed
/// at it, as before where it was aimed at another.
pub proof fn lemma_state_after_change(
    windows: Seq<WindowView>,
    label: Seq<char>,
    change: Change,
    other: Seq<char>,
)
    requires
        distinct(windows),
    ensures
        state_of(with_change(windows, label, change), other) == match state_of(windows, other) {
            Some(state) => Some(
                if other == label {
                    changed(state, change)
                } else {
                    state
                },
            ),
            None => None,
        },
{
    let after = with_change(windows, label, change);
    lemma_change_keeps_labels(windows, label, change, other);
    if has_label(windows, other) {
        let i = choose|i: int| 0 <= i < windows.len() && (#[trigger] windows[i]).label == other;
        lemma_place_unique(windows, other, i);
        assert(after[i].label == other);
        lemma_place_unique(after, other, i);
    }
}

/// Opening a window twice in a row leaves exactly one window with the label,
/// visible and with the focus, and the second call builds nothing.
pub proof fn lemma_open_twice(windows: Seq<WindowView>, label: Seq<char>)
    requires
        distinct(windows),
    ensures
        ({
            let once = opened(windows, label);
            let twice = opened(once, label);
            &&& has_label(once, label)
            &&& distinct(twice)
            &&& exactly_one(twice, label)
            &&& twice.len() == once.len()
            &&& state_of(twice, label) matches Some(state) && state.visible && state.focused
        }),
{
    let once = opened(windows, label);
    lemma_opened(windows, label);
    lemma_opened(once, label);
}

/// After a window was opened or brought to the front, exactly one window
/// has the label, and it is visible and has the focus.
pub proof fn lemma_opened(windows: Seq<WindowView>, label: Seq<char>)
    requires
        distinct(windows),
    ensures
        ({
            let after = opened(windows, label);
            &&& distinct(after)
            &&& has_label(after, label)
            &&& exactly_one(after, label)
            &&& has_label(windows, label) ==> after.len() == windows.len()
            &&& state_of(after, label) matches Some(state) && state.visible && state.focused
        }),
{
    let after = opened(windows, label);
    if has_label(windows, label) {
        let shown = with_change(windows, label, Change::Show);
        lemma_change_keeps_labels(windows, label, Change::Show, label);
        lemma_change_keeps_labels(shown, label, Change::Focus, label);
        lemma_state_after_change(windows, label, Change::Show, label);
        lemma_state_after_change(shown, label, Change::Focus, label);
    } else {
        let last = windows.len() as int;
        assert(after[last].label == label);
        assert forall|i: int, j: int| 0 <= i < j < after.len() implies (#[trigger] after[i]).label != (
        #[trigger] after[j]).label by {
            assert(after[i] == windows[i]);
            if j < last {
                assert(after[j] == windows[j]);
            }
        }
        lemma_place_unique(after, label, last);
    }
    let i = choose|i: int| 0 <= i < after.len() && (#[trigger] after[i]).label == label;
    assert forall|j: int| 0 <= j < after.len() && (#[trigger] after[j]).label == label implies j
        == i by {
        if j < i {
            assert(after[j].label != after[i].label);
        } else if i < j {
            assert(after[i].label != after[j].label);
        }
    }
}

/// Without the window with a label, the others are as before: their labels
/// are still distinct, and none has that label.
pub proof fn lemma_without(windows: Seq<WindowView>, label: Seq<char>)
    requires
        distinct(windows),
    ensures
        distinct(without(windows, label)),
        !has_label(without(windows, label), label),
{
    let after = without(windows, label);
    match place_of(windows, label) {
        Some(i) => {
            assert forall|a: int, b: int| 0 <= a < b < after.len() implies (#[trigger] after[a]).label
                != (#[trigger] after[b]).label by {
                let a0 = if a < i { a } else { a + 1 };
                let b0 = if b < i { b } else { b + 1 };
                assert(after[a] == windows[a0]);
                assert(after[b] == windows[b0]);
            }
            assert forall|a: int| 0 <= a < after.len() implies (#[trigger] after[a]).label
                != label by {
                let a0 = if a < i { a } else { a + 1 };
                assert(after[a] == windows[a0]);
                if a0 < i {
                    assert(windows[a0].label != windows[i].label);
                } else {
                    assert(windows[i].label != windows[a0].label);
                }
            }
        },
        None => {},
    }
}

} // verus!
