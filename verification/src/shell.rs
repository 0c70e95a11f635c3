//! The state of the shell as a whole, and what each effect does to it.

use vstd::prelude::*;
use crate::action::Action;
use crate::conf::{ConfigStore, Settings};
use crate::effect::{ends_process, tray_label, Change, Effect, Script, Target};
use crate::menu::{init, is_offered_toggle, layout, lemma_menu_follows_settings, menu_model, Platform};
use crate::tree::{checked, lemma_marked_offers, marked, offers, shows, Marking, Menu, SubmenuView};
use crate::text::text_of;
use crate::window::{
    content_plan, distinct, has_label, lemma_change_keeps_labels, lemma_place_unique,
    lemma_without, opened, refresh_effects, state_of,
    tray_plan, tray_state, tray_window, wa_window, with_change, with_window, without, Opened,
    TrayConfig, WindowError, WindowPlan, WindowSet, WindowState, WindowView,
};

verus! {

/// Whether the process lives.
#[derive(Clone, Copy, Debug, PartialEq, Eq, Structural)]
pub enum Process {
    Running,
    /// The process was ended to be started again.
    Restarting,
    /// The process was ended with the given status.
    Exited(i32),
}

/// The state of the shell: the store, the menu bar with its check marks, the
/// live windows, the process, and whether the question about the close
/// button is open. The menu bar of a shell always has the items of its
/// platform's layout, and no two of its windows share a label.
pub struct Shell {
    store: ConfigStore,
    platform: Platform,
    menu: Menu,
    windows: WindowSet,
    process: Process,
    asking: bool,
}

/// Whether a menu bar has the items of the layout of a platform, whatever
/// their check marks.
pub open spec fn fits(menu: Seq<SubmenuView>, platform: Platform) -> bool {
    forall|action: Action| #[trigger] offers(menu, action) == offers(layout(platform), action)
}

/// What the state of the shell is.
pub struct ShellView {
    pub store: ConfigStore,
    pub platform: Platform,
    pub menu: Seq<SubmenuView>,
    pub windows: Seq<WindowView>,
    pub process: Process,
    pub asking: bool,
}

impl View for Shell {
    type V = ShellView;

    closed spec fn view(&self) -> ShellView {
        ShellView {
            store: self.store,
            platform: self.platform,
            menu: self.menu@,
            windows: self.windows@,
            process: self.process,
            asking: self.asking,
        }
    }
}

impl ShellView {
    /// Whether the state is well formed: no two windows share a label, and
    /// the menu bar has the items of its platform's layout.
    pub open spec fn wf(self) -> bool {
        &&& distinct(self.windows)
        &&& fits(self.menu, self.platform)
    }

    /// Whether menu and store agree: while the process runs, every toggle
    /// and every choice of the menu bar is checked exactly when the stored
    /// settings say so.
    #[verifier::opaque]
    pub open spec fn in_sync(self) -> bool {
        self.process == Process::Running ==> forall|action: Action|
            is_offered_toggle(self.platform, action) ==> #[trigger] checked(self.menu, action)
                == shows(self.store.settings(), action)
    }

    /// The state after one effect was carried out for an event that arose in
    /// the window `source`. The end of the process takes its windows with
    /// it. What the host does alone (a dialog, a script, a file that it
    /// opens) leaves the state as it is.
    pub open spec fn after(self, source: Seq<char>, effect: Effect) -> ShellView {
        match effect {
            Effect::Persist(settings) => ShellView { store: self.store.written(settings), ..self },
            Effect::SetChecked(action, value) => ShellView {
                menu: marked(self.menu, Marking::Single(action, value)),
                ..self
            },
            Effect::Restart => ShellView {
                process: Process::Restarting,
                windows: Seq::empty(),
                ..self
            },
            Effect::Exit(status) => ShellView {
                process: Process::Exited(status),
                windows: Seq::empty(),
                ..self
            },
            Effect::Window(target, change) => ShellView {
                windows: with_change(self.windows, target.label_spec(source), change),
                ..self
            },
            Effect::Destroy(target) => ShellView {
                windows: without(self.windows, target.label_spec(source)),
                ..self
            },
            Effect::AskExitOnClose => ShellView { asking: true, ..self },
            _ => self,
        }
    }

    /// The state after the effects were carried out in their order.
    pub open spec fn after_all(self, source: Seq<char>, effects: Seq<Effect>) -> ShellView
        decreases effects.len(),
    {
        if effects.len() == 0 {
            self
        } else {
            self.after_all(source, effects.drop_last()).after(source, effects.last())
        }
    }
}

impl Shell {
    #[verifier::type_invariant]
    closed spec fn inv(self) -> bool {
        fits(self.menu@, self.platform)
    }

    /// Whether the state is well formed. Every shell is.
    pub open spec fn wf(&self) -> bool {
        self@.wf()
    }

    /// The shell as it starts: the menu bar built from the store, no window,
    /// no question open.
    pub fn start(store: ConfigStore, platform: Platform) -> (r: Shell)
        ensures
            r.wf(),
            r@.in_sync(),
            r@ == (ShellView {
                store,
                platform,
                menu: menu_model(store.settings(), platform),
                windows: Seq::<WindowView>::empty(),
                process: Process::Running,
                asking: false,
            }),
    {
        let menu = init(&store, platform);
        proof {
            reveal(ShellView::in_sync);
            assert forall|action: Action| #[trigger]
                offers(menu@, action) == offers(layout(platform), action) by {
                lemma_marked_offers(
                    layout(platform),
                    Marking::FromSettings(store.settings()),
                    action,
                );
            }
            assert forall|action: Action| is_offered_toggle(platform, action) implies #[trigger] checked(
                menu@,
                action,
            ) == shows(store.settings(), action) by {
                lemma_menu_follows_settings(store.settings(), platform, action);
            }
        }
        Shell {
            store,
            platform,
            menu,
            windows: WindowSet::new(),
            process: Process::Running,
            asking: false,
        }
    }

    fn check(&self)
        ensures
            self.wf(),
    {
        proof {
            use_type_invariant(self);
            use_type_invariant(&self.windows);
        }
    }

    /// The settings that the store stands for.
    pub fn settings(&self) -> (r: Settings)
        ensures
            self.wf(),
            r == self@.store.settings(),
    {
        self.check();
        Settings::read(&self.store)
    }

    /// The store.
    pub fn store(&self) -> (r: ConfigStore)
        ensures
            self.wf(),
            r == self@.store,
    {
        self.check();
        self.store
    }

    /// The platform that the shell runs on.
    pub fn platform(&self) -> (r: Platform)
        ensures
            self.wf(),
            r == self@.platform,
    {
        self.check();
        self.platform
    }

    /// The menu bar with its check marks.
    pub fn menu(&self) -> (r: &Menu)
        ensures
            self.wf(),
            r@ == self@.menu,
    {
        self.check();
        &self.menu
    }

    /// The live windows.
    pub fn windows(&self) -> (r: &WindowSet)
        ensures
            self.wf(),
            r@ == self@.windows,
    {
        self.check();
        &self.windows
    }

    /// Whether the process lives.
    pub fn process(&self) -> (r: Process)
        ensures
            self.wf(),
            r == self@.process,
    {
        self.check();
        self.process
    }

    /// Whether the question about the close button is open.
    pub fn is_asking(&self) -> (r: bool)
        ensures
            self.wf(),
            r == self@.asking,
    {
        self.check();
        self.asking
    }

    /// Whether a window has the label.
    pub fn has_window(&self, label: &str) -> (r: bool)
        ensures
            self.wf(),
            r == has_label(self@.windows, label@),
    {
        self.check();
        self.windows.contains(label)
    }

    /// The state of the window with the label.
    pub fn window_state(&self, label: &str) -> (r: Option<WindowState>)
        ensures
            self.wf(),
            r == state_of(self@.windows, label@),
    {
        self.check();
        self.windows.state(label)
    }

    /// Puts the given store in place of the shell's, for a host that reads
    /// the record anew before an event.
    pub fn set_store(&mut self, store: ConfigStore)
        ensures
            old(self).wf(),
            final(self).wf(),
            final(self)@ == (ShellView { store, ..old(self)@ }),
    {
        proof {
            use_type_invariant(&*self);
            use_type_invariant(&self.windows);
        }
        self.store = store;
    }

    /// Puts the given windows in place of the shell's, for a host that
    /// reads them off the platform before an event.
    pub fn set_windows(&mut self, windows: WindowSet)
        ensures
            final(self).wf(),
            final(self)@ == (ShellView { windows: windows@, ..old(self)@ }),
    {
        proof {
            use_type_invariant(&*self);
            use_type_invariant(&windows);
        }
        self.windows = windows;
    }

    /// Opens the window with the label, or brings it to the front, as
    /// [`wa_window`] does on the shell's windows.
    pub fn open_window(&mut self, label: &str, title: &str, url: &str, script: Option<String>) -> (r:
        Opened)
        ensures
            old(self).wf(),
            final(self).wf(),
            final(self)@ == (ShellView {
                windows: opened(old(self)@.windows, label@),
                ..old(self)@
            }),
            r is Create == !has_label(old(self)@.windows, label@),
            r matches Opened::Create(plan) ==> plan@ == content_plan(
                label@,
                title@,
                url@,
                text_of(script),
            ),
            r matches Opened::Refresh(effects) ==> state_of(old(self)@.windows, label@) matches Some(
                state,
            ) && effects@ == refresh_effects(!state.visible),
    {
        proof {
            use_type_invariant(&*self);
        }
        let mut windows = WindowSet::new();
        core::mem::swap(&mut self.windows, &mut windows);
        let r = wa_window(&mut windows, label, title, url, script);
        self.windows = windows;
        r
    }

    /// Plans the popup of the tray icon, as [`tray_window`] does on the
    /// shell's windows, with the theme of the stored settings.
    pub fn open_tray(&mut self, tray: &TrayConfig) -> (r: Result<WindowPlan, WindowError>)
        ensures
            old(self).wf(),
            final(self).wf(),
            final(self)@ == (ShellView {
                windows: with_window(old(self)@.windows, tray_label(), tray_state()),
                ..old(self)@
            }),
            r is Ok == !has_label(old(self)@.windows, tray_label()),
            r matches Ok(plan) ==> plan@ == tray_plan(
                old(self)@.store.settings(),
                tray.dashboard,
                tray.origin@,
                tray.user_agent@,
            ),
            r matches Err(e) ==> e == WindowError::AlreadyOpen,
    {
        proof {
            use_type_invariant(&*self);
        }
        let settings = Settings::read(&self.store);
        let mut windows = WindowSet::new();
        core::mem::swap(&mut self.windows, &mut windows);
        let r = tray_window(&mut windows, &settings, tray);
        self.windows = windows;
        r
    }

    /// Closes the question about the close button.
    pub fn settle(&mut self)
        ensures
            old(self).wf(),
            final(self).wf(),
            final(self)@ == (ShellView { asking: false, ..old(self)@ }),
    {
        proof {
            use_type_invariant(&*self);
            use_type_invariant(&self.windows);
        }
        self.asking = false;
    }

    /// Carries out one effect on the state, for an event that arose in the
    /// window `source`.
    pub fn perform(&mut self, source: &str, effect: Effect)
        ensures
            old(self).wf(),
            final(self).wf(),
            final(self)@ == old(self)@.after(source@, effect),
    {
        proof {
            use_type_invariant(&*self);
            use_type_invariant(&self.windows);
            lemma_after_keeps_wf(self@, source@, effect);
        }
        match effect {
            Effect::Persist(settings) => {
                let mut store = self.store;
                let _ = settings.write(&mut store);
                self.store = store;
            },
            Effect::SetChecked(action, value) => {
                let menu = self.menu.marked_by(&Marking::Single(action, value));
                self.menu = menu;
            },
            Effect::Restart => {
                self.process = Process::Restarting;
                self.windows = WindowSet::new();
            },
            Effect::Exit(status) => {
                self.process = Process::Exited(status);
                self.windows = WindowSet::new();
            },
            Effect::Window(target, change) => {
                let mut windows = WindowSet::new();
                core::mem::swap(&mut self.windows, &mut windows);
                let _ = windows.change(target.label(source), change);
                self.windows = windows;
            },
            Effect::Destroy(target) => {
                let mut windows = WindowSet::new();
                core::mem::swap(&mut self.windows, &mut windows);
                let _ = windows.remove(target.label(source));
                self.windows = windows;
            },
            Effect::AskExitOnClose => {
                self.asking = true;
            },
            _ => {},
        }
    }

    /// Carries out the effects on the state in their order.
    pub fn perform_all(&mut self, source: &str, effects: &Vec<Effect>)
        ensures
            old(self).wf(),
            final(self).wf(),
            final(self)@ == old(self)@.after_all(source@, effects@),
    {
        proof {
            use_type_invariant(&*self);
            use_type_invariant(&self.windows);
        }
        let mut i: usize = 0;
        while i < effects.len()
            invariant
                i <= effects.len(),
                self.wf(),
                self@ == old(self)@.after_all(source@, effects@.take(i as int)),
            decreases effects.len() - i,
        {
            proof {
                let next = effects@.take(i + 1);
                assert(next.drop_last() =~= effects@.take(i as int));
                assert(next.last() == effects@[i as int]);
            }
            self.perform(source, effects[i]);
            i += 1;
        }
        assert(effects@.take(i as int) =~= effects@);
    }
}

/// The state after one more effect is the state after the earlier ones,
/// with that effect carried out.
pub proof fn lemma_after_all_push(
    state: ShellView,
    source: Seq<char>,
    effects: Seq<Effect>,
    effect: Effect,
)
    ensures
        state.after_all(source, effects.push(effect)) == state.after_all(source, effects).after(
            source,
            effect,
        ),
{
    assert(effects.push(effect).drop_last() =~= effects);
}

/// No effect breaks the state.
pub proof fn lemma_after_keeps_wf(state: ShellView, source: Seq<char>, effect: Effect)
    requires
        state.wf(),
    ensures
        state.after(source, effect).wf(),
{
    let next = state.after(source, effect);
    match effect {
        Effect::SetChecked(action, value) => {
            assert forall|a: Action| #[trigger]
                offers(next.menu, a) == offers(layout(state.platform), a) by {
                lemma_marked_offers(state.menu, Marking::Single(action, value), a);
                assert(offers(state.menu, a) == offers(layout(state.platform), a));
            }
        },
        Effect::Window(target, change) => {
            lemma_change_keeps_labels(
                state.windows,
                target.label_spec(source),
                change,
                target.label_spec(source),
            );
        },
        Effect::Destroy(target) => {
            lemma_without(state.windows, target.label_spec(source));
        },
        _ => {},
    }
}

/// No list of effects breaks the state.
pub proof fn lemma_after_all_keeps_wf(state: ShellView, source: Seq<char>, effects: Seq<Effect>)
    requires
        state.wf(),
    ensures
        state.after_all(source, effects).wf(),
    decreases effects.len(),
{
    if effects.len() > 0 {
        lemma_after_all_keeps_wf(state, source, effects.drop_last());
        lemma_after_keeps_wf(state.after_all(source, effects.drop_last()), source, effects.last());
    }
}

/// The state after no effect at all.
pub proof fn lemma_after_none(state: ShellView, source: Seq<char>)
    ensures
        state.after_all(source, Seq::<Effect>::empty()) == state,
{
}

/// The state after a list of one effect.
pub proof fn lemma_after_one(state: ShellView, source: Seq<char>, a: Effect)
    ensures
        state.after_all(source, seq![a]) == state.after(source, a),
{
    lemma_after_all_push(state, source, Seq::empty(), a);
}

/// The state after a list of two effects.
pub proof fn lemma_after_two(state: ShellView, source: Seq<char>, a: Effect, b: Effect)
    ensures
        state.after_all(source, seq![a, b]) == state.after(source, a).after(source, b),
{
    lemma_after_one(state, source, a);
    lemma_after_all_push(state, source, seq![a], b);
    assert(seq![a, b] =~= seq![a].push(b));
}

/// The state after a list of three effects.
pub proof fn lemma_after_three(state: ShellView, source: Seq<char>, a: Effect, b: Effect, c: Effect)
    ensures
        state.after_all(source, seq![a, b, c]) == state.after(source, a).after(source, b).after(
            source,
            c,
        ),
{
    lemma_after_two(state, source, a, b);
    lemma_after_all_push(state, source, seq![a, b], c);
    assert(seq![a, b, c] =~= seq![a, b].push(c));
}

/// The state after a list of four effects.
pub proof fn lemma_after_four(
    state: ShellView,
    source: Seq<char>,
    a: Effect,
    b: Effect,
    c: Effect,
    d: Effect,
)
    ensures
        state.after_all(source, seq![a, b, c, d]) == state.after(source, a).after(source, b).after(
            source,
            c,
        ).after(source, d),
{
    lemma_after_three(state, source, a, b, c);
    lemma_after_all_push(state, source, seq![a, b, c], d);
    assert(seq![a, b, c, d] =~= seq![a, b, c].push(d));
}

/// Whether the effect changes the store or a check mark.
pub open spec fn touches_settings(effect: Effect) -> bool {
    effect is Persist || effect is SetChecked
}

/// Effects that touch neither the store nor a check mark leave both as they
/// were, and none of them brings an ended process back.
pub proof fn lemma_untouched(state: ShellView, source: Seq<char>, effects: Seq<Effect>)
    requires
        forall|i: int| 0 <= i < effects.len() ==> !touches_settings(#[trigger] effects[i]),
    ensures
        ({
            let after = state.after_all(source, effects);
            &&& after.menu == state.menu
            &&& after.store == state.store
            &&& after.platform == state.platform
            &&& after.process == Process::Running ==> state.process == Process::Running
            &&& state.in_sync() ==> after.in_sync()
        }),
    decreases effects.len(),
{
    reveal(ShellView::in_sync);
    if effects.len() > 0 {
        let earlier = effects.drop_last();
        assert forall|i: int| 0 <= i < earlier.len() implies !touches_settings(
            #[trigger] earlier[i],
        ) by {
            assert(earlier[i] == effects[i]);
        }
        lemma_untouched(state, source, earlier);
        assert(!touches_settings(effects[effects.len() - 1]));
    }
}

/// After a list of effects that ends the process, the process does not run.
pub proof fn lemma_process_ended(state: ShellView, source: Seq<char>, effects: Seq<Effect>)
    requires
        effects.len() > 0,
        ends_process(effects.last()),
    ensures
        state.after_all(source, effects).process != Process::Running,
        state.after_all(source, effects).in_sync(),
{
    reveal(ShellView::in_sync);
}

/// Whether menu and store agree is a matter of the menu, the store, the
/// platform and the process alone.
pub proof fn lemma_sync_reads(one: ShellView, other: ShellView)
    requires
        one.in_sync(),
        one.menu == other.menu,
        one.store == other.store,
        one.platform == other.platform,
        one.process == other.process,
    ensures
        other.in_sync(),
{
    reveal(ShellView::in_sync);
}

/// Carrying out the effects that bring a window to the front, for that
/// window, leaves the windows as opening it does, and nothing else changed.
pub proof fn lemma_refresh_opens(state: ShellView, label: Seq<char>)
    requires
        state.wf(),
        state_of(state.windows, label) is Some,
    ensures
        state.after_all(label, refresh_effects(!state_of(state.windows, label)->Some_0.visible))
            == (ShellView { windows: opened(state.windows, label), ..state }),
{
    let before = state_of(state.windows, label)->Some_0;
    let show = Effect::Window(Target::Source, Change::Show);
    let reload = Effect::Eval(Target::Source, Script::Reload);
    let focus = Effect::Window(Target::Source, Change::Focus);
    let shown = with_change(state.windows, label, Change::Show);
    if before.visible {
        lemma_after_two(state, label, reload, focus);
        assert(shown =~= state.windows) by {
            assert forall|i: int| 0 <= i < shown.len() implies shown[i] == state.windows[i] by {
                if state.windows[i].label == label {
                    lemma_place_unique(state.windows, label, i);
                }
            }
        }
    } else {
        lemma_after_three(state, label, show, reload, focus);
    }
}

} // verus!
