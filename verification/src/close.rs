//! The close-intent resolver: what a request to close a window comes to.

use vstd::prelude::*;
use crate::conf::{Settings, SettingsPatch};
use crate::effect::{core_label, Change, Effect, Target};
use crate::router::disciplined;
use crate::action::Action;
use crate::shell::{
    lemma_after_one, lemma_after_two, lemma_sync_reads, lemma_untouched, Process, Shell, ShellView,
};
use crate::text::str_eq;
use crate::tree::shows;
use crate::window::{
    has_label, lemma_change_keeps_labels, lemma_state_after_change, lemma_without, state_of,
};

verus! {

/// What the close button of the primary window does.
#[derive(Clone, Copy, Debug, PartialEq, Eq, Structural)]
pub enum CloseChoice {
    Exit,
    Minimize,
}

/// The decision on one request to close the primary window.
#[derive(Clone, Copy, Debug, PartialEq, Eq, Structural)]
pub enum CloseIntent {
    /// No choice is recorded: the user is asked.
    AskPending,
    /// The recorded choice is followed.
    Remembered(CloseChoice),
}

/// The choice that an answer to the question stands for: "yes" is to exit.
pub open spec fn choice_of(answer: bool) -> CloseChoice {
    if answer {
        CloseChoice::Exit
    } else {
        CloseChoice::Minimize
    }
}

/// The decision that the settings seed.
pub open spec fn intent_of(settings: Settings) -> CloseIntent {
    if settings.isinit {
        CloseIntent::AskPending
    } else {
        CloseIntent::Remembered(choice_of(settings.main_close))
    }
}

/// The decision that the settings seed.
pub fn close_intent(settings: &Settings) -> (r: CloseIntent)
    ensures
        r == intent_of(*settings),
{
    if settings.isinit {
        CloseIntent::AskPending
    } else if settings.main_close {
        CloseIntent::Remembered(CloseChoice::Exit)
    } else {
        CloseIntent::Remembered(CloseChoice::Minimize)
    }
}

/// The effect that carries out a choice.
pub open spec fn choice_effect(choice: CloseChoice) -> Effect {
    match choice {
        CloseChoice::Exit => Effect::Exit(0),
        CloseChoice::Minimize => Effect::Window(Target::Core, Change::Minimize),
    }
}

/// The effects of a request to close a window. The platform is always kept
/// from closing the window by itself, and that comes first. A window other
/// than the primary one is then destroyed. For the primary window the user
/// is asked where no choice is recorded, and the recorded choice is carried
/// out where one is.
pub open spec fn close_effects(primary: bool, settings: Settings) -> Seq<Effect> {
    if !primary {
        seq![Effect::PreventClose, Effect::Destroy(Target::Source)]
    } else {
        match intent_of(settings) {
            CloseIntent::AskPending => seq![Effect::PreventClose, Effect::AskExitOnClose],
            CloseIntent::Remembered(choice) => seq![Effect::PreventClose, choice_effect(choice)],
        }
    }
}

/// The settings with an answer recorded.
pub open spec fn answered(settings: Settings, answer: bool) -> Settings {
    Settings { isinit: false, main_close: answer, ..settings }
}

/// The effects of an answer to the question: the answer is persisted, then
/// carried out.
pub open spec fn answer_effects(settings: Settings, answer: bool) -> Seq<Effect> {
    seq![Effect::Persist(answered(settings, answer)), choice_effect(choice_of(answer))]
}

fn carry_out(choice: CloseChoice) -> (r: Effect)
    ensures
        r == choice_effect(choice),
{
    match choice {
        CloseChoice::Exit => Effect::Exit(0),
        CloseChoice::Minimize => Effect::Window(Target::Core, Change::Minimize),
    }
}

/// Decides what a request to close a window comes to; `primary` says
/// whether it is the primary window.
pub fn route_close(primary: bool, settings: &Settings) -> (r: Vec<Effect>)
    ensures
        r@ == close_effects(primary, *settings),
{
    let second = if !primary {
        Effect::Destroy(Target::Source)
    } else {
        match close_intent(settings) {
            CloseIntent::AskPending => Effect::AskExitOnClose,
            CloseIntent::Remembered(choice) => carry_out(choice),
        }
    };
    let r = vec![Effect::PreventClose, second];
    assert(r@ =~= seq![Effect::PreventClose, second]);
    r
}

/// Decides what an answer to the question comes to.
pub fn route_answer(settings: &Settings, answer: bool) -> (r: Vec<Effect>)
    ensures
        r@ == answer_effects(*settings, answer),
{
    let patch = SettingsPatch {
        isinit: Some(false),
        main_close: Some(answer),
        ..SettingsPatch::empty()
    };
    let choice = if answer {
        CloseChoice::Exit
    } else {
        CloseChoice::Minimize
    };
    let r = vec![Effect::Persist(settings.amend(&patch)), carry_out(choice)];
    assert(r@ =~= answer_effects(*settings, answer));
    r
}

/// Handles a request to close the window with the given label: decides the
/// effects, carries them out on the state and hands them to the host.
pub fn close_requested(shell: &mut Shell, label: &str) -> (effects: Vec<Effect>)
    ensures
        old(shell).wf(),
        final(shell).wf(),
        effects@ == close_effects(label@ == core_label(), old(shell)@.store.settings()),
        final(shell)@ == old(shell)@.after_all(label@, effects@),
        old(shell)@.in_sync() ==> final(shell)@.in_sync(),
{
    let settings = shell.settings();
    let effects = route_close(str_eq(label, "core"), &settings);
    proof {
        if shell@.in_sync() {
            lemma_close_keeps_sync(shell@, label@);
        }
    }
    shell.perform_all(label, &effects);
    effects
}

/// The state in which the question is no longer open.
pub open spec fn settled(state: ShellView) -> ShellView {
    ShellView { asking: false, ..state }
}

/// Handles the answer to the question: the settings are read anew, the
/// answer is recorded in them and persisted, and then the process exits or
/// the primary window is minimized.
pub fn close_answered(shell: &mut Shell, answer: bool) -> (effects: Vec<Effect>)
    ensures
        old(shell).wf(),
        final(shell).wf(),
        effects@ == answer_effects(old(shell)@.store.settings(), answer),
        final(shell)@ == settled(old(shell)@).after_all(core_label(), effects@),
        old(shell)@.in_sync() ==> final(shell)@.in_sync(),
{
    let settings = shell.settings();
    let effects = route_answer(&settings, answer);
    shell.settle();
    proof {
        if old(shell)@.in_sync() {
            lemma_sync_reads(old(shell)@, shell@);
            lemma_answer_keeps_sync(shell@, answer);
        }
    }
    shell.perform_all("core", &effects);
    effects
}

/// A request to close a window leaves menu and store in agreement.
pub proof fn lemma_close_keeps_sync(state: ShellView, label: Seq<char>)
    requires
        state.in_sync(),
    ensures
        state.after_all(label, close_effects(label == core_label(), state.store.settings()))
            .in_sync(),
{
    let effects = close_effects(label == core_label(), state.store.settings());
    assert(effects.len() == 2);
    lemma_untouched(state, label, effects);
}

/// An answer to the question leaves menu and store in agreement.
pub proof fn lemma_answer_keeps_sync(state: ShellView, answer: bool)
    requires
        state.in_sync(),
    ensures
        state.after_all(core_label(), answer_effects(state.store.settings(), answer)).in_sync(),
{
    let settings = state.store.settings();
    let persist = Effect::Persist(answered(settings, answer));
    let second = choice_effect(choice_of(answer));
    lemma_after_two(state, core_label(), persist, second);
    let written = state.after(core_label(), persist);
    assert(written.in_sync()) by {
        reveal(ShellView::in_sync);
        assert forall|action: Action| #[trigger]
            shows(written.store.settings(), action) == shows(settings, action) by {}
    }
    lemma_after_one(written, core_label(), second);
    lemma_untouched(written, core_label(), seq![second]);
}

/// The state after a request to close the primary window.
pub open spec fn after_close(state: ShellView) -> ShellView {
    state.after_all(core_label(), close_effects(true, state.store.settings()))
}

/// The state after the question was answered.
pub open spec fn after_answer(state: ShellView, answer: bool) -> ShellView {
    settled(state).after_all(core_label(), answer_effects(state.store.settings(), answer))
}

/// While no choice is recorded, a request to close the primary window asks
/// and changes nothing else. After the answer "no" the window is there and
/// minimized, and the store holds that a choice is recorded and that it is
/// not to exit. The next request does not ask: it minimizes the window
/// again, and the process runs on.
pub proof fn lemma_ask_once(state: ShellView)
    requires
        state.wf(),
        state.store.settings().isinit,
        has_label(state.windows, core_label()),
    ensures
        ({
            let asked = after_close(state);
            let declined = after_answer(asked, false);
            let again = close_effects(true, declined.store.settings());
            let last = after_close(declined);
            &&& close_effects(true, state.store.settings()) == seq![
                Effect::PreventClose,
                Effect::AskExitOnClose,
            ]
            &&& asked == ShellView { asking: true, ..state }
            &&& has_label(declined.windows, core_label())
            &&& state_of(declined.windows, core_label()) matches Some(core) && core.minimized
            &&& declined.store.settings() == answered(state.store.settings(), false)
            &&& declined.process == state.process
            &&& !declined.asking
            &&& again == seq![Effect::PreventClose, Effect::Window(Target::Core, Change::Minimize)]
            &&& has_label(last.windows, core_label())
            &&& state_of(last.windows, core_label()) matches Some(core) && core.minimized
            &&& last.process == state.process
            &&& !last.asking
        }),
{
    let settings = state.store.settings();
    let minimize = Effect::Window(Target::Core, Change::Minimize);
    lemma_after_two(state, core_label(), Effect::PreventClose, Effect::AskExitOnClose);
    let asked = after_close(state);
    let persist = Effect::Persist(answered(settings, false));
    lemma_after_two(settled(asked), core_label(), persist, minimize);
    let declined = after_answer(asked, false);
    lemma_change_keeps_labels(state.windows, core_label(), Change::Minimize, core_label());
    lemma_state_after_change(state.windows, core_label(), Change::Minimize, core_label());
    lemma_after_two(declined, core_label(), Effect::PreventClose, minimize);
    lemma_change_keeps_labels(declined.windows, core_label(), Change::Minimize, core_label());
    lemma_state_after_change(declined.windows, core_label(), Change::Minimize, core_label());
}

/// Where the recorded choice is to exit, a request to close the primary
/// window ends the process with status 0 and does not ask.
pub proof fn lemma_remembered_exit(state: ShellView)
    requires
        !state.store.settings().isinit,
        state.store.settings().main_close,
    ensures
        close_effects(true, state.store.settings()) == seq![Effect::PreventClose, Effect::Exit(0)],
        after_close(state).process == Process::Exited(0),
        after_close(state).asking == state.asking,
{
    lemma_after_two(state, core_label(), Effect::PreventClose, Effect::Exit(0));
}

/// A request to close a window other than the primary one destroys that
/// window, whatever the settings hold, and asks nothing.
pub proof fn lemma_other_window_closes(state: ShellView, label: Seq<char>)
    requires
        state.wf(),
        label != core_label(),
    ensures
        ({
            let effects = close_effects(false, state.store.settings());
            let after = state.after_all(label, effects);
            &&& effects == seq![Effect::PreventClose, Effect::Destroy(Target::Source)]
            &&& !has_label(after.windows, label)
            &&& after.asking == state.asking
            &&& after.process == state.process
            &&& after.store == state.store
        }),
{
    lemma_after_two(state, label, Effect::PreventClose, Effect::Destroy(Target::Source));
    lemma_without(state.windows, label);
}

/// A request to close a window never writes the store, and an answer writes
/// it once; either ends the process, if at all, by its last effect.
pub proof fn lemma_close_disciplined(primary: bool, settings: Settings, answer: bool)
    ensures
        disciplined(close_effects(primary, settings)),
        disciplined(answer_effects(settings, answer)),
        forall|i: int|
            0 <= i < close_effects(primary, settings).len() ==> !(#[trigger] close_effects(
                primary,
                settings,
            )[i] is Persist),
{
    assert(close_effects(primary, settings).len() == 2);
    assert(answer_effects(settings, answer).len() == 2);
}

} // verus!
