//! What a handler asks the host to do.

use vstd::prelude::*;
use crate::action::Action;
use crate::conf::Settings;

verus! {

/// The window that an effect is aimed at.
#[derive(Clone, Copy, Debug, PartialEq, Eq, Structural)]
pub enum Target {
    /// The window in which the event arose.
    Source,
    /// The primary window.
    Core,
    /// The popup of the tray icon.
    Tray,
}

/// The label of the primary window.
pub open spec fn core_label() -> Seq<char> {
    "core"@
}

/// The label of the popup of the tray icon.
pub open spec fn tray_label() -> Seq<char> {
    "tray"@
}

impl Target {
    /// The label of the window that is meant, where the event arose in the
    /// window `source`.
    pub open spec fn label_spec(self, source: Seq<char>) -> Seq<char> {
        match self {
            Target::Source => source,
            Target::Core => core_label(),
            Target::Tray => tray_label(),
        }
    }

    /// The label of the window that is meant, where the event arose in the
    /// window `source`.
    pub fn label<'a>(self, source: &'a str) -> (r: &'a str)
        ensures
            r@ == self.label_spec(source@),
    {
        match self {
            Target::Source => source,
            Target::Core => "core",
            Target::Tray => "tray",
        }
    }
}

/// An operation that the content of a window carries out.
#[derive(Clone, Copy, Debug, PartialEq, Eq, Structural)]
pub enum Script {
    Zoom0,
    ZoomOut,
    ZoomIn,
    Reload,
    GoBack,
    GoForward,
    ScrollTop,
    ScrollBottom,
}

impl Script {
    /// The code that is evaluated in the window.
    pub open spec fn source_spec(self) -> Seq<char> {
        match self {
            Script::Zoom0 => "window.__zoom0 && window.__zoom0()"@,
            Script::ZoomOut => "window.__zoomOut && window.__zoomOut()"@,
            Script::ZoomIn => "window.__zoomIn && window.__zoomIn()"@,
            Script::Reload => "window.location.reload()"@,
            Script::GoBack => "window.history.go(-1)"@,
            Script::GoForward => "window.history.go(1)"@,
            Script::ScrollTop => "window.scroll({top: 0, left: 0, behavior: \"smooth\"})"@,
            Script::ScrollBottom =>
                "window.scroll({top: document.body.scrollHeight, left: 0, behavior: \"smooth\"})"@,
        }
    }

    /// The code that is evaluated in the window.
    pub fn source(self) -> (r: &'static str)
        ensures
            r@ == self.source_spec(),
    {
        match self {
            Script::Zoom0 => "window.__zoom0 && window.__zoom0()",
            Script::ZoomOut => "window.__zoomOut && window.__zoomOut()",
            Script::ZoomIn => "window.__zoomIn && window.__zoomIn()",
            Script::Reload => "window.location.reload()",
            Script::GoBack => "window.history.go(-1)",
            Script::GoForward => "window.history.go(1)",
            Script::ScrollTop => "window.scroll({top: 0, left: 0, behavior: \"smooth\"})",
            Script::ScrollBottom =>
                "window.scroll({top: document.body.scrollHeight, left: 0, behavior: \"smooth\"})",
        }
    }
}

/// A change of the state of one window.
#[derive(Clone, Copy, Debug, PartialEq, Eq, Structural)]
pub enum Change {
    Show,
    Hide,
    Focus,
    Minimize,
    /// Puts the window at the tray icon.
    MoveToTray,
    AlwaysOnTop(bool),
}

/// One step that the host carries out for a handler. The steps of one event
/// are carried out in their order; the first that fails ends the event.
#[derive(Clone, Copy, Debug, PartialEq, Eq, Structural)]
pub enum Effect {
    /// Shows the dialog with the version.
    ShowAbout,
    /// Looks for a newer version.
    CheckUpdate,
    /// Opens the user's script file.
    OpenScriptFile,
    /// Opens the folder of the settings file.
    OpenConfigFolder,
    /// Offers to delete the stored configuration. Where the user agrees, the
    /// host deletes it and starts the process anew.
    ClearConfig,
    /// Opens the log file.
    OpenLogFile,
    /// Opens the list of changes in the browser.
    OpenUpdateLog,
    /// Ends the process and starts it again.
    Restart,
    /// Ends the process with the given status.
    Exit(i32),
    /// Writes the settings to the store.
    Persist(Settings),
    /// Sets the check mark of the menu item of an action.
    SetChecked(Action, bool),
    /// Evaluates a script in a window.
    Eval(Target, Script),
    /// Opens the developer tools of a window, or closes them.
    ToggleDevtools(Target),
    /// Changes the state of a window.
    Window(Target, Change),
    /// Destroys a window.
    Destroy(Target),
    /// Keeps the platform from closing the window by itself.
    PreventClose,
    /// Asks whether the close button is to exit the application.
    AskExitOnClose,
}

/// Whether the effect ends the process.
pub open spec fn ends_process(effect: Effect) -> bool {
    effect is Restart || effect is Exit
}

} // verus!
