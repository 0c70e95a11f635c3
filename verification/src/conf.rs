//! The persisted settings: the record, its merge-patch and the store.

use vstd::prelude::*;
use crate::effect::Effect;
use crate::text::str_eq;

verus! {

/// Colour scheme of the windows.
#[derive(Clone, Copy, Debug, PartialEq, Eq, Structural)]
pub enum Theme {
    Light,
    Dark,
    System,
}

impl Theme {
    /// The scheme that a stored name stands for. A name that is none of the
    /// three known ones stands for the first scheme.
    pub open spec fn of_name(name: Seq<char>) -> Theme {
        if name == "dark"@ {
            Theme::Dark
        } else if name == "system"@ {
            Theme::System
        } else {
            Theme::Light
        }
    }

    /// The name under which the scheme is stored.
    pub open spec fn name_spec(self) -> Seq<char> {
        match self {
            Theme::Light => "light"@,
            Theme::Dark => "dark"@,
            Theme::System => "system"@,
        }
    }

    /// Reads a stored name.
    pub fn from_name(name: &str) -> (r: Theme)
        ensures
            r == Theme::of_name(name@),
    {
        if str_eq(name, "dark") {
            Theme::Dark
        } else if str_eq(name, "system") {
            Theme::System
        } else {
            Theme::Light
        }
    }

    /// The name under which the scheme is stored.
    pub fn name(self) -> (r: &'static str)
        ensures
            r@ == self.name_spec(),
    {
        match self {
            Theme::Light => "light",
            Theme::Dark => "dark",
            Theme::System => "system",
        }
    }

    /// Reading back the name of a scheme gives that scheme.
    pub proof fn lemma_name_round_trip(self)
        ensures
            Theme::of_name(self.name_spec()) == self,
    {
        reveal_strlit("light");
        reveal_strlit("dark");
        reveal_strlit("system");
        assert("light"@.len() == 5 && "dark"@.len() == 4 && "system"@.len() == 6);
    }
}

/// How a found update is installed.
#[derive(Clone, Copy, Debug, PartialEq, Eq, Structural)]
pub enum AutoUpdate {
    Prompt,
    Silent,
}

impl AutoUpdate {
    /// The mode that a stored name stands for. A name that is neither of the
    /// two known ones stands for the first mode.
    pub open spec fn of_name(name: Seq<char>) -> AutoUpdate {
        if name == "silent"@ {
            AutoUpdate::Silent
        } else {
            AutoUpdate::Prompt
        }
    }

    /// The name under which the mode is stored.
    pub open spec fn name_spec(self) -> Seq<char> {
        match self {
            AutoUpdate::Prompt => "prompt"@,
            AutoUpdate::Silent => "silent"@,
        }
    }

    /// Reads a stored name.
    pub fn from_name(name: &str) -> (r: AutoUpdate)
        ensures
            r == AutoUpdate::of_name(name@),
    {
        if str_eq(name, "silent") {
            AutoUpdate::Silent
        } else {
            AutoUpdate::Prompt
        }
    }

    /// The name under which the mode is stored.
    pub fn name(self) -> (r: &'static str)
        ensures
            r@ == self.name_spec(),
    {
        match self {
            AutoUpdate::Prompt => "prompt",
            AutoUpdate::Silent => "silent",
        }
    }

    /// Reading back the name of a mode gives that mode.
    pub proof fn lemma_name_round_trip(self)
        ensures
            AutoUpdate::of_name(self.name_spec()) == self,
    {
        reveal_strlit("prompt");
        reveal_strlit("silent");
        assert("prompt"@[0] == 'p' && "silent"@[0] == 's');
    }
}

/// The settings record. One value of it is the whole configuration of the
/// shell; the menu's check marks are derived from it.
#[derive(Clone, Copy, Debug, PartialEq, Eq, Structural)]
pub struct Settings {
    /// Keep the window above all others.
    pub stay_on_top: bool,
    /// Offer a search popup on selected text.
    pub popup_search: bool,
    /// Show the tray icon.
    pub tray: bool,
    /// Draw the native title bar.
    pub titlebar: bool,
    /// Keep the application out of the dock.
    pub hide_dock_icon: bool,
    /// Colour scheme.
    pub theme: Theme,
    /// Update mode.
    pub auto_update: AutoUpdate,
    /// No answer has been recorded yet to what the close button does.
    pub isinit: bool,
    /// The recorded answer: the close button exits.
    pub main_close: bool,
}

/// A merge-patch: for each field either a new value or nothing.
#[derive(Clone, Copy, Debug, PartialEq, Eq)]
pub struct SettingsPatch {
    pub stay_on_top: Option<bool>,
    pub popup_search: Option<bool>,
    pub tray: Option<bool>,
    pub titlebar: Option<bool>,
    pub hide_dock_icon: Option<bool>,
    pub theme: Option<Theme>,
    pub auto_update: Option<AutoUpdate>,
    pub isinit: Option<bool>,
    pub main_close: Option<bool>,
}

/// The value of one field after a patch: the patch's value where it names
/// one, the earlier value where it does not.
pub open spec fn overlay<T>(earlier: T, patch: Option<T>) -> T {
    match patch {
        Some(v) => v,
        None => earlier,
    }
}

fn pick<T: Copy>(earlier: T, patch: Option<T>) -> (r: T)
    ensures
        r == overlay(earlier, patch),
{
    match patch {
        Some(v) => v,
        None => earlier,
    }
}

impl SettingsPatch {
    /// The patch that names no field.
    pub open spec fn empty_spec() -> SettingsPatch {
        SettingsPatch {
            stay_on_top: None,
            popup_search: None,
            tray: None,
            titlebar: None,
            hide_dock_icon: None,
            theme: None,
            auto_update: None,
            isinit: None,
            main_close: None,
        }
    }

    /// The patch that names every field, with the values of `settings`.
    pub open spec fn full_spec(settings: Settings) -> SettingsPatch {
        SettingsPatch {
            stay_on_top: Some(settings.stay_on_top),
            popup_search: Some(settings.popup_search),
            tray: Some(settings.tray),
            titlebar: Some(settings.titlebar),
            hide_dock_icon: Some(settings.hide_dock_icon),
            theme: Some(settings.theme),
            auto_update: Some(settings.auto_update),
            isinit: Some(settings.isinit),
            main_close: Some(settings.main_close),
        }
    }

    /// The patch that names no field.
    pub fn empty() -> (r: SettingsPatch)
        ensures
            r == SettingsPatch::empty_spec(),
    {
        SettingsPatch {
            stay_on_top: None,
            popup_search: None,
            tray: None,
            titlebar: None,
            hide_dock_icon: None,
            theme: None,
            auto_update: None,
            isinit: None,
            main_close: None,
        }
    }

    /// The patch that names every field, with the values of `settings`.
    pub fn full(settings: &Settings) -> (r: SettingsPatch)
        ensures
            r == SettingsPatch::full_spec(*settings),
    {
        SettingsPatch {
            stay_on_top: Some(settings.stay_on_top),
            popup_search: Some(settings.popup_search),
            tray: Some(settings.tray),
            titlebar: Some(settings.titlebar),
            hide_dock_icon: Some(settings.hide_dock_icon),
            theme: Some(settings.theme),
            auto_update: Some(settings.auto_update),
            isinit: Some(settings.isinit),
            main_close: Some(settings.main_close),
        }
    }
}

impl Settings {
    /// The settings of a first start: nothing switched on but the tray icon
    /// and the title bar, the first scheme and the first update mode, and no
    /// answer recorded for the close button.
    pub open spec fn initial() -> Settings {
        Settings {
            stay_on_top: false,
            popup_search: false,
            tray: true,
            titlebar: true,
            hide_dock_icon: false,
            theme: Theme::Light,
            auto_update: AutoUpdate::Prompt,
            isinit: true,
            main_close: false,
        }
    }

    /// This record with the fields that `patch` names replaced.
    pub open spec fn amended(self, patch: SettingsPatch) -> Settings {
        Settings {
            stay_on_top: overlay(self.stay_on_top, patch.stay_on_top),
            popup_search: overlay(self.popup_search, patch.popup_search),
            tray: overlay(self.tray, patch.tray),
            titlebar: overlay(self.titlebar, patch.titlebar),
            hide_dock_icon: overlay(self.hide_dock_icon, patch.hide_dock_icon),
            theme: overlay(self.theme, patch.theme),
            auto_update: overlay(self.auto_update, patch.auto_update),
            isinit: overlay(self.isinit, patch.isinit),
            main_close: overlay(self.main_close, patch.main_close),
        }
    }

    /// Merges a patch into this record. Nothing is persisted.
    pub fn amend(self, patch: &SettingsPatch) -> (r: Settings)
        ensures
            r == self.amended(*patch),
    {
        Settings {
            stay_on_top: pick(self.stay_on_top, patch.stay_on_top),
            popup_search: pick(self.popup_search, patch.popup_search),
            tray: pick(self.tray, patch.tray),
            titlebar: pick(self.titlebar, patch.titlebar),
            hide_dock_icon: pick(self.hide_dock_icon, patch.hide_dock_icon),
            theme: pick(self.theme, patch.theme),
            auto_update: pick(self.auto_update, patch.auto_update),
            isinit: pick(self.isinit, patch.isinit),
            main_close: pick(self.main_close, patch.main_close),
        }
    }

    /// Loads the current settings from the store.
    pub fn read(store: &ConfigStore) -> (r: Settings)
        ensures
            r == store.settings(),
    {
        match &store.record {
            Some(patch) => Settings::default().amend(patch),
            None => Settings::default(),
        }
    }

    /// Persists this record in the store and hands it back.
    pub fn write(self, store: &mut ConfigStore) -> (r: Settings)
        ensures
            r == self,
            *final(store) == old(store).written(self),
    {
        store.record = Some(SettingsPatch::full(&self));
        self
    }

    /// The effects that persist this record and then restart the process,
    /// for a setting that is read only while the shell starts.
    pub fn restart(self) -> (r: Vec<Effect>)
        ensures
            r@ == seq![Effect::Persist(self), Effect::Restart],
    {
        let r = vec![Effect::Persist(self), Effect::Restart];
        assert(r@ =~= seq![Effect::Persist(self), Effect::Restart]);
        r
    }
}

impl Default for Settings {
    fn default() -> (r: Settings)
        ensures
            r == Settings::initial(),
    {
        Settings {
            stay_on_top: false,
            popup_search: false,
            tray: true,
            titlebar: true,
            hide_dock_icon: false,
            theme: Theme::Light,
            auto_update: AutoUpdate::Prompt,
            isinit: true,
            main_close: false,
        }
    }
}

/// The durable store. It holds what was last written, which may name only
/// some of the fields, or nothing at all when the record is absent or
/// unreadable.
#[derive(Clone, Copy, Debug, PartialEq, Eq)]
pub struct ConfigStore {
    pub record: Option<SettingsPatch>,
}

impl ConfigStore {
    /// The settings that the store stands for: the stored fields over the
    /// settings of a first start.
    pub open spec fn settings(self) -> Settings {
        match self.record {
            Some(patch) => Settings::initial().amended(patch),
            None => Settings::initial(),
        }
    }

    /// The store after `settings` was written to it.
    pub open spec fn written(self, settings: Settings) -> ConfigStore {
        ConfigStore { record: Some(SettingsPatch::full_spec(settings)) }
    }

    /// A store without a record.
    pub fn absent() -> (r: ConfigStore)
        ensures
            r.record is None,
    {
        ConfigStore { record: None }
    }

    /// A store with the given record.
    pub fn holding(record: SettingsPatch) -> (r: ConfigStore)
        ensures
            r.record == Some(record),
    {
        ConfigStore { record: Some(record) }
    }
}

/// An empty patch changes nothing.
pub proof fn lemma_amend_empty(settings: Settings)
    ensures
        settings.amended(SettingsPatch::empty_spec()) == settings,
{
}

/// A full patch replaces every field, whatever stood there before.
pub proof fn lemma_amend_full(earlier: Settings, settings: Settings)
    ensures
        earlier.amended(SettingsPatch::full_spec(settings)) == settings,
{
}

/// What was written is what is read next.
pub proof fn lemma_read_after_write(store: ConfigStore, settings: Settings)
    ensures
        store.written(settings).settings() == settings,
{
}

/// Writing twice leaves the store as writing once does.
pub proof fn lemma_write_idempotent(store: ConfigStore, settings: Settings)
    ensures
        store.written(settings).written(settings) == store.written(settings),
{
}

/// Reading right after a patched record was written gives, for every field
/// that the patch names, the patch's value, and for every other field the
/// value that was read before.
pub proof fn lemma_patch_round_trip(store: ConfigStore, patch: SettingsPatch)
    ensures
        ({
            let before = store.settings();
            let after = store.written(before.amended(patch)).settings();
            &&& after == before.amended(patch)
            &&& after.stay_on_top == overlay(before.stay_on_top, patch.stay_on_top)
            &&& after.popup_search == overlay(before.popup_search, patch.popup_search)
            &&& after.tray == overlay(before.tray, patch.tray)
            &&& after.titlebar == overlay(before.titlebar, patch.titlebar)
            &&& after.hide_dock_icon == overlay(before.hide_dock_icon, patch.hide_dock_icon)
            &&& after.theme == overlay(before.theme, patch.theme)
            &&& after.auto_update == overlay(before.auto_update, patch.auto_update)
            &&& after.isinit == overlay(before.isinit, patch.isinit)
            &&& after.main_close == overlay(before.main_close, patch.main_close)
        }),
{
}

} // verus!
