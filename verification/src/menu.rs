//! The menu bar and the tray menu as they are built at start.

use vstd::prelude::*;
use crate::action::Action;
use crate::conf::{AutoUpdate, ConfigStore, Settings, SettingsPatch, Theme};
use crate::tree::{
    checked, entries_have, entry_has, entry_views, lemma_marked_from_settings, marked, offers,
    shows, EntryView, Marking, Menu, MenuEntry, MenuItem, NativeItem, Submenu, SubmenuView, Title,
};

verus! {

/// The kind of system that the shell runs on, as far as the menus differ.
#[derive(Clone, Copy, Debug, PartialEq, Eq, Structural)]
pub enum Platform {
    MacOs,
    Other,
}

/// An unchecked item for the action.
pub open spec fn plain(action: Action) -> EntryView {
    EntryView::Item(MenuItem { action, selected: false })
}

/// A group of unchecked items.
pub open spec fn choice(title: Title, actions: Seq<Action>) -> EntryView {
    EntryView::Group(title, actions.map_values(|a: Action| MenuItem { action: a, selected: false }))
}

/// The entries of the application's own submenu. The platform with a native
/// "about" entry gets that one.
pub open spec fn app_entries(platform: Platform) -> Seq<EntryView> {
    seq![
        if platform == Platform::MacOs {
            EntryView::Native(NativeItem::About)
        } else {
            plain(Action::About)
        },
        plain(Action::CheckUpdate),
        EntryView::Native(NativeItem::Services),
        EntryView::Native(NativeItem::Hide),
        EntryView::Native(NativeItem::HideOthers),
        EntryView::Native(NativeItem::ShowAll),
        EntryView::Native(NativeItem::Separator),
        EntryView::Native(NativeItem::Quit),
    ]
}

/// The entries that only the platform with a dock and a hideable title bar
/// has.
pub open spec fn dock_entries(platform: Platform) -> Seq<EntryView> {
    if platform == Platform::MacOs {
        seq![plain(Action::Titlebar), plain(Action::HideDockIcon)]
    } else {
        Seq::empty()
    }
}

/// The entries of the preferences.
pub open spec fn preferences_entries(platform: Platform) -> Seq<EntryView> {
    seq![plain(Action::StayOnTop)] + dock_entries(platform) + seq![
        plain(Action::SystemTray),
        plain(Action::InjectScript),
        EntryView::Native(NativeItem::Separator),
        choice(Title::Theme, seq![Action::ThemeLight, Action::ThemeDark, Action::ThemeSystem]),
        choice(Title::AutoUpdate, seq![Action::UpdatePrompt, Action::UpdateSilent]),
        EntryView::Native(NativeItem::Separator),
        plain(Action::PopupSearch),
        EntryView::Native(NativeItem::Separator),
        plain(Action::GoConf),
        plain(Action::Restart),
        plain(Action::ClearConf),
        EntryView::Native(NativeItem::Separator),
    ]
}

/// The entries for editing text.
pub open spec fn edit_entries() -> Seq<EntryView> {
    seq![
        EntryView::Native(NativeItem::Undo),
        EntryView::Native(NativeItem::Redo),
        EntryView::Native(NativeItem::Separator),
        EntryView::Native(NativeItem::Cut),
        EntryView::Native(NativeItem::Copy),
        EntryView::Native(NativeItem::Paste),
        EntryView::Native(NativeItem::SelectAll),
    ]
}

/// The entries that act on the content of the window.
pub open spec fn view_entries() -> Seq<EntryView> {
    seq![
        plain(Action::GoBack),
        plain(Action::GoForward),
        plain(Action::ScrollTop),
        plain(Action::ScrollBottom),
        EntryView::Native(NativeItem::Separator),
        plain(Action::Zoom0),
        plain(Action::ZoomOut),
        plain(Action::ZoomIn),
        EntryView::Native(NativeItem::Separator),
        plain(Action::Reload),
    ]
}

/// The entries of the help submenu.
pub open spec fn help_entries() -> Seq<EntryView> {
    seq![plain(Action::QuicktypeLog), plain(Action::UpdateLog), plain(Action::DevTools)]
}

/// The menu bar with no item checked.
pub open spec fn layout(platform: Platform) -> Seq<SubmenuView> {
    seq![
        SubmenuView { title: Title::App, entries: app_entries(platform) },
        SubmenuView { title: Title::Preferences, entries: preferences_entries(platform) },
        SubmenuView { title: Title::Edit, entries: edit_entries() },
        SubmenuView { title: Title::View, entries: view_entries() },
        SubmenuView { title: Title::Help, entries: help_entries() },
    ]
}

/// The menu bar for the given settings: the layout of the platform, every
/// item checked as the settings say.
pub open spec fn menu_model(settings: Settings, platform: Platform) -> Seq<SubmenuView> {
    marked(layout(platform), Marking::FromSettings(settings))
}

/// The entries of the tray menu.
pub open spec fn tray_model(settings: Settings, platform: Platform) -> Seq<EntryView> {
    if platform == Platform::MacOs {
        if settings.hide_dock_icon {
            seq![
                plain(Action::ShowDockIcon),
                EntryView::Native(NativeItem::Separator),
                plain(Action::Quit),
            ]
        } else {
            seq![
                plain(Action::HideDockIcon),
                plain(Action::ShowCore),
                EntryView::Native(NativeItem::Separator),
                plain(Action::Quit),
            ]
        }
    } else {
        seq![plain(Action::ShowCore), EntryView::Native(NativeItem::Separator), plain(Action::Quit)]
    }
}

fn add_entry(entries: &mut Vec<MenuEntry>, entry: MenuEntry)
    ensures
        entry_views(final(entries)@) == entry_views(old(entries)@).push(entry@),
{
    entries.push(entry);
    assert(entry_views(entries@) =~= entry_views(old(entries)@).push(entry@));
}

fn add_native(entries: &mut Vec<MenuEntry>, native: NativeItem)
    ensures
        entry_views(final(entries)@) == entry_views(old(entries)@).push(EntryView::Native(native)),
{
    add_entry(entries, MenuEntry::Native(native));
}

fn add_plain(entries: &mut Vec<MenuEntry>, action: Action)
    ensures
        entry_views(final(entries)@) == entry_views(old(entries)@).push(plain(action)),
{
    add_entry(entries, MenuEntry::Item(MenuItem { action, selected: false }));
}

fn no_entries() -> (r: Vec<MenuEntry>)
    ensures
        entry_views(r@) == Seq::<EntryView>::empty(),
{
    let r: Vec<MenuEntry> = Vec::new();
    assert(entry_views(r@) =~= Seq::<EntryView>::empty());
    r
}

fn app_submenu(platform: Platform) -> (r: Submenu)
    ensures
        r@ == (SubmenuView { title: Title::App, entries: app_entries(platform) }),
{
    let mut entries = no_entries();
    if platform == Platform::MacOs {
        add_native(&mut entries, NativeItem::About);
    } else {
        add_plain(&mut entries, Action::About);
    }
    add_plain(&mut entries, Action::CheckUpdate);
    add_native(&mut entries, NativeItem::Services);
    add_native(&mut entries, NativeItem::Hide);
    add_native(&mut entries, NativeItem::HideOthers);
    add_native(&mut entries, NativeItem::ShowAll);
    add_native(&mut entries, NativeItem::Separator);
    add_native(&mut entries, NativeItem::Quit);
    assert(entry_views(entries@) =~= app_entries(platform));
    Submenu { title: Title::App, entries }
}

fn theme_group() -> (r: MenuEntry)
    ensures
        r@ == choice(Title::Theme, seq![Action::ThemeLight, Action::ThemeDark, Action::ThemeSystem]),
{
    let mut items: Vec<MenuItem> = Vec::new();
    items.push(MenuItem { action: Action::ThemeLight, selected: false });
    items.push(MenuItem { action: Action::ThemeDark, selected: false });
    items.push(MenuItem { action: Action::ThemeSystem, selected: false });
    assert(items@ =~= seq![Action::ThemeLight, Action::ThemeDark, Action::ThemeSystem].map_values(
        |a: Action| MenuItem { action: a, selected: false },
    ));
    MenuEntry::Group(Title::Theme, items)
}

fn update_group() -> (r: MenuEntry)
    ensures
        r@ == choice(Title::AutoUpdate, seq![Action::UpdatePrompt, Action::UpdateSilent]),
{
    let mut items: Vec<MenuItem> = Vec::new();
    items.push(MenuItem { action: Action::UpdatePrompt, selected: false });
    items.push(MenuItem { action: Action::UpdateSilent, selected: false });
    assert(items@ =~= seq![Action::UpdatePrompt, Action::UpdateSilent].map_values(
        |a: Action| MenuItem { action: a, selected: false },
    ));
    MenuEntry::Group(Title::AutoUpdate, items)
}

fn preferences_submenu(platform: Platform) -> (r: Submenu)
    ensures
        r@ == (SubmenuView { title: Title::Preferences, entries: preferences_entries(platform) }),
{
    let mut entries = no_entries();
    add_plain(&mut entries, Action::StayOnTop);
    if platform == Platform::MacOs {
        add_plain(&mut entries, Action::Titlebar);
        add_plain(&mut entries, Action::HideDockIcon);
    }
    add_plain(&mut entries, Action::SystemTray);
    add_plain(&mut entries, Action::InjectScript);
    add_native(&mut entries, NativeItem::Separator);
    add_entry(&mut entries, theme_group());
    add_entry(&mut entries, update_group());
    add_native(&mut entries, NativeItem::Separator);
    add_plain(&mut entries, Action::PopupSearch);
    add_native(&mut entries, NativeItem::Separator);
    add_plain(&mut entries, Action::GoConf);
    add_plain(&mut entries, Action::Restart);
    add_plain(&mut entries, Action::ClearConf);
    add_native(&mut entries, NativeItem::Separator);
    assert(entry_views(entries@) =~= preferences_entries(platform));
    Submenu { title: Title::Preferences, entries }
}

fn edit_submenu() -> (r: Submenu)
    ensures
        r@ == (SubmenuView { title: Title::Edit, entries: edit_entries() }),
{
    let mut entries = no_entries();
    add_native(&mut entries, NativeItem::Undo);
    add_native(&mut entries, NativeItem::Redo);
    add_native(&mut entries, NativeItem::Separator);
    add_native(&mut entries, NativeItem::Cut);
    add_native(&mut entries, NativeItem::Copy);
    add_native(&mut entries, NativeItem::Paste);
    add_native(&mut entries, NativeItem::SelectAll);
    assert(entry_views(entries@) =~= edit_entries());
    Submenu { title: Title::Edit, entries }
}

fn view_submenu() -> (r: Submenu)
    ensures
        r@ == (SubmenuView { title: Title::View, entries: view_entries() }),
{
    let mut entries = no_entries();
    add_plain(&mut entries, Action::GoBack);
    add_plain(&mut entries, Action::GoForward);
    add_plain(&mut entries, Action::ScrollTop);
    add_plain(&mut entries, Action::ScrollBottom);
    add_native(&mut entries, NativeItem::Separator);
    add_plain(&mut entries, Action::Zoom0);
    add_plain(&mut entries, Action::ZoomOut);
    add_plain(&mut entries, Action::ZoomIn);
    add_native(&mut entries, NativeItem::Separator);
    add_plain(&mut entries, Action::Reload);
    assert(entry_views(entries@) =~= view_entries());
    Submenu { title: Title::View, entries }
}

fn help_submenu() -> (r: Submenu)
    ensures
        r@ == (SubmenuView { title: Title::Help, entries: help_entries() }),
{
    let mut entries = no_entries();
    add_plain(&mut entries, Action::QuicktypeLog);
    add_plain(&mut entries, Action::UpdateLog);
    add_plain(&mut entries, Action::DevTools);
    assert(entry_views(entries@) =~= help_entries());
    Submenu { title: Title::Help, entries }
}

/// The menu bar of the platform with no item checked.
pub fn bare_menu(platform: Platform) -> (r: Menu)
    ensures
        r@ == layout(platform),
{
    let mut submenus: Vec<Submenu> = Vec::new();
    submenus.push(app_submenu(platform));
    submenus.push(preferences_submenu(platform));
    submenus.push(edit_submenu());
    submenus.push(view_submenu());
    submenus.push(help_submenu());
    let menu = Menu { submenus };
    assert(menu@ =~= layout(platform));
    menu
}

/// Builds the menu bar from what the store holds: the layout of the
/// platform, with every toggle and every choice checked as the settings say.
pub fn init(store: &ConfigStore, platform: Platform) -> (r: Menu)
    ensures
        r@ == menu_model(store.settings(), platform),
{
    let settings = Settings::read(store);
    let mut menu = bare_menu(platform);
    menu.mark(&Marking::FromSettings(settings));
    menu
}

/// Builds the menu of the tray icon from what the store holds.
pub fn tray_menu(store: &ConfigStore, platform: Platform) -> (r: Vec<MenuEntry>)
    ensures
        entry_views(r@) == tray_model(store.settings(), platform),
{
    let mut entries = no_entries();
    if platform == Platform::MacOs {
        if Settings::read(store).hide_dock_icon {
            add_plain(&mut entries, Action::ShowDockIcon);
        } else {
            add_plain(&mut entries, Action::HideDockIcon);
            add_plain(&mut entries, Action::ShowCore);
        }
    } else {
        add_plain(&mut entries, Action::ShowCore);
    }
    add_native(&mut entries, NativeItem::Separator);
    add_plain(&mut entries, Action::Quit);
    assert(entry_views(entries@) =~= tray_model(store.settings(), platform));
    entries
}

/// The toggles and choices that the menu bar of every platform has, and the
/// one that only one platform has.
pub open spec fn is_offered_toggle(platform: Platform, action: Action) -> bool {
    match action {
        Action::StayOnTop | Action::SystemTray | Action::PopupSearch | Action::ThemeLight
        | Action::ThemeDark | Action::ThemeSystem | Action::UpdatePrompt
        | Action::UpdateSilent => true,
        Action::Titlebar => platform == Platform::MacOs,
        _ => false,
    }
}

proof fn lemma_offered_in(platform: Platform, at: int, action: Action)
    requires
        0 <= at < preferences_entries(platform).len(),
        entry_has(preferences_entries(platform)[at], MenuItem { action, selected: false }),
    ensures
        offers(layout(platform), action),
{
    let item = MenuItem { action, selected: false };
    assert(entries_have(layout(platform)[1].entries, item));
}

proof fn lemma_in_choice(actions: Seq<Action>, title: Title, at: int)
    requires
        0 <= at < actions.len(),
    ensures
        entry_has(choice(title, actions), MenuItem { action: actions[at], selected: false }),
{
    let items = actions.map_values(|a: Action| MenuItem { action: a, selected: false });
    assert(items[at] == MenuItem { action: actions[at], selected: false });
}

/// The layout of a platform has an item for each of its toggles and choices.
pub proof fn lemma_layout_offers(platform: Platform, action: Action)
    requires
        is_offered_toggle(platform, action),
    ensures
        offers(layout(platform), action),
{
    let shift: int = if platform == Platform::MacOs {
        2
    } else {
        0
    };
    let themes = seq![Action::ThemeLight, Action::ThemeDark, Action::ThemeSystem];
    let modes = seq![Action::UpdatePrompt, Action::UpdateSilent];
    assert(preferences_entries(platform).len() == 13 + shift);
    match action {
        Action::StayOnTop => lemma_offered_in(platform, 0, action),
        Action::Titlebar => lemma_offered_in(platform, 1, action),
        Action::SystemTray => lemma_offered_in(platform, 1 + shift, action),
        Action::ThemeLight => {
            lemma_in_choice(themes, Title::Theme, 0);
            lemma_offered_in(platform, 4 + shift, action)
        },
        Action::ThemeDark => {
            lemma_in_choice(themes, Title::Theme, 1);
            lemma_offered_in(platform, 4 + shift, action)
        },
        Action::ThemeSystem => {
            lemma_in_choice(themes, Title::Theme, 2);
            lemma_offered_in(platform, 4 + shift, action)
        },
        Action::UpdatePrompt => {
            lemma_in_choice(modes, Title::AutoUpdate, 0);
            lemma_offered_in(platform, 5 + shift, action)
        },
        Action::UpdateSilent => {
            lemma_in_choice(modes, Title::AutoUpdate, 1);
            lemma_offered_in(platform, 5 + shift, action)
        },
        _ => lemma_offered_in(platform, 7 + shift, action),
    }
}

/// In a menu bar built for some settings, the item of every toggle and of
/// every choice is checked exactly when the settings say so. Of the items of
/// a choice exactly one is checked.
pub proof fn lemma_menu_follows_settings(settings: Settings, platform: Platform, action: Action)
    requires
        is_offered_toggle(platform, action),
    ensures
        checked(menu_model(settings, platform), action) == shows(settings, action),
{
    lemma_layout_offers(platform, action);
    lemma_marked_from_settings(layout(platform), settings, action);
}

/// After a patch was merged into what the store held and the result was
/// written, a menu bar built from the store shows the patch: a toggle that
/// the patch names is checked exactly when the patch switches it on, and of
/// a choice that the patch names exactly the item of the patch's value is
/// checked.
pub proof fn lemma_fresh_menu_shows_patch(store: ConfigStore, patch: SettingsPatch, platform: Platform)
    ensures
        ({
            let after = store.written(store.settings().amended(patch));
            let menu = menu_model(after.settings(), platform);
            &&& patch.stay_on_top matches Some(v) ==> checked(menu, Action::StayOnTop) == v
            &&& patch.popup_search matches Some(v) ==> checked(menu, Action::PopupSearch) == v
            &&& patch.tray matches Some(v) ==> checked(menu, Action::SystemTray) == v
            &&& patch.titlebar matches Some(v) ==> (platform == Platform::MacOs ==> checked(
                menu,
                Action::Titlebar,
            ) == v)
            &&& patch.theme matches Some(t) ==> {
                &&& checked(menu, Action::ThemeLight) == (t == Theme::Light)
                &&& checked(menu, Action::ThemeDark) == (t == Theme::Dark)
                &&& checked(menu, Action::ThemeSystem) == (t == Theme::System)
            }
            &&& patch.auto_update matches Some(u) ==> {
                &&& checked(menu, Action::UpdatePrompt) == (u == AutoUpdate::Prompt)
                &&& checked(menu, Action::UpdateSilent) == (u == AutoUpdate::Silent)
            }
        }),
{
    let after = store.written(store.settings().amended(patch)).settings();
    lemma_menu_follows_settings(after, platform, Action::StayOnTop);
    lemma_menu_follows_settings(after, platform, Action::PopupSearch);
    lemma_menu_follows_settings(after, platform, Action::SystemTray);
    if platform == Platform::MacOs {
        lemma_menu_follows_settings(after, platform, Action::Titlebar);
    }
    lemma_menu_follows_settings(after, platform, Action::ThemeLight);
    lemma_menu_follows_settings(after, platform, Action::ThemeDark);
    lemma_menu_follows_settings(after, platform, Action::ThemeSystem);
    lemma_menu_follows_settings(after, platform, Action::UpdatePrompt);
    lemma_menu_follows_settings(after, platform, Action::UpdateSilent);
}

} // verus!
