//! The menu tree: submenus of entries, the check marks of its items, and how
//! the marks are read and set.

use vstd::prelude::*;
use crate::action::Action;
use crate::conf::{AutoUpdate, Settings, Theme};

verus! {

/// An entry that the platform supplies and handles by itself.
#[derive(Clone, Copy, Debug, PartialEq, Eq, Structural)]
pub enum NativeItem {
    About,
    Services,
    Hide,
    HideOthers,
    ShowAll,
    Separator,
    Quit,
    Undo,
    Redo,
    Cut,
    Copy,
    Paste,
    SelectAll,
}

/// The heading of a submenu.
#[derive(Clone, Copy, Debug, PartialEq, Eq, Structural)]
pub enum Title {
    App,
    Preferences,
    Theme,
    AutoUpdate,
    Edit,
    View,
    Help,
}

impl Title {
    /// The text of the heading.
    pub open spec fn text_spec(self) -> Seq<char> {
        match self {
            Title::App => "QuickType"@,
            Title::Preferences => "Preferences"@,
            Title::Theme => "Theme"@,
            Title::AutoUpdate => "Auto Update"@,
            Title::Edit => "Edit"@,
            Title::View => "View"@,
            Title::Help => "Help"@,
        }
    }

    /// The text of the heading.
    pub fn text(self) -> (r: &'static str)
        ensures
            r@ == self.text_spec(),
    {
        match self {
            Title::App => "QuickType",
            Title::Preferences => "Preferences",
            Title::Theme => "Theme",
            Title::AutoUpdate => "Auto Update",
            Title::Edit => "Edit",
            Title::View => "View",
            Title::Help => "Help",
        }
    }
}

/// An item that stands for an action, with its check mark.
#[derive(Clone, Copy, Debug, PartialEq, Eq, Structural)]
pub struct MenuItem {
    pub action: Action,
    pub selected: bool,
}

/// One entry of a submenu.
#[derive(Clone, Debug, PartialEq, Eq)]
pub enum MenuEntry {
    /// An entry of the platform.
    Native(NativeItem),
    /// An item of the shell.
    Item(MenuItem),
    /// A nested submenu of items, of which one is chosen.
    Group(Title, Vec<MenuItem>),
}

/// What an entry holds.
pub enum EntryView {
    Native(NativeItem),
    Item(MenuItem),
    Group(Title, Seq<MenuItem>),
}

impl View for MenuEntry {
    type V = EntryView;

    open spec fn view(&self) -> EntryView {
        match *self {
            MenuEntry::Native(n) => EntryView::Native(n),
            MenuEntry::Item(i) => EntryView::Item(i),
            MenuEntry::Group(t, items) => EntryView::Group(t, items@),
        }
    }
}

/// What a list of entries holds.
pub open spec fn entry_views(entries: Seq<MenuEntry>) -> Seq<EntryView> {
    entries.map_values(|e: MenuEntry| e@)
}

/// A submenu of the menu bar.
#[derive(Clone, Debug, PartialEq, Eq)]
pub struct Submenu {
    pub title: Title,
    pub entries: Vec<MenuEntry>,
}

/// What a submenu holds.
pub struct SubmenuView {
    pub title: Title,
    pub entries: Seq<EntryView>,
}

impl View for Submenu {
    type V = SubmenuView;

    open spec fn view(&self) -> SubmenuView {
        SubmenuView { title: self.title, entries: entry_views(self.entries@) }
    }
}

/// The menu bar.
#[derive(Clone, Debug, PartialEq, Eq)]
pub struct Menu {
    pub submenus: Vec<Submenu>,
}

impl View for Menu {
    type V = Seq<SubmenuView>;

    open spec fn view(&self) -> Seq<SubmenuView> {
        self.submenus@.map_values(|s: Submenu| s@)
    }
}

/// A rule that decides the check mark of every item.
#[derive(Clone, Copy, Debug, PartialEq, Eq)]
pub enum Marking {
    /// Every item shows what the settings say.
    FromSettings(Settings),
    /// The items of one action get the given mark; the others keep theirs.
    Single(Action, bool),
}

/// Whether the item of `action` is checked under `settings`. An action that
/// is no toggle and no choice is never checked.
pub open spec fn shows(settings: Settings, action: Action) -> bool {
    match action {
        Action::StayOnTop => settings.stay_on_top,
        Action::Titlebar => settings.titlebar,
        Action::SystemTray => settings.tray,
        Action::PopupSearch => settings.popup_search,
        Action::ThemeLight => settings.theme == Theme::Light,
        Action::ThemeDark => settings.theme == Theme::Dark,
        Action::ThemeSystem => settings.theme == Theme::System,
        Action::UpdatePrompt => settings.auto_update == AutoUpdate::Prompt,
        Action::UpdateSilent => settings.auto_update == AutoUpdate::Silent,
        _ => false,
    }
}

/// The item under a rule.
pub open spec fn marked_item(item: MenuItem, rule: Marking) -> MenuItem {
    match rule {
        Marking::FromSettings(settings) => MenuItem {
            action: item.action,
            selected: shows(settings, item.action),
        },
        Marking::Single(action, value) => if item.action == action {
            MenuItem { action: item.action, selected: value }
        } else {
            item
        },
    }
}

/// The entry under a rule.
pub open spec fn marked_entry(entry: EntryView, rule: Marking) -> EntryView {
    match entry {
        EntryView::Native(n) => EntryView::Native(n),
        EntryView::Item(i) => EntryView::Item(marked_item(i, rule)),
        EntryView::Group(t, items) => EntryView::Group(
            t,
            items.map_values(|i: MenuItem| marked_item(i, rule)),
        ),
    }
}

/// The entries under a rule.
pub open spec fn marked_entries(entries: Seq<EntryView>, rule: Marking) -> Seq<EntryView> {
    entries.map_values(|e: EntryView| marked_entry(e, rule))
}

/// The submenu under a rule.
pub open spec fn marked_submenu(submenu: SubmenuView, rule: Marking) -> SubmenuView {
    SubmenuView { title: submenu.title, entries: marked_entries(submenu.entries, rule) }
}

/// The menu under a rule: the same tree, with the mark of every item decided
/// anew.
pub open spec fn marked(menu: Seq<SubmenuView>, rule: Marking) -> Seq<SubmenuView> {
    menu.map_values(|s: SubmenuView| marked_submenu(s, rule))
}

/// Whether the entry is, or holds, the item.
pub open spec fn entry_has(entry: EntryView, item: MenuItem) -> bool {
    match entry {
        EntryView::Native(_) => false,
        EntryView::Item(i) => i == item,
        EntryView::Group(_, items) => items.contains(item),
    }
}

/// Whether the item stands among the entries.
pub open spec fn entries_have(entries: Seq<EntryView>, item: MenuItem) -> bool {
    exists|j: int| 0 <= j < entries.len() && #[trigger] entry_has(entries[j], item)
}

/// Whether the item stands somewhere in the menu.
pub open spec fn has(menu: Seq<SubmenuView>, item: MenuItem) -> bool {
    exists|i: int| 0 <= i < menu.len() && #[trigger] entries_have(menu[i].entries, item)
}

/// Whether the menu has an item for the action.
pub open spec fn offers(menu: Seq<SubmenuView>, action: Action) -> bool {
    has(menu, MenuItem { action, selected: true }) || has(
        menu,
        MenuItem { action, selected: false },
    )
}

/// Whether the menu has a checked item for the action.
pub open spec fn checked(menu: Seq<SubmenuView>, action: Action) -> bool {
    has(menu, MenuItem { action, selected: true })
}

fn shows_exec(settings: &Settings, action: Action) -> (r: bool)
    ensures
        r == shows(*settings, action),
{
    match action {
        Action::StayOnTop => settings.stay_on_top,
        Action::Titlebar => settings.titlebar,
        Action::SystemTray => settings.tray,
        Action::PopupSearch => settings.popup_search,
        Action::ThemeLight => settings.theme == Theme::Light,
        Action::ThemeDark => settings.theme == Theme::Dark,
        Action::ThemeSystem => settings.theme == Theme::System,
        Action::UpdatePrompt => settings.auto_update == AutoUpdate::Prompt,
        Action::UpdateSilent => settings.auto_update == AutoUpdate::Silent,
        _ => false,
    }
}

fn mark_item(item: MenuItem, rule: &Marking) -> (r: MenuItem)
    ensures
        r == marked_item(item, *rule),
{
    match rule {
        Marking::FromSettings(settings) => MenuItem {
            action: item.action,
            selected: shows_exec(settings, item.action),
        },
        Marking::Single(action, value) => if item.action == *action {
            MenuItem { action: item.action, selected: *value }
        } else {
            item
        },
    }
}

fn mark_items(items: &Vec<MenuItem>, rule: &Marking) -> (r: Vec<MenuItem>)
    ensures
        r@ == items@.map_values(|i: MenuItem| marked_item(i, *rule)),
{
    let mut out: Vec<MenuItem> = Vec::new();
    let mut k: usize = 0;
    while k < items.len()
        invariant
            k <= items.len(),
            out@.len() == k,
            forall|n: int| 0 <= n < k ==> out@[n] == marked_item(#[trigger] items@[n], *rule),
        decreases items.len() - k,
    {
        out.push(mark_item(items[k], rule));
        k += 1;
    }
    assert(out@ =~= items@.map_values(|i: MenuItem| marked_item(i, *rule)));
    out
}

fn mark_entry(entry: &MenuEntry, rule: &Marking) -> (r: MenuEntry)
    ensures
        r@ == marked_entry(entry@, *rule),
{
    match entry {
        MenuEntry::Native(n) => MenuEntry::Native(*n),
        MenuEntry::Item(i) => MenuEntry::Item(mark_item(*i, rule)),
        MenuEntry::Group(t, items) => MenuEntry::Group(*t, mark_items(items, rule)),
    }
}

fn mark_entries(entries: &Vec<MenuEntry>, rule: &Marking) -> (r: Vec<MenuEntry>)
    ensures
        entry_views(r@) == marked_entries(entry_views(entries@), *rule),
{
    let mut out: Vec<MenuEntry> = Vec::new();
    let mut j: usize = 0;
    while j < entries.len()
        invariant
            j <= entries.len(),
            out@.len() == j,
            forall|n: int| 0 <= n < j ==> (#[trigger] out@[n])@ == marked_entry(entries@[n]@, *rule),
        decreases entries.len() - j,
    {
        out.push(mark_entry(&entries[j], rule));
        j += 1;
    }
    assert(entry_views(out@) =~= marked_entries(entry_views(entries@), *rule));
    out
}

impl Menu {
    /// The menu with the check mark of every item decided anew; the tree is
    /// the same.
    pub fn marked_by(&self, rule: &Marking) -> (r: Menu)
        ensures
            r@ == marked(self@, *rule),
    {
        let mut out: Vec<Submenu> = Vec::new();
        let mut i: usize = 0;
        while i < self.submenus.len()
            invariant
                i <= self.submenus.len(),
                out@.len() == i,
                forall|n: int| 0 <= n < i ==> (#[trigger] out@[n])@ == marked_submenu(
                    self.submenus@[n]@,
                    *rule,
                ),
            decreases self.submenus.len() - i,
        {
            let entries = mark_entries(&self.submenus[i].entries, rule);
            out.push(Submenu { title: self.submenus[i].title, entries });
            i += 1;
        }
        assert(out@.map_values(|s: Submenu| s@) =~= marked(self@, *rule));
        Menu { submenus: out }
    }

    /// Decides the check mark of every item anew; the tree stays as it is.
    pub fn mark(&mut self, rule: &Marking)
        ensures
            final(self)@ == marked(old(self)@, *rule),
    {
        let next = self.marked_by(rule);
        self.submenus = next.submenus;
    }

    /// Sets the check mark of the items of one action.
    pub fn set_selected(&mut self, action: Action, value: bool)
        ensures
            final(self)@ == marked(old(self)@, Marking::Single(action, value)),
    {
        self.mark(&Marking::Single(action, value));
    }

    /// Whether the menu has a checked item for the action.
    pub fn is_checked(&self, action: Action) -> (r: bool)
        ensures
            r == checked(self@, action),
    {
        self.holds(MenuItem { action, selected: true })
    }

    /// Whether the menu has an item for the action.
    pub fn has_item(&self, action: Action) -> (r: bool)
        ensures
            r == offers(self@, action),
    {
        self.holds(MenuItem { action, selected: true }) || self.holds(
            MenuItem { action, selected: false },
        )
    }

    /// Whether the item stands somewhere in the menu.
    pub fn holds(&self, item: MenuItem) -> (r: bool)
        ensures
            r == has(self@, item),
    {
        let mut i: usize = 0;
        while i < self.submenus.len()
            invariant
                i <= self.submenus.len(),
                forall|n: int| 0 <= n < i ==> !#[trigger] entries_have(self@[n].entries, item),
            decreases self.submenus.len() - i,
        {
            if entries_hold(&self.submenus[i].entries, item) {
                assert(entries_have(self@[i as int].entries, item));
                return true;
            }
            i += 1;
        }
        false
    }
}

fn items_hold(items: &Vec<MenuItem>, item: MenuItem) -> (r: bool)
    ensures
        r == items@.contains(item),
{
    let mut k: usize = 0;
    while k < items.len()
        invariant
            k <= items.len(),
            forall|n: int| 0 <= n < k ==> items@[n] != item,
        decreases items.len() - k,
    {
        if items[k] == item {
            return true;
        }
        k += 1;
    }
    false
}

/// Whether the item stands among the entries.
pub fn entries_hold(entries: &Vec<MenuEntry>, item: MenuItem) -> (r: bool)
    ensures
        r == entries_have(entry_views(entries@), item),
{
    let mut j: usize = 0;
    while j < entries.len()
        invariant
            j <= entries.len(),
            forall|n: int| 0 <= n < j ==> !#[trigger] entry_has(entry_views(entries@)[n], item),
        decreases entries.len() - j,
    {
        let found = match &entries[j] {
            MenuEntry::Native(_) => false,
            MenuEntry::Item(i) => *i == item,
            MenuEntry::Group(_, items) => items_hold(items, item),
        };
        if found {
            assert(entry_has(entry_views(entries@)[j as int], item));
            return true;
        }
        j += 1;
    }
    false
}

/// An item of the tree before a rule was applied gives its marked form in
/// the tree after.
pub proof fn lemma_marked_keeps(menu: Seq<SubmenuView>, rule: Marking, item: MenuItem)
    requires
        has(menu, item),
    ensures
        has(marked(menu, rule), marked_item(item, rule)),
{
    let i = choose|i: int| 0 <= i < menu.len() && #[trigger] entries_have(menu[i].entries, item);
    let entries = menu[i].entries;
    let j = choose|j: int| 0 <= j < entries.len() && #[trigger] entry_has(entries[j], item);
    let after = marked(menu, rule);
    let target = marked_item(item, rule);
    assert(after[i].entries[j] == marked_entry(entries[j], rule));
    match entries[j] {
        EntryView::Native(_) => {},
        EntryView::Item(_) => {},
        EntryView::Group(_, items) => {
            let k = choose|k: int| 0 <= k < items.len() && items[k] == item;
            let items_after = items.map_values(|i: MenuItem| marked_item(i, rule));
            assert(items_after[k] == target);
        },
    }
    assert(entry_has(after[i].entries[j], target));
    assert(entries_have(after[i].entries, target));
}

/// An item of the tree after a rule was applied is the marked form of an
/// item of the tree before, which stands for the same action.
pub proof fn lemma_marked_source(menu: Seq<SubmenuView>, rule: Marking, item: MenuItem) -> (source:
    MenuItem)
    requires
        has(marked(menu, rule), item),
    ensures
        has(menu, source),
        source.action == item.action,
        marked_item(source, rule) == item,
{
    let after = marked(menu, rule);
    let i = choose|i: int| 0 <= i < after.len() && #[trigger] entries_have(after[i].entries, item);
    let entries_after = after[i].entries;
    let j = choose|j: int|
        0 <= j < entries_after.len() && #[trigger] entry_has(entries_after[j], item);
    let entries = menu[i].entries;
    assert(entries_after[j] == marked_entry(entries[j], rule));
    let source = match entries[j] {
        EntryView::Native(_) => item,
        EntryView::Item(it) => it,
        EntryView::Group(_, items) => {
            let items_after = items.map_values(|i: MenuItem| marked_item(i, rule));
            let k = choose|k: int| 0 <= k < items_after.len() && items_after[k] == item;
            items[k]
        },
    };
    assert(entry_has(entries[j], source));
    assert(entries_have(menu[i].entries, source));
    source
}

/// Applying a rule neither adds nor removes items.
pub proof fn lemma_marked_offers(menu: Seq<SubmenuView>, rule: Marking, action: Action)
    ensures
        offers(marked(menu, rule), action) == offers(menu, action),
{
    let on = MenuItem { action, selected: true };
    let off = MenuItem { action, selected: false };
    if has(menu, on) {
        lemma_marked_keeps(menu, rule, on);
    }
    if has(menu, off) {
        lemma_marked_keeps(menu, rule, off);
    }
    if has(marked(menu, rule), on) {
        let source = lemma_marked_source(menu, rule, on);
    }
    if has(marked(menu, rule), off) {
        let source = lemma_marked_source(menu, rule, off);
    }
}

/// After the marks were taken from the settings, an action is checked
/// exactly when the menu has an item for it and the settings switch it on.
pub proof fn lemma_marked_from_settings(menu: Seq<SubmenuView>, settings: Settings, action: Action)
    ensures
        checked(marked(menu, Marking::FromSettings(settings)), action) == (offers(menu, action)
            && shows(settings, action)),
{
    let rule = Marking::FromSettings(settings);
    let on = MenuItem { action, selected: true };
    let off = MenuItem { action, selected: false };
    if has(marked(menu, rule), on) {
        let source = lemma_marked_source(menu, rule, on);
    }
    if has(menu, on) {
        lemma_marked_keeps(menu, rule, on);
    }
    if has(menu, off) {
        lemma_marked_keeps(menu, rule, off);
    }
}

/// After one action was given a mark, that action is checked exactly when
/// the menu has an item for it and the mark is set; every other action is
/// checked as before.
pub proof fn lemma_marked_single(
    menu: Seq<SubmenuView>,
    action: Action,
    value: bool,
    other: Action,
)
    ensures
        checked(marked(menu, Marking::Single(action, value)), action) == (offers(menu, action)
            && value),
        other != action ==> checked(marked(menu, Marking::Single(action, value)), other)
            == checked(menu, other),
{
    let rule = Marking::Single(action, value);
    let on = MenuItem { action, selected: true };
    let off = MenuItem { action, selected: false };
    if has(marked(menu, rule), on) {
        let source = lemma_marked_source(menu, rule, on);
    }
    if has(menu, on) {
        lemma_marked_keeps(menu, rule, on);
    }
    if has(menu, off) {
        lemma_marked_keeps(menu, rule, off);
    }
    let other_on = MenuItem { action: other, selected: true };
    if other != action {
        if has(marked(menu, rule), other_on) {
            let source = lemma_marked_source(menu, rule, other_on);
        }
        if has(menu, other_on) {
            lemma_marked_keeps(menu, rule, other_on);
        }
    }
}

} // verus!
