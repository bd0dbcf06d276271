//! The menu: a row of tabs, one for each page.

use vstd::prelude::*;
use crate::component::{Component, EventComponent, Reaction, TerminalEvent};
use crate::event_dispatcher::{Callback, KeyEventDispatcher, TermEventDispatcher};
use crate::layer::Layer;
use crate::layout::Rect;
use crate::model::{Db, DbView};
use crate::render::{RenderFrame, RenderOpView};
use crate::tabs::{UiTab, UiTabView, UiTabs, UiTabsView, tab_views};
use crate::theme::UiTheme;
use crate::ui_events::{UiEventView, UiEvents, pending};

verus! {

/// The pages of the menu.
#[derive(Copy, Clone, Debug, PartialEq, Eq, Structural)]
pub enum MenuItem {
    Exercises,
    Account,
}

impl MenuItem {
    /// The index of the page's tab.
    pub open spec fn index(self) -> usize {
        match self {
            MenuItem::Exercises => 0,
            MenuItem::Account => 1,
        }
    }

    /// The index of the page's tab.
    pub fn to_index(self) -> (index: usize)
        ensures
            index == self.index(),
    {
        match self {
            MenuItem::Exercises => 0,
            MenuItem::Account => 1,
        }
    }

    /// The page of the tab with the given index.
    pub fn from_index(i: usize) -> (item: MenuItem)
        requires
            i < 2,
        ensures
            item.index() == i,
    {
        if i == 0 {
            MenuItem::Exercises
        } else {
            MenuItem::Account
        }
    }
}

/// The menu.
pub struct UiMenu {
    tabs: UiTabs,
    is_focused: bool,
}

/// The mathematical value of a `UiMenu`.
pub ghost struct UiMenuView {
    pub tabs: UiTabsView,
    pub is_focused: bool,
}

impl View for UiMenu {
    type V = UiMenuView;

    closed spec fn view(&self) -> UiMenuView {
        UiMenuView { tabs: self.tabs@, is_focused: self.is_focused }
    }
}

impl UiMenuView {
    /// A new menu: without focus, with the tabs "Exercise" and "Account",
    /// the first of them current and focused.
    pub open spec fn fresh() -> UiMenuView {
        UiMenuView {
            tabs: (UiTabsView { tabs: menu_tabs(), current_index: 1, is_focused: false, sends: false }).switched(0),
            is_focused: false,
        }
    }

    /// The page whose tab is current. A menu has one tab for each page; of
    /// tabs that hold another index, the first page counts as current.
    pub open spec fn current(self) -> MenuItem {
        if self.tabs.current_index == 1 {
            MenuItem::Account
        } else {
            MenuItem::Exercises
        }
    }

    /// The menu in which the tab of `item` is current.
    pub open spec fn at(self, item: MenuItem) -> UiMenuView {
        UiMenuView { tabs: self.tabs.switched(item.index()), ..self }
    }
}

/// The tabs of a new menu, before one of them is made current.
pub open spec fn menu_tabs() -> Seq<UiTabView> {
    seq![
        UiTabView { name: "Exercise"@, is_focused: false },
        UiTabView { name: "Account"@, is_focused: false },
    ]
}

impl UiMenu {
    /// A menu without focus, with the tabs "Exercise" and "Account", the
    /// first of them current.
    pub fn new() -> (menu: Self)
        ensures
            menu@ == UiMenuView::fresh(),
            menu@.tabs.tabs.len() == 2,
    {
        let tabs = vec![UiTab::new("Exercise".to_owned()), UiTab::new("Account".to_owned())];
        assert(tab_views(tabs@) =~= menu_tabs());
        Self { tabs: UiTabs::new(tabs), is_focused: false }
    }

    /// The tabs of the menu.
    pub fn tabs(&self) -> (tabs: &UiTabs)
        ensures
            tabs@ == self@.tabs,
    {
        &self.tabs
    }

    /// Makes the tab of `value` the current one, and tells the bus if the
    /// tabs do so.
    pub fn set_current_index(&mut self, value: MenuItem, bus: &mut UiEvents)
        ensures
            final(self)@ == old(self)@.at(value),
            pending(final(bus)) == pending(old(bus)) + old(self)@.tabs.switch_emits(value.index()),
    {
        self.tabs.set_current_tab(value.to_index(), bus)
    }

    /// Makes the tab of `value` the current one without telling anyone.
    pub fn select(&mut self, value: MenuItem)
        ensures
            final(self)@ == old(self)@.at(value),
    {
        self.tabs.select(value.to_index());
    }

    /// The page whose tab is current.
    pub fn current_index(&self) -> (item: MenuItem)
        ensures
            item == self@.current(),
    {
        if self.tabs.current_index() == 1 {
            MenuItem::Account
        } else {
            MenuItem::Exercises
        }
    }

    /// The number of tabs.
    pub fn items_count(&self) -> (n: usize)
        ensures
            n == self@.tabs.tabs.len(),
    {
        self.tabs.tabs_count()
    }
}

impl KeyEventDispatcher for UiMenu {
    /// The menu handles no callback.
    open spec fn reaction(v: UiMenuView, callback: Callback, db: DbView) -> Reaction<UiMenuView> {
        Reaction::ignored(v)
    }

    fn on_callback(&mut self, callback: &Callback, db: &Db, bus: &mut UiEvents) -> (consumed: bool) {
        assert(pending(bus) =~= pending(bus) + Seq::<UiEventView>::empty());
        false
    }
}

impl TermEventDispatcher for UiMenu {
}

impl Component for UiMenu {
    /// The menu is always shown.
    open spec fn visible(v: UiMenuView) -> bool {
        true
    }

    open spec fn with_visible(v: UiMenuView, value: bool) -> UiMenuView {
        v
    }

    open spec fn themed(v: UiMenuView, theme: UiTheme) -> UiMenuView {
        v
    }

    /// The menu is drawn as its tabs.
    open spec fn paints(v: UiMenuView, area: Rect, db: DbView, ops: Seq<RenderOpView>) -> bool {
        UiTabs::paints(v.tabs, area, db, ops)
    }

    fn is_visible(&self) -> (shown: bool) {
        true
    }

    fn set_visible(&mut self, value: bool) {
    }

    fn draw(&self, f: &mut RenderFrame, area: Rect, db: &Db) {
        self.tabs.draw(f, area, db);
        proof {
            let ops = choose|ops: Seq<RenderOpView>| #[trigger]
                UiTabs::paints(self@.tabs, area, db@, ops) && f@.ops == old(f)@.ops + ops;
            assert(Self::paints(self@, area, db@, ops));
        }
    }

    fn apply_theme(&mut self, theme: &UiTheme) {
    }
}

impl EventComponent for UiMenu {
    open spec fn focused(v: UiMenuView) -> bool {
        v.is_focused
    }

    /// The menu and its tabs get or lose the focus.
    open spec fn with_focus(v: UiMenuView, value: bool) -> UiMenuView {
        UiMenuView { is_focused: value, tabs: UiTabs::with_focus(v.tabs, value) }
    }

    /// With focus the menu hands the event to its tabs.
    open spec fn input_reaction(v: UiMenuView, event: TerminalEvent, db: DbView) -> Reaction<UiMenuView> {
        if v.is_focused {
            let answer = UiTabs::input_reaction(v.tabs, event, db);
            Reaction {
                consumed: answer.consumed,
                state: UiMenuView { tabs: answer.state, ..v },
                emitted: answer.emitted,
            }
        } else {
            Reaction::ignored(v)
        }
    }

    proof fn lemma_focus_sets(v: UiMenuView, value: bool) {
    }

    proof fn lemma_visibility_keeps_focus(v: UiMenuView, value: bool) {
    }

    fn focus(&mut self, value: bool) {
        self.is_focused = value;
        self.tabs.focus(value);
    }

    fn on_focus(&self) -> (focused: bool) {
        self.is_focused
    }

    fn on_term_event(&mut self, event: &TerminalEvent, db: &Db, bus: &mut UiEvents) -> (consumed: bool) {
        if self.on_focus() {
            return self.tabs.on_term_event(event, db, bus);
        }
        assert(pending(bus) =~= pending(bus) + Seq::<UiEventView>::empty());
        false
    }
}

/// A page of the main layer.
pub trait Page: Layer {
    /// The commands of the page, as the help line shows them.
    spec fn help(v: Self::V) -> Seq<char>;

    /// The page as it is made: shown, without focus.
    spec fn fresh() -> Self::V;

    /// A page that is shown and has no focus.
    fn new() -> (page: Self)
        ensures
            page@ == Self::fresh(),
            Self::visible(page@),
            !Self::focused(page@),
    ;

    /// The commands of the page, as the help line shows them.
    fn commands_help(&self) -> (help: &str)
        ensures
            help@ == Self::help(self@),
    ;
}

} // verus!
