//! A row of tabs, one of which is the current one.

use vstd::prelude::*;
use vstd::string::*;
use crate::component::{Component, EventComponent, Reaction, TerminalEvent, focused_reaction};
use crate::event_dispatcher::{Callback, KeyEventDispatcher, TermEventDispatcher};
use crate::layout::Rect;
use crate::model::{Db, DbView};
use crate::render::{Block, BlockView, RenderFrame, RenderOp, RenderOpView, Tabs, TabsView, texts};
use crate::style::{Color, Modifier, Style};
use crate::text::{decimal, to_decimal};
use crate::theme::UiTheme;
use crate::ui_events::{UiEventSender, UiEventView, UiEvents, pending};

verus! {

/// A tab.
pub struct UiTab {
    name: String,
    is_focused: bool,
}

/// The mathematical value of a `UiTab`.
pub ghost struct UiTabView {
    pub name: Seq<char>,
    pub is_focused: bool,
}

impl View for UiTab {
    type V = UiTabView;

    closed spec fn view(&self) -> UiTabView {
        UiTabView { name: self.name@, is_focused: self.is_focused }
    }
}

impl UiTab {
    /// A tab without focus.
    pub fn new(name: String) -> (tab: Self)
        ensures
            tab@ == (UiTabView { name: name@, is_focused: false }),
    {
        Self { name, is_focused: false }
    }

    /// Gives the focus to the tab or takes it away.
    pub fn focus(&mut self, value: bool)
        ensures
            final(self)@ == (UiTabView { is_focused: value, ..old(self)@ }),
    {
        self.is_focused = value;
    }

    /// Whether the tab has the focus.
    pub fn on_focus(&self) -> (focused: bool)
        ensures
            focused == self@.is_focused,
    {
        self.is_focused
    }

    /// The name of the tab.
    pub fn name(&self) -> (name: &String)
        ensures
            name@ == self@.name,
    {
        &self.name
    }
}

/// A row of tabs.
pub struct UiTabs {
    tabs: Vec<UiTab>,
    current_index: usize,
    is_focused: bool,
    ui_event_sender: Option<UiEventSender>,
}

/// The mathematical value of a `UiTabs`.
pub ghost struct UiTabsView {
    pub tabs: Seq<UiTabView>,
    pub current_index: usize,
    pub is_focused: bool,
    /// Whether the tabs tell the bus when the current tab changes.
    pub sends: bool,
}

/// The mathematical values of a sequence of tabs.
pub open spec fn tab_views(tabs: Seq<UiTab>) -> Seq<UiTabView> {
    tabs.map_values(|tab: UiTab| tab@)
}

impl View for UiTabs {
    type V = UiTabsView;

    closed spec fn view(&self) -> UiTabsView {
        UiTabsView {
            tabs: tab_views(self.tabs@),
            current_index: self.current_index,
            is_focused: self.is_focused,
            sends: self.ui_event_sender is Some,
        }
    }
}

impl UiTabsView {
    /// Whether `set_current_tab(index)` changes anything: the tab exists
    /// and is not the current one.
    pub open spec fn switches(self, index: usize) -> bool {
        index < self.tabs.len() && self.current_index != index
    }

    /// The tabs after `set_current_tab(index)`: where the call changes
    /// anything, `index` is the current tab and the only one with focus.
    pub open spec fn switched(self, index: usize) -> UiTabsView {
        if self.switches(index) {
            UiTabsView {
                current_index: index,
                tabs: Seq::new(
                    self.tabs.len(),
                    |i: int| UiTabView { is_focused: i == index, ..self.tabs[i] },
                ),
                ..self
            }
        } else {
            self
        }
    }

    /// What `set_current_tab(index)` puts on the bus.
    pub open spec fn switch_emits(self, index: usize) -> Seq<UiEventView> {
        if self.switches(index) && self.sends {
            seq![UiEventView::MenuSwitched(index)]
        } else {
            Seq::empty()
        }
    }

    /// The title of the tab at `i` as it is drawn: the name and, in
    /// brackets, the number of the tab, counted from one.
    pub open spec fn title(self, i: int) -> Seq<char> {
        self.tabs[i].name + "["@ + decimal((i + 1) as nat) + "]"@
    }

    /// The tabs as they are drawn.
    pub open spec fn widget(self) -> TabsView {
        TabsView {
            titles: Seq::new(self.tabs.len(), |i: int| self.title(i)),
            block: BlockView { title: "Menu"@, borders: true, ..BlockView::plain() },
            selected: self.current_index,
            style: Style { fg: Some(Color::Cyan), bg: None, modifier: None },
            highlight_style: Style { fg: None, bg: Some(Color::Black), modifier: Some(Modifier::Bold) },
        }
    }
}

impl UiTabs {
    /// A row of the given tabs that tells the bus nothing. The first tab is
    /// the current one and has the focus; of no tabs, none is current and the
    /// index stays at 1.
    pub fn new(ui_tabs: Vec<UiTab>) -> (tabs: Self)
        ensures
            tabs@ == (UiTabsView {
                tabs: tab_views(ui_tabs@),
                current_index: 1,
                is_focused: false,
                sends: false,
            }).switched(0),
    {
        let mut s = Self { ui_event_sender: None, tabs: ui_tabs, current_index: 1, is_focused: false };
        s.select(0);
        s
    }

    /// The tab at `index`.
    pub fn tab(&self, index: usize) -> (tab: Option<&UiTab>)
        ensures
            index >= self@.tabs.len() ==> tab is None,
            index < self@.tabs.len() ==> tab is Some && tab.unwrap()@ == self@.tabs[index as int],
    {
        if index < self.tabs.len() {
            Some(&self.tabs[index])
        } else {
            None
        }
    }

    /// The current tab.
    pub fn current_tab(&self) -> (tab: &UiTab)
        requires
            self@.current_index < self@.tabs.len(),
        ensures
            tab@ == self@.tabs[self@.current_index as int],
    {
        &self.tabs[self.current_index]
    }

    /// The index of the current tab.
    pub fn current_index(&self) -> (index: usize)
        ensures
            index == self@.current_index,
    {
        self.current_index
    }

    /// Makes `index` the current tab without telling anyone, and says
    /// whether that changed anything.
    pub fn select(&mut self, index: usize) -> (switched: bool)
        ensures
            switched == old(self)@.switches(index),
            final(self)@ == old(self)@.switched(index),
    {
        if index >= self.tabs.len() || self.current_index == index {
            return false;
        }
        self.current_index = index;
        let mut at: usize = 0;
        while at < self.tabs.len()
            invariant
                at <= self.tabs@.len(),
                self.tabs@.len() == old(self).tabs@.len(),
                self.current_index == index,
                self.is_focused == old(self).is_focused,
                self.ui_event_sender == old(self).ui_event_sender,
                forall|i: int| 0 <= i < at ==> (#[trigger] self.tabs@[i])@ == (UiTabView {
                    is_focused: i == index,
                    ..old(self).tabs@[i]@
                }),
                forall|i: int| at <= i < self.tabs@.len() ==> self.tabs@[i] == old(self).tabs@[i],
            decreases self.tabs@.len() - at,
        {
            self.tabs[at].focus(at == index);
            at += 1;
        }
        assert(self@.tabs =~= old(self)@.switched(index).tabs);
        true
    }

    /// Makes `index` the current tab, gives it the focus and takes the
    /// focus from the others. A tab that does not exist, or that is current
    /// already, changes nothing.
    pub fn set_current_tab(&mut self, index: usize, bus: &mut UiEvents)
        ensures
            final(self)@ == old(self)@.switched(index),
            pending(final(bus)) == pending(old(bus)) + old(self)@.switch_emits(index),
    {
        if self.select(index) {
            if let Some(sender) = &self.ui_event_sender {
                sender.send_menu_switched_event(bus, index);
            }
        }
        assert(pending(bus) =~= pending(old(bus)) + old(self)@.switch_emits(index));
    }

    /// The number of tabs.
    pub fn tabs_count(&self) -> (n: usize)
        ensures
            n == self@.tabs.len(),
    {
        self.tabs.len()
    }

    /// Moves on to the next tab, if there is one, and gives the index of
    /// the tab that is current then.
    pub fn next(&mut self, bus: &mut UiEvents) -> (index: usize)
        ensures
            final(self)@ == if old(self)@.current_index < old(self)@.tabs.len() {
                old(self)@.switched((old(self)@.current_index + 1) as usize)
            } else {
                old(self)@
            },
            pending(final(bus)) == pending(old(bus)) + if old(self)@.current_index < old(self)@.tabs.len() {
                old(self)@.switch_emits((old(self)@.current_index + 1) as usize)
            } else {
                Seq::empty()
            },
            index == final(self)@.current_index,
    {
        let current_index = self.current_index();
        if current_index < self.tabs_count() {
            self.set_current_tab(current_index + 1, bus);
        } else {
            assert(pending(bus) =~= pending(old(bus)) + Seq::<UiEventView>::empty());
        }
        self.current_index
    }

    /// Moves back to the tab before, if there is one, and gives the index
    /// of the tab that is current then.
    pub fn prev(&mut self, bus: &mut UiEvents) -> (index: usize)
        ensures
            final(self)@ == if old(self)@.current_index > 0 {
                old(self)@.switched((old(self)@.current_index - 1) as usize)
            } else {
                old(self)@
            },
            pending(final(bus)) == pending(old(bus)) + if old(self)@.current_index > 0 {
                old(self)@.switch_emits((old(self)@.current_index - 1) as usize)
            } else {
                Seq::empty()
            },
            index == final(self)@.current_index,
    {
        let current_index = self.current_index();
        if current_index > 0 {
            self.set_current_tab(current_index - 1, bus);
        } else {
            assert(pending(bus) =~= pending(old(bus)) + Seq::<UiEventView>::empty());
        }
        self.current_index
    }

    /// The titles of the tabs as they are drawn.
    fn titles(&self) -> (titles: Vec<String>)
        ensures
            texts(titles@) == self@.widget().titles,
    {
        let mut titles: Vec<String> = Vec::new();
        let mut at: usize = 0;
        while at < self.tabs.len()
            invariant
                at <= self.tabs@.len(),
                titles@.len() == at,
                forall|i: int| 0 <= i < at ==> (#[trigger] titles@[i])@ == self@.title(i),
            decreases self.tabs@.len() - at,
        {
            let mut title = self.tabs[at].name.clone();
            title.append("[");
            title.append(to_decimal((at + 1) as u64).as_str());
            title.append("]");
            titles.push(title);
            at += 1;
        }
        assert(texts(titles@) =~= self@.widget().titles);
        titles
    }
}

impl KeyEventDispatcher for UiTabs {
    /// The tabs handle no callback.
    open spec fn reaction(v: UiTabsView, callback: Callback, db: DbView) -> Reaction<UiTabsView> {
        Reaction::ignored(v)
    }

    fn on_callback(&mut self, callback: &Callback, db: &Db, bus: &mut UiEvents) -> (consumed: bool) {
        assert(pending(bus) =~= pending(bus) + Seq::<UiEventView>::empty());
        false
    }
}

impl TermEventDispatcher for UiTabs {
}

impl Component for UiTabs {
    /// The tabs are always shown.
    open spec fn visible(v: UiTabsView) -> bool {
        true
    }

    open spec fn with_visible(v: UiTabsView, value: bool) -> UiTabsView {
        v
    }

    open spec fn themed(v: UiTabsView, theme: UiTheme) -> UiTabsView {
        v
    }

    open spec fn paints(v: UiTabsView, area: Rect, db: DbView, ops: Seq<RenderOpView>) -> bool {
        ops == seq![RenderOpView::Tabs { area, tabs: v.widget() }]
    }

    fn is_visible(&self) -> (shown: bool) {
        true
    }

    fn set_visible(&mut self, value: bool) {
    }

    fn draw(&self, f: &mut RenderFrame, area: Rect, db: &Db) {
        let tabs = Tabs {
            titles: self.titles(),
            block: Block {
                title: "Menu".to_owned(),
                title_style: Style::default(),
                borders: true,
                style: Style::default(),
                border_style: Style::default(),
            },
            selected: self.current_index(),
            style: Style::default().fg(Color::Cyan),
            highlight_style: Style::default().add_modifier(Modifier::Bold).bg(Color::Black),
        };
        f.render_widget(RenderOp::Tabs { area, tabs });
        proof {
            let ops = seq![RenderOpView::Tabs { area, tabs: self@.widget() }];
            assert(f@.ops =~= old(f)@.ops + ops);
            assert(Self::paints(self@, area, db@, ops));
        }
    }

    fn apply_theme(&mut self, theme: &UiTheme) {
    }
}

impl EventComponent for UiTabs {
    open spec fn focused(v: UiTabsView) -> bool {
        v.is_focused
    }

    open spec fn with_focus(v: UiTabsView, value: bool) -> UiTabsView {
        UiTabsView { is_focused: value, ..v }
    }

    open spec fn input_reaction(v: UiTabsView, event: TerminalEvent, db: DbView) -> Reaction<UiTabsView> {
        focused_reaction::<Self>(v.is_focused, v, event, db)
    }

    proof fn lemma_focus_sets(v: UiTabsView, value: bool) {
    }

    proof fn lemma_visibility_keeps_focus(v: UiTabsView, value: bool) {
    }

    fn focus(&mut self, value: bool) {
        self.is_focused = value;
    }

    fn on_focus(&self) -> (focused: bool) {
        self.is_focused
    }

    fn on_term_event(&mut self, event: &TerminalEvent, db: &Db, bus: &mut UiEvents) -> (consumed: bool) {
        self.dispatch_when_focused(event, db, bus)
    }
}

} // verus!
