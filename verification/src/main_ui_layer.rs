//! The main layer: the menu, the page the menu selects, and the help line.

use vstd::prelude::*;
use vstd::string::*;
use crate::component::{Component, EventComponent, Reaction, TerminalEvent};
use crate::event_dispatcher::{Callback, KeyEventDispatcher, TermEventDispatcher, term_reaction};
use crate::footer::Footer;
use crate::layer::Layer;
use crate::layout::{Constraint, Direction, Layout, Rect, parts_view, splits};
use crate::menu::{MenuItem, Page, UiMenu, UiMenuView};
use crate::model::{Db, DbView};
use crate::page_account::{PageAccount, PageAccountView};
use crate::page_exercises::{PageExercises, PageExercisesView};
use crate::render::{RenderFrame, RenderOpView};
use crate::theme::UiTheme;
use crate::ui_events::{UiEventDispatcher, UiEventView, UiEvents, pending};

verus! {

/// The main layer.
pub struct MainUiLayer {
    is_focused: bool,
    menu: UiMenu,
    page_exercises: PageExercises,
    page_account: PageAccount,
    footer: Footer,
}

/// The mathematical value of a `MainUiLayer`.
pub ghost struct MainUiLayerView {
    pub is_focused: bool,
    pub menu: UiMenuView,
    pub page_exercises: PageExercisesView,
    pub page_account: PageAccountView,
    /// The text of the help line.
    pub footer: Seq<char>,
}

impl View for MainUiLayer {
    type V = MainUiLayerView;

    closed spec fn view(&self) -> MainUiLayerView {
        MainUiLayerView {
            is_focused: self.is_focused,
            menu: self.menu@,
            page_exercises: self.page_exercises@,
            page_account: self.page_account@,
            footer: self.footer@,
        }
    }
}

/// The value of a character as a decimal digit.
pub open spec fn digit_value(c: char) -> Option<u32> {
    if 48 <= c as u32 <= 57 {
        Some((c as u32 - 48) as u32)
    } else {
        None
    }
}

/// The value of a character as a decimal digit.
pub fn to_digit(c: char) -> (value: Option<u32>)
    ensures
        value == digit_value(c),
{
    let code = c as u32;
    if 48 <= code && code <= 57 {
        Some(code - 48)
    } else {
        None
    }
}

/// The page that the digit `c` selects: the digit `n` selects the page of
/// the `n`-th tab, counted from one, if the menu has such a tab.
pub open spec fn selected_page(tabs: nat, c: char) -> Option<MenuItem> {
    match digit_value(c) {
        Some(d) => if d > 0 && d - 1 < tabs && d - 1 < 2 {
            Some(
                if d == 1 {
                    MenuItem::Exercises
                } else {
                    MenuItem::Account
                },
            )
        } else {
            None
        },
        None => None,
    }
}

impl MainUiLayerView {
    /// A new main layer: without focus, on the page of the exercises.
    pub open spec fn fresh() -> MainUiLayerView {
        (MainUiLayerView {
            is_focused: false,
            menu: UiMenuView::fresh(),
            page_exercises: PageExercises::fresh(),
            page_account: PageAccount::fresh(),
            footer: Seq::empty(),
        }).switched(MenuItem::Exercises)
    }

    /// The commands of the page that the menu selects.
    pub open spec fn page_help(self) -> Seq<char> {
        match self.menu.current() {
            MenuItem::Exercises => PageExercises::help(self.page_exercises),
            MenuItem::Account => PageAccount::help(self.page_account),
        }
    }

    /// The layer after `switch_menu(item)`: the tab of `item` is current,
    /// its page is the only page that is shown and focused, and the help
    /// line shows the commands of that page and how to quit.
    pub open spec fn switched(self, item: MenuItem) -> MainUiLayerView {
        let menu = self.menu.at(item);
        let exercises = PageExercises::with_visible(PageExercises::with_focus(self.page_exercises, false), false);
        let account = PageAccount::with_visible(PageAccount::with_focus(self.page_account, false), false);
        let turned = match menu.current() {
            MenuItem::Exercises => MainUiLayerView {
                menu,
                page_exercises: PageExercises::with_visible(PageExercises::with_focus(exercises, true), true),
                page_account: account,
                ..self
            },
            MenuItem::Account => MainUiLayerView {
                menu,
                page_exercises: exercises,
                page_account: PageAccount::with_visible(PageAccount::with_focus(account, true), true),
                ..self
            },
        };
        MainUiLayerView { footer: turned.page_help() + " "@ + "Quit[q]"@, ..turned }
    }

    /// What the layer itself does with a character: a digit that selects a
    /// page switches to that page and is consumed.
    pub open spec fn typed(self, c: char) -> Reaction<MainUiLayerView> {
        match selected_page(self.menu.tabs.tabs.len(), c) {
            Some(item) => Reaction::handled(self.switched(item)),
            None => Reaction::ignored(self),
        }
    }

    /// What the page that the menu selects does with an event.
    pub open spec fn page_reaction(self, event: TerminalEvent, db: DbView) -> Reaction<MainUiLayerView> {
        match self.menu.current() {
            MenuItem::Exercises => {
                let answer = PageExercises::input_reaction(self.page_exercises, event, db);
                Reaction {
                    consumed: answer.consumed,
                    state: MainUiLayerView { page_exercises: answer.state, ..self },
                    emitted: answer.emitted,
                }
            },
            MenuItem::Account => {
                let answer = PageAccount::input_reaction(self.page_account, event, db);
                Reaction {
                    consumed: answer.consumed,
                    state: MainUiLayerView { page_account: answer.state, ..self },
                    emitted: answer.emitted,
                }
            },
        }
    }

    /// Whether the page that the menu selects may paint `ops` into `area`.
    pub open spec fn page_paints(self, area: Rect, db: DbView, ops: Seq<RenderOpView>) -> bool {
        match self.menu.current() {
            MenuItem::Exercises => PageExercises::paints(self.page_exercises, area, db, ops),
            MenuItem::Account => PageAccount::paints(self.page_account, area, db, ops),
        }
    }

    /// Whether `ops` is a painting of the layer into `area` when the area
    /// is divided into `parts` and the menu, the page and the help line paint
    /// `menu`, `page` and `footer`.
    pub open spec fn paints_by(
        self,
        area: Rect,
        db: DbView,
        ops: Seq<RenderOpView>,
        parts: Option<Seq<Rect>>,
        menu: Seq<RenderOpView>,
        page: Seq<RenderOpView>,
        footer: Seq<RenderOpView>,
    ) -> bool {
        &&& splits(Direction::Vertical, 1, main_rows(), area, parts)
        &&& match parts {
            None => ops == Seq::<RenderOpView>::empty(),
            Some(parts) => {
                &&& UiMenu::paints(self.menu, parts[0], db, menu)
                &&& self.page_paints(parts[1], db, page)
                &&& Footer::paints(self.footer, parts[2], db, footer)
                &&& ops == menu + page + footer
            },
        }
    }
}

/// The rows of the main layer: the menu, the page, the help line.
pub open spec fn main_rows() -> Seq<Constraint> {
    seq![Constraint::Length(3), Constraint::Min(10), Constraint::Length(3)]
}

impl MainUiLayer {
    /// The main layer, without focus, on the page of the exercises.
    pub fn new() -> (layer: Self)
        ensures
            layer@ == MainUiLayerView::fresh(),
    {
        let mut s = Self {
            is_focused: false,
            menu: UiMenu::new(),
            page_exercises: PageExercises::new(),
            page_account: PageAccount::new(),
            footer: Footer::default(),
        };
        s.switch_menu(MenuItem::Exercises);
        s
    }

    /// Switches to the page `item`.
    pub fn switch_menu(&mut self, item: MenuItem)
        ensures
            final(self)@ == old(self)@.switched(item),
    {
        self.menu.select(item);
        self.page_exercises.focus(false);
        self.page_exercises.set_visible(false);
        self.page_account.focus(false);
        self.page_account.set_visible(false);
        let mut help = String::new();
        match self.menu.current_index() {
            MenuItem::Exercises => {
                self.page_exercises.focus(true);
                self.page_exercises.set_visible(true);
                help.append(self.page_exercises.commands_help());
            },
            MenuItem::Account => {
                self.page_account.focus(true);
                self.page_account.set_visible(true);
                help.append(self.page_account.commands_help());
            },
        }
        help.append(" ");
        help.append("Quit[q]");
        assert(help@ =~= self@.page_help() + " "@ + "Quit[q]"@);
        self.footer.content = help;
    }

    fn on_char(&mut self, c: char) -> (consumed: bool)
        ensures
            consumed == old(self)@.typed(c).consumed,
            final(self)@ == old(self)@.typed(c).state,
    {
        if let Some(index) = to_digit(c) {
            if index > 0 {
                let index = (index - 1) as usize;
                if index < self.menu.items_count() && index < 2 {
                    self.switch_menu(MenuItem::from_index(index));
                    return true;
                }
            }
        }
        false
    }
}

impl KeyEventDispatcher for MainUiLayer {
    /// A digit that selects a page switches to it; the layer itself
    /// handles nothing else.
    open spec fn reaction(v: MainUiLayerView, callback: Callback, db: DbView) -> Reaction<MainUiLayerView> {
        match callback {
            Callback::Char(c) => v.typed(c),
            _ => Reaction::ignored(v),
        }
    }

    fn on_callback(&mut self, callback: &Callback, db: &Db, bus: &mut UiEvents) -> (consumed: bool) {
        assert(pending(bus) =~= pending(bus) + Seq::<UiEventView>::empty());
        match callback {
            Callback::Char(c) => self.on_char(*c),
            _ => false,
        }
    }
}

impl TermEventDispatcher for MainUiLayer {
}

impl UiEventDispatcher for MainUiLayer {
}

impl Component for MainUiLayer {
    /// The main layer is always shown.
    open spec fn visible(v: MainUiLayerView) -> bool {
        true
    }

    open spec fn with_visible(v: MainUiLayerView, value: bool) -> MainUiLayerView {
        v
    }

    open spec fn themed(v: MainUiLayerView, theme: UiTheme) -> MainUiLayerView {
        v
    }

    /// The menu, the page that the menu selects and the help line, one
    /// below the other inside a margin; or nothing where the area cannot be
    /// divided.
    open spec fn paints(v: MainUiLayerView, area: Rect, db: DbView, ops: Seq<RenderOpView>) -> bool {
        exists|
            parts: Option<Seq<Rect>>,
            menu: Seq<RenderOpView>,
            page: Seq<RenderOpView>,
            footer: Seq<RenderOpView>,
        | #[trigger]
            v.paints_by(area, db, ops, parts, menu, page, footer)
    }

    fn is_visible(&self) -> (shown: bool) {
        true
    }

    fn set_visible(&mut self, value: bool) {
    }

    fn draw(&self, f: &mut RenderFrame, area: Rect, db: &Db) {
        let chunks = Layout::default().direction(Direction::Vertical).margin(1).constraints(
            vec![Constraint::Length(3), Constraint::Min(10), Constraint::Length(3)],
        ).split(area);
        let ghost parts = parts_view(chunks);
        match chunks {
            None => {
                proof {
                    let ops = Seq::<RenderOpView>::empty();
                    assert(f@.ops =~= old(f)@.ops + ops);
                    assert(self@.paints_by(area, db@, ops, parts, ops, ops, ops));
                    assert(Self::paints(self@, area, db@, ops));
                }
            },
            Some(chunks) => {
                self.menu.draw(f, chunks[0], db);
                let ghost after_menu = f@.ops;
                let ghost menu = choose|ops: Seq<RenderOpView>| #[trigger]
                    UiMenu::paints(self@.menu, chunks@[0], db@, ops) && f@.ops == old(f)@.ops + ops;
                match self.menu.current_index() {
                    MenuItem::Exercises => self.page_exercises.draw(f, chunks[1], db),
                    MenuItem::Account => self.page_account.draw(f, chunks[1], db),
                }
                let ghost after_page = f@.ops;
                let ghost page = choose|ops: Seq<RenderOpView>| #[trigger]
                    self@.page_paints(chunks@[1], db@, ops) && after_page == after_menu + ops;
                proof {
                    match self@.menu.current() {
                        MenuItem::Exercises => {
                            let ops = choose|ops: Seq<RenderOpView>| #[trigger]
                                PageExercises::paints(self@.page_exercises, chunks@[1], db@, ops) && after_page
                                    == after_menu + ops;
                            assert(self@.page_paints(chunks@[1], db@, ops));
                        },
                        MenuItem::Account => {
                            let ops = choose|ops: Seq<RenderOpView>| #[trigger]
                                PageAccount::paints(self@.page_account, chunks@[1], db@, ops) && after_page
                                    == after_menu + ops;
                            assert(self@.page_paints(chunks@[1], db@, ops));
                        },
                    }
                }
                self.footer.draw(f, chunks[2], db);
                proof {
                    let footer = choose|ops: Seq<RenderOpView>| #[trigger]
                        Footer::paints(self@.footer, chunks@[2], db@, ops) && f@.ops == after_page + ops;
                    let ops = menu + page + footer;
                    assert(f@.ops =~= old(f)@.ops + ops);
                    assert(self@.paints_by(area, db@, ops, parts, menu, page, footer));
                    assert(Self::paints(self@, area, db@, ops));
                }
            },
        }
    }

    fn apply_theme(&mut self, theme: &UiTheme) {
    }
}

impl EventComponent for MainUiLayer {
    open spec fn focused(v: MainUiLayerView) -> bool {
        v.is_focused
    }

    /// With the focus, the layer switches to the page of the exercises;
    /// without it, no page has the focus and the help line is empty.
    open spec fn with_focus(v: MainUiLayerView, value: bool) -> MainUiLayerView {
        let turned = MainUiLayerView { is_focused: value, menu: UiMenu::with_focus(v.menu, value), ..v };
        if value {
            turned.switched(MenuItem::Exercises)
        } else {
            MainUiLayerView {
                page_exercises: PageExercises::with_focus(v.page_exercises, false),
                page_account: PageAccount::with_focus(v.page_account, false),
                footer: Seq::empty(),
                ..turned
            }
        }
    }

    /// With focus, the layer hands the event to its own dispatch protocol
    /// and, if that does not consume it, to the page that the menu selects.
    open spec fn input_reaction(v: MainUiLayerView, event: TerminalEvent, db: DbView) -> Reaction<
        MainUiLayerView,
    > {
        if !v.is_focused {
            Reaction::ignored(v)
        } else {
            let own = term_reaction::<Self>(v, event, db);
            if own.consumed {
                own
            } else {
                let page = own.state.page_reaction(event, db);
                Reaction { consumed: page.consumed, state: page.state, emitted: own.emitted + page.emitted }
            }
        }
    }

    proof fn lemma_focus_sets(v: MainUiLayerView, value: bool) {
    }

    proof fn lemma_visibility_keeps_focus(v: MainUiLayerView, value: bool) {
    }

    fn focus(&mut self, value: bool) {
        self.is_focused = value;
        self.menu.focus(value);
        if !value {
            self.page_exercises.focus(false);
            self.page_account.focus(false);
            self.footer.content = String::new();
        } else {
            self.switch_menu(MenuItem::Exercises);
        }
        assert(self@ == Self::with_focus(old(self)@, value));
        assert(Self::focused(self@) == value);
    }

    fn on_focus(&self) -> (focused: bool) {
        assert(Self::focused(self@) == self.is_focused);
        self.is_focused
    }

    fn on_term_event(&mut self, event: &TerminalEvent, db: &Db, bus: &mut UiEvents) -> (consumed: bool) {
        if !self.on_focus() {
            assert(pending(bus) =~= pending(bus) + Seq::<UiEventView>::empty());
            return false;
        }
        let ghost own = term_reaction::<Self>(self@, *event, db@);
        let event_consumed = self.dispatch_term_event(event, db, bus);
        if event_consumed {
            return true;
        }
        let ghost page = own.state.page_reaction(*event, db@);
        let consumed = match self.menu.current_index() {
            MenuItem::Exercises => self.page_exercises.on_term_event(event, db, bus),
            MenuItem::Account => self.page_account.on_term_event(event, db, bus),
        };
        assert(pending(bus) =~= pending(old(bus)) + (own.emitted + page.emitted));
        consumed
    }
}

impl Layer for MainUiLayer {
    /// The main layer is never modal.
    open spec fn modal(v: MainUiLayerView) -> bool {
        false
    }

    open spec fn with_modal(v: MainUiLayerView, value: bool) -> MainUiLayerView {
        v
    }

    /// The main layer never asks to be removed.
    open spec fn remove_requested(v: MainUiLayerView) -> bool {
        false
    }

    fn is_modal(&self) -> (modal: bool) {
        false
    }

    fn set_modal(&mut self, is_modal: bool) {
    }

    fn is_remove_requested(&self) -> (requested: bool) {
        false
    }
}

} // verus!
