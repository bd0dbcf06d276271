//! The page of the exercises.

use vstd::prelude::*;
use crate::component::{Component, EventComponent, Reaction, TerminalEvent};
use crate::event_dispatcher::{Callback, KeyEventDispatcher, TermEventDispatcher, term_reaction};
use crate::exercises_table::{UiExercisesTable, UiExercisesTableView};
use crate::layer::Layer;
use crate::layout::Rect;
use crate::menu::Page;
use crate::model::{Db, DbView};
use crate::render::{RenderFrame, RenderOpView};
use crate::theme::UiTheme;
use crate::ui_events::{UiEventDispatcher, UiEventView, UiEvents, pending};

verus! {

/// The page of the exercises: their table.
pub struct PageExercises {
    exercises_table: UiExercisesTable,
    is_visible: bool,
    is_focused: bool,
}

/// The mathematical value of a `PageExercises`.
pub ghost struct PageExercisesView {
    pub exercises_table: UiExercisesTableView,
    pub is_visible: bool,
    pub is_focused: bool,
}

impl View for PageExercises {
    type V = PageExercisesView;

    closed spec fn view(&self) -> PageExercisesView {
        PageExercisesView {
            exercises_table: self.exercises_table@,
            is_visible: self.is_visible,
            is_focused: self.is_focused,
        }
    }
}

impl KeyEventDispatcher for PageExercises {
    /// The page itself handles no callback.
    open spec fn reaction(v: PageExercisesView, callback: Callback, db: DbView) -> Reaction<PageExercisesView> {
        Reaction::ignored(v)
    }

    fn on_callback(&mut self, callback: &Callback, db: &Db, bus: &mut UiEvents) -> (consumed: bool) {
        assert(pending(bus) =~= pending(bus) + Seq::<UiEventView>::empty());
        false
    }
}

impl TermEventDispatcher for PageExercises {
}

impl UiEventDispatcher for PageExercises {
}

impl Component for PageExercises {
    open spec fn visible(v: PageExercisesView) -> bool {
        v.is_visible
    }

    open spec fn with_visible(v: PageExercisesView, value: bool) -> PageExercisesView {
        PageExercisesView { is_visible: value, ..v }
    }

    open spec fn themed(v: PageExercisesView, theme: UiTheme) -> PageExercisesView {
        v
    }

    /// A hidden page paints nothing; a shown one paints its table.
    open spec fn paints(v: PageExercisesView, area: Rect, db: DbView, ops: Seq<RenderOpView>) -> bool {
        if v.is_visible {
            UiExercisesTable::paints(v.exercises_table, area, db, ops)
        } else {
            ops == Seq::<RenderOpView>::empty()
        }
    }

    fn is_visible(&self) -> (shown: bool) {
        assert(Self::visible(self@) == self.is_visible);
        self.is_visible
    }

    fn set_visible(&mut self, value: bool) {
        self.is_visible = value;
        assert(self@ == Self::with_visible(old(self)@, value));
        assert(Self::visible(self@) == value);
    }

    fn draw(&self, f: &mut RenderFrame, area: Rect, db: &Db) {
        if !self.is_visible {
            proof {
                let ops = Seq::<RenderOpView>::empty();
                assert(f@.ops =~= old(f)@.ops + ops);
                assert(Self::paints(self@, area, db@, ops));
            }
            return ;
        }
        self.exercises_table.draw(f, area, db);
        proof {
            let ops = choose|ops: Seq<RenderOpView>| #[trigger]
                UiExercisesTable::paints(self@.exercises_table, area, db@, ops) && f@.ops == old(f)@.ops + ops;
            assert(Self::paints(self@, area, db@, ops));
        }
    }

    fn apply_theme(&mut self, theme: &UiTheme) {
        assert(self@ == Self::themed(old(self)@, *theme));
    }
}

impl EventComponent for PageExercises {
    open spec fn focused(v: PageExercisesView) -> bool {
        v.is_focused
    }

    /// The page and its table get or lose the focus.
    open spec fn with_focus(v: PageExercisesView, value: bool) -> PageExercisesView {
        PageExercisesView {
            is_focused: value,
            exercises_table: UiExercisesTable::with_focus(v.exercises_table, value),
            ..v
        }
    }

    /// With focus, the page hands the event to the dispatch protocol of
    /// its table.
    open spec fn input_reaction(v: PageExercisesView, event: TerminalEvent, db: DbView) -> Reaction<
        PageExercisesView,
    > {
        if v.is_focused {
            let answer = term_reaction::<UiExercisesTable>(v.exercises_table, event, db);
            Reaction {
                consumed: answer.consumed,
                state: PageExercisesView { exercises_table: answer.state, ..v },
                emitted: answer.emitted,
            }
        } else {
            Reaction::ignored(v)
        }
    }

    proof fn lemma_focus_sets(v: PageExercisesView, value: bool) {
    }

    proof fn lemma_visibility_keeps_focus(v: PageExercisesView, value: bool) {
    }

    fn focus(&mut self, value: bool) {
        self.is_focused = value;
        self.exercises_table.focus(value);
        assert(self@ == Self::with_focus(old(self)@, value));
        assert(Self::focused(self@) == value);
    }

    fn on_focus(&self) -> (focused: bool) {
        assert(Self::focused(self@) == self.is_focused);
        self.is_focused
    }

    fn on_term_event(&mut self, event: &TerminalEvent, db: &Db, bus: &mut UiEvents) -> (consumed: bool) {
        if self.on_focus() {
            assert(term_reaction::<Self>(self@, *event, db@) == Reaction::ignored(self@));
            if self.dispatch_term_event(event, db, bus) {
                return true;
            }
            assert(pending(bus) =~= pending(old(bus)));
            return self.exercises_table.dispatch_term_event(event, db, bus);
        }
        assert(pending(bus) =~= pending(bus) + Seq::<UiEventView>::empty());
        false
    }
}

impl Layer for PageExercises {
    /// The page is never modal.
    open spec fn modal(v: PageExercisesView) -> bool {
        false
    }

    open spec fn with_modal(v: PageExercisesView, value: bool) -> PageExercisesView {
        v
    }

    /// The page never asks to be removed.
    open spec fn remove_requested(v: PageExercisesView) -> bool {
        false
    }

    fn is_modal(&self) -> (modal: bool) {
        false
    }

    fn set_modal(&mut self, is_modal: bool) {
    }

    fn is_remove_requested(&self) -> (requested: bool) {
        false
    }
}

impl Page for PageExercises {
    /// The commands of the table while it has the focus, and nothing
    /// otherwise.
    open spec fn help(v: PageExercisesView) -> Seq<char> {
        if UiExercisesTable::focused(v.exercises_table) {
            v.exercises_table.commands_help
        } else {
            ""@
        }
    }

    open spec fn fresh() -> PageExercisesView {
        PageExercisesView { exercises_table: UiExercisesTableView::fresh(), is_visible: true, is_focused: false }
    }

    fn new() -> (page: Self) {
        let page = Self { exercises_table: UiExercisesTable::new(), is_visible: true, is_focused: false };
        assert(page@ == Self::fresh());
        assert(Self::visible(page@) && !Self::focused(page@));
        page
    }

    fn commands_help(&self) -> (help: &str) {
        assert(Self::help(self@) == if UiExercisesTable::focused(self@.exercises_table) {
            self@.exercises_table.commands_help
        } else {
            ""@
        });
        if self.exercises_table.on_focus() {
            self.exercises_table.commands_help()
        } else {
            ""
        }
    }
}

} // verus!
