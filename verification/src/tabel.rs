//! A table widget: a list of values, one of which can be selected.

use vstd::prelude::*;
use crate::component::{Component, EventComponent, Reaction, TerminalEvent, focused_reaction};
use crate::event_dispatcher::{Callback, KeyEventDispatcher, TermEventDispatcher};
use crate::layout::Rect;
use crate::model::{Db, DbView};
use crate::render::{RenderFrame, RenderOpView};
use crate::theme::{UiTableTheme, UiTheme};
use crate::ui_events::{UiEventView, UiEvents, pending};

verus! {

/// What a table remembers between two drawings: the first row shown and
/// the row selected.
#[derive(Clone, Copy, Debug, PartialEq, Eq, Structural)]
pub struct TableState {
    pub offset: usize,
    pub selected: Option<usize>,
}

impl TableState {
    /// The row selected.
    pub fn selected(&self) -> (row: Option<usize>)
        ensures
            row == self.selected,
    {
        self.selected
    }

    /// Selects a row or none. Without a selection the table shows its rows
    /// from the first.
    pub fn select(&mut self, index: Option<usize>)
        ensures
            final(self).selected == index,
            final(self).offset == if index is None {
                0
            } else {
                old(self).offset
            },
    {
        self.selected = index;
        if index.is_none() {
            self.offset = 0;
        }
    }
}

impl Default for TableState {
    fn default() -> (state: Self)
        ensures
            state == (TableState { offset: 0, selected: None }),
    {
        TableState { offset: 0, selected: None }
    }
}

/// A table of values.
pub struct UiTable<V = u64> {
    theme: UiTableTheme,
    state: TableState,
    values: Vec<V>,
    is_focused: bool,
}

/// The mathematical value of a `UiTable`.
pub ghost struct UiTableView<V> {
    pub theme: UiTableTheme,
    pub state: TableState,
    pub values: Seq<V>,
    pub is_focused: bool,
}

impl<V> View for UiTable<V> {
    type V = UiTableView<V>;

    closed spec fn view(&self) -> UiTableView<V> {
        UiTableView { theme: self.theme, state: self.state, values: self.values@, is_focused: self.is_focused }
    }
}

impl<V> UiTableView<V> {
    /// The row selected, as far as the table tells: none without focus.
    pub open spec fn selected_row(self) -> Option<usize> {
        if self.is_focused {
            self.state.selected
        } else {
            None
        }
    }

    /// The table after an attempt to select the row `index`: a row that
    /// does not exist is not selected.
    pub open spec fn select_row(self, index: usize) -> UiTableView<V> {
        if index < self.values.len() {
            UiTableView { state: TableState { selected: Some(index), ..self.state }, ..self }
        } else {
            self
        }
    }

    /// The row that follows the selection: the first row behind the last
    /// and where none is selected.
    pub open spec fn row_after(self) -> usize {
        match self.selected_row() {
            Some(i) => if i >= self.values.len() - 1 {
                0
            } else {
                (i + 1) as usize
            },
            None => 0,
        }
    }

    /// The row before the selection: the last row before the first, and the
    /// first row where none is selected.
    pub open spec fn row_before(self) -> usize {
        match self.selected_row() {
            Some(i) => if i == 0 {
                (self.values.len() - 1) as usize
            } else {
                (i - 1) as usize
            },
            None => 0,
        }
    }

    /// The table after `next`: the selection moves on by one row, around
    /// the end. An empty table and a table without focus stay as they are.
    pub open spec fn next(self) -> UiTableView<V> {
        if self.values.len() > 0 && self.is_focused {
            self.select_row(self.row_after())
        } else {
            self
        }
    }

    /// The table after `previous`: the selection moves back by one row,
    /// around the start. An empty table and a table without focus stay as
    /// they are.
    pub open spec fn previous(self) -> UiTableView<V> {
        if self.values.len() > 0 && self.is_focused {
            self.select_row(self.row_before())
        } else {
            self
        }
    }
}

impl<V> Default for UiTable<V> {
    fn default() -> (table: Self)
        ensures
            table@ == (UiTableView::<V> {
                theme: UiTableTheme::standard(),
                state: TableState { offset: 0, selected: None },
                values: Seq::empty(),
                is_focused: false,
            }),
    {
        Self { theme: UiTableTheme::default(), state: TableState::default(), values: Vec::new(), is_focused: false }
    }
}

impl<V> UiTable<V> {
    /// The styles of the table.
    pub fn theme(&self) -> (theme: &UiTableTheme)
        ensures
            *theme == self@.theme,
    {
        &self.theme
    }

    /// The state as it is.
    pub fn current_state(&self) -> (state: TableState)
        ensures
            state == self@.state,
    {
        self.state
    }

    /// The state, to change it.
    pub fn state(&mut self) -> (state: &mut TableState)
        ensures
            *state == old(self)@.state,
            final(self)@ == (UiTableView { state: *final(state), ..old(self)@ }),
    {
        &mut self.state
    }

    /// The row selected; none while the table has no focus.
    pub fn selected_row(&self) -> (row: Option<usize>)
        ensures
            row == self@.selected_row(),
    {
        if !self.is_focused {
            return None;
        }
        self.state.selected()
    }

    /// Selects the row `index` if there is such a row.
    pub fn select_row(&mut self, index: usize)
        ensures
            final(self)@ == old(self)@.select_row(index),
    {
        if index < self.count() {
            self.state.select(Some(index));
        }
    }

    /// Moves the selection on by one row.
    pub fn next(&mut self)
        ensures
            final(self)@ == old(self)@.next(),
    {
        if self.count() > 0 && self.is_focused {
            let i = match self.selected_row() {
                Some(i) => {
                    if i >= self.count() - 1 {
                        0
                    } else {
                        i + 1
                    }
                },
                None => 0,
            };
            self.select_row(i);
        }
    }

    /// Moves the selection back by one row.
    pub fn previous(&mut self)
        ensures
            final(self)@ == old(self)@.previous(),
    {
        if self.count() > 0 && self.is_focused {
            let i = match self.selected_row() {
                Some(i) => {
                    if i == 0 {
                        self.count() - 1
                    } else {
                        i - 1
                    }
                },
                None => 0,
            };
            self.select_row(i);
        }
    }

    /// The number of rows.
    pub fn count(&self) -> (n: usize)
        ensures
            n == self@.values.len(),
    {
        self.values.len()
    }

    /// The value in the selected row, if a row is selected.
    pub fn get_value(&self) -> (value: Option<&V>)
        requires
            self@.selected_row() matches Some(row) ==> row < self@.values.len(),
        ensures
            match self@.selected_row() {
                Some(row) => value == Some(&self@.values[row as int]),
                None => value is None,
            },
    {
        if let Some(row) = self.selected_row() {
            Some(&self.values[row])
        } else {
            None
        }
    }

    /// Replaces the values; the selection stays where it is.
    pub fn set_values(&mut self, values: Vec<V>)
        ensures
            final(self)@ == (UiTableView { values: values@, ..old(self)@ }),
    {
        self.values = values;
    }

    /// Drops the values; the selection stays where it is.
    pub fn clear_values(&mut self)
        ensures
            final(self)@ == (UiTableView { values: Seq::empty(), ..old(self)@ }),
    {
        self.values.clear();
    }
}

impl<V> KeyEventDispatcher for UiTable<V> {
    /// Down and Up move the selection and are consumed.
    open spec fn reaction(v: UiTableView<V>, callback: Callback, db: DbView) -> Reaction<UiTableView<V>> {
        match callback {
            Callback::Down => Reaction::handled(v.next()),
            Callback::Up => Reaction::handled(v.previous()),
            _ => Reaction::ignored(v),
        }
    }

    fn on_callback(&mut self, callback: &Callback, db: &Db, bus: &mut UiEvents) -> (consumed: bool) {
        assert(pending(bus) =~= pending(bus) + Seq::<UiEventView>::empty());
        match callback {
            Callback::Down => {
                self.next();
                true
            },
            Callback::Up => {
                self.previous();
                true
            },
            _ => false,
        }
    }
}

impl<V> TermEventDispatcher for UiTable<V> {
}

impl<V> Component for UiTable<V> {
    /// A table is always shown.
    open spec fn visible(v: UiTableView<V>) -> bool {
        true
    }

    open spec fn with_visible(v: UiTableView<V>, value: bool) -> UiTableView<V> {
        v
    }

    open spec fn themed(v: UiTableView<V>, theme: UiTheme) -> UiTableView<V> {
        UiTableView { theme: theme.table, ..v }
    }

    /// The table paints nothing itself: whoever holds it knows how a value
    /// is shown.
    open spec fn paints(v: UiTableView<V>, area: Rect, db: DbView, ops: Seq<RenderOpView>) -> bool {
        ops == Seq::<RenderOpView>::empty()
    }

    fn is_visible(&self) -> (shown: bool) {
        true
    }

    fn set_visible(&mut self, value: bool) {
    }

    fn draw(&self, f: &mut RenderFrame, area: Rect, db: &Db) {
        proof {
            let ops = Seq::<RenderOpView>::empty();
            assert(f@.ops =~= old(f)@.ops + ops);
            assert(Self::paints(self@, area, db@, ops));
        }
    }

    fn apply_theme(&mut self, theme: &UiTheme) {
        self.theme = theme.table;
        assert(self@ == Self::themed(old(self)@, *theme));
    }
}

impl<V> EventComponent for UiTable<V> {
    open spec fn focused(v: UiTableView<V>) -> bool {
        v.is_focused
    }

    open spec fn with_focus(v: UiTableView<V>, value: bool) -> UiTableView<V> {
        UiTableView { is_focused: value, ..v }
    }

    open spec fn input_reaction(v: UiTableView<V>, event: TerminalEvent, db: DbView) -> Reaction<UiTableView<V>> {
        focused_reaction::<Self>(v.is_focused, v, event, db)
    }

    proof fn lemma_focus_sets(v: UiTableView<V>, value: bool) {
    }

    proof fn lemma_visibility_keeps_focus(v: UiTableView<V>, value: bool) {
    }

    fn focus(&mut self, value: bool) {
        self.is_focused = value;
        assert(Self::focused(self@) == value);
        assert(self@ == Self::with_focus(old(self)@, value));
    }

    fn on_focus(&self) -> (focused: bool) {
        self.is_focused
    }

    fn on_term_event(&mut self, event: &TerminalEvent, db: &Db, bus: &mut UiEvents) -> (consumed: bool) {
        self.dispatch_when_focused(event, db, bus)
    }
}

} // verus!
