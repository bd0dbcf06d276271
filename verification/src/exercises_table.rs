//! The table of the exercises, with the commands to add, change and delete
//! one.

use vstd::prelude::*;
use vstd::string::*;
use crate::app_layer::{AppLayer, AppLayerView};
use crate::component::{Component, EventComponent, Reaction, TerminalEvent, focused_reaction};
use crate::entity::{ExerciseView, ID};
use crate::event_dispatcher::{Callback, KeyEventDispatcher, TermEventDispatcher};
use crate::exercise_editor::{UiExerciseEditor, UiExerciseEditorView};
use crate::layout::{Constraint, Rect};
use crate::message_box::{UiMessageBox, UiMessageBoxType, UiMessageBoxView};
use crate::model::{Db, DbView, Table, ascending};
use crate::render::{Block, BlockView, Cell, CellView, RenderFrame, RenderOp, RenderOpView, TableView, rows_view, texts};
use crate::style::{Color, Style};
use crate::tabel::{UiTable, UiTableView};
use crate::text::{decimal, to_decimal};
use crate::theme::UiTheme;
use crate::ui_events::{ControllerRequest, ControllerRequestView, UiEventSender, UiEventView, UiEvents, pending};

verus! {

/// The table of the exercises.
pub struct UiExercisesTable {
    ui_event_sender: UiEventSender,
    is_visible: bool,
    inner: UiTable<ID>,
    commands_help: &'static str,
}

/// The mathematical value of a `UiExercisesTable`.
pub ghost struct UiExercisesTableView {
    pub is_visible: bool,
    /// The table of the keys, one row for each exercise.
    pub inner: UiTableView<ID>,
    pub commands_help: Seq<char>,
}

impl View for UiExercisesTable {
    type V = UiExercisesTableView;

    closed spec fn view(&self) -> UiExercisesTableView {
        UiExercisesTableView { is_visible: self.is_visible, inner: self.inner@, commands_help: self.commands_help@ }
    }
}

/// The row of the exercise that stands at `i` in the listing: its number,
/// counted from one, in green; its name and its description in dark grey
/// and grey by turns.
pub open spec fn exercise_row(i: int, exercise: ExerciseView) -> Seq<CellView> {
    let color = if i % 2 == 0 {
        Color::DarkGray
    } else {
        Color::Gray
    };
    seq![
        CellView { text: decimal((i + 1) as nat), style: Style { fg: Some(Color::Green), bg: None, modifier: None } },
        CellView { text: exercise.name, style: Style { fg: Some(color), bg: None, modifier: None } },
        CellView { text: exercise.description, style: Style { fg: Some(color), bg: None, modifier: None } },
    ]
}

/// The rows of the exercises, in ascending order of their keys.
pub open spec fn exercise_rows(exercises: Map<ID, ExerciseView>) -> Seq<Seq<CellView>> {
    Seq::new(
        ascending(exercises.dom()).len(),
        |i: int| exercise_row(i, exercises[ascending(exercises.dom())[i]]),
    )
}

/// The question a user answers before an exercise is deleted.
pub open spec fn delete_question(name: Seq<char>) -> Seq<char> {
    "Are you sure you want to delete the entry `"@ + name + "`"@
}

impl UiExercisesTableView {
    /// A new table: shown, without rows, selection or focus, in the
    /// standard theme.
    pub open spec fn fresh() -> UiExercisesTableView {
        UiExercisesTableView {
            is_visible: true,
            inner: UiTableView {
                theme: crate::theme::UiTableTheme::standard(),
                state: crate::tabel::TableState { offset: 0, selected: None },
                values: Seq::empty(),
                is_focused: false,
            },
            commands_help: "Add[a] Delete[d] Update[u]"@,
        }
    }

    /// The table once its rows are those of the cache: one for each
    /// exercise, in ascending order of the keys. The selection stays.
    pub open spec fn synced(self, db: DbView) -> UiExercisesTableView {
        UiExercisesTableView {
            inner: UiTableView { values: ascending(db.exercises.dom()), ..self.inner },
            ..self
        }
    }

    /// The key in the selected row, if a row is selected and exists.
    pub open spec fn selected_id(self) -> Option<ID> {
        match self.inner.selected_row() {
            Some(row) => if row < self.inner.values.len() {
                Some(self.inner.values[row as int])
            } else {
                None
            },
            None => None,
        }
    }

    /// The exercise in the selected row, if a row is selected and the cache
    /// holds its exercise.
    pub open spec fn selected_exercise(self, db: DbView) -> Option<ExerciseView> {
        match self.selected_id() {
            Some(id) => if db.exercises.contains_key(id) {
                Some(db.exercises[id])
            } else {
                None
            },
            None => None,
        }
    }

    /// The table as it is drawn.
    pub open spec fn widget(self, db: DbView) -> TableView {
        TableView {
            rows: exercise_rows(db.exercises),
            header: seq!["#"@, "Name"@, "Description"@],
            header_style: self.inner.theme.header_style,
            header_margin: 1,
            style: self.inner.theme.table_style,
            block: BlockView { title: "Exercises"@, borders: true, ..BlockView::plain() },
            widths: seq![Constraint::Length(3), Constraint::Length(50), Constraint::Length(30)],
            column_spacing: 0,
            highlight_style: self.inner.theme.highlight_style,
            highlight_symbol: ">"@,
        }
    }

    /// The editor that `a` opens: new, connected to the bus.
    pub open spec fn adding() -> UiEventView {
        UiEventView::AddLayer(
            AppLayerView::ExerciseEditor(UiExerciseEditorView { sends: true, ..UiExerciseEditorView::fresh() }),
        )
    }

    /// The editor that `u` opens: connected to the bus, with the selected
    /// exercise loaded.
    pub open spec fn changing(exercise: ExerciseView) -> UiEventView {
        UiEventView::AddLayer(
            AppLayerView::ExerciseEditor(
                (UiExerciseEditorView { sends: true, ..UiExerciseEditorView::fresh() }).loaded(exercise),
            ),
        )
    }

    /// The box that `d` opens: a warning that asks whether to delete the
    /// exercise, and hands the deletion out when it is accepted.
    pub open spec fn deleting(id: ID, exercise: ExerciseView) -> UiEventView {
        UiEventView::AddLayer(
            AppLayerView::MessageBox(
                UiMessageBoxView {
                    on_accept: Some(ControllerRequestView::RemoveExercise(id)),
                    ..UiMessageBoxView::fresh("Exercises"@, delete_question(exercise.name), UiMessageBoxType::Warn)
                },
            ),
        )
    }

    /// What the table does with a character.
    pub open spec fn typed(self, c: char, db: DbView) -> Reaction<UiExercisesTableView> {
        if c == 'r' {
            Reaction {
                consumed: false,
                state: self,
                emitted: seq![UiEventView::Request(ControllerRequestView::LoadExercises)],
            }
        } else if c == 'a' {
            Reaction { consumed: true, state: self, emitted: seq![Self::adding()] }
        } else if c == 'u' {
            match self.synced(db).selected_exercise(db) {
                Some(exercise) => Reaction {
                    consumed: true,
                    state: self.synced(db),
                    emitted: seq![Self::changing(exercise)],
                },
                None => Reaction::ignored(self.synced(db)),
            }
        } else if c == 'd' {
            match self.synced(db).selected_exercise(db) {
                Some(exercise) => Reaction {
                    consumed: true,
                    state: self.synced(db),
                    emitted: seq![Self::deleting(self.synced(db).selected_id().unwrap(), exercise)],
                },
                None => Reaction::ignored(self.synced(db)),
            }
        } else {
            Reaction::ignored(self)
        }
    }
}

impl UiExercisesTable {
    /// A table that is shown, without rows, without focus.
    pub fn new() -> (table: Self)
        ensures
            table@ == UiExercisesTableView::fresh(),
    {
        Self {
            ui_event_sender: UiEventSender::new(),
            is_visible: true,
            inner: UiTable::default(),
            commands_help: "Add[a] Delete[d] Update[u]",
        }
    }

    /// The commands of the table, as the help line shows them.
    pub fn commands_help(&self) -> (help: &'static str)
        ensures
            help@ == self@.commands_help,
    {
        self.commands_help
    }

    /// Takes the rows over from the cache.
    pub fn sync(&mut self, db: &Db)
        ensures
            final(self)@ == old(self)@.synced(db@),
    {
        self.inner.clear_values();
        self.inner.set_values(db.exercises().ids());
    }

    /// The key in the selected row, if a row is selected and exists.
    pub fn selected_id(&self) -> (id: Option<ID>)
        ensures
            id == self@.selected_id(),
    {
        match self.inner.selected_row() {
            Some(row) => {
                if row < self.inner.count() {
                    match self.inner.get_value() {
                        Some(id) => Some(*id),
                        None => None,
                    }
                } else {
                    None
                }
            },
            None => None,
        }
    }

    fn on_down(&mut self, db: &Db) -> (consumed: bool)
        ensures
            consumed,
            final(self)@ == (UiExercisesTableView { inner: old(self)@.synced(db@).inner.next(), ..old(self)@ }),
    {
        self.sync(db);
        self.inner.next();
        true
    }

    fn on_up(&mut self, db: &Db) -> (consumed: bool)
        ensures
            consumed,
            final(self)@ == (UiExercisesTableView { inner: old(self)@.synced(db@).inner.previous(), ..old(self)@ }),
    {
        self.sync(db);
        self.inner.previous();
        true
    }

    fn on_char(&mut self, c: char, db: &Db, bus: &mut UiEvents) -> (consumed: bool)
        ensures
            consumed == old(self)@.typed(c, db@).consumed,
            final(self)@ == old(self)@.typed(c, db@).state,
            pending(final(bus)) == pending(old(bus)) + old(self)@.typed(c, db@).emitted,
    {
        if c == 'r' {
            self.ui_event_sender.send_request(bus, ControllerRequest::LoadExercises);
            assert(pending(bus) =~= pending(old(bus)) + old(self)@.typed(c, db@).emitted);
            false
        } else if c == 'a' {
            let mut popup = UiExerciseEditor::new();
            popup.set_ui_events_manager();
            self.ui_event_sender.send_add_layer_event(bus, AppLayer::ExerciseEditor(popup));
            assert(pending(bus) =~= pending(old(bus)) + old(self)@.typed(c, db@).emitted);
            true
        } else if c == 'u' {
            self.sync(db);
            if let Some(id) = self.selected_id() {
                if let Some(data) = db.exercises().get_one(id) {
                    let mut popup = UiExerciseEditor::new();
                    popup.set_ui_events_manager();
                    popup.load_data(data);
                    self.ui_event_sender.send_add_layer_event(bus, AppLayer::ExerciseEditor(popup));
                    assert(pending(bus) =~= pending(old(bus)) + old(self)@.typed(c, db@).emitted);
                    return true;
                }
            }
            assert(pending(bus) =~= pending(old(bus)) + old(self)@.typed(c, db@).emitted);
            false
        } else if c == 'd' {
            self.sync(db);
            if let Some(id) = self.selected_id() {
                if let Some(data) = db.exercises().get_one(id) {
                    let mut msg = "Are you sure you want to delete the entry `".to_owned();
                    msg.append(data.name.as_str());
                    msg.append("`");
                    let mut popup = UiMessageBox::warn("Exercises", msg);
                    popup.set_on_accept(ControllerRequest::RemoveExercise(id));
                    self.ui_event_sender.send_add_layer_event(bus, AppLayer::MessageBox(popup));
                    assert(pending(bus) =~= pending(old(bus)) + old(self)@.typed(c, db@).emitted);
                    return true;
                }
            }
            assert(pending(bus) =~= pending(old(bus)) + old(self)@.typed(c, db@).emitted);
            false
        } else {
            assert(pending(bus) =~= pending(old(bus)) + old(self)@.typed(c, db@).emitted);
            false
        }
    }

    /// The rows of the exercises as they are drawn.
    fn rows(db: &Db) -> (rows: Vec<Vec<Cell>>)
        ensures
            rows_view(rows@) == exercise_rows(db@.exercises),
    {
        let all = db.exercises().get_all();
        let mut rows: Vec<Vec<Cell>> = Vec::new();
        let mut i: usize = 0;
        while i < all.len()
            invariant
                i <= all@.len(),
                all@.len() == ascending(db@.exercises.dom()).len(),
                forall|k: int| 0 <= k < all@.len() ==> (#[trigger] all@[k])@ == db@.exercises[ascending(
                    db@.exercises.dom(),
                )[k]],
                rows@.len() == i,
                forall|k: int| 0 <= k < i ==> (#[trigger] rows@[k])@.map_values(|cell: Cell| cell@) == exercise_row(
                    k,
                    db@.exercises[ascending(db@.exercises.dom())[k]],
                ),
            decreases all@.len() - i,
        {
            let e = all[i];
            let color = if i % 2 == 0 {
                Color::DarkGray
            } else {
                Color::Gray
            };
            let row = vec![
                Cell { text: to_decimal((i + 1) as u64), style: Style::default().fg(Color::Green) },
                Cell { text: e.name.clone(), style: Style::default().fg(color) },
                Cell { text: e.description.clone(), style: Style::default().fg(color) },
            ];
            assert(row@.map_values(|cell: Cell| cell@) =~= exercise_row(i as int, e@));
            rows.push(row);
            i += 1;
        }
        assert(rows_view(rows@) =~= exercise_rows(db@.exercises));
        rows
    }
}

impl KeyEventDispatcher for UiExercisesTable {
    /// Down and Up take the rows over from the cache and move the
    /// selection. `r` asks for the exercises to be fetched again and is not
    /// consumed; `a` opens an editor for a new exercise; `u` opens an editor
    /// with the selected exercise and `d` a box that asks whether to delete
    /// it, both only where a row is selected and the cache holds its
    /// exercise.
    open spec fn reaction(v: UiExercisesTableView, callback: Callback, db: DbView) -> Reaction<
        UiExercisesTableView,
    > {
        match callback {
            Callback::Down => Reaction::handled(UiExercisesTableView { inner: v.synced(db).inner.next(), ..v }),
            Callback::Up => Reaction::handled(UiExercisesTableView { inner: v.synced(db).inner.previous(), ..v }),
            Callback::Char(c) => v.typed(c, db),
            _ => Reaction::ignored(v),
        }
    }

    fn on_callback(&mut self, callback: &Callback, db: &Db, bus: &mut UiEvents) -> (consumed: bool) {
        assert(pending(bus) =~= pending(bus) + Seq::<UiEventView>::empty());
        match callback {
            Callback::Down => self.on_down(db),
            Callback::Up => self.on_up(db),
            Callback::Char(c) => self.on_char(*c, db, bus),
            _ => false,
        }
    }
}

impl TermEventDispatcher for UiExercisesTable {
}

impl Component for UiExercisesTable {
    open spec fn visible(v: UiExercisesTableView) -> bool {
        v.is_visible
    }

    open spec fn with_visible(v: UiExercisesTableView, value: bool) -> UiExercisesTableView {
        UiExercisesTableView { is_visible: value, ..v }
    }

    open spec fn themed(v: UiExercisesTableView, theme: UiTheme) -> UiExercisesTableView {
        v
    }

    /// A hidden table paints nothing; a shown one paints the exercises of
    /// the cache, with the selection of the table.
    open spec fn paints(v: UiExercisesTableView, area: Rect, db: DbView, ops: Seq<RenderOpView>) -> bool {
        ops == if v.is_visible {
            seq![RenderOpView::Table { area, table: v.widget(db), state: v.inner.state }]
        } else {
            Seq::empty()
        }
    }

    fn is_visible(&self) -> (shown: bool) {
        self.is_visible
    }

    fn set_visible(&mut self, value: bool) {
        self.is_visible = value;
        assert(self@ == Self::with_visible(old(self)@, value));
        assert(Self::visible(self@) == value);
    }

    fn draw(&self, f: &mut RenderFrame, area: Rect, db: &Db) {
        if !self.is_visible {
            proof {
                let ops = Seq::<RenderOpView>::empty();
                assert(f@.ops =~= old(f)@.ops + ops);
                assert(Self::paints(self@, area, db@, ops));
            }
            return ;
        }
        let theme = *self.inner.theme();
        let header = vec!["#".to_owned(), "Name".to_owned(), "Description".to_owned()];
        assert(texts(header@) =~= seq!["#"@, "Name"@, "Description"@]);
        let widths = vec![Constraint::Length(3), Constraint::Length(50), Constraint::Length(30)];
        assert(widths@ =~= seq![Constraint::Length(3), Constraint::Length(50), Constraint::Length(30)]);
        let table = crate::render::Table {
            rows: Self::rows(db),
            header,
            header_style: theme.header_style,
            header_margin: 1,
            style: theme.table_style,
            block: Block {
                title: "Exercises".to_owned(),
                title_style: Style::default(),
                borders: true,
                style: Style::default(),
                border_style: Style::default(),
            },
            widths,
            column_spacing: 0,
            highlight_style: theme.highlight_style,
            highlight_symbol: ">".to_owned(),
        };
        f.render_widget(RenderOp::Table { area, table, state: self.inner.current_state() });
        proof {
            let ops = seq![RenderOpView::Table { area, table: self@.widget(db@), state: self@.inner.state }];
            assert(f@.ops =~= old(f)@.ops + ops);
            assert(Self::paints(self@, area, db@, ops));
        }
    }

    fn apply_theme(&mut self, theme: &UiTheme) {
    }
}

impl EventComponent for UiExercisesTable {
    /// The table has the focus when its table of keys has it.
    open spec fn focused(v: UiExercisesTableView) -> bool {
        v.inner.is_focused
    }

    open spec fn with_focus(v: UiExercisesTableView, value: bool) -> UiExercisesTableView {
        UiExercisesTableView { inner: UiTableView { is_focused: value, ..v.inner }, ..v }
    }

    open spec fn input_reaction(v: UiExercisesTableView, event: TerminalEvent, db: DbView) -> Reaction<
        UiExercisesTableView,
    > {
        focused_reaction::<Self>(v.inner.is_focused, v, event, db)
    }

    proof fn lemma_focus_sets(v: UiExercisesTableView, value: bool) {
    }

    proof fn lemma_visibility_keeps_focus(v: UiExercisesTableView, value: bool) {
    }

    fn focus(&mut self, value: bool) {
        self.inner.focus(value);
        assert(self@ == Self::with_focus(old(self)@, value));
        assert(Self::focused(self@) == value);
    }

    fn on_focus(&self) -> (focused: bool) {
        assert(Self::focused(self@) == self.inner@.is_focused);
        self.inner.on_focus()
    }

    fn on_term_event(&mut self, event: &TerminalEvent, db: &Db, bus: &mut UiEvents) -> (consumed: bool) {
        self.dispatch_when_focused(event, db, bus)
    }
}

} // verus!
