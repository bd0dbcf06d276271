//! The popup that edits one exercise.

use vstd::prelude::*;
use vstd::string::*;
use crate::app_layer::{AppLayer, AppLayerView};
use crate::message_box::{UiMessageBox, UiMessageBoxType, UiMessageBoxView};
use crate::component::{Component, EventComponent, Reaction, TerminalEvent};
use crate::entity::{Exercise, ExerciseView, ID};
use crate::event_dispatcher::{Callback, KeyEventDispatcher, TermEventDispatcher, term_reaction};
use crate::layer::Layer;
use crate::layout::{Constraint, Direction, Layout, Rect, parts_view, splits};
use crate::model::{Db, DbView};
use crate::render::{Block, BlockView, RenderFrame, RenderOp, RenderOpView};
use crate::style::Style;
use crate::text_edit::{TextEdit, TextEditView};
use crate::theme::{UiTextEditTheme, UiTheme};
use crate::ui_events::{ControllerRequest, ControllerRequestView, UiEventDispatcher, UiEventSender, UiEventView, UiEvents, pending};
use crate::utils::{centered_rect, centers};
use crate::validators::{StrValidator, Validator};

verus! {

/// The popup that edits one exercise: a field for the name above a field
/// for the description. It is a modal layer.
pub struct UiExerciseEditor {
    id: ID,
    name_editor: TextEdit<StrValidator>,
    description_editor: TextEdit<StrValidator>,
    to_insert: bool,
    ui_event_sender: Option<UiEventSender>,
    is_focused: bool,
    is_visible: bool,
    is_removing_needed: bool,
}

/// The mathematical value of a `UiExerciseEditor`.
pub ghost struct UiExerciseEditorView {
    pub id: ID,
    pub name_editor: TextEditView<StrValidator>,
    pub description_editor: TextEditView<StrValidator>,
    /// Whether the exercise is new, to be stored beside the others, or an
    /// existing one, to be replaced.
    pub to_insert: bool,
    /// Whether the editor is connected to the bus.
    pub sends: bool,
    pub is_focused: bool,
    pub is_visible: bool,
    pub is_removing_needed: bool,
}

impl View for UiExerciseEditor {
    type V = UiExerciseEditorView;

    closed spec fn view(&self) -> UiExerciseEditorView {
        UiExerciseEditorView {
            id: self.id,
            name_editor: self.name_editor@,
            description_editor: self.description_editor@,
            to_insert: self.to_insert,
            sends: self.ui_event_sender is Some,
            is_focused: self.is_focused,
            is_visible: self.is_visible,
            is_removing_needed: self.is_removing_needed,
        }
    }
}

/// The field for the name of a new editor: up to 100 bytes, not empty.
pub open spec fn name_field() -> TextEditView<StrValidator> {
    TextEditView {
        title: "Name:"@,
        text: Seq::empty(),
        theme: UiTextEditTheme::standard(),
        is_focused: false,
        is_edit_enabled: true,
        validator: StrValidator { min_length: 0, max_length: 100 },
    }
}

/// The field for the description of a new editor: any text but the empty
/// one.
pub open spec fn description_field() -> TextEditView<StrValidator> {
    TextEditView {
        title: "Description: "@,
        text: Seq::empty(),
        theme: UiTextEditTheme::standard(),
        is_focused: false,
        is_edit_enabled: true,
        validator: StrValidator { min_length: 0, max_length: (usize::MAX - 1) as usize },
    }
}

impl UiExerciseEditorView {
    /// A new editor: empty, for a new exercise, focused and shown, not
    /// connected to the bus.
    pub open spec fn fresh() -> UiExerciseEditorView {
        UiExerciseEditorView {
            id: 0,
            name_editor: name_field(),
            description_editor: description_field(),
            to_insert: true,
            sends: false,
            is_focused: true,
            is_visible: true,
            is_removing_needed: false,
        }
    }

    /// The exercise as the editor holds it.
    pub open spec fn data(self) -> ExerciseView {
        ExerciseView { id: self.id, name: self.name_editor.text, description: self.description_editor.text }
    }

    /// The editor once `data` is loaded into it, to replace that exercise.
    pub open spec fn loaded(self, data: ExerciseView) -> UiExerciseEditorView {
        UiExerciseEditorView {
            to_insert: false,
            id: data.id,
            name_editor: TextEditView { text: data.name, ..self.name_editor },
            description_editor: TextEditView { text: data.description, ..self.description_editor },
            ..self
        }
    }

    /// The editor once it asked to be removed: hidden, too.
    pub open spec fn closed(self) -> UiExerciseEditorView {
        UiExerciseEditorView { is_visible: false, is_removing_needed: true, ..self }
    }

    /// The editor after Tab or BackTab: the focus is on the other field.
    /// Where neither field has it, the name gets it.
    pub open spec fn toggled(self) -> UiExerciseEditorView {
        UiExerciseEditorView {
            description_editor: TextEditView {
                is_focused: self.name_editor.is_focused,
                ..self.description_editor
            },
            name_editor: TextEditView { is_focused: !self.name_editor.is_focused, ..self.name_editor },
            ..self
        }
    }

    /// Whether both fields meet their rules.
    pub open spec fn valid(self) -> bool {
        self.name_editor.verdict() is Ok && self.description_editor.verdict() is Ok
    }

    /// The work that Enter hands out: store the exercise, as a new one or
    /// in place of the one loaded.
    pub open spec fn request(self) -> ControllerRequestView {
        if self.to_insert {
            ControllerRequestView::InsertExercise(self.data())
        } else {
            ControllerRequestView::UpdateExercise(self.data())
        }
    }

    /// What the editor does when it learns how storing the exercise went:
    /// it closes after a success and stays open after a failure. An editor
    /// that is connected to the bus then asks for a box with the error on
    /// top of it.
    pub open spec fn replied(self, outcome: Result<(), Seq<char>>) -> Reaction<UiExerciseEditorView> {
        match outcome {
            Ok(_) => Reaction::handled(self.closed()),
            Err(error) => Reaction {
                consumed: true,
                state: self,
                emitted: if self.sends {
                    seq![
                        UiEventView::AddLayer(
                            AppLayerView::MessageBox(
                                UiMessageBoxView::fresh(
                                    "Exercises"@,
                                    "Can`t insert exercise:\n"@ + error,
                                    UiMessageBoxType::Error,
                                ),
                            ),
                        ),
                    ]
                } else {
                    Seq::empty()
                },
            },
        }
    }

    /// The box around the two fields.
    pub open spec fn block() -> BlockView {
        BlockView {
            title: "Exercise;  -> Commands(Exit: [q], Reject: [ESC], Accept: [ENTER])"@,
            borders: true,
            ..BlockView::plain()
        }
    }

    /// The painting of the editor into `frame`, the fields in `name` and
    /// `description`.
    pub open spec fn painting(self, frame: Rect, name: Rect, description: Rect) -> Seq<RenderOpView> {
        seq![
            RenderOpView::Clear { area: frame },
            RenderOpView::Block { area: frame, block: Self::block() },
            RenderOpView::Paragraph { area: name, paragraph: self.name_editor.paragraph() },
            RenderOpView::Paragraph { area: description, paragraph: self.description_editor.paragraph() },
        ]
    }

    /// What the editor itself does with a callback that neither field took.
    pub open spec fn own_reaction(self, callback: Callback) -> Reaction<UiExerciseEditorView> {
        match callback {
            Callback::Tab => Reaction::handled(self.toggled()),
            Callback::BackTab => Reaction::handled(self.toggled()),
            Callback::Enter => if self.valid() {
                Reaction { consumed: true, state: self, emitted: seq![UiEventView::Request(self.request())] }
            } else {
                Reaction::ignored(self)
            },
            Callback::Esc => Reaction::handled(self.closed()),
            Callback::Char(c) => Reaction::handled(
                if c == 'q' {
                    self.closed()
                } else {
                    self
                },
            ),
            _ => Reaction::ignored(self),
        }
    }
}

/// The mathematical value of the outcome of a piece of work: done, or
/// failed with a message.
pub open spec fn outcome_view(outcome: &Result<(), String>) -> Result<(), Seq<char>> {
    match outcome {
        Ok(_) => Ok(()),
        Err(error) => Err(error@),
    }
}

/// The rows an editor divides its frame into: border, fields, border.
pub open spec fn editor_rows() -> Seq<Constraint> {
    seq![Constraint::Length(1), Constraint::Min(2), Constraint::Length(1)]
}

/// The columns an editor divides its middle row into: border, fields,
/// border.
pub open spec fn editor_columns() -> Seq<Constraint> {
    seq![Constraint::Length(1), Constraint::Min(0), Constraint::Length(1)]
}

/// The two fields, one above the other.
pub open spec fn editor_fields() -> Seq<Constraint> {
    seq![Constraint::Min(3), Constraint::Min(6)]
}

/// Whether `place` is an outcome of laying an editor out in `area` when
/// the divisions come out as given: the frame in the middle of the area and
/// the room for each field; or nothing where one of the divisions cannot be
/// made.
pub open spec fn editor_layout_by(
    area: Rect,
    place: Option<(Rect, Rect, Rect)>,
    frame: Option<Rect>,
    rows: Option<Seq<Rect>>,
    columns: Option<Seq<Rect>>,
    fields: Option<Seq<Rect>>,
) -> bool {
    &&& centers(50, 50, area, frame)
    &&& match frame {
        None => place is None,
        Some(frame) => {
            &&& splits(Direction::Vertical, 0, editor_rows(), frame, rows)
            &&& match rows {
                None => place is None,
                Some(rows) => {
                    &&& splits(Direction::Horizontal, 0, editor_columns(), rows[1], columns)
                    &&& match columns {
                        None => place is None,
                        Some(columns) => {
                            &&& splits(Direction::Vertical, 0, editor_fields(), columns[1], fields)
                            &&& match fields {
                                None => place is None,
                                Some(fields) => place == Some((frame, fields[0], fields[1])),
                            }
                        },
                    }
                },
            }
        },
    }
}

/// Whether `place` is an outcome of laying an editor out in `area`.
pub open spec fn editor_layout(area: Rect, place: Option<(Rect, Rect, Rect)>) -> bool {
    exists|
        frame: Option<Rect>,
        rows: Option<Seq<Rect>>,
        columns: Option<Seq<Rect>>,
        fields: Option<Seq<Rect>>,
    | #[trigger]
        editor_layout_by(area, place, frame, rows, columns, fields)
}

impl UiExerciseEditor {
    /// An empty editor for a new exercise: focused and shown, its fields
    /// without focus, not connected to the bus.
    pub fn new() -> (editor: Self)
        ensures
            editor@ == UiExerciseEditorView::fresh(),
    {
        Self {
            id: 0,
            name_editor: TextEdit::new("Name:", String::new(), StrValidator::new(0, 100)),
            description_editor: TextEdit::new("Description: ", String::new(), StrValidator::default()),
            to_insert: true,
            ui_event_sender: None,
            is_focused: true,
            is_visible: true,
            is_removing_needed: false,
        }
    }

    /// The exercise as the editor holds it.
    pub fn data(&self) -> (data: Exercise)
        ensures
            data@ == self@.data(),
    {
        Exercise::new(self.id, self.name_editor.text().clone(), self.description_editor.text().clone())
    }

    /// Loads an exercise into the editor, to replace it.
    pub fn load_data(&mut self, data: &Exercise)
        ensures
            final(self)@ == old(self)@.loaded(data@),
    {
        self.to_insert = false;
        self.id = data.id;
        self.name_editor.set_text(data.name.clone());
        self.description_editor.set_text(data.description.clone());
    }

    /// Connects the editor to the bus.
    pub fn set_ui_events_manager(&mut self)
        ensures
            final(self)@ == (UiExerciseEditorView { sends: true, ..old(self)@ }),
    {
        self.ui_event_sender = Some(UiEventSender::new());
    }

    /// Asks for the editor to be removed, and hides it.
    pub fn close(&mut self)
        ensures
            final(self)@ == old(self)@.closed(),
    {
        self.set_visible(false);
        self.is_removing_needed = true;
    }

    fn on_tab(&mut self) -> (consumed: bool)
        ensures
            consumed,
            final(self)@ == old(self)@.toggled(),
    {
        let is_name_focused = self.name_editor.on_focus();
        self.description_editor.focus(is_name_focused);
        self.name_editor.focus(!is_name_focused);
        true
    }

    fn on_back_tab(&mut self) -> (consumed: bool)
        ensures
            consumed,
            final(self)@ == old(self)@.toggled(),
    {
        let is_name_focused = self.name_editor.on_focus();
        self.description_editor.focus(is_name_focused);
        self.name_editor.focus(!is_name_focused);
        true
    }

    fn on_enter(&mut self, bus: &mut UiEvents) -> (consumed: bool)
        ensures
            consumed == old(self)@.valid(),
            final(self)@ == old(self)@,
            pending(final(bus)) == pending(old(bus)) + old(self)@.own_reaction(Callback::Enter).emitted,
    {
        if !self.name_editor.is_valid() || !self.description_editor.is_valid() {
            assert(pending(bus) =~= pending(bus) + Seq::<UiEventView>::empty());
            return false;
        }
        let request = if self.to_insert {
            ControllerRequest::InsertExercise(self.data())
        } else {
            ControllerRequest::UpdateExercise(self.data())
        };
        UiEventSender::new().send_request(bus, request);
        assert(pending(bus) =~= pending(old(bus)) + seq![UiEventView::Request(self@.request())]);
        true
    }

    /// Tells the editor how storing the exercise went.
    pub fn on_reply(&mut self, outcome: &Result<(), String>, bus: &mut UiEvents)
        ensures
            final(self)@ == old(self)@.replied(outcome_view(outcome)).state,
            pending(final(bus)) == pending(old(bus)) + old(self)@.replied(outcome_view(outcome)).emitted,
    {
        match outcome {
            Err(error) => {
                if let Some(sender) = &self.ui_event_sender {
                    let mut text = "Can`t insert exercise:\n".to_owned();
                    text.append(error.as_str());
                    sender.send_add_layer_event(bus, AppLayer::MessageBox(UiMessageBox::err("Exercises", text)));
                }
            },
            Ok(_) => {
                self.close();
            },
        }
        assert(pending(bus) =~= pending(old(bus)) + old(self)@.replied(outcome_view(outcome)).emitted);
    }

    fn on_esc(&mut self) -> (consumed: bool)
        ensures
            consumed,
            final(self)@ == old(self)@.closed(),
    {
        self.close();
        true
    }

    fn on_char(&mut self, c: char) -> (consumed: bool)
        ensures
            consumed,
            final(self)@ == if c == 'q' {
                old(self)@.closed()
            } else {
                old(self)@
            },
    {
        if c == 'q' {
            self.close();
        }
        true
    }

    /// Lays the editor out in `area`: the frame and the room for each of
    /// the two fields.
    pub fn layout(area: Rect) -> (place: Option<(Rect, Rect, Rect)>)
        ensures
            editor_layout(area, place),
    {
        let frame = centered_rect(50, 50, area);
        let outer = match frame {
            None => {
                assert(editor_layout_by(area, None, frame, None, None, None));
                return None;
            },
            Some(outer) => outer,
        };
        let rows = Layout::default().direction(Direction::Vertical).constraints(
            vec![Constraint::Length(1), Constraint::Min(2), Constraint::Length(1)],
        ).split(outer);
        let ghost rows_view = parts_view(rows);
        let rows = match rows {
            None => {
                assert(editor_layout_by(area, None, frame, rows_view, None, None));
                return None;
            },
            Some(rows) => rows,
        };
        let columns = Layout::default().direction(Direction::Horizontal).constraints(
            vec![Constraint::Length(1), Constraint::Min(0), Constraint::Length(1)],
        ).split(rows[1]);
        let ghost columns_view = parts_view(columns);
        let columns = match columns {
            None => {
                assert(editor_layout_by(area, None, frame, rows_view, columns_view, None));
                return None;
            },
            Some(columns) => columns,
        };
        let fields = Layout::default().direction(Direction::Vertical).constraints(
            vec![Constraint::Min(3), Constraint::Min(6)],
        ).split(columns[1]);
        let ghost fields_view = parts_view(fields);
        let place = match fields {
            None => None,
            Some(fields) => Some((outer, fields[0], fields[1])),
        };
        assert(editor_layout_by(area, place, frame, rows_view, columns_view, fields_view));
        place
    }

    /// Paints the editor into `frame`, the fields into `name` and
    /// `description`.
    pub fn paint(&self, f: &mut RenderFrame, frame: Rect, name: Rect, description: Rect, db: &Db)
        ensures
            final(f)@.size == old(f)@.size,
            final(f)@.ops == old(f)@.ops + self@.painting(frame, name, description),
    {
        let block = Block {
            title: "Exercise;  -> Commands(Exit: [q], Reject: [ESC], Accept: [ENTER])".to_owned(),
            title_style: Style::default(),
            borders: true,
            style: Style::default(),
            border_style: Style::default(),
        };
        f.render_widget(RenderOp::Clear { area: frame });
        f.render_widget(RenderOp::Block { area: frame, block });
        self.name_editor.draw(f, name, db);
        self.description_editor.draw(f, description, db);
        assert(f@.ops =~= old(f)@.ops + self@.painting(frame, name, description));
    }
}

impl KeyEventDispatcher for UiExerciseEditor {
    /// Tab and BackTab move the focus to the other field; Enter hands the
    /// exercise out to be stored if both fields are valid, and is not
    /// consumed otherwise; Escape and `q` close the editor; every other
    /// character is swallowed.
    open spec fn reaction(v: UiExerciseEditorView, callback: Callback, db: DbView) -> Reaction<
        UiExerciseEditorView,
    > {
        v.own_reaction(callback)
    }

    fn on_callback(&mut self, callback: &Callback, db: &Db, bus: &mut UiEvents) -> (consumed: bool) {
        assert(pending(bus) =~= pending(bus) + Seq::<UiEventView>::empty());
        match callback {
            Callback::Tab => self.on_tab(),
            Callback::BackTab => self.on_back_tab(),
            Callback::Enter => self.on_enter(bus),
            Callback::Esc => self.on_esc(),
            Callback::Char(c) => self.on_char(*c),
            _ => false,
        }
    }
}

impl TermEventDispatcher for UiExerciseEditor {
}

impl UiEventDispatcher for UiExerciseEditor {
}

impl Component for UiExerciseEditor {
    open spec fn visible(v: UiExerciseEditorView) -> bool {
        v.is_visible
    }

    open spec fn with_visible(v: UiExerciseEditorView, value: bool) -> UiExerciseEditorView {
        UiExerciseEditorView { is_visible: value, ..v }
    }

    open spec fn themed(v: UiExerciseEditorView, theme: UiTheme) -> UiExerciseEditorView {
        v
    }

    /// A hidden editor paints nothing; a shown one paints itself in the
    /// middle of the area, or nothing where the area cannot be divided.
    open spec fn paints(v: UiExerciseEditorView, area: Rect, db: DbView, ops: Seq<RenderOpView>) -> bool {
        if !v.is_visible {
            ops == Seq::<RenderOpView>::empty()
        } else {
            exists|place: Option<(Rect, Rect, Rect)>| #[trigger]
                editor_layout(area, place) && ops == match place {
                    Some((frame, name, description)) => v.painting(frame, name, description),
                    None => Seq::empty(),
                }
        }
    }

    fn is_visible(&self) -> (shown: bool) {
        self.is_visible
    }

    fn set_visible(&mut self, value: bool) {
        self.is_visible = value;
        assert(self@ == Self::with_visible(old(self)@, value));
        assert(Self::visible(self@) == value);
    }

    fn draw(&self, f: &mut RenderFrame, area: Rect, db: &Db) {
        if !self.is_visible() {
            proof {
                let ops = Seq::<RenderOpView>::empty();
                assert(f@.ops =~= old(f)@.ops + ops);
                assert(Self::paints(self@, area, db@, ops));
            }
            return ;
        }
        let place = Self::layout(area);
        match place {
            Some((frame, name, description)) => {
                self.paint(f, frame, name, description, db);
            },
            None => {
                assert(f@.ops =~= old(f)@.ops + Seq::<RenderOpView>::empty());
            },
        }
        proof {
            let ops = match place {
                Some((frame, name, description)) => self@.painting(frame, name, description),
                None => Seq::empty(),
            };
            assert(editor_layout(area, place));
            assert(Self::paints(self@, area, db@, ops));
        }
    }

    fn apply_theme(&mut self, theme: &UiTheme) {
    }
}

impl UiExerciseEditorView {
    /// The field that gets the input: the name while it has the focus, the
    /// description otherwise.
    pub open spec fn current_editor(self) -> TextEditView<StrValidator> {
        if self.name_editor.is_focused {
            self.name_editor
        } else {
            self.description_editor
        }
    }

    /// The editor with `field` in place of the field that gets the input.
    pub open spec fn with_current_editor(self, field: TextEditView<StrValidator>) -> UiExerciseEditorView {
        if self.name_editor.is_focused {
            UiExerciseEditorView { name_editor: field, ..self }
        } else {
            UiExerciseEditorView { description_editor: field, ..self }
        }
    }
}

impl EventComponent for UiExerciseEditor {
    open spec fn focused(v: UiExerciseEditorView) -> bool {
        v.is_focused
    }

    /// With the focus, the editor puts it on the name; without it, neither
    /// field keeps the focus.
    open spec fn with_focus(v: UiExerciseEditorView, value: bool) -> UiExerciseEditorView {
        UiExerciseEditorView {
            is_focused: value,
            name_editor: TextEditView { is_focused: value, ..v.name_editor },
            description_editor: TextEditView { is_focused: false, ..v.description_editor },
            ..v
        }
    }

    /// With focus, the event goes to the field that gets the input first
    /// and, if the field does not consume it, to the editor itself.
    open spec fn input_reaction(v: UiExerciseEditorView, event: TerminalEvent, db: DbView) -> Reaction<
        UiExerciseEditorView,
    > {
        if v.is_focused {
            let field = TextEdit::<StrValidator>::input_reaction(v.current_editor(), event, db);
            let after = v.with_current_editor(field.state);
            if field.consumed {
                Reaction { consumed: true, state: after, emitted: field.emitted }
            } else {
                let own = term_reaction::<Self>(after, event, db);
                Reaction { consumed: own.consumed, state: own.state, emitted: field.emitted + own.emitted }
            }
        } else {
            Reaction::ignored(v)
        }
    }

    proof fn lemma_focus_sets(v: UiExerciseEditorView, value: bool) {
    }

    proof fn lemma_visibility_keeps_focus(v: UiExerciseEditorView, value: bool) {
    }

    fn focus(&mut self, value: bool) {
        self.is_focused = value;
        self.name_editor.focus(value);
        self.description_editor.focus(false);
    }

    fn on_focus(&self) -> (focused: bool) {
        self.is_focused
    }

    fn on_term_event(&mut self, event: &TerminalEvent, db: &Db, bus: &mut UiEvents) -> (consumed: bool) {
        if self.is_focused {
            let ghost before = pending(bus);
            let ghost field = TextEdit::<StrValidator>::input_reaction(self@.current_editor(), *event, db@);
            let is_name_focused = self.name_editor.on_focus();
            let taken = if is_name_focused {
                self.name_editor.on_term_event(event, db, bus)
            } else {
                self.description_editor.on_term_event(event, db, bus)
            };
            if taken {
                return true;
            }
            let consumed = self.dispatch_term_event(event, db, bus);
            proof {
                let own = term_reaction::<Self>(old(self)@.with_current_editor(field.state), *event, db@);
                assert(pending(bus) =~= pending(old(bus)) + (field.emitted + own.emitted));
            }
            return consumed;
        }
        assert(pending(bus) =~= pending(bus) + Seq::<UiEventView>::empty());
        false
    }
}

impl Layer for UiExerciseEditor {
    /// The editor is always modal.
    open spec fn modal(v: UiExerciseEditorView) -> bool {
        true
    }

    open spec fn with_modal(v: UiExerciseEditorView, value: bool) -> UiExerciseEditorView {
        v
    }

    open spec fn remove_requested(v: UiExerciseEditorView) -> bool {
        v.is_removing_needed
    }

    fn is_modal(&self) -> (modal: bool) {
        true
    }

    fn set_modal(&mut self, is_modal: bool) {
    }

    fn is_remove_requested(&self) -> (requested: bool) {
        self.is_removing_needed
    }
}

} // verus!
