//! A modal box with a message, closed with `q`, Escape or Enter.

use vstd::prelude::*;
use vstd::string::*;
use crate::component::{Component, EventComponent, Reaction, TerminalEvent, focused_reaction};
use crate::event_dispatcher::{Callback, KeyEventDispatcher, TermEventDispatcher};
use crate::layer::Layer;
use crate::layout::{Alignment, Constraint, Direction, Layout, Rect, parts_view, splits};
use crate::model::{Db, DbView};
use crate::render::{Block, BlockView, Paragraph, ParagraphView, RenderFrame, RenderOp, RenderOpView};
use crate::style::{Color, Style};
use crate::theme::UiTheme;
use crate::ui_events::{ControllerRequest, ControllerRequestView, UiEventDispatcher, UiEventSender, UiEventView, UiEvents, pending};
use crate::utils::{centered_rect, centers};

verus! {

/// How grave a message is.
#[derive(Clone, Copy, Debug, PartialEq, Eq, Structural)]
pub enum UiMessageBoxType {
    Info,
    Warn,
    Error,
}

/// A box with a message. It is a layer of its own: modal, focused and shown
/// from the start.
pub struct UiMessageBox {
    title: String,
    text: String,
    message_type: UiMessageBoxType,
    is_focused: bool,
    is_visible: bool,
    is_modal: bool,
    is_removing_needed: bool,
    on_accept: Option<ControllerRequest>,
}

/// The mathematical value of a `UiMessageBox`.
pub ghost struct UiMessageBoxView {
    pub title: Seq<char>,
    pub text: Seq<char>,
    pub message_type: UiMessageBoxType,
    pub is_focused: bool,
    pub is_visible: bool,
    pub is_modal: bool,
    pub is_removing_needed: bool,
    /// The work handed out when the message is accepted with Enter.
    pub on_accept: Option<ControllerRequestView>,
}

impl View for UiMessageBox {
    type V = UiMessageBoxView;

    closed spec fn view(&self) -> UiMessageBoxView {
        UiMessageBoxView {
            title: self.title@,
            text: self.text@,
            message_type: self.message_type,
            is_focused: self.is_focused,
            is_visible: self.is_visible,
            is_modal: self.is_modal,
            is_removing_needed: self.is_removing_needed,
            on_accept: match self.on_accept {
                Some(request) => Some(request@),
                None => None,
            },
        }
    }
}

impl UiMessageBoxView {
    /// A fresh box: modal, focused, shown, with nothing to do on Enter.
    pub open spec fn fresh(title: Seq<char>, text: Seq<char>, message_type: UiMessageBoxType) -> UiMessageBoxView {
        UiMessageBoxView {
            title,
            text,
            message_type,
            is_focused: true,
            is_visible: true,
            is_modal: true,
            is_removing_needed: false,
            on_accept: None,
        }
    }

    /// The box once it asked to be removed.
    pub open spec fn closed(self) -> UiMessageBoxView {
        UiMessageBoxView { is_removing_needed: true, ..self }
    }

    /// What accepting the message puts on the bus: the work set with
    /// `set_on_accept`, once.
    pub open spec fn accepting(self) -> Seq<UiEventView> {
        match self.on_accept {
            Some(request) => seq![UiEventView::Request(request)],
            None => Seq::empty(),
        }
    }

    /// The colour of the border.
    pub open spec fn color(self) -> Color {
        match self.message_type {
            UiMessageBoxType::Info => Color::White,
            UiMessageBoxType::Warn => Color::Yellow,
            UiMessageBoxType::Error => Color::Red,
        }
    }

    /// The word for the kind of message.
    pub open spec fn kind(self) -> Seq<char> {
        match self.message_type {
            UiMessageBoxType::Info => "Info"@,
            UiMessageBoxType::Warn => "Warning"@,
            UiMessageBoxType::Error => "Error"@,
        }
    }

    /// The box drawn around the message.
    pub open spec fn block(self) -> BlockView {
        BlockView {
            title: self.kind() + " message: `"@ + self.title + "`; -> Commands(Close: [q] | [ESC] | [ENTER])"@,
            title_style: Style::plain(),
            borders: true,
            style: Style::plain(),
            border_style: Style { fg: Some(self.color()), bg: None, modifier: None },
        }
    }

    /// The message as it is drawn.
    pub open spec fn paragraph(self) -> ParagraphView {
        ParagraphView {
            text: self.text,
            text_style: Style::plain(),
            style: Style::plain(),
            block: None,
            wrap: Some(true),
            alignment: Alignment::Left,
        }
    }

    /// The painting of the box into `frame`, the message in `inner`.
    pub open spec fn painting(self, frame: Rect, inner: Rect) -> Seq<RenderOpView> {
        seq![
            RenderOpView::Clear { area: frame },
            RenderOpView::Block { area: frame, block: self.block() },
            RenderOpView::Paragraph { area: inner, paragraph: self.paragraph() },
        ]
    }
}

/// The rows a message box divides its frame into: the border, then the
/// rest.
pub open spec fn box_rows() -> Seq<Constraint> {
    seq![Constraint::Length(1), Constraint::Min(2)]
}

/// The columns a message box divides its second row into: the border, the
/// text, the border.
pub open spec fn box_columns() -> Seq<Constraint> {
    seq![Constraint::Length(1), Constraint::Min(0), Constraint::Length(1)]
}

/// Whether `place` is an outcome of laying a message box out in `area`
/// when the divisions come out as given: the frame in the middle of the
/// area and, inside its border, the room for the text; or nothing where one
/// of the divisions cannot be made.
pub open spec fn box_layout_by(
    area: Rect,
    place: Option<(Rect, Rect)>,
    frame: Option<Rect>,
    rows: Option<Seq<Rect>>,
    columns: Option<Seq<Rect>>,
) -> bool {
    &&& centers(50, 50, area, frame)
    &&& match frame {
        None => place is None,
        Some(frame) => {
            &&& splits(Direction::Vertical, 0, box_rows(), frame, rows)
            &&& match rows {
                None => place is None,
                Some(rows) => {
                    &&& splits(Direction::Horizontal, 0, box_columns(), rows[1], columns)
                    &&& match columns {
                        None => place is None,
                        Some(columns) => place == Some((frame, columns[1])),
                    }
                },
            }
        },
    }
}

/// Whether `place` is an outcome of laying a message box out in `area`.
pub open spec fn box_layout(area: Rect, place: Option<(Rect, Rect)>) -> bool {
    exists|frame: Option<Rect>, rows: Option<Seq<Rect>>, columns: Option<Seq<Rect>>| #[trigger]
        box_layout_by(area, place, frame, rows, columns)
}

impl UiMessageBox {
    /// A box with the given title and message: modal, focused, shown.
    pub fn new(title: &str, text: String, message_type: UiMessageBoxType) -> (message_box: Self)
        ensures
            message_box@ == UiMessageBoxView::fresh(title@, text@, message_type),
    {
        Self {
            text,
            title: title.to_owned(),
            message_type,
            is_focused: true,
            is_visible: true,
            is_modal: true,
            is_removing_needed: false,
            on_accept: None,
        }
    }

    /// A box with a piece of information.
    pub fn info(title: &str, text: String) -> (message_box: Self)
        ensures
            message_box@ == UiMessageBoxView::fresh(title@, text@, UiMessageBoxType::Info),
    {
        Self::new(title, text, UiMessageBoxType::Info)
    }

    /// A box with a warning.
    pub fn warn(title: &str, text: String) -> (message_box: Self)
        ensures
            message_box@ == UiMessageBoxView::fresh(title@, text@, UiMessageBoxType::Warn),
    {
        Self::new(title, text, UiMessageBoxType::Warn)
    }

    /// A box with an error.
    pub fn err(title: &str, text: String) -> (message_box: Self)
        ensures
            message_box@ == UiMessageBoxView::fresh(title@, text@, UiMessageBoxType::Error),
    {
        Self::new(title, text, UiMessageBoxType::Error)
    }

    fn close(&mut self)
        ensures
            final(self)@ == old(self)@.closed(),
    {
        self.is_removing_needed = true;
    }

    /// The message.
    pub fn text(&self) -> (text: &String)
        ensures
            text@ == self@.text,
    {
        &self.text
    }

    /// The title.
    pub fn title(&self) -> (title: &String)
        ensures
            title@ == self@.title,
    {
        &self.title
    }

    /// How grave the message is.
    pub fn message_type(&self) -> (message_type: UiMessageBoxType)
        ensures
            message_type == self@.message_type,
    {
        self.message_type
    }

    /// Replaces the message.
    pub fn set_text(&mut self, text: String)
        ensures
            final(self)@ == (UiMessageBoxView { text: text@, ..old(self)@ }),
    {
        self.text = text;
    }

    /// Replaces the title.
    pub fn set_title(&mut self, title: String)
        ensures
            final(self)@ == (UiMessageBoxView { title: title@, ..old(self)@ }),
    {
        self.title = title;
    }

    /// Sets the work that is handed out, once, when the message is accepted
    /// with Enter.
    pub fn set_on_accept(&mut self, request: ControllerRequest)
        ensures
            final(self)@ == (UiMessageBoxView { on_accept: Some(request@), ..old(self)@ }),
    {
        self.on_accept = Some(request);
    }

    fn accept(&mut self, bus: &mut UiEvents)
        ensures
            final(self)@ == (UiMessageBoxView { on_accept: None, ..old(self)@ }),
            pending(final(bus)) == pending(old(bus)) + old(self)@.accepting(),
    {
        match self.on_accept.take() {
            Some(request) => {
                UiEventSender::new().send_request(bus, request);
                assert(pending(bus) =~= pending(old(bus)) + old(self)@.accepting());
            },
            None => {
                assert(pending(bus) =~= pending(old(bus)) + old(self)@.accepting());
            },
        }
    }

    fn on_esc(&mut self) -> (consumed: bool)
        ensures
            consumed,
            final(self)@ == old(self)@.closed(),
    {
        self.close();
        true
    }

    fn on_enter(&mut self, bus: &mut UiEvents) -> (consumed: bool)
        ensures
            consumed,
            final(self)@ == (UiMessageBoxView { on_accept: None, ..old(self)@ }).closed(),
            pending(final(bus)) == pending(old(bus)) + old(self)@.accepting(),
    {
        self.accept(bus);
        self.close();
        true
    }

    fn on_char(&mut self, c: char) -> (consumed: bool)
        ensures
            consumed,
            final(self)@ == if c == 'q' {
                old(self)@.closed()
            } else {
                old(self)@
            },
    {
        if c == 'q' {
            self.close()
        }
        true
    }

    /// The title of the box around the message.
    fn block_title(&self) -> (title: String)
        ensures
            title@ == self@.block().title,
    {
        let kind = match self.message_type {
            UiMessageBoxType::Info => "Info",
            UiMessageBoxType::Warn => "Warning",
            UiMessageBoxType::Error => "Error",
        };
        let mut title = kind.to_owned();
        title.append(" message: `");
        title.append(self.title.as_str());
        title.append("`; -> Commands(Close: [q] | [ESC] | [ENTER])");
        title
    }

    /// Lays the box out in `area`: the frame and, inside its border, the
    /// room for the text.
    pub fn layout(area: Rect) -> (place: Option<(Rect, Rect)>)
        ensures
            box_layout(area, place),
    {
        let frame = centered_rect(50, 50, area);
        let outer = match frame {
            None => {
                assert(box_layout_by(area, None, frame, None, None));
                return None;
            },
            Some(outer) => outer,
        };
        let rows = Layout::default().direction(Direction::Vertical).constraints(
            vec![Constraint::Length(1), Constraint::Min(2)],
        ).split(outer);
        let ghost rows_view = parts_view(rows);
        let rows = match rows {
            None => {
                assert(box_layout_by(area, None, frame, rows_view, None));
                return None;
            },
            Some(rows) => rows,
        };
        let columns = Layout::default().direction(Direction::Horizontal).constraints(
            vec![Constraint::Length(1), Constraint::Min(0), Constraint::Length(1)],
        ).split(rows[1]);
        let ghost columns_view = parts_view(columns);
        let place = match columns {
            None => None,
            Some(columns) => Some((outer, columns[1])),
        };
        assert(box_layout_by(area, place, frame, rows_view, columns_view));
        place
    }

    /// Paints the box into `frame` and the message into `inner`.
    pub fn paint(&self, f: &mut RenderFrame, frame: Rect, inner: Rect)
        ensures
            final(f)@.size == old(f)@.size,
            final(f)@.ops == old(f)@.ops + self@.painting(frame, inner),
    {
        let color = match self.message_type {
            UiMessageBoxType::Info => Color::White,
            UiMessageBoxType::Warn => Color::Yellow,
            UiMessageBoxType::Error => Color::Red,
        };
        let block = Block {
            title: self.block_title(),
            title_style: Style::default(),
            borders: true,
            style: Style::default(),
            border_style: Style::default().fg(color),
        };
        f.render_widget(RenderOp::Clear { area: frame });
        f.render_widget(RenderOp::Block { area: frame, block });
        let paragraph = Paragraph {
            text: self.text.clone(),
            text_style: Style::default(),
            style: Style::default(),
            block: None,
            wrap: Some(true),
            alignment: Alignment::Left,
        };
        f.render_widget(RenderOp::Paragraph { area: inner, paragraph });
        assert(f@.ops =~= old(f)@.ops + self@.painting(frame, inner));
    }
}

impl KeyEventDispatcher for UiMessageBox {
    /// Escape closes the box; Enter hands out the work set for it and
    /// closes the box; `q` closes it, and every other character is swallowed.
    open spec fn reaction(v: UiMessageBoxView, callback: Callback, db: DbView) -> Reaction<UiMessageBoxView> {
        match callback {
            Callback::Esc => Reaction::handled(v.closed()),
            Callback::Enter => Reaction {
                consumed: true,
                state: (UiMessageBoxView { on_accept: None, ..v }).closed(),
                emitted: v.accepting(),
            },
            Callback::Char(c) => Reaction::handled(
                if c == 'q' {
                    v.closed()
                } else {
                    v
                },
            ),
            _ => Reaction::ignored(v),
        }
    }

    fn on_callback(&mut self, callback: &Callback, db: &Db, bus: &mut UiEvents) -> (consumed: bool) {
        assert(pending(bus) =~= pending(bus) + Seq::<UiEventView>::empty());
        match callback {
            Callback::Esc => self.on_esc(),
            Callback::Enter => self.on_enter(bus),
            Callback::Char(c) => self.on_char(*c),
            _ => false,
        }
    }
}

impl TermEventDispatcher for UiMessageBox {
}

impl UiEventDispatcher for UiMessageBox {
}

impl Component for UiMessageBox {
    open spec fn visible(v: UiMessageBoxView) -> bool {
        v.is_visible
    }

    open spec fn with_visible(v: UiMessageBoxView, value: bool) -> UiMessageBoxView {
        UiMessageBoxView { is_visible: value, ..v }
    }

    open spec fn themed(v: UiMessageBoxView, theme: UiTheme) -> UiMessageBoxView {
        v
    }

    /// The box in the middle of the area, or nothing where the area cannot
    /// be divided.
    open spec fn paints(v: UiMessageBoxView, area: Rect, db: DbView, ops: Seq<RenderOpView>) -> bool {
        exists|place: Option<(Rect, Rect)>| #[trigger]
            box_layout(area, place) && ops == match place {
                Some((frame, inner)) => v.painting(frame, inner),
                None => Seq::empty(),
            }
    }

    fn is_visible(&self) -> (shown: bool) {
        self.is_visible
    }

    fn set_visible(&mut self, value: bool) {
        self.is_visible = value;
    }

    fn draw(&self, f: &mut RenderFrame, area: Rect, db: &Db) {
        let place = Self::layout(area);
        match place {
            Some((frame, inner)) => {
                self.paint(f, frame, inner);
            },
            None => {
                assert(f@.ops =~= old(f)@.ops + Seq::<RenderOpView>::empty());
            },
        }
        proof {
            let ops = match place {
                Some((frame, inner)) => self@.painting(frame, inner),
                None => Seq::empty(),
            };
            assert(box_layout(area, place));
            assert(Self::paints(self@, area, db@, ops));
        }
    }

    fn apply_theme(&mut self, theme: &UiTheme) {
    }
}

impl EventComponent for UiMessageBox {
    open spec fn focused(v: UiMessageBoxView) -> bool {
        v.is_focused
    }

    open spec fn with_focus(v: UiMessageBoxView, value: bool) -> UiMessageBoxView {
        UiMessageBoxView { is_focused: value, ..v }
    }

    open spec fn input_reaction(v: UiMessageBoxView, event: TerminalEvent, db: DbView) -> Reaction<UiMessageBoxView> {
        focused_reaction::<Self>(v.is_focused, v, event, db)
    }

    proof fn lemma_focus_sets(v: UiMessageBoxView, value: bool) {
    }

    proof fn lemma_visibility_keeps_focus(v: UiMessageBoxView, value: bool) {
    }

    fn focus(&mut self, value: bool) {
        self.is_focused = value;
    }

    fn on_focus(&self) -> (focused: bool) {
        self.is_focused
    }

    fn on_term_event(&mut self, event: &TerminalEvent, db: &Db, bus: &mut UiEvents) -> (consumed: bool) {
        self.dispatch_when_focused(event, db, bus)
    }
}

impl Layer for UiMessageBox {
    open spec fn modal(v: UiMessageBoxView) -> bool {
        v.is_modal
    }

    open spec fn with_modal(v: UiMessageBoxView, value: bool) -> UiMessageBoxView {
        UiMessageBoxView { is_modal: value, ..v }
    }

    open spec fn remove_requested(v: UiMessageBoxView) -> bool {
        v.is_removing_needed
    }

    fn is_modal(&self) -> (modal: bool) {
        self.is_modal
    }

    fn set_modal(&mut self, is_modal: bool) {
        self.is_modal = is_modal;
    }

    fn is_remove_requested(&self) -> (requested: bool) {
        self.is_removing_needed
    }
}

} // verus!
