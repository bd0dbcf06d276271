//! A one-field text editor with a title and a rule on its text.

use vstd::prelude::*;
use vstd::string::*;
use crate::component::{Component, EventComponent, Reaction, TerminalEvent, focused_reaction};
use crate::event_dispatcher::{Callback, KeyEventDispatcher, TermEventDispatcher};
use crate::layer::LayerItemComponent;
use crate::layout::{Alignment, Rect};
use crate::model::{Db, DbView};
use crate::render::{Block, BlockView, Paragraph, ParagraphView, RenderFrame, RenderOp, RenderOpView};
use crate::style::{Color, Modifier, Style};
use crate::theme::{UiTextEditTheme, UiTheme};
use crate::ui_events::{UiEventView, UiEvents, pending};
use crate::validators::{EmptyStrValidator, ErrorText, Validator};

verus! {

/// `String::push` puts one character behind the others.
pub assume_specification[ String::push ](text: &mut String, ch: char)
    ensures
        final(text)@ == old(text)@.push(ch),
;

/// `String::pop` takes the last character away and hands it back; an
/// empty string stays empty and gives `None`.
pub assume_specification[ String::pop ](text: &mut String) -> (last: Option<char>)
    ensures
        old(text)@.len() == 0 ==> last is None && final(text)@ == old(text)@,
        old(text)@.len() > 0 ==> last == Some(old(text)@.last()) && final(text)@ == old(text)@.drop_last(),
;

/// A text field.
pub struct TextEdit<V: Validator<str> = EmptyStrValidator> {
    pub title: String,
    pub text: String,
    theme: UiTextEditTheme,
    is_focused: bool,
    pub is_edit_enabled: bool,
    validator: V,
}

/// The mathematical value of a `TextEdit`.
pub ghost struct TextEditView<V> {
    pub title: Seq<char>,
    pub text: Seq<char>,
    pub theme: UiTextEditTheme,
    pub is_focused: bool,
    pub is_edit_enabled: bool,
    pub validator: V,
}

impl<V: Validator<str>> View for TextEdit<V> {
    type V = TextEditView<V>;

    closed spec fn view(&self) -> TextEditView<V> {
        TextEditView {
            title: self.title@,
            text: self.text@,
            theme: self.theme,
            is_focused: self.is_focused,
            is_edit_enabled: self.is_edit_enabled,
            validator: self.validator,
        }
    }
}

impl<V: Validator<str>> TextEditView<V> {
    /// What the rule says of the text.
    pub open spec fn verdict(self) -> Result<(), V::Error> {
        self.validator.verdict(self.text)
    }

    /// The title as it is drawn: behind the title of a field whose text
    /// breaks the rule stands what is wrong with it.
    pub open spec fn shown_title(self) -> Seq<char> {
        match self.verdict() {
            Ok(_) => self.title,
            Err(error) => self.title + "   Validation error: "@ + error.text(),
        }
    }

    /// The colour of the title: red where the text breaks the rule.
    pub open spec fn title_color(self) -> Color {
        match self.verdict() {
            Ok(_) => Color::Black,
            Err(_) => Color::Red,
        }
    }

    /// The field as it is drawn: the text in a box with the title, on
    /// white, the box black with focus and grey without.
    pub open spec fn paragraph(self) -> ParagraphView {
        ParagraphView {
            text: self.text,
            text_style: self.theme.text_style,
            style: Style { fg: Some(Color::Black), bg: Some(Color::White), modifier: None },
            block: Some(
                BlockView {
                    title: self.shown_title(),
                    title_style: Style { fg: Some(self.title_color()), bg: None, modifier: Some(Modifier::Bold) },
                    borders: true,
                    style: Style {
                        fg: Some(
                            if self.is_focused {
                                Color::Black
                            } else {
                                Color::Gray
                            },
                        ),
                        bg: Some(Color::White),
                        modifier: None,
                    },
                    border_style: Style::plain(),
                },
            ),
            wrap: None,
            alignment: Alignment::Left,
        }
    }

    /// The text without its last character.
    pub open spec fn shortened(self) -> Seq<char> {
        if self.text.len() > 0 {
            self.text.drop_last()
        } else {
            self.text
        }
    }
}

impl<V: Validator<str> + Default> Default for TextEdit<V> {
    fn default() -> (field: Self)
        ensures
            field@.title == Seq::<char>::empty(),
            field@.text == Seq::<char>::empty(),
            field@.theme == UiTextEditTheme::standard(),
            !field@.is_focused,
            field@.is_edit_enabled,
    {
        proof {
            reveal_strlit("");
        }
        Self::new("", String::new(), V::default())
    }
}

impl<V: Validator<str>> TextEdit<V> {
    /// A field without focus, open for editing, in the standard theme.
    pub fn new(title: &str, text: String, validator: V) -> (field: Self)
        ensures
            field@ == (TextEditView {
                title: title@,
                text: text@,
                theme: UiTextEditTheme::standard(),
                is_focused: false,
                is_edit_enabled: true,
                validator,
            }),
    {
        Self {
            title: title.to_owned(),
            text,
            theme: UiTextEditTheme::default(),
            is_focused: false,
            is_edit_enabled: true,
            validator,
        }
    }

    /// Whether the text meets the rule.
    pub fn is_valid(&self) -> (valid: bool)
        ensures
            valid == (self@.verdict() is Ok),
    {
        if let Ok(_) = self.validator.validate(self.text.as_str()) {
            true
        } else {
            false
        }
    }

    /// What is wrong with the text, if anything is.
    pub fn validate(&self) -> (verdict: Result<(), String>)
        ensures
            match self@.verdict() {
                Ok(_) => verdict is Ok,
                Err(error) => verdict is Err && verdict->Err_0@ == error.text(),
            },
    {
        match self.validator.validate(self.text.as_str()) {
            Ok(_) => Ok(()),
            Err(error) => Err(error.message()),
        }
    }

    /// The text.
    pub fn text(&self) -> (text: &String)
        ensures
            text@ == self@.text,
    {
        &self.text
    }

    /// Replaces the text.
    pub fn set_text(&mut self, text: String)
        ensures
            final(self)@ == (TextEditView { text: text@, ..old(self)@ }),
    {
        self.text = text;
    }

    fn on_paste(&mut self, s: &str) -> (consumed: bool)
        ensures
            consumed,
            final(self)@ == (TextEditView { text: s@, ..old(self)@ }),
    {
        self.text = s.to_owned();
        true
    }

    fn on_backspace(&mut self) -> (consumed: bool)
        ensures
            consumed,
            final(self)@ == (TextEditView { text: old(self)@.shortened(), ..old(self)@ }),
    {
        self.text.pop();
        true
    }

    fn on_char(&mut self, c: char) -> (consumed: bool)
        ensures
            consumed,
            final(self)@ == (TextEditView { text: old(self)@.text.push(c), ..old(self)@ }),
    {
        self.text.push(c);
        true
    }

    fn on_esc(&mut self) -> (consumed: bool)
        ensures
            consumed,
            final(self)@ == (TextEditView { is_focused: false, ..old(self)@ }),
    {
        self.is_focused = false;
        true
    }

    fn on_enter(&mut self) -> (consumed: bool)
        ensures
            consumed,
            final(self)@ == (TextEditView { is_focused: false, ..old(self)@ }),
    {
        self.focus(false);
        true
    }

    /// The title as it is drawn, and its colour.
    fn shown_title(&self) -> (shown: (String, Color))
        ensures
            shown.0@ == self@.shown_title(),
            shown.1 == self@.title_color(),
    {
        match self.validate() {
            Err(err) => {
                let mut title = self.title.clone();
                title.append("   Validation error: ");
                title.append(err.as_str());
                (title, Color::Red)
            },
            Ok(_) => (self.title.clone(), Color::Black),
        }
    }
}

impl<V: Validator<str>> KeyEventDispatcher for TextEdit<V> {
    /// A pasted text replaces the text; a character is put behind it and
    /// Backspace takes the last one away; Escape and Enter give up the focus.
    /// Each of these is consumed.
    open spec fn reaction(v: TextEditView<V>, callback: Callback, db: DbView) -> Reaction<TextEditView<V>> {
        match callback {
            Callback::Paste(text) => Reaction::handled(TextEditView { text: text@, ..v }),
            Callback::Backspace => Reaction::handled(TextEditView { text: v.shortened(), ..v }),
            Callback::Char(c) => Reaction::handled(TextEditView { text: v.text.push(c), ..v }),
            Callback::Esc => Reaction::handled(TextEditView { is_focused: false, ..v }),
            Callback::Enter => Reaction::handled(TextEditView { is_focused: false, ..v }),
            _ => Reaction::ignored(v),
        }
    }

    fn on_callback(&mut self, callback: &Callback, db: &Db, bus: &mut UiEvents) -> (consumed: bool) {
        assert(pending(bus) =~= pending(bus) + Seq::<UiEventView>::empty());
        match callback {
            Callback::Paste(text) => self.on_paste(text.as_str()),
            Callback::Backspace => self.on_backspace(),
            Callback::Char(c) => self.on_char(*c),
            Callback::Esc => self.on_esc(),
            Callback::Enter => self.on_enter(),
            _ => false,
        }
    }
}

impl<V: Validator<str>> TermEventDispatcher for TextEdit<V> {
}

impl<V: Validator<str>> Component for TextEdit<V> {
    /// A text field is always shown.
    open spec fn visible(v: TextEditView<V>) -> bool {
        true
    }

    open spec fn with_visible(v: TextEditView<V>, value: bool) -> TextEditView<V> {
        v
    }

    open spec fn themed(v: TextEditView<V>, theme: UiTheme) -> TextEditView<V> {
        TextEditView { theme: theme.text_edit, ..v }
    }

    open spec fn paints(v: TextEditView<V>, area: Rect, db: DbView, ops: Seq<RenderOpView>) -> bool {
        ops == seq![RenderOpView::Paragraph { area, paragraph: v.paragraph() }]
    }

    fn is_visible(&self) -> (shown: bool) {
        true
    }

    fn set_visible(&mut self, value: bool) {
    }

    fn draw(&self, f: &mut RenderFrame, area: Rect, db: &Db) {
        let (title, title_color) = self.shown_title();
        let block = Block {
            title,
            title_style: Style::default().fg(title_color).add_modifier(Modifier::Bold),
            borders: true,
            style: Style::default().bg(Color::White).fg(
                if self.on_focus() {
                    Color::Black
                } else {
                    Color::Gray
                },
            ),
            border_style: Style::default(),
        };
        let p = Paragraph {
            text: self.text.clone(),
            text_style: self.theme.text_style,
            style: Style::default().bg(Color::White).fg(Color::Black),
            block: Some(block),
            wrap: None,
            alignment: Alignment::Left,
        };
        f.render_widget(RenderOp::Paragraph { area, paragraph: p });
        proof {
            let ops = seq![RenderOpView::Paragraph { area, paragraph: self@.paragraph() }];
            assert(f@.ops =~= old(f)@.ops + ops);
            assert(Self::paints(self@, area, db@, ops));
        }
    }

    fn apply_theme(&mut self, theme: &UiTheme) {
        self.theme = theme.text_edit;
    }
}

impl<V: Validator<str>> EventComponent for TextEdit<V> {
    open spec fn focused(v: TextEditView<V>) -> bool {
        v.is_focused
    }

    open spec fn with_focus(v: TextEditView<V>, value: bool) -> TextEditView<V> {
        TextEditView { is_focused: value, ..v }
    }

    open spec fn input_reaction(v: TextEditView<V>, event: TerminalEvent, db: DbView) -> Reaction<TextEditView<V>> {
        focused_reaction::<Self>(v.is_focused, v, event, db)
    }

    proof fn lemma_focus_sets(v: TextEditView<V>, value: bool) {
    }

    proof fn lemma_visibility_keeps_focus(v: TextEditView<V>, value: bool) {
    }

    fn focus(&mut self, value: bool) {
        self.is_focused = value;
        assert(Self::focused(self@) == value);
        assert(self@ == Self::with_focus(old(self)@, value));
    }

    fn on_focus(&self) -> (focused: bool) {
        assert(Self::focused(self@) == self.is_focused);
        self.is_focused
    }

    fn on_term_event(&mut self, event: &TerminalEvent, db: &Db, bus: &mut UiEvents) -> (consumed: bool) {
        self.dispatch_when_focused(event, db, bus)
    }
}

impl<V: Validator<str>> LayerItemComponent for TextEdit<V> {
}

} // verus!
