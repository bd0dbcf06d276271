//! The help line at the bottom of the screen.

use vstd::prelude::*;
use crate::component::Component;
use crate::label::UiLabel;
use crate::layout::{Constraint, Direction, Layout, Rect, parts_view, splits};
use crate::model::{Db, DbView};
use crate::render::{Block, BlockView, RenderFrame, RenderOp, RenderOpView};
use crate::style::Style;
use crate::theme::UiTheme;

verus! {

/// A box titled "Help" with one line of text.
pub struct Footer {
    pub content: String,
}

impl View for Footer {
    type V = Seq<char>;

    /// The text.
    open spec fn view(&self) -> Seq<char> {
        self.content@
    }
}

impl Default for Footer {
    fn default() -> (footer: Self)
        ensures
            footer@ == Seq::<char>::empty(),
    {
        Self { content: String::new() }
    }
}

/// The box around the help line.
pub open spec fn help_block() -> BlockView {
    BlockView { title: "Help"@, borders: true, ..BlockView::plain() }
}

/// The two lines inside the box.
pub open spec fn help_lines() -> Seq<Constraint> {
    seq![Constraint::Length(1), Constraint::Length(1)]
}

impl Footer {
    /// The painting of the footer when the inside of `area` is divided into
    /// `lines`: the box and the text on the first line, or the box alone
    /// where the area cannot be divided.
    pub open spec fn painting(v: Seq<char>, area: Rect, lines: Option<Seq<Rect>>) -> Seq<RenderOpView> {
        match lines {
            Some(lines) => seq![
                RenderOpView::Block { area, block: help_block() },
                RenderOpView::Label { area: lines[0], text: v },
            ],
            None => seq![RenderOpView::Block { area, block: help_block() }],
        }
    }
}

impl Component for Footer {
    /// The footer is always shown.
    open spec fn visible(v: Seq<char>) -> bool {
        true
    }

    open spec fn with_visible(v: Seq<char>, value: bool) -> Seq<char> {
        v
    }

    open spec fn themed(v: Seq<char>, theme: UiTheme) -> Seq<char> {
        v
    }

    open spec fn paints(v: Seq<char>, area: Rect, db: DbView, ops: Seq<RenderOpView>) -> bool {
        exists|lines: Option<Seq<Rect>>| #[trigger]
            splits(Direction::Vertical, 1, help_lines(), area, lines) && ops == Self::painting(v, area, lines)
    }

    fn is_visible(&self) -> (shown: bool) {
        true
    }

    fn set_visible(&mut self, value: bool) {
    }

    fn draw(&self, f: &mut RenderFrame, area: Rect, db: &Db) {
        let block = Block {
            title: "Help".to_owned(),
            title_style: Style::default(),
            borders: true,
            style: Style::default(),
            border_style: Style::default(),
        };
        f.render_widget(RenderOp::Block { area, block });
        let chunks = Layout::default().direction(Direction::Vertical).margin(1).constraints(
            vec![Constraint::Length(1), Constraint::Length(1)],
        ).split(area);
        let ghost lines = parts_view(chunks);
        let ghost before = f@.ops;
        match chunks {
            Some(chunks) => {
                UiLabel::new(self.content.as_str()).draw(f, chunks[0], db);
                assert(f@.ops =~= before + seq![RenderOpView::Label { area: chunks@[0], text: self@ }]);
            },
            None => {},
        }
        proof {
            let ops = Self::painting(self@, area, lines);
            assert(f@.ops =~= old(f)@.ops + ops);
            assert(splits(Direction::Vertical, 1, help_lines(), area, lines));
            assert(Self::paints(self@, area, db@, ops));
        }
    }

    fn apply_theme(&mut self, theme: &UiTheme) {
    }
}

} // verus!
