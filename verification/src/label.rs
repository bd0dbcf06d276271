//! A line of text.

use vstd::prelude::*;
use crate::component::Component;
use crate::layout::Rect;
use crate::model::{Db, DbView};
use crate::render::{RenderFrame, RenderOp, RenderOpView};
use crate::theme::UiTheme;

verus! {

/// A line of text, drawn from the top left corner of its area.
#[derive(Default, Clone, Copy)]
pub struct UiLabel<'a> {
    text: &'a str,
}

impl<'a> View for UiLabel<'a> {
    type V = Seq<char>;

    /// The text.
    closed spec fn view(&self) -> Seq<char> {
        self.text@
    }
}

impl<'a> UiLabel<'a> {
    /// A label with the given text.
    pub fn new(text: &'a str) -> (label: Self)
        ensures
            label@ == text@,
    {
        Self { text }
    }

    /// The label with another text.
    pub fn text(self, text: &'a str) -> (label: UiLabel<'a>)
        ensures
            label@ == text@,
    {
        let mut label = self;
        label.text = text;
        label
    }
}

impl<'a> Component for UiLabel<'a> {
    /// A label is always shown.
    open spec fn visible(v: Seq<char>) -> bool {
        true
    }

    open spec fn with_visible(v: Seq<char>, value: bool) -> Seq<char> {
        v
    }

    open spec fn themed(v: Seq<char>, theme: UiTheme) -> Seq<char> {
        v
    }

    open spec fn paints(v: Seq<char>, area: Rect, db: DbView, ops: Seq<RenderOpView>) -> bool {
        ops == seq![RenderOpView::Label { area, text: v }]
    }

    fn is_visible(&self) -> (shown: bool) {
        true
    }

    fn set_visible(&mut self, value: bool) {
    }

    fn draw(&self, f: &mut RenderFrame, area: Rect, db: &Db) {
        f.render_widget(RenderOp::Label { area, text: self.text.to_owned() });
        proof {
            let ops = seq![RenderOpView::Label { area, text: self@ }];
            assert(f@.ops =~= old(f)@.ops + ops);
            assert(Self::paints(self@, area, db@, ops));
        }
    }

    fn apply_theme(&mut self, theme: &UiTheme) {
    }
}

} // verus!
