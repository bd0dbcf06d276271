//! The page of the account. It shows nothing yet.

use vstd::prelude::*;
use crate::component::{Component, EventComponent, Reaction, TerminalEvent, focused_reaction};
use crate::event_dispatcher::{Callback, KeyEventDispatcher, TermEventDispatcher};
use crate::layer::Layer;
use crate::layout::Rect;
use crate::menu::Page;
use crate::model::{Db, DbView};
use crate::render::{RenderFrame, RenderOpView};
use crate::theme::UiTheme;
use crate::ui_events::{UiEventDispatcher, UiEventView, UiEvents, pending};

verus! {

/// The page of the account.
pub struct PageAccount {
    is_visible: bool,
    is_focused: bool,
}

/// The mathematical value of a `PageAccount`.
pub ghost struct PageAccountView {
    pub is_visible: bool,
    pub is_focused: bool,
}

impl View for PageAccount {
    type V = PageAccountView;

    closed spec fn view(&self) -> PageAccountView {
        PageAccountView { is_visible: self.is_visible, is_focused: self.is_focused }
    }
}

impl KeyEventDispatcher for PageAccount {
    /// The page handles no callback.
    open spec fn reaction(v: PageAccountView, callback: Callback, db: DbView) -> Reaction<PageAccountView> {
        Reaction::ignored(v)
    }

    fn on_callback(&mut self, callback: &Callback, db: &Db, bus: &mut UiEvents) -> (consumed: bool) {
        assert(pending(bus) =~= pending(bus) + Seq::<UiEventView>::empty());
        false
    }
}

impl TermEventDispatcher for PageAccount {
}

impl UiEventDispatcher for PageAccount {
}

impl Component for PageAccount {
    open spec fn visible(v: PageAccountView) -> bool {
        v.is_visible
    }

    open spec fn with_visible(v: PageAccountView, value: bool) -> PageAccountView {
        PageAccountView { is_visible: value, ..v }
    }

    open spec fn themed(v: PageAccountView, theme: UiTheme) -> PageAccountView {
        v
    }

    /// The page paints nothing.
    open spec fn paints(v: PageAccountView, area: Rect, db: DbView, ops: Seq<RenderOpView>) -> bool {
        ops == Seq::<RenderOpView>::empty()
    }

    fn is_visible(&self) -> (shown: bool) {
        self.is_visible
    }

    fn set_visible(&mut self, value: bool) {
        self.is_visible = value;
    }

    fn draw(&self, f: &mut RenderFrame, area: Rect, db: &Db) {
        proof {
            let ops = Seq::<RenderOpView>::empty();
            assert(f@.ops =~= old(f)@.ops + ops);
            assert(Self::paints(self@, area, db@, ops));
        }
    }

    fn apply_theme(&mut self, theme: &UiTheme) {
    }
}

impl EventComponent for PageAccount {
    open spec fn focused(v: PageAccountView) -> bool {
        v.is_focused
    }

    open spec fn with_focus(v: PageAccountView, value: bool) -> PageAccountView {
        PageAccountView { is_focused: value, ..v }
    }

    open spec fn input_reaction(v: PageAccountView, event: TerminalEvent, db: DbView) -> Reaction<PageAccountView> {
        focused_reaction::<Self>(v.is_focused, v, event, db)
    }

    proof fn lemma_focus_sets(v: PageAccountView, value: bool) {
    }

    proof fn lemma_visibility_keeps_focus(v: PageAccountView, value: bool) {
    }

    fn focus(&mut self, value: bool) {
        self.is_focused = value;
    }

    fn on_focus(&self) -> (focused: bool) {
        self.is_focused
    }

    fn on_term_event(&mut self, event: &TerminalEvent, db: &Db, bus: &mut UiEvents) -> (consumed: bool) {
        self.dispatch_when_focused(event, db, bus)
    }
}

impl Layer for PageAccount {
    /// The page is never modal.
    open spec fn modal(v: PageAccountView) -> bool {
        false
    }

    open spec fn with_modal(v: PageAccountView, value: bool) -> PageAccountView {
        v
    }

    /// The page never asks to be removed.
    open spec fn remove_requested(v: PageAccountView) -> bool {
        false
    }

    fn is_modal(&self) -> (modal: bool) {
        false
    }

    fn set_modal(&mut self, is_modal: bool) {
    }

    fn is_remove_requested(&self) -> (requested: bool) {
        false
    }
}

impl Page for PageAccount {
    open spec fn help(v: PageAccountView) -> Seq<char> {
        ""@
    }

    open spec fn fresh() -> PageAccountView {
        PageAccountView { is_visible: true, is_focused: false }
    }

    fn new() -> (page: Self) {
        Self { is_visible: true, is_focused: false }
    }

    fn commands_help(&self) -> (help: &str) {
        ""
    }
}

} // verus!
