//! The capabilities every component has: it can be drawn, hidden and
//! themed, and an event component can be focused and given input.

use vstd::prelude::*;
use crate::event_dispatcher::{KeyEvent, TermEventDispatcher, term_reaction};
use crate::layout::Rect;
use crate::model::{Db, DbView};
use crate::render::{RenderFrame, RenderOpView};
use crate::theme::UiTheme;
use crate::ui_events::{UiEventView, UiEvents, pending};

verus! {

/// An event of the terminal.
#[derive(Debug)]
pub enum TerminalEvent {
    /// The terminal window got the focus.
    FocusGained,
    /// The terminal window lost the focus.
    FocusLost,
    /// A key was pressed.
    Key(KeyEvent),
    /// The pointer moved or a button changed.
    Mouse,
    /// Text was pasted.
    Paste(String),
    /// The terminal changed its size to these columns and rows.
    Resize(u16, u16),
}

impl Clone for TerminalEvent {
    fn clone(&self) -> (copy: Self)
        ensures
            copy == *self,
    {
        match self {
            TerminalEvent::FocusGained => TerminalEvent::FocusGained,
            TerminalEvent::FocusLost => TerminalEvent::FocusLost,
            TerminalEvent::Key(key) => TerminalEvent::Key(*key),
            TerminalEvent::Mouse => TerminalEvent::Mouse,
            TerminalEvent::Paste(text) => TerminalEvent::Paste(text.clone()),
            TerminalEvent::Resize(columns, rows) => TerminalEvent::Resize(*columns, *rows),
        }
    }
}

/// What a component does with an input: whether it consumes it, the state
/// it moves to, and the events it puts on the bus, oldest first.
pub ghost struct Reaction<V> {
    pub consumed: bool,
    pub state: V,
    pub emitted: Seq<UiEventView>,
}

impl<V> Reaction<V> {
    /// The reaction of a component that does not handle the input: not
    /// consumed, nothing changed, nothing emitted.
    pub open spec fn ignored(state: V) -> Reaction<V> {
        Reaction { consumed: false, state, emitted: Seq::empty() }
    }

    /// The reaction of a component that consumes the input and moves to
    /// `state` without emitting anything.
    pub open spec fn handled(state: V) -> Reaction<V> {
        Reaction { consumed: true, state, emitted: Seq::empty() }
    }
}

/// Whether a handler that returned `consumed`, left the component in
/// `after` and took the bus from `bus_before` to `bus_after` did what
/// `reaction` says: the bus only grows, by the events emitted.
pub open spec fn reacted<V>(
    reaction: Reaction<V>,
    consumed: bool,
    after: V,
    bus_before: Seq<UiEventView>,
    bus_after: Seq<UiEventView>,
) -> bool {
    &&& consumed == reaction.consumed
    &&& after == reaction.state
    &&& bus_after == bus_before + reaction.emitted
}

/// Something that can be drawn.
pub trait Component: View + Sized {
    /// Whether the component is shown.
    spec fn visible(v: Self::V) -> bool;

    /// The component after `set_visible(value)`.
    spec fn with_visible(v: Self::V, value: bool) -> Self::V;

    /// The component after `apply_theme(theme)`.
    spec fn themed(v: Self::V, theme: UiTheme) -> Self::V;

    /// Whether `ops` is a painting the component may make of itself in
    /// `area`. Where the component divides its area, the solver places the
    /// parts, so more than one painting can be right.
    spec fn paints(v: Self::V, area: Rect, db: DbView, ops: Seq<RenderOpView>) -> bool;

    /// Whether the component is shown.
    fn is_visible(&self) -> (shown: bool)
        ensures
            shown == Self::visible(self@),
    ;

    /// Shows or hides the component. Showing always succeeds; a component
    /// may refuse to be hidden.
    fn set_visible(&mut self, value: bool)
        ensures
            final(self)@ == Self::with_visible(old(self)@, value),
            value ==> Self::visible(final(self)@),
    ;

    /// Paints the component into `area` of the frame. Nothing but the frame
    /// changes.
    fn draw(&self, f: &mut RenderFrame, area: Rect, db: &Db)
        ensures
            final(f)@.size == old(f)@.size,
            exists|ops: Seq<RenderOpView>| #[trigger]
                Self::paints(self@, area, db@, ops) && final(f)@.ops == old(f)@.ops + ops,
    ;

    /// Takes over the styles of `theme`.
    fn apply_theme(&mut self, theme: &UiTheme)
        ensures
            final(self)@ == Self::themed(old(self)@, *theme),
    ;
}

/// What a component that routes input through the dispatch protocol while
/// it is focused does with a terminal event: nothing at all without focus.
pub open spec fn focused_reaction<T: TermEventDispatcher>(
    focused: bool,
    v: T::V,
    event: TerminalEvent,
    db: DbView,
) -> Reaction<T::V> {
    if focused {
        term_reaction::<T>(v, event, db)
    } else {
        Reaction::ignored(v)
    }
}

/// A component that takes input while it is focused.
pub trait EventComponent: Component + TermEventDispatcher {
    /// Whether the component is focused.
    spec fn focused(v: Self::V) -> bool;

    /// The component after `focus(value)`.
    spec fn with_focus(v: Self::V, value: bool) -> Self::V;

    /// What the component does with a terminal event.
    spec fn input_reaction(v: Self::V, event: TerminalEvent, db: DbView) -> Reaction<Self::V>;

    /// Giving or taking the focus makes the component focused or not.
    proof fn lemma_focus_sets(v: Self::V, value: bool)
        ensures
            Self::focused(Self::with_focus(v, value)) == value,
    ;

    /// Showing or hiding a component does not change whether it is focused.
    proof fn lemma_visibility_keeps_focus(v: Self::V, value: bool)
        ensures
            Self::focused(Self::with_visible(v, value)) == Self::focused(v),
    ;

    /// Gives the focus to the component or takes it away. A container hands
    /// the change on to what it contains.
    fn focus(&mut self, value: bool)
        ensures
            final(self)@ == Self::with_focus(old(self)@, value),
            Self::focused(final(self)@) == value,
    ;

    /// Whether the component is focused.
    fn on_focus(&self) -> (focused: bool)
        ensures
            focused == Self::focused(self@),
    ;

    /// Hands a terminal event to the component.
    fn on_term_event(&mut self, event: &TerminalEvent, db: &Db, bus: &mut UiEvents) -> (consumed: bool)
        ensures
            reacted(
                Self::input_reaction(old(self)@, *event, db@),
                consumed,
                final(self)@,
                pending(old(bus)),
                pending(final(bus)),
            ),
    ;

    /// Routes a terminal event through the dispatch protocol if the
    /// component is focused; without focus the event is not consumed and
    /// nothing changes.
    fn dispatch_when_focused(&mut self, event: &TerminalEvent, db: &Db, bus: &mut UiEvents) -> (consumed: bool)
        ensures
            reacted(
                focused_reaction::<Self>(Self::focused(old(self)@), old(self)@, *event, db@),
                consumed,
                final(self)@,
                pending(old(bus)),
                pending(final(bus)),
            ),
    {
        if self.on_focus() {
            return self.dispatch_term_event(event, db, bus);
        }
        false
    }
}

} // verus!
