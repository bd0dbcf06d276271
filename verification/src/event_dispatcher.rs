//! The input dispatch protocol: every terminal event is classified into at
//! most one semantic callback, and a component answers each callback with
//! "consumed" or "not consumed".

use vstd::prelude::*;
use crate::component::{Reaction, TerminalEvent, reacted};
use crate::model::{Db, DbView};
use crate::ui_events::{UiEvents, pending};

verus! {

/// A key, without modifiers.
#[derive(Clone, Copy, Debug, PartialEq, Eq, Structural)]
pub enum KeyEvent {
    Backspace,
    Enter,
    Left,
    Right,
    Up,
    Down,
    Home,
    End,
    PageUp,
    PageDown,
    Tab,
    BackTab,
    Delete,
    Insert,
    /// A function key, with its number.
    F(u8),
    /// A character key, with the character typed.
    Char(char),
    Null,
    Esc,
    CapsLock,
    ScrollLock,
    NumLock,
    PrintScreen,
    Pause,
    Menu,
    KeypadBegin,
    /// A media key.
    Media,
    /// A modifier key pressed on its own.
    Modifier,
}

/// The closed set of semantic callbacks a component can receive. Only
/// `Char`, `Paste` and `MenuSwitched` carry a payload.
pub enum Callback {
    Backspace,
    Enter,
    Tab,
    BackTab,
    /// A character was typed; the payload is that character.
    Char(char),
    Esc,
    Left,
    Right,
    Up,
    Down,
    Home,
    End,
    PageUp,
    PageDown,
    Delete,
    Insert,
    Null,
    CapsLock,
    ScrollLock,
    NumLock,
    PrintScreen,
    Pause,
    Menu,
    KeypadBegin,
    /// Text was pasted; the payload is the text.
    Paste(String),
    /// The menu selection moved to the tab with this index.
    MenuSwitched(usize),
}

/// The callback a key maps to: every key but the function, media and
/// modifier keys has exactly one.
pub open spec fn key_callback(key: KeyEvent) -> Option<Callback> {
    match key {
        KeyEvent::Backspace => Some(Callback::Backspace),
        KeyEvent::Enter => Some(Callback::Enter),
        KeyEvent::Tab => Some(Callback::Tab),
        KeyEvent::BackTab => Some(Callback::BackTab),
        KeyEvent::Char(c) => Some(Callback::Char(c)),
        KeyEvent::Esc => Some(Callback::Esc),
        KeyEvent::Left => Some(Callback::Left),
        KeyEvent::Right => Some(Callback::Right),
        KeyEvent::Up => Some(Callback::Up),
        KeyEvent::Down => Some(Callback::Down),
        KeyEvent::Home => Some(Callback::Home),
        KeyEvent::End => Some(Callback::End),
        KeyEvent::PageUp => Some(Callback::PageUp),
        KeyEvent::PageDown => Some(Callback::PageDown),
        KeyEvent::Delete => Some(Callback::Delete),
        KeyEvent::Insert => Some(Callback::Insert),
        KeyEvent::Null => Some(Callback::Null),
        KeyEvent::CapsLock => Some(Callback::CapsLock),
        KeyEvent::ScrollLock => Some(Callback::ScrollLock),
        KeyEvent::NumLock => Some(Callback::NumLock),
        KeyEvent::PrintScreen => Some(Callback::PrintScreen),
        KeyEvent::Pause => Some(Callback::Pause),
        KeyEvent::Menu => Some(Callback::Menu),
        KeyEvent::KeypadBegin => Some(Callback::KeypadBegin),
        KeyEvent::F(_) => None,
        KeyEvent::Media => None,
        KeyEvent::Modifier => None,
    }
}

/// The callback a terminal event maps to: a key goes by `key_callback`, a
/// paste carries its text, and focus, pointer and resize events have none.
pub open spec fn term_callback(event: TerminalEvent) -> Option<Callback> {
    match event {
        TerminalEvent::Key(key) => key_callback(key),
        TerminalEvent::Paste(text) => Some(Callback::Paste(text)),
        TerminalEvent::FocusGained => None,
        TerminalEvent::FocusLost => None,
        TerminalEvent::Mouse => None,
        TerminalEvent::Resize(_, _) => None,
    }
}

/// Classifies a key into its callback.
pub fn classify_key(key: &KeyEvent) -> (callback: Option<Callback>)
    ensures
        callback == key_callback(*key),
{
    match key {
        KeyEvent::Backspace => Some(Callback::Backspace),
        KeyEvent::Enter => Some(Callback::Enter),
        KeyEvent::Tab => Some(Callback::Tab),
        KeyEvent::BackTab => Some(Callback::BackTab),
        KeyEvent::Char(c) => Some(Callback::Char(*c)),
        KeyEvent::Esc => Some(Callback::Esc),
        KeyEvent::Left => Some(Callback::Left),
        KeyEvent::Right => Some(Callback::Right),
        KeyEvent::Up => Some(Callback::Up),
        KeyEvent::Down => Some(Callback::Down),
        KeyEvent::Home => Some(Callback::Home),
        KeyEvent::End => Some(Callback::End),
        KeyEvent::PageUp => Some(Callback::PageUp),
        KeyEvent::PageDown => Some(Callback::PageDown),
        KeyEvent::Delete => Some(Callback::Delete),
        KeyEvent::Insert => Some(Callback::Insert),
        KeyEvent::Null => Some(Callback::Null),
        KeyEvent::CapsLock => Some(Callback::CapsLock),
        KeyEvent::ScrollLock => Some(Callback::ScrollLock),
        KeyEvent::NumLock => Some(Callback::NumLock),
        KeyEvent::PrintScreen => Some(Callback::PrintScreen),
        KeyEvent::Pause => Some(Callback::Pause),
        KeyEvent::Menu => Some(Callback::Menu),
        KeyEvent::KeypadBegin => Some(Callback::KeypadBegin),
        KeyEvent::F(_) => None,
        KeyEvent::Media => None,
        KeyEvent::Modifier => None,
    }
}

/// Classifies a terminal event into its callback.
pub fn classify_term_event(event: &TerminalEvent) -> (callback: Option<Callback>)
    ensures
        callback == term_callback(*event),
{
    match event {
        TerminalEvent::Key(key) => classify_key(key),
        TerminalEvent::Paste(text) => Some(Callback::Paste(text.clone())),
        TerminalEvent::FocusGained => None,
        TerminalEvent::FocusLost => None,
        TerminalEvent::Mouse => None,
        TerminalEvent::Resize(_, _) => None,
    }
}

/// What a component does with a terminal event: the reaction to the
/// event's callback, or nothing at all where the event has none.
pub open spec fn term_reaction<T: KeyEventDispatcher>(v: T::V, event: TerminalEvent, db: DbView) -> Reaction<T::V> {
    match term_callback(event) {
        Some(callback) => T::reaction(v, callback, db),
        None => Reaction::ignored(v),
    }
}

/// A component that answers semantic callbacks.
pub trait KeyEventDispatcher: View + Sized {
    /// The component's answer to a callback, as a function of its state and
    /// of the entity cache: whether it consumes the event, the state it moves
    /// to, and the events it puts on the bus. A callback the component does
    /// not handle is answered by `Reaction::ignored`.
    spec fn reaction(v: Self::V, callback: Callback, db: DbView) -> Reaction<Self::V>;

    /// Answers one callback.
    fn on_callback(&mut self, callback: &Callback, db: &Db, bus: &mut UiEvents) -> (consumed: bool)
        ensures
            reacted(
                Self::reaction(old(self)@, *callback, db@),
                consumed,
                final(self)@,
                pending(old(bus)),
                pending(final(bus)),
            ),
    ;

    /// Finds the callback of a key and answers it. A key without a
    /// callback is not consumed and changes nothing.
    fn dispatch_key_event(&mut self, key_code: &KeyEvent, db: &Db, bus: &mut UiEvents) -> (consumed: bool)
        ensures
            reacted(
                match key_callback(*key_code) {
                    Some(callback) => Self::reaction(old(self)@, callback, db@),
                    None => Reaction::ignored(old(self)@),
                },
                consumed,
                final(self)@,
                pending(old(bus)),
                pending(final(bus)),
            ),
    {
        match classify_key(key_code) {
            Some(callback) => self.on_callback(&callback, db, bus),
            None => false,
        }
    }
}

/// A component that answers terminal events.
pub trait TermEventDispatcher: KeyEventDispatcher {
    /// Finds the callback of a terminal event and answers it. An
    /// event without a callback is not consumed and changes nothing.
    fn dispatch_term_event(&mut self, event: &TerminalEvent, db: &Db, bus: &mut UiEvents) -> (consumed: bool)
        ensures
            reacted(
                term_reaction::<Self>(old(self)@, *event, db@),
                consumed,
                final(self)@,
                pending(old(bus)),
                pending(final(bus)),
            ),
    {
        match classify_term_event(event) {
            Some(callback) => self.on_callback(&callback, db, bus),
            None => false,
        }
    }
}

} // verus!
