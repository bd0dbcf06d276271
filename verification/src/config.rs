//! What the user configures.

use vstd::prelude::*;
use crate::event_dispatcher::KeyEvent;

verus! {

/// The keys of the application.
#[derive(Clone, Copy)]
pub struct KeyMap {
    pub quit: char,
    pub accept: KeyEvent,
    pub reject: KeyEvent,
}

impl KeyMap {
    /// `q` quits, Enter accepts, Escape rejects.
    pub open spec fn standard() -> KeyMap {
        KeyMap { quit: 'q', accept: KeyEvent::Enter, reject: KeyEvent::Esc }
    }
}

impl Default for KeyMap {
    fn default() -> (keys: Self)
        ensures
            keys == KeyMap::standard(),
    {
        Self { quit: 'q', accept: KeyEvent::Enter, reject: KeyEvent::Esc }
    }
}

/// The account of the user.
#[derive(Clone, Copy, Debug)]
pub struct AccountConfig {
    pub id: u64,
}

impl AccountConfig {
    /// Whether the account is set: its `id` is not 0.
    pub fn is_valid(&self) -> (valid: bool)
        ensures
            valid == (self.id > 0),
    {
        self.id > 0
    }
}

impl Default for AccountConfig {
    /// The account that is not set.
    fn default() -> (account: Self)
        ensures
            account.id == 0,
    {
        AccountConfig { id: 0 }
    }
}

} // verus!
