//! Raw events, the intents they stand for, and the table that maps a key to
//! an intent in normal mode.

use vstd::prelude::*;

verus! {

/// A key as the mapping reads it.
#[derive(Clone, Copy, Debug, PartialEq, Eq, Structural)]
pub enum Key {
    Char(char),
    Esc,
    Enter,
    Up,
    Down,
    Left,
    Right,
    Other,
}

/// One event of the merged stream.
#[derive(Clone, Copy, Debug, PartialEq, Eq, Structural)]
pub enum Event {
    /// The input layer failed to read.
    Error,
    /// The logic clock fired.
    Tick,
    /// The render clock fired.
    Render,
    /// A key was pressed.
    Key(Key),
    /// The session is to end.
    Quit,
    /// Anything else the terminal reports, such as a resize.
    Other,
}

/// What the operator, or a clock, asks of the application.
#[derive(Debug, PartialEq, Eq)]
pub enum Action {
    NEXT,
    PREVIOUS,
    NextColor,
    PreviousColor,
    SearchFocus,
    SearchCoin(String),
    Refresh,
    Tick,
    Increment,
    Decrement,
    Quit,
    Render,
    Noop,
}

impl Clone for Action {
    fn clone(&self) -> (copy: Self)
        ensures
            copy == *self,
    {
        match self {
            Action::NEXT => Action::NEXT,
            Action::PREVIOUS => Action::PREVIOUS,
            Action::NextColor => Action::NextColor,
            Action::PreviousColor => Action::PreviousColor,
            Action::SearchFocus => Action::SearchFocus,
            Action::SearchCoin(coin) => Action::SearchCoin(coin.clone()),
            Action::Refresh => Action::Refresh,
            Action::Tick => Action::Tick,
            Action::Increment => Action::Increment,
            Action::Decrement => Action::Decrement,
            Action::Quit => Action::Quit,
            Action::Render => Action::Render,
            Action::Noop => Action::Noop,
        }
    }
}

/// The intent behind a key in normal mode.
pub open spec fn key_action(key: Key) -> Action {
    match key {
        Key::Char('q') | Key::Esc => Action::Quit,
        Key::Char('j') | Key::Down => Action::NEXT,
        Key::Char('k') | Key::Up => Action::PREVIOUS,
        Key::Char('l') | Key::Right => Action::NextColor,
        Key::Char('h') | Key::Left => Action::PreviousColor,
        Key::Char('s') => Action::SearchFocus,
        Key::Char('r') => Action::Refresh,
        _ => Action::Noop,
    }
}

/// The intent behind an event in normal mode: the clocks map to themselves, a
/// key by `key_action`, everything else to `Noop`.
pub open spec fn event_action(event: Event) -> Action {
    match event {
        Event::Tick => Action::Tick,
        Event::Render => Action::Render,
        Event::Key(key) => key_action(key),
        _ => Action::Noop,
    }
}

/// Maps an event to its intent in normal mode.
pub fn get_action(event: Event) -> (action: Action)
    ensures
        action == event_action(event),
{
    match event {
        Event::Error => Action::Noop,
        Event::Tick => Action::Tick,
        Event::Render => Action::Render,
        Event::Key(key) => {
            match key {
                Key::Char('q') | Key::Esc => Action::Quit,
                Key::Char('j') | Key::Down => Action::NEXT,
                Key::Char('k') | Key::Up => Action::PREVIOUS,
                Key::Char('l') | Key::Right => Action::NextColor,
                Key::Char('h') | Key::Left => Action::PreviousColor,
                Key::Char('s') => Action::SearchFocus,
                Key::Char('r') => Action::Refresh,
                _ => Action::Noop,
            }
        },
        _ => Action::Noop,
    }
}

} // verus!
