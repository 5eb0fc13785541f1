//! Keys and what a list does under them.

use crate::time::Instant;
use crate::ui::widget::{WidgetData, WidgetItem, WidgetState};
use vstd::prelude::*;

verus! {

/// A key of the keyboard, as far as the interface tells keys apart.
#[derive(Clone, Copy, Debug, PartialEq, Eq, Structural)]
pub enum KeyCode {
    Backspace,
    Enter,
    Left,
    Right,
    Up,
    Down,
    Home,
    End,
    Esc,
    Char(char),
    /// Any other key.
    Other,
}

/// The modifier keys that were held while a key was pressed.
#[derive(Clone, Copy, Debug, PartialEq, Eq, Structural)]
pub struct KeyModifiers {
    pub shift: bool,
    pub control: bool,
    pub alt: bool,
}

/// A key press: the key, the modifiers held with it, and the local date and
/// time at which it was read.
#[derive(Clone, Copy, Debug, PartialEq, Eq, Structural)]
pub struct KeyEvent {
    pub code: KeyCode,
    pub modifiers: KeyModifiers,
    pub at: Instant,
}

/// A part of the interface that takes key presses.
pub trait KeyHandler {
    /// Whether the part, as it stands, can take the key press.
    spec fn accepts(&self, event: KeyEvent) -> bool;

    /// Whether the part, as it stands, can take the key press.
    fn can_handle(&self, event: &KeyEvent) -> (r: bool)
        ensures
            r == self.accepts(*event),
    ;

    /// Takes the key press.
    fn handle_key(&mut self, event: &KeyEvent)
        requires
            old(self).accepts(*event),
    ;
}

/// What a key does to a list.
#[derive(Clone, Copy, Debug, PartialEq, Eq, Structural)]
pub enum Scroll {
    /// One item down: `j` or the down arrow.
    Down,
    /// One item up: `k` or the up arrow.
    Up,
    /// To the first item: the home key.
    First,
    /// To the last item: the end key.
    Last,
    /// Choose the item under the cursor: the enter key.
    Choose,
    /// Nothing: any other key.
    Stay,
}

/// What the key `code` does to a list.
pub open spec fn scroll_of(code: KeyCode) -> Scroll {
    match code {
        KeyCode::Char(c) => if c == 'j' {
            Scroll::Down
        } else if c == 'k' {
            Scroll::Up
        } else {
            Scroll::Stay
        },
        KeyCode::Down => Scroll::Down,
        KeyCode::Up => Scroll::Up,
        KeyCode::Home => Scroll::First,
        KeyCode::End => Scroll::Last,
        KeyCode::Enter => Scroll::Choose,
        _ => Scroll::Stay,
    }
}

/// Whether the list `data` can take the key `code`: a step needs an item
/// once the cursor is on the list, and the way to the last item needs an
/// item.
pub open spec fn can_scroll<T, K, S>(data: WidgetData<T, K, S>, code: KeyCode) -> bool where
    T: WidgetItem<K>,
    S: WidgetState,
 {
    match scroll_of(code) {
        Scroll::Down | Scroll::Up => data.can_step(),
        Scroll::Last => data.items@.len() > 0,
        _ => true,
    }
}

/// Whether `after` is the list `before` once it has taken the key `code`.
pub open spec fn scrolled<T, K, S>(
    before: WidgetData<T, K, S>,
    after: WidgetData<T, K, S>,
    code: KeyCode,
) -> bool where T: WidgetItem<K>, S: WidgetState {
    &&& after.items == before.items
    &&& match scroll_of(code) {
        Scroll::Down => after.state.selection() == Some(before.next_index()),
        Scroll::Up => after.state.selection() == Some(before.prev_index()),
        Scroll::First => after.state.selection() == Some(0usize),
        Scroll::Last => after.state.selection() == Some((before.items@.len() - 1) as usize),
        Scroll::Choose | Scroll::Stay => after.state == before.state,
    }
    &&& match scroll_of(code) {
        Scroll::Choose => match before.selected_item() {
            Some(item) => after.key == item.val() && after.changed,
            None => after.key == before.key && after.changed == before.changed,
        },
        _ => after.key == before.key && after.changed == before.changed,
    }
}

/// What the key `code` does to a list.
pub fn scroll_for(code: &KeyCode) -> (r: Scroll)
    ensures
        r == scroll_of(*code),
{
    match code {
        KeyCode::Char(c) => {
            if *c == 'j' {
                Scroll::Down
            } else if *c == 'k' {
                Scroll::Up
            } else {
                Scroll::Stay
            }
        },
        KeyCode::Down => Scroll::Down,
        KeyCode::Up => Scroll::Up,
        KeyCode::Home => Scroll::First,
        KeyCode::End => Scroll::Last,
        KeyCode::Enter => Scroll::Choose,
        _ => Scroll::Stay,
    }
}

/// Whether the list `data` can take the key `code`.
pub fn is_scrollable<T, K, S>(data: &WidgetData<T, K, S>, code: &KeyCode) -> (r: bool) where
    T: WidgetItem<K>,
    S: WidgetState,

    ensures
        r == can_scroll(*data, *code),
{
    match scroll_for(code) {
        Scroll::Down | Scroll::Up => data.is_steppable(),
        Scroll::Last => data.items.len() > 0,
        _ => true,
    }
}

/// Moves the cursor of a list under a key, or chooses the item under the
/// cursor.
///
/// `j` and the down arrow step down, `k` and the up arrow step up, the home
/// and end keys go to the first and the last item. The enter key takes the
/// value of the item under the cursor as the key of the list and marks the
/// key as changed. Any other key does nothing.
pub fn scroll_nav<T, K, S>(data: &mut WidgetData<T, K, S>, code: &KeyCode) where
    T: WidgetItem<K>,
    S: WidgetState,

    requires
        can_scroll(*old(data), *code),
    ensures
        scrolled(*old(data), *final(data), *code),
{
    match scroll_for(code) {
        Scroll::Down => {
            data.next();
        },
        Scroll::Up => {
            data.prev();
        },
        Scroll::First => {
            data.start();
        },
        Scroll::Last => {
            data.end();
        },
        Scroll::Choose => {
            data.update();
        },
        Scroll::Stay => {},
    }
}

} // verus!
