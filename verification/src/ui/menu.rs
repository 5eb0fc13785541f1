//! The blocks of the menu: the search field, the list of stations, and the
//! choice of date and time.

use crate::date::Date;
use crate::display::Station;
use crate::handler::{can_scroll, is_scrollable, scroll_nav, scrolled, KeyCode, KeyEvent, KeyHandler, KeyModifiers};
use crate::text::{clear_text, pop_char, push_char};
use crate::time::{Duration, Time};
use crate::ui::widget::{Cursor, WidgetData, WidgetState};
use vstd::prelude::*;

verus! {

/// The list of the stations to choose from. Its key is the identifier of the
/// stop that was chosen.
pub struct StationList {
    pub data: WidgetData<Station, String, Cursor>,
}

impl Default for StationList {
    fn default() -> (r: StationList)
        ensures
            r.data.items@.len() == 0,
            r.data.state.selection() is None,
            r.data.changed,
            r.data.key@ == Seq::<char>::empty(),
    {
        StationList { data: WidgetData::new(String::new()) }
    }
}

impl KeyHandler for StationList {
    open spec fn accepts(&self, event: KeyEvent) -> bool {
        can_scroll(self.data, event.code)
    }

    fn can_handle(&self, event: &KeyEvent) -> (r: bool) {
        is_scrollable(&self.data, &event.code)
    }

    /// Scrolls the list, or chooses the station under the cursor.
    fn handle_key(&mut self, event: &KeyEvent)
        ensures
            scrolled(old(self).data, final(self).data, event.code),
    {
        scroll_nav(&mut self.data, &event.code);
    }
}

/// What a key does to a chosen date or time.
#[derive(Clone, Copy, Debug, PartialEq, Eq, Structural)]
pub enum Step {
    /// A step back: `h` or the left arrow.
    Back,
    /// A step forth: `l` or the right arrow.
    Forth,
    /// To the present: `t` for the date, `n` for the time.
    Present,
    /// Nothing: any other key.
    Stay,
}

/// What the key `code` does to a chosen date or time, where `present` is the
/// letter that leads to the present.
pub open spec fn step_of(code: KeyCode, present: char) -> Step {
    match code {
        KeyCode::Left => Step::Back,
        KeyCode::Right => Step::Forth,
        KeyCode::Char(c) => if c == 'h' {
            Step::Back
        } else if c == 'l' {
            Step::Forth
        } else if c == present {
            Step::Present
        } else {
            Step::Stay
        },
        _ => Step::Stay,
    }
}

/// What the key `code` does to a chosen date or time, where `present` is the
/// letter that leads to the present.
pub fn step_for(code: &KeyCode, present: char) -> (r: Step)
    ensures
        r == step_of(*code, present),
{
    match code {
        KeyCode::Left => Step::Back,
        KeyCode::Right => Step::Forth,
        KeyCode::Char(c) => {
            if *c == 'h' {
                Step::Back
            } else if *c == 'l' {
                Step::Forth
            } else if *c == present {
                Step::Present
            } else {
                Step::Stay
            }
        },
        _ => Step::Stay,
    }
}

/// The date for which the board is asked.
#[derive(Clone, Copy, Debug, PartialEq, Eq, Structural)]
pub struct DateSelection {
    pub date: Date,
}

/// The date that is chosen once `date` has taken the key press: the day
/// before or after, or the day of the key press. A step that would leave the
/// calendar is not taken.
pub open spec fn date_after(date: Date, event: KeyEvent) -> Date {
    match step_of(event.code, 't') {
        Step::Back => match date.earlier_by(1) {
            Some(day) => day,
            None => date,
        },
        Step::Forth => match date.later_by(1) {
            Some(day) => day,
            None => date,
        },
        Step::Present => event.at.date,
        Step::Stay => date,
    }
}

impl DateSelection {
    /// The choice of `date`.
    pub fn new(date: Date) -> (r: DateSelection)
        ensures
            r.date == date,
    {
        DateSelection { date }
    }
}

impl KeyHandler for DateSelection {
    open spec fn accepts(&self, event: KeyEvent) -> bool {
        true
    }

    fn can_handle(&self, event: &KeyEvent) -> (r: bool) {
        true
    }

    /// Steps a day back under `h` or the left arrow and a day forth under
    /// `l` or the right arrow; `t` chooses the day of the key press.
    fn handle_key(&mut self, event: &KeyEvent)
        ensures
            final(self).date == date_after(old(self).date, *event),
    {
        match step_for(&event.code, 't') {
            Step::Back => {
                match self.date.minus_days(1) {
                    Some(day) => {
                        self.date = day;
                    },
                    None => {},
                }
            },
            Step::Forth => {
                match self.date.plus_days(1) {
                    Some(day) => {
                        self.date = day;
                    },
                    None => {},
                }
            },
            Step::Present => {
                self.date = event.at.date;
            },
            Step::Stay => {},
        }
    }
}

/// The time of day from which on the board is asked.
#[derive(Clone, Copy, Debug, PartialEq, Eq, Structural)]
pub struct TimeSelection {
    pub time: Time,
}

/// The length of a step of the time: five minutes with the shift key, an
/// hour without it.
pub open spec fn modified_duration(modifiers: KeyModifiers) -> Duration {
    Duration { secs: if modifiers.shift { 300 } else { 3600 } }
}

/// The time that is chosen once `time` has taken the key press: a step back
/// or forth round the clock, or the time of the key press.
pub open spec fn time_after(time: Time, event: KeyEvent) -> Time {
    let step = modified_duration(event.modifiers).secs as int;
    match step_of(event.code, 'n') {
        Step::Back => Time::of((time@ - step) % 86_400),
        Step::Forth => Time::of((time@ + step) % 86_400),
        Step::Present => event.at.time,
        Step::Stay => time,
    }
}

/// The length of a step of the time: five minutes with the shift key, an
/// hour without it.
pub fn get_modified_duration(modifiers: &KeyModifiers) -> (r: Duration)
    ensures
        r == modified_duration(*modifiers),
{
    Duration::seconds(if modifiers.shift { 300 } else { 3600 })
}

impl TimeSelection {
    /// The choice of `time`.
    pub fn new(time: Time) -> (r: TimeSelection)
        ensures
            r.time == time,
    {
        TimeSelection { time }
    }
}

impl KeyHandler for TimeSelection {
    open spec fn accepts(&self, event: KeyEvent) -> bool {
        true
    }

    fn can_handle(&self, event: &KeyEvent) -> (r: bool) {
        true
    }

    /// Steps back under `h` or the left arrow and forth under `l` or the
    /// right arrow, round the clock; `n` chooses the time of the key press.
    fn handle_key(&mut self, event: &KeyEvent)
        ensures
            final(self).time == time_after(old(self).time, *event),
    {
        let step: u32 = get_modified_duration(&event.modifiers).num_seconds();
        match step_for(&event.code, 'n') {
            Step::Back => {
                self.time = self.time.wrapping_sub(step);
            },
            Step::Forth => {
                self.time = self.time.wrapping_add(step);
            },
            Step::Present => {
                self.time = event.at.time;
            },
            Step::Stay => {},
        }
    }
}

/// The search field: the text that was typed, and whether a search for it is
/// due.
#[derive(Clone, Debug, PartialEq, Eq)]
pub struct Search {
    pub input: String,
    pub changed: bool,
}

/// Whether `c` is a letter of the Latin alphabet without marks.
pub open spec fn is_plain_letter(c: char) -> bool {
    ('a' <= c && c <= 'z') || ('A' <= c && c <= 'Z')
}

/// The text of the search field once it has taken the key press: backspace
/// takes the last character off, `u` with the control key empties the field,
/// any other character is put behind the text.
pub open spec fn input_after(input: Seq<char>, event: KeyEvent) -> Seq<char> {
    match event.code {
        KeyCode::Backspace => if input.len() > 0 {
            input.drop_last()
        } else {
            input
        },
        KeyCode::Char(c) => if c == 'u' && event.modifiers.control {
            Seq::empty()
        } else {
            input.push(c)
        },
        _ => input,
    }
}

/// Whether `after` is the search field `before` once it has taken the key
/// press: the text is edited, and the enter key marks a search as due.
pub open spec fn searched(before: Search, after: Search, event: KeyEvent) -> bool {
    &&& after.input@ == input_after(before.input@, event)
    &&& after.changed == (before.changed || event.code == KeyCode::Enter)
}

impl Default for Search {
    fn default() -> (r: Search)
        ensures
            r.input@ == Seq::<char>::empty(),
            r.changed,
    {
        Search { input: String::new(), changed: true }
    }
}

impl Search {
    /// Takes the last character off the text, if it has one.
    pub fn input_remove(&mut self)
        ensures
            final(self).input@ == (if old(self).input@.len() > 0 {
                old(self).input@.drop_last()
            } else {
                old(self).input@
            }),
            final(self).changed == old(self).changed,
    {
        let _ = pop_char(&mut self.input);
    }

    /// Empties the text and marks a search as due.
    pub fn input_clear(&mut self)
        ensures
            final(self).input@ == Seq::<char>::empty(),
            final(self).changed,
    {
        clear_text(&mut self.input);
        self.notify_input_change();
    }

    /// Puts `c` behind the text if it is a plain letter; any other character
    /// is dropped.
    pub fn input_add(&mut self, c: char)
        ensures
            final(self).input@ == (if is_plain_letter(c) {
                old(self).input@.push(c)
            } else {
                old(self).input@
            }),
            final(self).changed == old(self).changed,
    {
        if ('a' <= c && c <= 'z') || ('A' <= c && c <= 'Z') {
            push_char(&mut self.input, c);
        }
    }

    /// Marks a search as due.
    pub fn notify_input_change(&mut self)
        ensures
            final(self).changed,
            final(self).input == old(self).input,
    {
        self.changed = true;
    }
}

impl KeyHandler for Search {
    open spec fn accepts(&self, event: KeyEvent) -> bool {
        true
    }

    fn can_handle(&self, event: &KeyEvent) -> (r: bool) {
        true
    }

    /// Edits the text under backspace and the character keys; the enter key
    /// marks a search as due.
    fn handle_key(&mut self, event: &KeyEvent)
        ensures
            searched(*old(self), *final(self), *event),
    {
        match event.code {
            KeyCode::Backspace => {
                let _ = pop_char(&mut self.input);
            },
            KeyCode::Char(c) => {
                if c == 'u' && event.modifiers.control {
                    clear_text(&mut self.input);
                } else {
                    push_char(&mut self.input, c);
                }
            },
            KeyCode::Enter => {
                self.changed = true;
            },
            _ => {},
        }
    }
}

} // verus!
