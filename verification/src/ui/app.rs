//! The interface as a whole: its blocks, which of them is hovered over and
//! which has the focus, and what is due to be read from the feed.

use crate::display::{DisplayStop, Station};
use crate::handler::{KeyCode, KeyEvent, KeyHandler};
use crate::time::Instant;
use crate::ui::block::SelectableBlock;
use crate::ui::board::Board;
use crate::handler::scrolled;
use crate::ui::menu::{
    date_after, is_plain_letter, searched, time_after, DateSelection, Search, StationList,
    TimeSelection,
};
use crate::ui::trip::Trip;
use crate::ui::widget::WidgetState;
use vstd::prelude::*;

verus! {

/// How the frame of a block is drawn.
#[derive(Clone, Copy, Debug, PartialEq, Eq, Structural)]
pub enum Highlight {
    /// The block is hovered over and has the focus.
    Focused,
    /// The block is hovered over.
    Hovered,
    /// The block is not hovered over.
    Plain,
}

/// How the frame of a block is drawn that is or is not hovered over and has
/// or has not the focus.
pub fn create_block(hovered: bool, selected: bool) -> (r: Highlight)
    ensures
        r == (if hovered && selected {
            Highlight::Focused
        } else if hovered {
            Highlight::Hovered
        } else {
            Highlight::Plain
        }),
{
    if hovered {
        if selected {
            Highlight::Focused
        } else {
            Highlight::Hovered
        }
    } else {
        Highlight::Plain
    }
}

/// What the interface is due to read from the feed.
#[derive(Clone, Debug, PartialEq, Eq)]
pub enum Request {
    /// The stations for the text of the search field.
    Stations { input: String },
    /// The board of the chosen station for the chosen date and time.
    Board { stop_id: String, reference: Instant },
    /// Nothing.
    Nothing,
}

/// The state of the interface.
pub struct App {
    pub block_hover: SelectableBlock,
    pub block_focused: Option<SelectableBlock>,
    pub search: Search,
    pub date_selection: DateSelection,
    pub time_selection: TimeSelection,
    pub station_list: StationList,
    pub board: Board,
    pub trip: Trip,
}

/// The block that is hovered over once the key `code` was pressed while no
/// block had the focus: `j` and `k` or the arrows up and down go round the
/// ring, `h` and `l` or the arrows left and right go from column to column.
pub open spec fn hover_after(hover: SelectableBlock, code: KeyCode) -> SelectableBlock {
    match code {
        KeyCode::Down => SelectableBlock::at((hover.place() + 1) % 6),
        KeyCode::Up => SelectableBlock::at((hover.place() + 5) % 6),
        KeyCode::Left => SelectableBlock::head_of((hover.column() + 2) % 3),
        KeyCode::Right => SelectableBlock::head_of((hover.column() + 1) % 3),
        KeyCode::Char(c) => if c == 'j' {
            SelectableBlock::at((hover.place() + 1) % 6)
        } else if c == 'k' {
            SelectableBlock::at((hover.place() + 5) % 6)
        } else if c == 'h' {
            SelectableBlock::head_of((hover.column() + 2) % 3)
        } else if c == 'l' {
            SelectableBlock::head_of((hover.column() + 1) % 3)
        } else {
            hover
        },
        _ => hover,
    }
}

impl App {
    /// The interface once the key press has moved it from block to block:
    /// the hovered block follows the key, the enter key gives the focus to
    /// the hovered block, and nothing else changes.
    pub open spec fn after_nav(self, event: KeyEvent) -> App {
        App {
            block_hover: hover_after(self.block_hover, event.code),
            block_focused: if event.code == KeyCode::Enter {
                Some(self.block_hover)
            } else {
                self.block_focused
            },
            ..self
        }
    }

    /// Whether `after` is the interface `self` once it has taken the key
    /// press: the block that has the focus has moved as its keys say, or,
    /// while no block has the focus, the interface has moved from block to
    /// block. Nothing else has changed.
    pub open spec fn handled(self, after: App, event: KeyEvent) -> bool {
        match self.block_focused {
            Some(SelectableBlock::SEARCH) => searched(self.search, after.search, event) && after
                == (App { search: after.search, ..self }),
            Some(SelectableBlock::STATION) => scrolled(
                self.station_list.data,
                after.station_list.data,
                event.code,
            ) && after == (App { station_list: after.station_list, ..self }),
            Some(SelectableBlock::DATE) => after == (App {
                date_selection: DateSelection { date: date_after(self.date_selection.date, event) },
                ..self
            }),
            Some(SelectableBlock::TIME) => after == (App {
                time_selection: TimeSelection { time: time_after(self.time_selection.time, event) },
                ..self
            }),
            Some(SelectableBlock::BOARD) => scrolled(self.board.data, after.board.data, event.code)
                && after == (App { board: after.board, ..self }),
            Some(SelectableBlock::TRIP) => scrolled(self.trip.data, after.trip.data, event.code)
                && after == (App { trip: after.trip, ..self }),
            None => after == self.after_nav(event),
        }
    }

    /// The interface at its start: the search block is hovered over, no
    /// block has the focus, the lists are empty, and date and time are those
    /// of `now`.
    pub fn new(now: Instant) -> (r: App)
        ensures
            r.block_hover == SelectableBlock::SEARCH,
            r.block_focused is None,
            r.search.input@ == Seq::<char>::empty(),
            r.search.changed,
            r.date_selection.date == now.date,
            r.time_selection.time == now.time,
            r.station_list.data.items@.len() == 0,
            r.station_list.data.state.selection() is None,
            r.station_list.data.changed,
            r.station_list.data.key@ == Seq::<char>::empty(),
            r.board.data.items@.len() == 0,
            r.board.data.state.selection() is None,
            r.board.data.changed,
            r.board.data.key == 0,
            r.trip.data.items@.len() == 0,
            r.trip.data.state.selection() is None,
            r.trip.data.changed,
            r.trip.data.key == 0,
    {
        App {
            block_hover: SelectableBlock::SEARCH,
            block_focused: None,
            search: Search::default(),
            date_selection: DateSelection::new(now.date),
            time_selection: TimeSelection::new(now.time),
            station_list: StationList::default(),
            board: Board::default(),
            trip: Trip::default(),
        }
    }

    /// Whether the block that has the focus can take the key press. While
    /// no block has the focus, every key press can be taken.
    pub open spec fn focus_accepts(&self, event: KeyEvent) -> bool {
        match self.block_focused {
            Some(SelectableBlock::SEARCH) => self.search.accepts(event),
            Some(SelectableBlock::STATION) => self.station_list.accepts(event),
            Some(SelectableBlock::DATE) => self.date_selection.accepts(event),
            Some(SelectableBlock::TIME) => self.time_selection.accepts(event),
            Some(SelectableBlock::BOARD) => self.board.accepts(event),
            Some(SelectableBlock::TRIP) => self.trip.accepts(event),
            None => true,
        }
    }

    /// Whether the key press can be taken: `q` and the escape key always
    /// can, any other key if the block that has the focus can take it.
    pub open spec fn can_process(&self, event: KeyEvent) -> bool {
        event.code == KeyCode::Char('q') || event.code == KeyCode::Esc || self.focus_accepts(event)
    }

    /// The instant for which the board is asked: the chosen date at the
    /// chosen time.
    pub fn selected_instant(&self) -> (r: Instant)
        ensures
            r.date == self.date_selection.date,
            r.time == self.time_selection.time,
    {
        Instant::new(self.date_selection.date, self.time_selection.time)
    }

    /// How the frame of `block` is drawn.
    pub fn highlight_of(&self, block: SelectableBlock) -> (r: Highlight)
        ensures
            r == (if self.block_hover == block && self.block_focused == Some(block) {
                Highlight::Focused
            } else if self.block_hover == block {
                Highlight::Hovered
            } else {
                Highlight::Plain
            }),
    {
        let selected: bool = match self.block_focused {
            Some(focused) => focused == block,
            None => false,
        };
        create_block(self.block_hover == block, selected)
    }

    /// Whether the block that has the focus can take the key press.
    pub fn focus_can_handle(&self, event: &KeyEvent) -> (r: bool)
        ensures
            r == self.focus_accepts(*event),
    {
        match self.block_focused {
            Some(SelectableBlock::SEARCH) => self.search.can_handle(event),
            Some(SelectableBlock::STATION) => self.station_list.can_handle(event),
            Some(SelectableBlock::DATE) => self.date_selection.can_handle(event),
            Some(SelectableBlock::TIME) => self.time_selection.can_handle(event),
            Some(SelectableBlock::BOARD) => self.board.can_handle(event),
            Some(SelectableBlock::TRIP) => self.trip.can_handle(event),
            None => true,
        }
    }

    /// Hands the key press to the block that has the focus, or moves from
    /// block to block while none has it.
    pub fn key_handler(&mut self, event: &KeyEvent)
        requires
            old(self).focus_accepts(*event),
        ensures
            old(self).handled(*final(self), *event),
    {
        match self.block_focused {
            Some(SelectableBlock::SEARCH) => {
                self.search.handle_key(event);
            },
            Some(SelectableBlock::STATION) => {
                self.station_list.handle_key(event);
            },
            Some(SelectableBlock::DATE) => {
                self.date_selection.handle_key(event);
            },
            Some(SelectableBlock::TIME) => {
                self.time_selection.handle_key(event);
            },
            Some(SelectableBlock::BOARD) => {
                self.board.handle_key(event);
            },
            Some(SelectableBlock::TRIP) => {
                self.trip.handle_key(event);
            },
            None => {
                self.handle_key(event);
            },
        }
    }

    /// Whether the key press can be taken.
    pub fn is_processable(&self, event: &KeyEvent) -> (r: bool)
        ensures
            r == self.can_process(*event),
    {
        match event.code {
            KeyCode::Char(c) => c == 'q' || self.focus_can_handle(event),
            KeyCode::Esc => true,
            _ => self.focus_can_handle(event),
        }
    }

    /// Takes a key press and says whether the interface goes on.
    ///
    /// `q` ends the interface. The escape key takes the focus from the block
    /// that has it. Any other key goes to the block that has the focus or,
    /// while none has it, moves from block to block.
    pub fn process(&mut self, event: &KeyEvent) -> (goes_on: bool)
        requires
            old(self).can_process(*event),
        ensures
            goes_on == (event.code != KeyCode::Char('q')),
            if event.code == KeyCode::Char('q') {
                *final(self) == *old(self)
            } else if event.code == KeyCode::Esc {
                *final(self) == (App { block_focused: None, ..*old(self) })
            } else {
                old(self).handled(*final(self), *event)
            },
    {
        match event.code {
            KeyCode::Char(c) => {
                if c == 'q' {
                    return false;
                }
                self.key_handler(event);
            },
            KeyCode::Esc => {
                self.block_focused = None;
            },
            _ => {
                self.key_handler(event);
            },
        }
        true
    }

    /// Takes the last character off the searched text, if it has one.
    pub fn input_remove(&mut self)
        ensures
            *final(self) == (App { search: final(self).search, ..*old(self) }),
            final(self).search.changed == old(self).search.changed,
            final(self).search.input@ == (if old(self).search.input@.len() > 0 {
                old(self).search.input@.drop_last()
            } else {
                old(self).search.input@
            }),
    {
        self.search.input_remove();
    }

    /// Empties the searched text and marks a search as due.
    pub fn input_clear(&mut self)
        ensures
            *final(self) == (App { search: final(self).search, ..*old(self) }),
            final(self).search.changed,
            final(self).search.input@ == Seq::<char>::empty(),
    {
        self.search.input_clear();
    }

    /// Puts `c` behind the searched text if it is a plain letter; any other
    /// character is dropped.
    pub fn input_add(&mut self, c: char)
        ensures
            *final(self) == (App { search: final(self).search, ..*old(self) }),
            final(self).search.changed == old(self).search.changed,
            final(self).search.input@ == (if is_plain_letter(c) {
                old(self).search.input@.push(c)
            } else {
                old(self).search.input@
            }),
    {
        self.search.input_add(c);
    }

    /// Marks a search as due.
    pub fn notify_input_change(&mut self)
        ensures
            *final(self) == (App {
                search: Search { input: old(self).search.input, changed: true },
                ..*old(self)
            }),
    {
        self.search.notify_input_change();
    }

    /// What is due to be read from the feed: the stations where a search is
    /// due, else the board where the chosen station has changed.
    pub fn pending(&self) -> (r: Request)
        ensures
            match r {
                Request::Stations { input } => self.search.changed && input == self.search.input,
                Request::Board { stop_id, reference } => !self.search.changed
                    && self.station_list.data.changed && stop_id == self.station_list.data.key
                    && reference.date == self.date_selection.date && reference.time
                    == self.time_selection.time,
                Request::Nothing => !self.search.changed && !self.station_list.data.changed,
            },
    {
        if self.search.changed {
            Request::Stations { input: self.search.input.clone() }
        } else if self.station_list.data.changed {
            Request::Board {
                stop_id: self.station_list.data.key.clone(),
                reference: self.selected_instant(),
            }
        } else {
            Request::Nothing
        }
    }

    /// Takes the stations that were read for the search: they become the
    /// items of the list of stations, and no search is due any more.
    pub fn put_stations(&mut self, stations: Vec<Station>)
        ensures
            final(self).station_list.data.items == stations,
            final(self).station_list.data.state.selection() is None,
            final(self).station_list.data.key == old(self).station_list.data.key,
            final(self).station_list.data.changed == old(self).station_list.data.changed,
            *final(self) == (App {
                station_list: final(self).station_list,
                search: Search { input: old(self).search.input, changed: false },
                ..*old(self)
            }),
    {
        self.station_list.data.set_items(stations);
        self.search.changed = false;
    }

    /// Takes the board that was computed for the chosen station: its lines
    /// become the items of the board, and the change of station is settled.
    pub fn put_board(&mut self, lines: Vec<DisplayStop>)
        ensures
            final(self).board.data.items == lines,
            final(self).board.data.state.selection() is None,
            final(self).board.data.key == old(self).board.data.key,
            final(self).board.data.changed == old(self).board.data.changed,
            final(self).station_list.data.items == old(self).station_list.data.items,
            final(self).station_list.data.state == old(self).station_list.data.state,
            final(self).station_list.data.key == old(self).station_list.data.key,
            !final(self).station_list.data.changed,
            *final(self) == (App {
                board: final(self).board,
                station_list: final(self).station_list,
                ..*old(self)
            }),
    {
        self.board.data.set_items(lines);
        self.station_list.data.changed = false;
    }
}

impl KeyHandler for App {
    open spec fn accepts(&self, event: KeyEvent) -> bool {
        true
    }

    fn can_handle(&self, event: &KeyEvent) -> (r: bool) {
        true
    }

    /// Moves from block to block: `j` and `k` or the arrows up and down go
    /// round the ring, `h` and `l` or the arrows left and right go from
    /// column to column. The enter key gives the focus to the block that is
    /// hovered over.
    fn handle_key(&mut self, event: &KeyEvent)
        ensures
            *final(self) == old(self).after_nav(*event),
    {
        match event.code {
            KeyCode::Down => {
                self.block_hover = self.block_hover.next();
            },
            KeyCode::Up => {
                self.block_hover = self.block_hover.prev();
            },
            KeyCode::Left => {
                self.block_hover = self.block_hover.left();
            },
            KeyCode::Right => {
                self.block_hover = self.block_hover.right();
            },
            KeyCode::Char(c) => {
                if c == 'j' {
                    self.block_hover = self.block_hover.next();
                } else if c == 'k' {
                    self.block_hover = self.block_hover.prev();
                } else if c == 'h' {
                    self.block_hover = self.block_hover.left();
                } else if c == 'l' {
                    self.block_hover = self.block_hover.right();
                }
            },
            KeyCode::Enter => {
                self.block_focused = Some(self.block_hover);
            },
            _ => {},
        }
    }
}

} // verus!
