//! What a list shows: stations to choose from and the lines of a board.

use crate::board::BoardEntry;
use crate::stop::{BoardType, Stop};
use crate::time::{clock_text, Instant};
use crate::ui::widget::WidgetItem;
use vstd::prelude::*;

verus! {

/// A station: the identifier of its stop and its name.
#[derive(Clone, Debug, PartialEq, Eq)]
pub struct Station {
    pub stop_id: String,
    pub name: String,
}

impl WidgetItem<String> for Station {
    open spec fn val(&self) -> String {
        self.stop_id
    }

    fn to_val(&self) -> (r: String) {
        self.stop_id.clone()
    }
}

/// A line of a board as it is shown: the times of arrival and departure as
/// a clock shows them, the trip, its short name and its destination.
#[derive(Clone, Debug, PartialEq, Eq)]
pub struct DisplayStop {
    pub arr_time: String,
    pub dep_time: String,
    pub trip_id: u32,
    pub short_name: String,
    pub head_sign: String,
}

impl WidgetItem<u32> for DisplayStop {
    open spec fn val(&self) -> u32 {
        self.trip_id
    }

    fn to_val(&self) -> (r: u32) {
        self.trip_id
    }
}

impl Stop {
    /// The time of day at which the visit shows on a board of type
    /// `board_type`, as a clock shows it.
    pub open spec fn clock(&self, board_type: BoardType) -> Seq<char> {
        let seconds = self.offset(board_type).within_day();
        clock_text(seconds / 3600, (seconds % 3600) / 60)
    }

    /// The time of arrival on a board for the date of `base_dt`, as a clock
    /// shows it.
    pub fn get_adjusted_arr(&self, base_dt: &Instant) -> (text: String)
        ensures
            text@ == self.clock(BoardType::ARRIVAL),
    {
        self.get_adjusted_dt(&BoardType::ARRIVAL, base_dt).time.to_clock_text()
    }

    /// The time of departure on a board for the date of `base_dt`, as a
    /// clock shows it.
    pub fn get_adjusted_dep(&self, base_dt: &Instant) -> (text: String)
        ensures
            text@ == self.clock(BoardType::DEPARTURE),
    {
        self.get_adjusted_dt(&BoardType::DEPARTURE, base_dt).time.to_clock_text()
    }
}

/// The time of day `seconds` seconds after midnight, as a clock shows it.
pub open spec fn clock_of(seconds: int) -> Seq<char> {
    clock_text(seconds / 3600, (seconds % 3600) / 60)
}

/// Whether `line` shows `entry`: its times as a clock shows them, and its
/// trip, short name and destination.
pub open spec fn shows(line: DisplayStop, entry: BoardEntry) -> bool {
    &&& line.arr_time@ == clock_of(entry.arrival.time@)
    &&& line.dep_time@ == clock_of(entry.departure.time@)
    &&& line.trip_id == entry.trip_id
    &&& line.short_name == entry.short_name
    &&& line.head_sign == entry.head_sign
}

impl DisplayStop {
    /// The line that shows an entry of a board.
    pub fn from_entry(entry: &BoardEntry) -> (r: DisplayStop)
        ensures
            shows(r, *entry),
    {
        DisplayStop {
            arr_time: entry.arrival.time.to_clock_text(),
            dep_time: entry.departure.time.to_clock_text(),
            trip_id: entry.trip_id,
            short_name: entry.short_name.clone(),
            head_sign: entry.head_sign.clone(),
        }
    }

    /// The lines that show the entries of a board, in their order.
    pub fn lines(board: &Vec<BoardEntry>) -> (r: Vec<DisplayStop>)
        ensures
            r@.len() == board@.len(),
            forall|i: int| 0 <= i < board@.len() ==> shows(#[trigger] r@[i], board@[i]),
    {
        let mut lines: Vec<DisplayStop> = Vec::new();
        let mut i: usize = 0;
        while i < board.len()
            invariant
                i <= board@.len(),
                lines@.len() == i,
                forall|j: int| 0 <= j < i ==> shows(#[trigger] lines@[j], board@[j]),
            decreases board@.len() - i,
        {
            lines.push(DisplayStop::from_entry(&board[i]));
            i += 1;
        }
        lines
    }

    /// The line that shows the stop-time `s` on a board for the date of
    /// `dt`.
    pub fn from(s: Stop, dt: Instant) -> (r: DisplayStop)
        ensures
            r.arr_time@ == s.clock(BoardType::ARRIVAL),
            r.dep_time@ == s.clock(BoardType::DEPARTURE),
            r.trip_id == s.trip_id,
            r.short_name == s.short_name,
            r.head_sign == s.head_sign,
    {
        let arr_time = s.get_adjusted_arr(&dt);
        let dep_time = s.get_adjusted_dep(&dt);
        DisplayStop {
            arr_time,
            dep_time,
            trip_id: s.trip_id,
            short_name: s.short_name,
            head_sign: s.head_sign,
        }
    }
}

} // verus!
