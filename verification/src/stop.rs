//! Stop-times: the scheduled visits of trips to a stop.

use crate::error::BoardError;
use crate::time::{adjust, is_offset_text, offset_seconds, str_to_dur, wall_clock, Duration, Instant};
use vstd::prelude::*;

verus! {

/// Which of the two times of a visit a board shows.
#[allow(non_camel_case_types)]
#[derive(Clone, Copy, Debug, PartialEq, Eq, Structural)]
pub enum BoardType {
    ARRIVAL,
    DEPARTURE,
}

/// One scheduled visit of a trip to a stop.
///
/// Arrival and departure are offsets from the midnight of the service day;
/// either may pass 24 hours.
#[derive(Clone, Debug, PartialEq, Eq)]
pub struct Stop {
    pub arrival_time: Duration,
    pub departure_time: Duration,
    pub trip_id: u32,
    pub short_name: String,
    pub service_id: u16,
    pub head_sign: String,
}

/// A stop-time as the feed gives it, with its two offsets as text.
#[derive(Clone, Debug, PartialEq, Eq)]
pub struct StopRow {
    pub arrival_time: String,
    pub departure_time: String,
    pub trip_id: u32,
    pub service_id: u16,
    pub short_name: String,
    pub head_sign: String,
}

impl StopRow {
    /// Whether both offsets of the row have the shape of an offset.
    pub open spec fn is_well_formed(&self) -> bool {
        is_offset_text(self.arrival_time@) && is_offset_text(self.departure_time@)
    }

    /// The stop-time that the row spells.
    pub open spec fn stop(&self) -> Stop {
        Stop {
            arrival_time: Duration { secs: offset_seconds(self.arrival_time@) as u32 },
            departure_time: Duration { secs: offset_seconds(self.departure_time@) as u32 },
            trip_id: self.trip_id,
            short_name: self.short_name,
            service_id: self.service_id,
            head_sign: self.head_sign,
        }
    }
}

/// Whether every row is well formed.
pub open spec fn all_rows_well_formed(rows: Seq<StopRow>) -> bool {
    forall|i: int| 0 <= i < rows.len() ==> (#[trigger] rows[i]).is_well_formed()
}

/// The stop-times that the rows spell, in the order of the rows.
pub open spec fn stops_of(rows: Seq<StopRow>) -> Seq<Stop> {
    rows.map_values(|row: StopRow| row.stop())
}

impl Stop {
    /// The offset that a board of type `board_type` goes by.
    pub open spec fn offset(&self, board_type: BoardType) -> Duration {
        match board_type {
            BoardType::ARRIVAL => self.arrival_time,
            BoardType::DEPARTURE => self.departure_time,
        }
    }

    /// The instant at which the visit shows on a board of type `board_type`
    /// for the date of `base_dt`.
    pub open spec fn adjusted(&self, board_type: BoardType, base_dt: Instant) -> Instant {
        wall_clock(self.offset(board_type), base_dt.date)
    }

    /// Whether the visit, as shown on a board for the date of `date_time`,
    /// comes strictly after `date_time`.
    pub open spec fn shows_after(&self, board_type: BoardType, date_time: Instant) -> bool {
        self.offset(board_type).within_day() > date_time.time@
    }

    /// Reads a stop-time from a row of the feed. A row with an offset of
    /// another shape than `H:MM:SS` or `HH:MM:SS` is a `TimeFormatError`.
    pub fn from_row(row: &StopRow) -> (r: Result<Stop, BoardError>)
        ensures
            match r {
                Ok(stop) => row.is_well_formed() && stop == row.stop(),
                Err(e) => !row.is_well_formed() && e == BoardError::TimeFormatError,
            },
    {
        let arrival_time = match str_to_dur(row.arrival_time.as_str()) {
            Ok(offset) => offset,
            Err(e) => {
                return Err(e);
            },
        };
        let departure_time = match str_to_dur(row.departure_time.as_str()) {
            Ok(offset) => offset,
            Err(e) => {
                return Err(e);
            },
        };
        Ok(
            Stop {
                arrival_time,
                departure_time,
                trip_id: row.trip_id,
                short_name: row.short_name.clone(),
                service_id: row.service_id,
                head_sign: row.head_sign.clone(),
            },
        )
    }

    /// Reads the stop-times of a stop from the rows of the feed, in their
    /// order. One row with a malformed offset fails the whole load.
    pub fn load(rows: &Vec<StopRow>) -> (r: Result<Vec<Stop>, BoardError>)
        ensures
            match r {
                Ok(stops) => all_rows_well_formed(rows@) && stops@ == stops_of(rows@),
                Err(e) => !all_rows_well_formed(rows@) && e == BoardError::TimeFormatError,
            },
    {
        let mut stops: Vec<Stop> = Vec::new();
        let mut i: usize = 0;
        while i < rows.len()
            invariant
                i <= rows@.len(),
                stops@.len() == i,
                forall|j: int| 0 <= j < i ==> (#[trigger] rows@[j]).is_well_formed(),
                forall|j: int| 0 <= j < i ==> #[trigger] stops@[j] == rows@[j].stop(),
            decreases rows@.len() - i,
        {
            match Stop::from_row(&rows[i]) {
                Ok(stop) => {
                    stops.push(stop);
                },
                Err(e) => {
                    return Err(e);
                },
            }
            i += 1;
        }
        assert(stops@ =~= stops_of(rows@));
        Ok(stops)
    }

    /// A copy of the stop-time.
    pub fn duplicate(&self) -> (r: Stop)
        ensures
            r == *self,
    {
        Stop {
            arrival_time: self.arrival_time,
            departure_time: self.departure_time,
            trip_id: self.trip_id,
            short_name: self.short_name.clone(),
            service_id: self.service_id,
            head_sign: self.head_sign.clone(),
        }
    }

    /// The offset that a board of type `board_type` goes by.
    pub fn get_time_duration(&self, board_type: &BoardType) -> (r: Duration)
        ensures
            r == self.offset(*board_type),
    {
        match board_type {
            BoardType::ARRIVAL => self.arrival_time,
            BoardType::DEPARTURE => self.departure_time,
        }
    }

    /// The instant at which the visit shows on a board of type `board_type`
    /// for the date of `base_dt`: the midnight of that date plus what the
    /// offset holds beyond its whole days.
    pub fn get_adjusted_dt(&self, board_type: &BoardType, base_dt: &Instant) -> (r: Instant)
        ensures
            r == self.adjusted(*board_type, *base_dt),
            r.date == base_dt.date,
            r.time@ == self.offset(*board_type).within_day(),
    {
        adjust(self.get_time_duration(board_type), base_dt.date, base_dt.time).0
    }

    /// Whether the visit, as shown on a board for the date of `date_time`,
    /// comes strictly after `date_time`.
    pub fn is_after_adjusted_time(&self, board_type: &BoardType, date_time: &Instant) -> (r: bool)
        ensures
            r == self.shows_after(*board_type, *date_time),
            r == self.adjusted(*board_type, *date_time).later_than(*date_time),
    {
        self.get_adjusted_dt(board_type, date_time).is_after(date_time)
    }
}

} // verus!
