//! Departure and arrival boards for a transit stop, computed from GTFS
//! calendar and stop-time data.
//!
//! The crate answers one question: given the services of a feed, the
//! stop-times of one stop and a reference instant, which visits are still to
//! come, and in what order. Every function states its result in its contract.
//!
//! - `weekday`, `date` and `time` hold the values that the rest works on:
//!   sets of weekdays, calendar dates, offsets from midnight and instants.
//! - `service` and `calendar` hold the services of a feed and say on which
//!   dates a service runs.
//! - `stop` and `board` hold the stop-times of a stop and make a board of
//!   them; `display` turns its lines into text.
//! - `queries`, `handler` and `ui` serve a program that shows boards in a
//!   terminal: the queries by which it reads a feed, and the state of its
//!   interface under the keys.
//!
//! Dates are reckoned by `chrono`; what is taken from it on trust is said
//! where it is called.

pub mod board;
pub mod calendar;
pub mod date;
pub mod display;
pub mod error;
pub mod handler;
pub mod queries;
pub mod service;
pub mod stop;
mod text;
pub mod time;
pub mod ui;
pub mod weekday;
