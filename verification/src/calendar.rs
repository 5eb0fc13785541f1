//! The calendar of a feed: its services by their identifier.
//!
//! A calendar is loaded once from the rows of the feed and read afterwards.
//! The feed gives one row for each pair of a service and one of its
//! exceptions, and one row for a service without exceptions.

use crate::date::{date_of_text, is_date_text, str_to_date, Date};
use crate::error::BoardError;
use crate::service::{Service, ServiceException};
use crate::weekday::Weekday;
use std::collections::HashMap;
use vstd::prelude::*;

verus! {

broadcast use vstd::std_specs::hash::group_hash_axioms;

/// The exception that a calendar row carries: its date in the eight-digit
/// encoding and its code.
#[derive(Clone, Debug, PartialEq, Eq)]
pub struct ExceptionRow {
    pub date: String,
    pub exception_type: u8,
}

/// One row of the calendar as the feed gives it: a service with its weekly
/// pattern, its first and last date in the eight-digit encoding, and at most
/// one of its exceptions.
#[derive(Clone, Debug, PartialEq, Eq)]
pub struct CalendarRow {
    pub service_id: u16,
    pub monday: bool,
    pub tuesday: bool,
    pub wednesday: bool,
    pub thursday: bool,
    pub friday: bool,
    pub saturday: bool,
    pub sunday: bool,
    pub start_date: String,
    pub end_date: String,
    pub exception: Option<ExceptionRow>,
}

impl CalendarRow {
    /// Whether every date of the row is a date in the eight-digit encoding.
    pub open spec fn is_well_formed(&self) -> bool {
        &&& is_date_text(self.start_date@)
        &&& is_date_text(self.end_date@)
        &&& self.exception matches Some(x) ==> is_date_text(x.date@)
    }

    /// The weekly pattern that the row gives.
    pub open spec fn pattern(&self) -> Weekday {
        Weekday::of_rows(
            self.monday,
            self.tuesday,
            self.wednesday,
            self.thursday,
            self.friday,
            self.saturday,
            self.sunday,
        )
    }

    /// The exception that the row carries, if it carries one.
    pub open spec fn exception_record(&self) -> Option<ServiceException> {
        match self.exception {
            Some(x) => Some(
                ServiceException {
                    exception_date: date_of_text(x.date@),
                    exception_type: x.exception_type,
                },
            ),
            None => None,
        }
    }
}

/// Whether every row is well formed.
pub open spec fn all_well_formed(rows: Seq<CalendarRow>) -> bool {
    forall|i: int| 0 <= i < rows.len() ==> (#[trigger] rows[i]).is_well_formed()
}

/// The first of `rows` that is a row of service `id`, if there is one.
pub open spec fn first_row_of(rows: Seq<CalendarRow>, id: u16) -> Option<CalendarRow>
    decreases rows.len(),
{
    if rows.len() == 0 {
        None
    } else {
        match first_row_of(rows.drop_last(), id) {
            Some(row) => Some(row),
            None => if rows.last().service_id == id {
                Some(rows.last())
            } else {
                None
            },
        }
    }
}

/// The exceptions that the rows of service `id` carry, in the order of the
/// rows.
pub open spec fn exceptions_of(rows: Seq<CalendarRow>, id: u16) -> Seq<ServiceException>
    decreases rows.len(),
{
    if rows.len() == 0 {
        Seq::empty()
    } else {
        let earlier = exceptions_of(rows.drop_last(), id);
        match rows.last().exception_record() {
            Some(exception) => if rows.last().service_id == id {
                earlier.push(exception)
            } else {
                earlier
            },
            None => earlier,
        }
    }
}

/// A service without a row has no exception.
pub proof fn lemma_no_row_no_exception(rows: Seq<CalendarRow>, id: u16)
    requires
        first_row_of(rows, id) is None,
    ensures
        exceptions_of(rows, id) == Seq::<ServiceException>::empty(),
    decreases rows.len(),
{
    if rows.len() > 0 {
        lemma_no_row_no_exception(rows.drop_last(), id);
    }
}

/// A service has a first row exactly if one of the rows is a row of the
/// service, and its first row is the earliest of them.
pub proof fn law_first_row_is_the_earliest(rows: Seq<CalendarRow>, id: u16)
    ensures
        first_row_of(rows, id) is Some <==> exists|i: int|
            0 <= i < rows.len() && (#[trigger] rows[i]).service_id == id,
        first_row_of(rows, id) matches Some(row) ==> exists|i: int|
            {
                &&& 0 <= i < rows.len()
                &&& #[trigger] rows[i] == row
                &&& row.service_id == id
                &&& forall|j: int| 0 <= j < i ==> (#[trigger] rows[j]).service_id != id
            },
    decreases rows.len(),
{
    if rows.len() > 0 {
        let front = rows.drop_last();
        let last = rows.len() - 1;
        law_first_row_is_the_earliest(front, id);
        match first_row_of(front, id) {
            Some(row) => {
                let i = choose|i: int|
                    {
                        &&& 0 <= i < front.len()
                        &&& #[trigger] front[i] == row
                        &&& row.service_id == id
                        &&& forall|j: int| 0 <= j < i ==> (#[trigger] front[j]).service_id != id
                    };
                assert(rows[i] == row);
                assert forall|j: int| 0 <= j < i implies (#[trigger] rows[j]).service_id != id by {
                    assert(front[j].service_id != id);
                }
            },
            None => {
                assert forall|j: int| 0 <= j < last implies (#[trigger] rows[j]).service_id
                    != id by {
                    assert(front[j] == rows[j]);
                }
                if rows[last].service_id == id {
                    assert(rows[last] == rows.last());
                } else {
                    assert forall|j: int| 0 <= j < rows.len() implies (
                    #[trigger] rows[j]).service_id != id by {
                        if j < last {
                            assert(front[j] == rows[j]);
                        }
                    }
                }
            },
        }
    }
}

/// The exception that a row of a service carries is among the exceptions of
/// the service.
pub proof fn law_exception_of_a_row_is_kept(rows: Seq<CalendarRow>, id: u16, i: int)
    requires
        0 <= i < rows.len(),
        rows[i].service_id == id,
        rows[i].exception_record() is Some,
    ensures
        exceptions_of(rows, id).contains(rows[i].exception_record()->Some_0),
    decreases rows.len(),
{
    let front = rows.drop_last();
    let earlier = exceptions_of(front, id);
    if i == rows.len() - 1 {
        let exception = rows[i].exception_record()->Some_0;
        assert(earlier.push(exception)[earlier.len() as int] == exception);
    } else {
        law_exception_of_a_row_is_kept(front, id, i);
        let exception = front[i].exception_record()->Some_0;
        let k = choose|k: int| 0 <= k < earlier.len() && earlier[k] == exception;
        assert(exceptions_of(rows, id)[k] == exception);
    }
}

/// Each exception of a service is carried by one of the rows of the
/// service.
pub proof fn law_exception_has_a_row(rows: Seq<CalendarRow>, id: u16, k: int)
    requires
        0 <= k < exceptions_of(rows, id).len(),
    ensures
        exists|i: int|
            0 <= i < rows.len() && (#[trigger] rows[i]).service_id == id
                && rows[i].exception_record() == Some(exceptions_of(rows, id)[k]),
    decreases rows.len(),
{
    let front = rows.drop_last();
    let earlier = exceptions_of(front, id);
    let last = rows.len() - 1;
    if k < earlier.len() {
        law_exception_has_a_row(front, id, k);
        let i = choose|i: int|
            0 <= i < front.len() && (#[trigger] front[i]).service_id == id
                && front[i].exception_record() == Some(earlier[k]);
        assert(rows[i] == front[i]);
        assert(exceptions_of(rows, id)[k] == earlier[k]);
    } else {
        assert(rows[last].service_id == id);
        assert(rows[last].exception_record() == Some(exceptions_of(rows, id)[k]));
    }
}

/// Whether `service` is what `rows` say of service `id`: pattern, first and
/// last date are those of the first row of the service, and the exceptions
/// are those of all its rows, in their order.
pub open spec fn is_service_of(service: Service, rows: Seq<CalendarRow>, id: u16) -> bool {
    &&& first_row_of(rows, id) matches Some(first)
    &&& service.start_date == date_of_text(first.start_date@)
    &&& service.end_date == date_of_text(first.end_date@)
    &&& service.operating_weekdays == first.pattern()
    &&& service.exceptions@ == exceptions_of(rows, id)
}

/// Whether the map `services` is the calendar that `rows` describe: it holds
/// the services that have a row, each as its rows give it.
pub open spec fn is_calendar_of(services: Map<u16, Service>, rows: Seq<CalendarRow>) -> bool {
    forall|id: u16|
        {
            &&& #[trigger] services.contains_key(id) <==> first_row_of(rows, id) is Some
            &&& services.contains_key(id) ==> is_service_of(services[id], rows, id)
        }
}

/// The services of a feed by their identifier.
#[derive(Clone, Debug)]
pub struct CalendarStore {
    pub services: HashMap<u16, Service>,
}

impl View for CalendarStore {
    type V = Map<u16, Service>;

    open spec fn view(&self) -> Map<u16, Service> {
        self.services@
    }
}

impl CalendarStore {
    /// Whether service `service_id` runs on `date`: an error where the
    /// calendar has no such service, else what the service says.
    pub open spec fn availability(&self, service_id: u16, date: Date) -> Result<bool, BoardError> {
        if self@.contains_key(service_id) {
            self@[service_id].availability(date, date.weekday())
        } else {
            Err(BoardError::UnknownServiceError { service_id })
        }
    }

    /// A calendar without services.
    pub fn new() -> (r: CalendarStore)
        ensures
            r@ == Map::<u16, Service>::empty(),
    {
        CalendarStore { services: HashMap::new() }
    }

    /// Builds the calendar from the rows of the feed.
    ///
    /// A service is made from its first row; every row that carries an
    /// exception adds it to its service, in the order of the rows. If the
    /// start, end or exception date of any row is not a date in the
    /// eight-digit encoding, no calendar is built.
    pub fn load(rows: &Vec<CalendarRow>) -> (r: Result<CalendarStore, BoardError>)
        ensures
            match r {
                Ok(store) => all_well_formed(rows@) && is_calendar_of(store@, rows@),
                Err(e) => !all_well_formed(rows@) && e == BoardError::DateFormatError,
            },
    {
        let mut services: HashMap<u16, Service> = HashMap::new();
        let mut i: usize = 0;
        while i < rows.len()
            invariant
                i <= rows@.len(),
                all_well_formed(rows@.take(i as int)),
                is_calendar_of(services@, rows@.take(i as int)),
            decreases rows@.len() - i,
        {
            let row: &CalendarRow = &rows[i];
            let id: u16 = row.service_id;
            let ghost before = rows@.take(i as int);
            let ghost after = rows@.take(i + 1);
            let ghost old_services = services@;
            proof {
                assert(after.drop_last() == before);
            }
            let start_date = match str_to_date(row.start_date.as_str()) {
                Ok(date) => date,
                Err(e) => {
                    return Err(e);
                },
            };
            let end_date = match str_to_date(row.end_date.as_str()) {
                Ok(date) => date,
                Err(e) => {
                    return Err(e);
                },
            };
            let exception: Option<ServiceException> = match &row.exception {
                Some(x) => match str_to_date(x.date.as_str()) {
                    Ok(date) => Some(
                        ServiceException { exception_date: date, exception_type: x.exception_type },
                    ),
                    Err(e) => {
                        return Err(e);
                    },
                },
                None => None,
            };
            let mut service = match services.remove(&id) {
                Some(known) => known,
                None => Service::new(
                    start_date,
                    end_date,
                    Weekday::from_rows(
                        row.monday,
                        row.tuesday,
                        row.wednesday,
                        row.thursday,
                        row.friday,
                        row.saturday,
                        row.sunday,
                    ),
                ),
            };
            match exception {
                Some(x) => {
                    service.exceptions.push(x);
                },
                None => {},
            }
            proof {
                if old_services.contains_key(id) {
                    assert(is_service_of(old_services[id], before, id));
                } else {
                    lemma_no_row_no_exception(before, id);
                }
                assert(is_service_of(service, after, id));
            }
            services.insert(id, service);
            proof {
                assert forall|j: int| 0 <= j < after.len() implies (
                #[trigger] after[j]).is_well_formed() by {
                    if j < i {
                        assert(before[j].is_well_formed());
                    }
                }
                assert forall|other: u16|
                    {
                        &&& #[trigger] services@.contains_key(other) <==> first_row_of(after, other)
                            is Some
                        &&& services@.contains_key(other) ==> is_service_of(
                            services@[other],
                            after,
                            other,
                        )
                    } by {
                    if other != id {
                        if services@.contains_key(other) {
                            assert(services@[other] == old_services[other]);
                            assert(is_service_of(old_services[other], before, other));
                        }
                    }
                }
            }
            i += 1;
        }
        proof {
            assert(rows@.take(i as int) == rows@);
        }
        Ok(CalendarStore { services })
    }

    /// The number of services of the calendar.
    pub fn len(&self) -> (n: usize)
        ensures
            n == self@.len(),
    {
        self.services.len()
    }

    /// Whether the calendar holds service `service_id`.
    pub fn contains(&self, service_id: u16) -> (r: bool)
        ensures
            r == self@.contains_key(service_id),
    {
        self.services.contains_key(&service_id)
    }

    /// Service `service_id`, if the calendar holds it.
    pub fn get(&self, service_id: u16) -> (r: Option<&Service>)
        ensures
            match r {
                Some(service) => self@.contains_key(service_id) && *service == self@[service_id],
                None => !self@.contains_key(service_id),
            },
    {
        self.services.get(&service_id)
    }

    /// Puts `service` into the calendar under `service_id`, in place of the
    /// service that was there, if one was.
    pub fn insert(&mut self, service_id: u16, service: Service)
        ensures
            final(self)@ == old(self)@.insert(service_id, service),
    {
        self.services.insert(service_id, service);
    }

    /// Whether service `service_id` runs on `date`.
    ///
    /// Fails with `UnknownServiceError` where the calendar does not hold the
    /// service, and with `InvalidExceptionType` where the exception that
    /// decides carries an unknown code.
    pub fn is_available(&self, service_id: u16, date: &Date) -> (r: Result<bool, BoardError>)
        ensures
            r == self.availability(service_id, *date),
    {
        match self.services.get(&service_id) {
            Some(service) => service.is_available(date),
            None => Err(BoardError::UnknownServiceError { service_id }),
        }
    }
}

} // verus!
