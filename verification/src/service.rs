//! Services: a weekly pattern and the exceptions to it.
//!
//! Whether a service runs on a date is decided by its exceptions first and
//! by its weekly pattern second. The first and last date of a service are
//! kept as the feed gives them and decide nothing.

use crate::date::Date;
use crate::error::BoardError;
use crate::weekday::Weekday;
use vstd::prelude::*;

verus! {

/// The code of an exception that adds a day of service.
pub const ADDED_CODE: u8 = 1;

/// The code of an exception that removes a day of service.
pub const REMOVED_CODE: u8 = 2;

/// What the exceptions of a service say of one date.
#[allow(non_camel_case_types)]
#[derive(Clone, Copy, Debug, PartialEq, Eq, Structural)]
pub enum ExceptionType {
    /// No exception is on the date: the weekly pattern decides.
    NONE,
    /// The service runs on the date, whatever the pattern says.
    ADDED,
    /// The service does not run on the date, whatever the pattern says.
    REMOVED,
}

/// One exception to the weekly pattern: a date and the code of what happens
/// on it.
#[derive(Clone, Copy, Debug, PartialEq, Eq, Structural)]
pub struct ServiceException {
    pub exception_date: Date,
    pub exception_type: u8,
}

/// A service: the dates between which the feed lists it, the weekdays on
/// which it runs, and its exceptions in the order in which they were loaded.
#[derive(Clone, Debug, PartialEq, Eq)]
pub struct Service {
    pub start_date: Date,
    pub end_date: Date,
    pub operating_weekdays: Weekday,
    pub exceptions: Vec<ServiceException>,
}

/// Whether `code` is one of the two codes that an exception may carry.
pub open spec fn is_known_code(code: u8) -> bool {
    code == ADDED_CODE || code == REMOVED_CODE
}

/// Whether `exception` counts for `date`. Where `known_only` is set, an
/// exception with an unknown code counts for no date.
pub open spec fn applies(exception: ServiceException, date: Date, known_only: bool) -> bool {
    exception.exception_date == date && (!known_only || is_known_code(exception.exception_type))
}

/// Whether the exception at index `i` is the first of `exceptions` that
/// counts for `date`.
pub open spec fn is_first_applying(
    exceptions: Seq<ServiceException>,
    date: Date,
    known_only: bool,
    i: int,
) -> bool {
    &&& 0 <= i < exceptions.len()
    &&& applies(exceptions[i], date, known_only)
    &&& forall|j: int| 0 <= j < i ==> !applies(#[trigger] exceptions[j], date, known_only)
}

/// The first of `exceptions` that counts for `date`, if there is one.
pub open spec fn first_applying(
    exceptions: Seq<ServiceException>,
    date: Date,
    known_only: bool,
) -> Option<ServiceException> {
    if exists|i: int| is_first_applying(exceptions, date, known_only, i) {
        Some(exceptions[choose|i: int| is_first_applying(exceptions, date, known_only, i)])
    } else {
        None
    }
}

/// What an exception code stands for; a code that is neither "added" nor
/// "removed" is an `InvalidExceptionType`.
pub open spec fn kind_of_code(code: u8) -> Result<ExceptionType, BoardError> {
    if code == ADDED_CODE {
        Ok(ExceptionType::ADDED)
    } else if code == REMOVED_CODE {
        Ok(ExceptionType::REMOVED)
    } else {
        Err(BoardError::InvalidExceptionType { code })
    }
}

/// What `exceptions` say of `date`: the kind of the first exception on that
/// date, `NONE` where there is none.
pub open spec fn exception_type_on(exceptions: Seq<ServiceException>, date: Date) -> Result<
    ExceptionType,
    BoardError,
> {
    match first_applying(exceptions, date, false) {
        Some(exception) => kind_of_code(exception.exception_type),
        None => Ok(ExceptionType::NONE),
    }
}

/// At most one exception is the first that counts for a date.
pub proof fn lemma_first_applying_is_unique(
    exceptions: Seq<ServiceException>,
    date: Date,
    known_only: bool,
    i: int,
    j: int,
)
    requires
        is_first_applying(exceptions, date, known_only, i),
        is_first_applying(exceptions, date, known_only, j),
    ensures
        i == j,
{
    if i < j {
        assert(!applies(exceptions[i], date, known_only));
    } else if j < i {
        assert(!applies(exceptions[j], date, known_only));
    }
}

/// The exception at a first counting index is what `first_applying` gives.
pub proof fn lemma_first_applying_at(
    exceptions: Seq<ServiceException>,
    date: Date,
    known_only: bool,
    i: int,
)
    requires
        is_first_applying(exceptions, date, known_only, i),
    ensures
        first_applying(exceptions, date, known_only) == Some(exceptions[i]),
{
    let chosen = choose|k: int| is_first_applying(exceptions, date, known_only, k);
    lemma_first_applying_is_unique(exceptions, date, known_only, i, chosen);
}

/// Where no exception counts for a date, `first_applying` gives none.
pub proof fn lemma_first_applying_none(
    exceptions: Seq<ServiceException>,
    date: Date,
    known_only: bool,
)
    requires
        forall|j: int|
            0 <= j < exceptions.len() ==> !applies(#[trigger] exceptions[j], date, known_only),
    ensures
        first_applying(exceptions, date, known_only) is None,
{
}

impl Service {
    /// Whether the service runs on `date`, which falls on weekday `weekday`
    /// (0 for Monday to 6 for Sunday).
    ///
    /// The first exception on `date` decides: "added" says yes, "removed"
    /// says no, any other code is an error. Without an exception on `date`
    /// the weekly pattern decides. The first and last date of the service
    /// play no part.
    pub open spec fn availability(&self, date: Date, weekday: int) -> Result<bool, BoardError> {
        match exception_type_on(self.exceptions@, date) {
            Ok(ExceptionType::ADDED) => Ok(true),
            Ok(ExceptionType::REMOVED) => Ok(false),
            Ok(ExceptionType::NONE) => Ok(self.operating_weekdays.has(weekday)),
            Err(e) => Err(e),
        }
    }

    /// Whether the service runs on `date`, once every exception with an
    /// unknown code is left out of account.
    pub open spec fn availability_of_known(&self, date: Date, weekday: int) -> bool {
        match first_applying(self.exceptions@, date, true) {
            Some(exception) => exception.exception_type == ADDED_CODE,
            None => self.operating_weekdays.has(weekday),
        }
    }

    /// A service without exceptions.
    pub fn new(start_date: Date, end_date: Date, operating_weekdays: Weekday) -> (r: Service)
        ensures
            r.start_date == start_date,
            r.end_date == end_date,
            r.operating_weekdays == operating_weekdays,
            r.exceptions@ == Seq::<ServiceException>::empty(),
    {
        Service { start_date, end_date, operating_weekdays, exceptions: Vec::new() }
    }

    /// The first exception that counts for `date`, in the order in which the
    /// exceptions were loaded.
    pub fn find_exception(&self, date: &Date, known_only: bool) -> (r: Option<ServiceException>)
        ensures
            r == first_applying(self.exceptions@, *date, known_only),
    {
        let mut i: usize = 0;
        while i < self.exceptions.len()
            invariant
                i <= self.exceptions@.len(),
                forall|j: int| 0 <= j < i ==> !applies(#[trigger] self.exceptions@[j], *date, known_only),
            decreases self.exceptions@.len() - i,
        {
            let exception: ServiceException = self.exceptions[i];
            if exception.exception_date == *date && (!known_only || exception.exception_type
                == ADDED_CODE || exception.exception_type == REMOVED_CODE) {
                proof {
                    lemma_first_applying_at(self.exceptions@, *date, known_only, i as int);
                }
                return Some(exception);
            }
            i += 1;
        }
        proof {
            lemma_first_applying_none(self.exceptions@, *date, known_only);
        }
        None
    }

    /// What the exceptions of the service say of `date`.
    pub fn get_exception_type_for_date(&self, date: &Date) -> (r: Result<ExceptionType, BoardError>)
        ensures
            r == exception_type_on(self.exceptions@, *date),
    {
        match self.find_exception(date, false) {
            Some(exception) => {
                if exception.exception_type == ADDED_CODE {
                    Ok(ExceptionType::ADDED)
                } else if exception.exception_type == REMOVED_CODE {
                    Ok(ExceptionType::REMOVED)
                } else {
                    Err(BoardError::InvalidExceptionType { code: exception.exception_type })
                }
            },
            None => Ok(ExceptionType::NONE),
        }
    }

    /// Whether the service runs on `date`, given the weekday on which `date`
    /// falls (0 for Monday to 6 for Sunday).
    pub fn is_available_on(&self, date: &Date, weekday: u32) -> (r: Result<bool, BoardError>)
        ensures
            r == self.availability(*date, weekday as int),
    {
        match self.get_exception_type_for_date(date) {
            Ok(ExceptionType::ADDED) => Ok(true),
            Ok(ExceptionType::REMOVED) => Ok(false),
            Ok(ExceptionType::NONE) => Ok(self.operating_weekdays.has_day(weekday)),
            Err(e) => Err(e),
        }
    }

    /// Whether the service runs on `date`.
    ///
    /// Fails with `InvalidExceptionType` where the exception that decides
    /// carries an unknown code.
    pub fn is_available(&self, date: &Date) -> (r: Result<bool, BoardError>)
        ensures
            r == self.availability(*date, date.weekday()),
    {
        let weekday: u32 = date.weekday_index();
        self.is_available_on(date, weekday)
    }

    /// Whether the service runs on `date`, given the weekday on which `date`
    /// falls, with every exception of unknown code left out of account.
    pub fn is_available_without_invalid_on(&self, date: &Date, weekday: u32) -> (r: bool)
        ensures
            r == self.availability_of_known(*date, weekday as int),
    {
        match self.find_exception(date, true) {
            Some(exception) => exception.exception_type == ADDED_CODE,
            None => self.operating_weekdays.has_day(weekday),
        }
    }

    /// Whether the service runs on `date`, with every exception of unknown
    /// code left out of account: the answer that is left once the faulty
    /// records are set aside.
    pub fn is_available_without_invalid(&self, date: &Date) -> (r: bool)
        ensures
            r == self.availability_of_known(*date, date.weekday()),
    {
        let weekday: u32 = date.weekday_index();
        self.is_available_without_invalid_on(date, weekday)
    }

    /// Without an exception on a date, the weekly pattern alone decides
    /// whether the service runs on it.
    pub proof fn law_pattern_decides_without_exception(&self, date: Date, weekday: int)
        requires
            forall|i: int|
                0 <= i < self.exceptions@.len() ==> (#[trigger] self.exceptions@[i]).exception_date
                    != date,
        ensures
            self.availability(date, weekday) == Ok::<bool, BoardError>(
                self.operating_weekdays.has(weekday),
            ),
    {
        lemma_first_applying_none(self.exceptions@, date, false);
    }

    /// Where the first exception on a date is an "added" one, the service
    /// runs on that date: whatever its weekly pattern, its first and its last
    /// date are.
    pub proof fn law_added_exception_runs(&self, date: Date, weekday: int, i: int)
        requires
            is_first_applying(self.exceptions@, date, false, i),
            self.exceptions@[i].exception_type == ADDED_CODE,
        ensures
            self.availability(date, weekday) == Ok::<bool, BoardError>(true),
    {
        lemma_first_applying_at(self.exceptions@, date, false, i);
    }

    /// Where the first exception on a date is a "removed" one, the service
    /// does not run on that date, whatever its weekly pattern is.
    pub proof fn law_removed_exception_rests(&self, date: Date, weekday: int, i: int)
        requires
            is_first_applying(self.exceptions@, date, false, i),
            self.exceptions@[i].exception_type == REMOVED_CODE,
        ensures
            self.availability(date, weekday) == Ok::<bool, BoardError>(false),
    {
        lemma_first_applying_at(self.exceptions@, date, false, i);
    }

    /// Where a lookup succeeds, leaving the exceptions of unknown code out of
    /// account changes nothing.
    pub proof fn law_known_agrees_where_valid(&self, date: Date, weekday: int)
        requires
            self.availability(date, weekday) is Ok,
        ensures
            self.availability(date, weekday) == Ok::<bool, BoardError>(
                self.availability_of_known(date, weekday),
            ),
    {
        let exceptions = self.exceptions@;
        if exists|i: int| is_first_applying(exceptions, date, false, i) {
            let i = choose|i: int| is_first_applying(exceptions, date, false, i);
            assert forall|j: int| 0 <= j < i implies !applies(
                #[trigger] exceptions[j],
                date,
                true,
            ) by {
                assert(!applies(exceptions[j], date, false));
            }
            assert(is_first_applying(exceptions, date, true, i));
            lemma_first_applying_at(exceptions, date, true, i);
        } else {
            assert forall|j: int| 0 <= j < exceptions.len() implies !applies(
                #[trigger] exceptions[j],
                date,
                true,
            ) by {
                if applies(exceptions[j], date, false) {
                    lemma_some_applying_has_first(exceptions, date, false, j);
                }
            }
            lemma_first_applying_none(exceptions, date, true);
        }
    }
}

/// Where some exception counts for a date, one of them is the first.
pub proof fn lemma_some_applying_has_first(
    exceptions: Seq<ServiceException>,
    date: Date,
    known_only: bool,
    k: int,
)
    requires
        0 <= k < exceptions.len(),
        applies(exceptions[k], date, known_only),
    ensures
        exists|i: int| is_first_applying(exceptions, date, known_only, i),
    decreases k,
{
    if exists|j: int| 0 <= j < k && applies(exceptions[j], date, known_only) {
        let j = choose|j: int| 0 <= j < k && applies(exceptions[j], date, known_only);
        lemma_some_applying_has_first(exceptions, date, known_only, j);
    } else {
        assert(is_first_applying(exceptions, date, known_only, k));
    }
}

} // verus!
