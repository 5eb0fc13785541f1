//! Boards: the visits to a stop that are still to come, in their order.
//!
//! A board is made in two steps. `filter` keeps the stop-times whose service
//! runs on their service day and which come after the reference instant.
//! `assemble` puts what is kept in order and bounds its length.

use crate::calendar::CalendarStore;
use crate::date::Date;
use crate::error::BoardError;
use crate::service::Service;
use crate::stop::{all_rows_well_formed, stops_of, BoardType, Stop, StopRow};
use crate::time::{adjust, wall_clock, Instant, Time};
use vstd::prelude::*;

verus! {

/// Whether a visit stays on the board, given its service, the day of service
/// on which it falls and the weekday of that day: the service runs on that
/// day, exceptions of unknown code left out of account, and the visit shows
/// strictly after the reference instant.
pub open spec fn keeps(
    service: Service,
    stop: Stop,
    board_type: BoardType,
    reference: Instant,
    service_date: Date,
    weekday: int,
) -> bool {
    service.availability_of_known(service_date, weekday) && stop.shows_after(board_type, reference)
}

/// What is found of one stop-time: whether it stays on the board, or what is
/// at fault with it.
///
/// The service day of a visit lies as many days before the reference date as
/// its offset holds whole days. A stop-time of a service that the calendar
/// does not hold is a fault, and so is a service day that the calendar of
/// dates does not reach.
pub open spec fn verdict(
    stop: Stop,
    services: Map<u16, Service>,
    board_type: BoardType,
    reference: Instant,
) -> Result<bool, BoardError> {
    if !services.contains_key(stop.service_id) {
        Err(BoardError::UnknownServiceError { service_id: stop.service_id })
    } else {
        match reference.date.earlier_by(stop.offset(board_type).day_shift()) {
            Some(service_date) => Ok(
                keeps(
                    services[stop.service_id],
                    stop,
                    board_type,
                    reference,
                    service_date,
                    service_date.weekday(),
                ),
            ),
            None => Err(BoardError::DateOutOfRange),
        }
    }
}

/// The stop-time with the instant at which it shows, where it stays on the
/// board.
pub open spec fn retained(
    stop: Stop,
    services: Map<u16, Service>,
    board_type: BoardType,
    reference: Instant,
) -> Option<(Stop, Instant)> {
    if verdict(stop, services, board_type, reference) == Ok::<bool, BoardError>(true) {
        Some((stop, stop.adjusted(board_type, reference)))
    } else {
        None
    }
}

/// `retained` as a function of the stop-time alone.
pub open spec fn retainer(
    services: Map<u16, Service>,
    board_type: BoardType,
    reference: Instant,
) -> spec_fn(Stop) -> Option<(Stop, Instant)> {
    |stop: Stop| retained(stop, services, board_type, reference)
}

/// Whether no stop-time is at fault.
pub open spec fn faultless(
    stops: Seq<Stop>,
    services: Map<u16, Service>,
    board_type: BoardType,
    reference: Instant,
) -> bool {
    forall|i: int|
        0 <= i < stops.len() ==> verdict(#[trigger] stops[i], services, board_type, reference)
            is Ok
}

/// Whether the stop-time at index `i` is the first that is at fault.
pub open spec fn is_first_fault(
    stops: Seq<Stop>,
    services: Map<u16, Service>,
    board_type: BoardType,
    reference: Instant,
    i: int,
) -> bool {
    &&& 0 <= i < stops.len()
    &&& verdict(stops[i], services, board_type, reference) is Err
    &&& forall|j: int|
        0 <= j < i ==> verdict(#[trigger] stops[j], services, board_type, reference) is Ok
}

/// What `filter` keeps is to come: each entry is one of the stop-times, found
/// to stay on the board, with the instant at which it shows, and that
/// instant is on the reference date and strictly after the reference
/// instant.
pub proof fn law_filter_keeps_what_is_to_come(
    stops: Seq<Stop>,
    services: Map<u16, Service>,
    board_type: BoardType,
    reference: Instant,
    k: int,
)
    requires
        0 <= k < stops.filter_map(retainer(services, board_type, reference)).len(),
    ensures
        ({
            let entry = stops.filter_map(retainer(services, board_type, reference))[k];
            &&& stops.contains(entry.0)
            &&& verdict(entry.0, services, board_type, reference) == Ok::<bool, BoardError>(true)
            &&& entry.1 == entry.0.adjusted(board_type, reference)
            &&& entry.1.date == reference.date
            &&& entry.1.later_than(reference)
        }),
    decreases stops.len(),
{
    let keep = retainer(services, board_type, reference);
    let front = stops.drop_last();
    let earlier = front.filter_map(keep);
    let last = stops.len() - 1;
    if k < earlier.len() {
        law_filter_keeps_what_is_to_come(front, services, board_type, reference, k);
        let entry = earlier[k];
        let i = choose|i: int| 0 <= i < front.len() && front[i] == entry.0;
        assert(stops[i] == entry.0);
        assert(stops.filter_map(keep)[k] == entry);
    } else {
        let stop = stops[last];
        assert(stops.filter_map(keep)[k] == keep(stop)->Some_0);
        Time::lemma_of_view(stop.offset(board_type).within_day());
    }
}

/// Whether a visit stays on the board, given its service, the day of service
/// on which it falls and the weekday of that day (0 for Monday to 6 for
/// Sunday).
pub fn keeps_on(
    service: &Service,
    stop: &Stop,
    board_type: BoardType,
    reference: &Instant,
    service_date: &Date,
    weekday: u32,
) -> (r: bool)
    ensures
        r == keeps(*service, *stop, board_type, *reference, *service_date, weekday as int),
{
    service.is_available_without_invalid_on(service_date, weekday) && stop.is_after_adjusted_time(
        &board_type,
        reference,
    )
}

/// Finds whether one stop-time stays on the board.
pub fn examine(
    stop: &Stop,
    store: &CalendarStore,
    board_type: BoardType,
    reference: &Instant,
) -> (r: Result<bool, BoardError>)
    ensures
        r == verdict(*stop, store@, board_type, *reference),
{
    let service = match store.get(stop.service_id) {
        Some(service) => service,
        None => {
            return Err(BoardError::UnknownServiceError { service_id: stop.service_id });
        },
    };
    let day_shift: u32 = stop.get_time_duration(&board_type).num_days();
    match reference.date.minus_days(day_shift) {
        Some(service_date) => {
            let weekday: u32 = service_date.weekday_index();
            Ok(keeps_on(service, stop, board_type, reference, &service_date, weekday))
        },
        None => Err(BoardError::DateOutOfRange),
    }
}

/// Keeps the stop-times that belong on a board for the reference instant,
/// each with the instant at which it shows, in the order in which they were
/// given.
///
/// A stop-time stays if its service runs on its service day and it shows
/// strictly after the reference instant. The first stop-time that is at
/// fault fails the whole computation with its fault.
pub fn filter(
    stop_times: &Vec<Stop>,
    store: &CalendarStore,
    board_type: BoardType,
    reference_instant: &Instant,
) -> (r: Result<Vec<(Stop, Instant)>, BoardError>)
    ensures
        match r {
            Ok(entries) => faultless(stop_times@, store@, board_type, *reference_instant)
                && entries@ == stop_times@.filter_map(
                retainer(store@, board_type, *reference_instant),
            ),
            Err(e) => exists|i: int|
                is_first_fault(stop_times@, store@, board_type, *reference_instant, i) && verdict(
                    stop_times@[i],
                    store@,
                    board_type,
                    *reference_instant,
                ) == Err::<bool, BoardError>(e),
        },
{
    let ghost keep = retainer(store@, board_type, *reference_instant);
    let mut entries: Vec<(Stop, Instant)> = Vec::new();
    let mut i: usize = 0;
    while i < stop_times.len()
        invariant
            i <= stop_times@.len(),
            keep == retainer(store@, board_type, *reference_instant),
            forall|j: int|
                0 <= j < i ==> verdict(
                    #[trigger] stop_times@[j],
                    store@,
                    board_type,
                    *reference_instant,
                ) is Ok,
            entries@ == stop_times@.take(i as int).filter_map(keep),
        decreases stop_times@.len() - i,
    {
        let stop: &Stop = &stop_times[i];
        proof {
            stop_times@.lemma_filter_map_take_succ(keep, i as int);
        }
        match examine(stop, store, board_type, reference_instant) {
            Ok(stays) => {
                if stays {
                    let instant = stop.get_adjusted_dt(&board_type, reference_instant);
                    entries.push((stop.duplicate(), instant));
                }
            },
            Err(e) => {
                proof {
                    assert(is_first_fault(
                        stop_times@,
                        store@,
                        board_type,
                        *reference_instant,
                        i as int,
                    ));
                }
                return Err(e);
            },
        }
        i += 1;
    }
    proof {
        assert(stop_times@.take(i as int) == stop_times@);
    }
    Ok(entries)
}

/// One line of a board: a trip with the instants of its arrival and its
/// departure, both on the date of the reference instant.
#[derive(Clone, Debug, PartialEq, Eq)]
pub struct BoardEntry {
    pub trip_id: u32,
    pub short_name: String,
    pub head_sign: String,
    pub arrival: Instant,
    pub departure: Instant,
}

impl BoardEntry {
    /// The instant by which a board of type `board_type` orders the entry.
    pub open spec fn instant(&self, board_type: BoardType) -> Instant {
        match board_type {
            BoardType::ARRIVAL => self.arrival,
            BoardType::DEPARTURE => self.departure,
        }
    }

    /// Whether the entry may stand before `other` on a board of type
    /// `board_type`: its instant is the earlier one or, at the same instant,
    /// its trip identifier is not the greater one.
    pub open spec fn may_precede(&self, other: BoardEntry, board_type: BoardType) -> bool {
        let mine = self.instant(board_type);
        let theirs = other.instant(board_type);
        theirs.later_than(mine) || (!mine.later_than(theirs) && self.trip_id <= other.trip_id)
    }

    /// The line of the board for a stop-time that was kept with `instant`:
    /// arrival and departure are placed on the date of `instant`.
    pub open spec fn of(stop: Stop, instant: Instant) -> BoardEntry {
        BoardEntry {
            trip_id: stop.trip_id,
            short_name: stop.short_name,
            head_sign: stop.head_sign,
            arrival: wall_clock(stop.arrival_time, instant.date),
            departure: wall_clock(stop.departure_time, instant.date),
        }
    }

    /// The line of the board for a stop-time that was kept with `instant`.
    pub fn new(stop: &Stop, instant: &Instant) -> (r: BoardEntry)
        ensures
            r == BoardEntry::of(*stop, *instant),
    {
        BoardEntry {
            trip_id: stop.trip_id,
            short_name: stop.short_name.clone(),
            head_sign: stop.head_sign.clone(),
            arrival: adjust(stop.arrival_time, instant.date, instant.time).0,
            departure: adjust(stop.departure_time, instant.date, instant.time).0,
        }
    }

    /// Whether the entry may stand before `other` on a board of type
    /// `board_type`.
    pub fn goes_before(&self, other: &BoardEntry, board_type: BoardType) -> (r: bool)
        ensures
            r == self.may_precede(*other, board_type),
    {
        let (mine, theirs) = match board_type {
            BoardType::ARRIVAL => (&self.arrival, &other.arrival),
            BoardType::DEPARTURE => (&self.departure, &other.departure),
        };
        if theirs.is_after(mine) {
            true
        } else if mine.is_after(theirs) {
            false
        } else {
            self.trip_id <= other.trip_id
        }
    }
}

/// `BoardEntry::of` as a function of the pair.
pub open spec fn entry_maker() -> spec_fn((Stop, Instant)) -> BoardEntry {
    |pair: (Stop, Instant)| BoardEntry::of(pair.0, pair.1)
}

/// `sorted` with `entry` put behind the last of its entries that may stand
/// before `entry`.
pub open spec fn insert_in_order(
    sorted: Seq<BoardEntry>,
    entry: BoardEntry,
    board_type: BoardType,
) -> Seq<BoardEntry>
    decreases sorted.len(),
{
    if sorted.len() == 0 {
        seq![entry]
    } else if sorted.last().may_precede(entry, board_type) {
        sorted.push(entry)
    } else {
        insert_in_order(sorted.drop_last(), entry, board_type).push(sorted.last())
    }
}

/// The entries in the order of a board of type `board_type`: ascending by
/// instant, then by trip identifier; entries that agree in both keep the
/// order in which they were given.
pub open spec fn in_order(entries: Seq<BoardEntry>, board_type: BoardType) -> Seq<BoardEntry>
    decreases entries.len(),
{
    if entries.len() == 0 {
        Seq::empty()
    } else {
        insert_in_order(in_order(entries.drop_last(), board_type), entries.last(), board_type)
    }
}

/// The first `limit` of the entries, or all of them where there is no limit
/// or there are no more than `limit`.
pub open spec fn capped(entries: Seq<BoardEntry>, limit: Option<usize>) -> Seq<BoardEntry> {
    match limit {
        Some(n) => if n < entries.len() {
            entries.take(n as int)
        } else {
            entries
        },
        None => entries,
    }
}

/// Whether each entry may stand before all that follow it.
pub open spec fn is_ordered(entries: Seq<BoardEntry>, board_type: BoardType) -> bool {
    forall|i: int, j: int|
        #![trigger entries[i], entries[j]]
        0 <= i < j < entries.len() ==> entries[i].may_precede(entries[j], board_type)
}

/// Putting an entry in order is putting it at the place before which all
/// may stand before it and behind which none may.
pub proof fn lemma_insert_at(
    sorted: Seq<BoardEntry>,
    entry: BoardEntry,
    board_type: BoardType,
    place: int,
)
    requires
        0 <= place <= sorted.len(),
        place > 0 ==> sorted[place - 1].may_precede(entry, board_type),
        forall|k: int|
            place <= k < sorted.len() ==> !(#[trigger] sorted[k]).may_precede(entry, board_type),
    ensures
        insert_in_order(sorted, entry, board_type) == sorted.insert(place, entry),
    decreases sorted.len(),
{
    if sorted.len() == 0 {
        assert(sorted.insert(place, entry) =~= seq![entry]);
    } else if place == sorted.len() {
        assert(sorted.insert(place, entry) =~= sorted.push(entry));
    } else {
        assert(!sorted[sorted.len() - 1].may_precede(entry, board_type));
        lemma_insert_at(sorted.drop_last(), entry, board_type, place);
        assert(sorted.drop_last().insert(place, entry).push(sorted.last()) =~= sorted.insert(
            place,
            entry,
        ));
    }
}

/// Of two entries, one may stand before the other.
pub proof fn lemma_may_precede_is_total(a: BoardEntry, b: BoardEntry, board_type: BoardType)
    ensures
        a.may_precede(b, board_type) || b.may_precede(a, board_type),
{
}

/// If `a` may stand before `b` and `b` before `c`, then `a` may stand before
/// `c`.
pub proof fn lemma_may_precede_is_transitive(
    a: BoardEntry,
    b: BoardEntry,
    c: BoardEntry,
    board_type: BoardType,
)
    requires
        a.may_precede(b, board_type),
        b.may_precede(c, board_type),
    ensures
        a.may_precede(c, board_type),
{
}

/// Putting an entry in order keeps what is there, adds the entry, and keeps
/// an ordered sequence ordered.
pub proof fn lemma_insert_in_order(sorted: Seq<BoardEntry>, entry: BoardEntry, board_type: BoardType)
    ensures
        insert_in_order(sorted, entry, board_type).len() == sorted.len() + 1,
        insert_in_order(sorted, entry, board_type).to_multiset() == sorted.to_multiset().insert(
            entry,
        ),
        is_ordered(sorted, board_type) ==> is_ordered(
            insert_in_order(sorted, entry, board_type),
            board_type,
        ),
    decreases sorted.len(),
{
    broadcast use vstd::seq_lib::group_to_multiset_ensures;

    let result = insert_in_order(sorted, entry, board_type);
    if sorted.len() == 0 {
        assert(seq![entry] =~= Seq::<BoardEntry>::empty().push(entry));
        assert(sorted =~= Seq::<BoardEntry>::empty());
    } else if sorted.last().may_precede(entry, board_type) {
        if is_ordered(sorted, board_type) {
            assert forall|i: int, j: int|
                #![trigger result[i], result[j]]
                0 <= i < j < result.len() implies result[i].may_precede(result[j], board_type) by {
                if j == sorted.len() && i < sorted.len() - 1 {
                    lemma_may_precede_is_transitive(sorted[i], sorted.last(), entry, board_type);
                }
            }
        }
    } else {
        let front = sorted.drop_last();
        let inner = insert_in_order(front, entry, board_type);
        lemma_insert_in_order(front, entry, board_type);
        assert(sorted =~= front.push(sorted.last()));
        assert(inner.to_multiset().insert(sorted.last()) =~= sorted.to_multiset().insert(entry));
        if is_ordered(sorted, board_type) {
            assert(is_ordered(front, board_type)) by {
                assert forall|i: int, j: int|
                    #![trigger front[i], front[j]]
                    0 <= i < j < front.len() implies front[i].may_precede(front[j], board_type) by {
                    assert(sorted[i].may_precede(sorted[j], board_type));
                }
            }
            lemma_may_precede_is_total(sorted.last(), entry, board_type);
            assert forall|i: int|
                0 <= i < inner.len() implies (#[trigger] inner[i]).may_precede(
                sorted.last(),
                board_type,
            ) by {
                lemma_member_of_inserted(front, entry, board_type, i);
                if inner[i] == entry {
                } else {
                    let k = choose|k: int| 0 <= k < front.len() && front[k] == inner[i];
                    assert(sorted[k].may_precede(sorted[sorted.len() - 1], board_type));
                }
            }
            assert forall|i: int, j: int|
                #![trigger result[i], result[j]]
                0 <= i < j < result.len() implies result[i].may_precede(result[j], board_type) by {
                if j < inner.len() {
                    assert(inner[i].may_precede(inner[j], board_type));
                } else {
                    assert(result[i] == inner[i]);
                }
            }
        }
    }
}

/// Each entry of a sequence into which one was put in order is that entry
/// or one of those that were there.
pub proof fn lemma_member_of_inserted(
    sorted: Seq<BoardEntry>,
    entry: BoardEntry,
    board_type: BoardType,
    i: int,
)
    requires
        0 <= i < insert_in_order(sorted, entry, board_type).len(),
    ensures
        insert_in_order(sorted, entry, board_type)[i] == entry || exists|k: int|
            0 <= k < sorted.len() && sorted[k] == insert_in_order(sorted, entry, board_type)[i],
    decreases sorted.len(),
{
    if sorted.len() == 0 {
    } else if sorted.last().may_precede(entry, board_type) {
        if i < sorted.len() {
            assert(sorted[i] == insert_in_order(sorted, entry, board_type)[i]);
        }
    } else {
        let front = sorted.drop_last();
        let inner = insert_in_order(front, entry, board_type);
        lemma_insert_in_order(front, entry, board_type);
        if i < inner.len() {
            lemma_member_of_inserted(front, entry, board_type, i);
            if inner[i] != entry {
                let k = choose|k: int| 0 <= k < front.len() && front[k] == inner[i];
                assert(sorted[k] == inner[i]);
            }
        } else {
            assert(sorted[sorted.len() - 1] == insert_in_order(sorted, entry, board_type)[i]);
        }
    }
}

/// A board in order holds the entries that it was made of, each as often as
/// it was given, and each of its entries may stand before all that follow.
pub proof fn law_in_order_sorts(entries: Seq<BoardEntry>, board_type: BoardType)
    ensures
        in_order(entries, board_type).len() == entries.len(),
        in_order(entries, board_type).to_multiset() == entries.to_multiset(),
        is_ordered(in_order(entries, board_type), board_type),
    decreases entries.len(),
{
    broadcast use vstd::seq_lib::group_to_multiset_ensures;

    if entries.len() == 0 {
        assert(entries =~= Seq::<BoardEntry>::empty());
    } else {
        law_in_order_sorts(entries.drop_last(), board_type);
        lemma_insert_in_order(
            in_order(entries.drop_last(), board_type),
            entries.last(),
            board_type,
        );
        assert(entries =~= entries.drop_last().push(entries.last()));
    }
}

/// A bounded board holds the earliest entries: each entry that is on it may
/// stand before each entry that the bound has cut off.
pub proof fn law_cap_keeps_the_earliest(
    entries: Seq<BoardEntry>,
    board_type: BoardType,
    limit: usize,
    i: int,
    j: int,
)
    requires
        0 <= i < limit <= j < entries.len(),
    ensures
        capped(in_order(entries, board_type), Some(limit)) == in_order(entries, board_type).take(
            limit as int,
        ),
        in_order(entries, board_type)[i].may_precede(in_order(entries, board_type)[j], board_type),
{
    law_in_order_sorts(entries, board_type);
}

/// Orders what `filter` has kept and bounds the length of the board.
///
/// The entries are put in ascending order of the instant that the board type
/// goes by, arrival or departure; entries at the same instant are put in
/// ascending order of their trip identifier. The bound is applied to the
/// ordered board, so that the earliest entries stay.
pub fn assemble(
    filtered_entries: &Vec<(Stop, Instant)>,
    board_type: BoardType,
    limit: Option<usize>,
) -> (board: Vec<BoardEntry>)
    ensures
        board@ == capped(
            in_order(filtered_entries@.map_values(entry_maker()), board_type),
            limit,
        ),
{
    let ghost made = filtered_entries@.map_values(entry_maker());
    let mut board: Vec<BoardEntry> = Vec::new();
    let mut i: usize = 0;
    while i < filtered_entries.len()
        invariant
            i <= filtered_entries@.len(),
            made == filtered_entries@.map_values(entry_maker()),
            board@ == in_order(made.take(i as int), board_type),
            board@.len() == i,
        decreases filtered_entries@.len() - i,
    {
        let entry = BoardEntry::new(&filtered_entries[i].0, &filtered_entries[i].1);
        let mut place: usize = board.len();
        while place > 0 && !board[place - 1].goes_before(&entry, board_type)
            invariant
                place <= board@.len(),
                forall|k: int|
                    place <= k < board@.len() ==> !(#[trigger] board@[k]).may_precede(
                        entry,
                        board_type,
                    ),
            decreases place,
        {
            place -= 1;
        }
        proof {
            lemma_insert_at(board@, entry, board_type, place as int);
            assert(made.take(i + 1).drop_last() == made.take(i as int));
        }
        board.insert(place, entry);
        i += 1;
    }
    proof {
        assert(made.take(i as int) == made);
    }
    match limit {
        Some(n) => {
            if n < board.len() {
                board.truncate(n);
            }
        },
        None => {},
    }
    board
}

/// The board that is made of the stop-times `stops`: what `filter` keeps of
/// them, as lines, in order and bounded.
pub open spec fn board_of(
    stops: Seq<Stop>,
    services: Map<u16, Service>,
    board_type: BoardType,
    reference: Instant,
    limit: Option<usize>,
) -> Seq<BoardEntry> {
    capped(
        in_order(
            stops.filter_map(retainer(services, board_type, reference)).map_values(entry_maker()),
            board_type,
        ),
        limit,
    )
}

/// Computes the board of a stop from the rows of its stop-times.
///
/// The rows are read, the stop-times that belong on the board are kept, and
/// what is kept is put in order and bounded. A row with a malformed offset
/// fails the computation with a `TimeFormatError`; after that, the first
/// stop-time that is at fault fails it with its fault.
pub fn board_for(
    rows: &Vec<StopRow>,
    store: &CalendarStore,
    board_type: BoardType,
    reference_instant: &Instant,
    limit: Option<usize>,
) -> (r: Result<Vec<BoardEntry>, BoardError>)
    ensures
        match r {
            Ok(board) => all_rows_well_formed(rows@) && faultless(
                stops_of(rows@),
                store@,
                board_type,
                *reference_instant,
            ) && board@ == board_of(stops_of(rows@), store@, board_type, *reference_instant, limit),
            Err(e) => if all_rows_well_formed(rows@) {
                exists|i: int|
                    is_first_fault(stops_of(rows@), store@, board_type, *reference_instant, i)
                        && verdict(stops_of(rows@)[i], store@, board_type, *reference_instant)
                        == Err::<bool, BoardError>(e)
            } else {
                e == BoardError::TimeFormatError
            },
        },
{
    let stops = match Stop::load(rows) {
        Ok(stops) => stops,
        Err(e) => {
            return Err(e);
        },
    };
    let kept = match filter(&stops, store, board_type, reference_instant) {
        Ok(kept) => kept,
        Err(e) => {
            return Err(e);
        },
    };
    Ok(assemble(&kept, board_type, limit))
}

} // verus!
