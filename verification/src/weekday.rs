//! The weekly pattern of a service: a set of weekdays.

use vstd::prelude::*;

verus! {

/// A set of weekdays. Day `0` is Monday, day `6` is Sunday; `has` says which
/// days are in the set.
#[derive(Clone, Copy, Debug, PartialEq, Eq, Structural)]
pub struct Weekday {
    bits: u8,
}

impl Weekday {
    /// Only the seven low bits are ever set: bit `d` stands for day `d`.
    #[verifier::type_invariant]
    spec fn within_week(self) -> bool {
        self.bits < 128
    }

    /// Whether day `day` (Monday is `0`) is in the set. No day outside
    /// `0..7` ever is.
    pub closed spec fn has(self, day: int) -> bool {
        0 <= day < 7 && self.bits & (1u8 << (day as u8)) != 0
    }

    /// The set as a bit pattern: its value is the sum of `2^d` over the days
    /// `d` of the set.
    pub closed spec fn spec_bits(self) -> u8 {
        self.bits
    }

    /// A set holds no day but the seven of the week.
    pub proof fn lemma_has_within_week(self, day: int)
        requires
            self.has(day),
        ensures
            0 <= day < 7,
    {
    }

    /// The set without any day.
    pub fn empty() -> (r: Weekday)
        ensures
            forall|d: int| !r.has(d),
            r.spec_bits() == 0,
    {
        assert(forall|k: u8| k < 7 ==> 0u8 & (1u8 << k) == 0) by (bit_vector);
        Weekday { bits: 0 }
    }

    /// The set whose days are the seven low bits of `bits`; the eighth bit is
    /// dropped.
    pub fn from_bits_truncate(bits: u8) -> (r: Weekday)
        ensures
            r.spec_bits() == bits & 0x7f,
            forall|d: int| r.has(d) == (0 <= d < 7 && bits & (1u8 << (d as u8)) != 0),
    {
        assert(bits & 0x7f < 128) by (bit_vector);
        assert(forall|k: u8| k < 7 ==> ((bits & 0x7f) & (1u8 << k) != 0) == (bits & (1u8 << k) != 0))
            by (bit_vector);
        Weekday { bits: bits & 0x7f }
    }

    /// The bit pattern of the set.
    pub fn bits(&self) -> (b: u8)
        ensures
            b == self.spec_bits(),
            b < 128,
            forall|d: int| 0 <= d < 7 ==> #[trigger] self.has(d) == (b & (1u8 << (d as u8)) != 0),
    {
        proof {
            use_type_invariant(self);
        }
        self.bits
    }

    /// The set of the days whose flag is `true`, for use in contracts.
    pub closed spec fn of_rows(
        mon: bool,
        tue: bool,
        wed: bool,
        thu: bool,
        fri: bool,
        sat: bool,
        sun: bool,
    ) -> Weekday {
        Weekday {
            bits: flag_bit(mon, 1) | flag_bit(tue, 2) | flag_bit(wed, 4) | flag_bit(thu, 8)
                | flag_bit(fri, 16) | flag_bit(sat, 32) | flag_bit(sun, 64),
        }
    }

    /// `of_rows` holds exactly the days whose flag is `true`.
    pub proof fn lemma_of_rows_has(
        mon: bool,
        tue: bool,
        wed: bool,
        thu: bool,
        fri: bool,
        sat: bool,
        sun: bool,
    )
        ensures
            Weekday::of_rows(mon, tue, wed, thu, fri, sat, sun).has(0) == mon,
            Weekday::of_rows(mon, tue, wed, thu, fri, sat, sun).has(1) == tue,
            Weekday::of_rows(mon, tue, wed, thu, fri, sat, sun).has(2) == wed,
            Weekday::of_rows(mon, tue, wed, thu, fri, sat, sun).has(3) == thu,
            Weekday::of_rows(mon, tue, wed, thu, fri, sat, sun).has(4) == fri,
            Weekday::of_rows(mon, tue, wed, thu, fri, sat, sun).has(5) == sat,
            Weekday::of_rows(mon, tue, wed, thu, fri, sat, sun).has(6) == sun,
    {
        let b0 = flag_bit(mon, 1);
        let b1 = flag_bit(tue, 2);
        let b2 = flag_bit(wed, 4);
        let b3 = flag_bit(thu, 8);
        let b4 = flag_bit(fri, 16);
        let b5 = flag_bit(sat, 32);
        let b6 = flag_bit(sun, 64);
        let all = b0 | b1 | b2 | b3 | b4 | b5 | b6;
        assert((all & (1u8 << 0u8) != 0) == (b0 != 0) && (all & (1u8 << 1u8) != 0) == (b1 != 0) && (
        all & (1u8 << 2u8) != 0) == (b2 != 0) && (all & (1u8 << 3u8) != 0) == (b3 != 0) && (all & (
        1u8 << 4u8) != 0) == (b4 != 0) && (all & (1u8 << 5u8) != 0) == (b5 != 0) && (all & (1u8
            << 6u8) != 0) == (b6 != 0)) by (bit_vector)
            requires
                all == b0 | b1 | b2 | b3 | b4 | b5 | b6,
                b0 == 0 || b0 == 1,
                b1 == 0 || b1 == 2,
                b2 == 0 || b2 == 4,
                b3 == 0 || b3 == 8,
                b4 == 0 || b4 == 16,
                b5 == 0 || b5 == 32,
                b6 == 0 || b6 == 64,
        ;
    }

    /// The set of the days whose flag is `true`.
    pub fn from_rows(
        mon: bool,
        tue: bool,
        wed: bool,
        thu: bool,
        fri: bool,
        sat: bool,
        sun: bool,
    ) -> (r: Weekday)
        ensures
            r == Weekday::of_rows(mon, tue, wed, thu, fri, sat, sun),
            r.has(0) == mon,
            r.has(1) == tue,
            r.has(2) == wed,
            r.has(3) == thu,
            r.has(4) == fri,
            r.has(5) == sat,
            r.has(6) == sun,
    {
        let b0: u8 = if mon { 1 } else { 0 };
        let b1: u8 = if tue { 2 } else { 0 };
        let b2: u8 = if wed { 4 } else { 0 };
        let b3: u8 = if thu { 8 } else { 0 };
        let b4: u8 = if fri { 16 } else { 0 };
        let b5: u8 = if sat { 32 } else { 0 };
        let b6: u8 = if sun { 64 } else { 0 };
        let all: u8 = b0 | b1 | b2 | b3 | b4 | b5 | b6;
        proof {
            Weekday::lemma_of_rows_has(mon, tue, wed, thu, fri, sat, sun);
            assert(all < 128) by (bit_vector)
                requires
                    all == b0 | b1 | b2 | b3 | b4 | b5 | b6,
                    b0 <= 1,
                    b1 <= 2,
                    b2 <= 4,
                    b3 <= 8,
                    b4 <= 16,
                    b5 <= 32,
                    b6 <= 64,
            ;
        }
        Weekday { bits: all }
    }

    /// The set that holds day `index` alone, counted from Monday as `0`. An
    /// index that names no weekday gives the empty set.
    pub fn from_index(index: u32) -> (r: Weekday)
        ensures
            forall|d: int| r.has(d) == (d == index && index < 7),
    {
        if index < 7 {
            let shift: u8 = index as u8;
            assert(1u8 << shift < 128) by (bit_vector)
                requires
                    shift < 7,
            ;
            assert(forall|k: u8| k < 7 ==> ((1u8 << shift) & (1u8 << k) != 0) == (k == shift))
                by (bit_vector)
                requires
                    shift < 7,
            ;
            Weekday { bits: 1u8 << shift }
        } else {
            Weekday::empty()
        }
    }

    /// Whether the set holds no day.
    pub fn is_empty(&self) -> (r: bool)
        ensures
            r == (forall|d: int| !self.has(d)),
    {
        let bits: u8 = self.bits;
        proof {
            use_type_invariant(self);
            assert(bits == 0 ==> (forall|k: u8| k < 7 ==> bits & (1u8 << k) == 0)) by (bit_vector);
            assert(bits != 0 && bits < 128 ==> bits & (1u8 << 0u8) != 0 || bits & (1u8 << 1u8) != 0
                || bits & (1u8 << 2u8) != 0 || bits & (1u8 << 3u8) != 0 || bits & (1u8 << 4u8) != 0
                || bits & (1u8 << 5u8) != 0 || bits & (1u8 << 6u8) != 0) by (bit_vector);
            if bits != 0 {
                assert(self.has(0) || self.has(1) || self.has(2) || self.has(3) || self.has(4)
                    || self.has(5) || self.has(6));
            }
        }
        bits == 0
    }

    /// Whether day `index` (Monday is `0`) is in the set.
    pub fn has_day(&self, index: u32) -> (r: bool)
        ensures
            r == self.has(index as int),
    {
        if index < 7 {
            let shift: u8 = index as u8;
            self.bits & (1u8 << shift) != 0
        } else {
            false
        }
    }

    /// The days that are in both sets.
    pub fn intersection(self, other: Weekday) -> (r: Weekday)
        ensures
            forall|d: int| #[trigger] r.has(d) == (self.has(d) && other.has(d)),
    {
        let a: u8 = self.bits;
        let b: u8 = other.bits;
        proof {
            use_type_invariant(self);
            assert(a & b < 128) by (bit_vector)
                requires
                    a < 128,
            ;
            assert(forall|k: u8|
                k < 7 ==> ((a & b) & (1u8 << k) != 0) == (a & (1u8 << k) != 0 && b & (1u8 << k)
                    != 0)) by (bit_vector);
        }
        Weekday { bits: a & b }
    }

    /// Puts the days of `other` into the set where `value` is `true`, and
    /// takes them out of it where `value` is `false`.
    pub fn set(&mut self, other: Weekday, value: bool)
        ensures
            forall|d: int|
                #[trigger] final(self).has(d) == (if value {
                    old(self).has(d) || other.has(d)
                } else {
                    old(self).has(d) && !other.has(d)
                }),
    {
        let a: u8 = self.bits;
        let b: u8 = other.bits;
        proof {
            use_type_invariant(&*self);
            use_type_invariant(other);
            assert(a | b < 128) by (bit_vector)
                requires
                    a < 128,
                    b < 128,
            ;
            assert(a & !b < 128) by (bit_vector)
                requires
                    a < 128,
            ;
            assert(forall|k: u8|
                k < 7 ==> ((a | b) & (1u8 << k) != 0) == (a & (1u8 << k) != 0 || b & (1u8 << k)
                    != 0)) by (bit_vector);
            assert(forall|k: u8|
                k < 7 ==> ((a & !b) & (1u8 << k) != 0) == (a & (1u8 << k) != 0 && !(b & (1u8 << k)
                    != 0))) by (bit_vector);
        }
        if value {
            self.bits = a | b;
        } else {
            self.bits = a & !b;
        }
    }
}

/// `bit` where `flag` is set, no bit otherwise.
spec fn flag_bit(flag: bool, bit: u8) -> u8 {
    if flag {
        bit
    } else {
        0
    }
}

} // verus!
