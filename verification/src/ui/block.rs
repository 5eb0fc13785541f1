//! The blocks of the screen and the ways from one to another.

use vstd::prelude::*;

verus! {

/// A block of the screen that can be hovered over and entered.
///
/// The blocks stand in a ring: search, stations, date, time, board, trip.
/// The first four make up the menu column, the board is the centre and the
/// trip the right column.
#[allow(non_camel_case_types)]
#[derive(Copy, Clone, Debug, PartialEq, Eq, Structural)]
pub enum SelectableBlock {
    SEARCH,
    STATION,
    DATE,
    TIME,
    BOARD,
    TRIP,
}

impl SelectableBlock {
    /// The place of the block in the ring, from 0 for the search block.
    pub open spec fn place(self) -> int {
        match self {
            SelectableBlock::SEARCH => 0,
            SelectableBlock::STATION => 1,
            SelectableBlock::DATE => 2,
            SelectableBlock::TIME => 3,
            SelectableBlock::BOARD => 4,
            SelectableBlock::TRIP => 5,
        }
    }

    /// The column of the block: 0 for the menu, 1 for the board, 2 for the
    /// trip.
    pub open spec fn column(self) -> int {
        match self {
            SelectableBlock::BOARD => 1,
            SelectableBlock::TRIP => 2,
            _ => 0,
        }
    }

    /// The block that heads a column: the search block heads the menu.
    pub open spec fn head_of(column: int) -> SelectableBlock {
        if column == 1 {
            SelectableBlock::BOARD
        } else if column == 2 {
            SelectableBlock::TRIP
        } else {
            SelectableBlock::SEARCH
        }
    }

    /// The block at `place` in the ring.
    pub open spec fn at(place: int) -> SelectableBlock {
        if place == 1 {
            SelectableBlock::STATION
        } else if place == 2 {
            SelectableBlock::DATE
        } else if place == 3 {
            SelectableBlock::TIME
        } else if place == 4 {
            SelectableBlock::BOARD
        } else if place == 5 {
            SelectableBlock::TRIP
        } else {
            SelectableBlock::SEARCH
        }
    }

    /// The block after this one in the ring.
    pub fn next(&self) -> (r: SelectableBlock)
        ensures
            r == SelectableBlock::at((self.place() + 1) % 6),
            r.place() == (self.place() + 1) % 6,
    {
        match self {
            SelectableBlock::SEARCH => SelectableBlock::STATION,
            SelectableBlock::STATION => SelectableBlock::DATE,
            SelectableBlock::DATE => SelectableBlock::TIME,
            SelectableBlock::TIME => SelectableBlock::BOARD,
            SelectableBlock::BOARD => SelectableBlock::TRIP,
            SelectableBlock::TRIP => SelectableBlock::SEARCH,
        }
    }

    /// The block before this one in the ring.
    pub fn prev(&self) -> (r: SelectableBlock)
        ensures
            r == SelectableBlock::at((self.place() + 5) % 6),
            r.place() == (self.place() + 5) % 6,
    {
        match self {
            SelectableBlock::SEARCH => SelectableBlock::TRIP,
            SelectableBlock::STATION => SelectableBlock::SEARCH,
            SelectableBlock::DATE => SelectableBlock::STATION,
            SelectableBlock::TIME => SelectableBlock::DATE,
            SelectableBlock::BOARD => SelectableBlock::TIME,
            SelectableBlock::TRIP => SelectableBlock::BOARD,
        }
    }

    /// The block that heads the column to the right; from the rightmost
    /// column the way leads round to the menu.
    pub fn right(&self) -> (r: SelectableBlock)
        ensures
            r == SelectableBlock::head_of((self.column() + 1) % 3),
    {
        match self {
            SelectableBlock::BOARD => SelectableBlock::TRIP,
            SelectableBlock::TRIP => SelectableBlock::SEARCH,
            _ => SelectableBlock::BOARD,
        }
    }

    /// The block that heads the column to the left; from the menu the way
    /// leads round to the rightmost column.
    pub fn left(&self) -> (r: SelectableBlock)
        ensures
            r == SelectableBlock::head_of((self.column() + 2) % 3),
    {
        match self {
            SelectableBlock::TRIP => SelectableBlock::BOARD,
            SelectableBlock::BOARD => SelectableBlock::SEARCH,
            _ => SelectableBlock::TRIP,
        }
    }

    /// A step forth and a step back in the ring lead to the block from
    /// which they set out, and so do six steps forth.
    pub proof fn law_ring(block: SelectableBlock)
        ensures
            SelectableBlock::at(block.place()) == block,
            SelectableBlock::at((SelectableBlock::at((block.place() + 1) % 6).place() + 5) % 6)
                == block,
            SelectableBlock::at((SelectableBlock::at((block.place() + 5) % 6).place() + 1) % 6)
                == block,
            SelectableBlock::at((block.place() + 6) % 6) == block,
    {
    }

    /// A block is known by its place in the ring.
    pub proof fn lemma_place_is_injective(a: SelectableBlock, b: SelectableBlock)
        requires
            a.place() == b.place(),
        ensures
            a == b,
    {
    }
}

/// A block of the screen, for code that tells the blocks apart without
/// selecting them. It has the variants and the ways of `SelectableBlock`;
/// `selectable` gives the block of the same name.
#[allow(non_camel_case_types)]
#[derive(Copy, Clone, Debug, PartialEq, Eq, Structural)]
pub enum UIBlock {
    SEARCH,
    STATION,
    DATE,
    TIME,
    BOARD,
    TRIP,
}

impl UIBlock {
    /// The block of the same name among the selectable blocks.
    pub open spec fn selectable(self) -> SelectableBlock {
        match self {
            UIBlock::SEARCH => SelectableBlock::SEARCH,
            UIBlock::STATION => SelectableBlock::STATION,
            UIBlock::DATE => SelectableBlock::DATE,
            UIBlock::TIME => SelectableBlock::TIME,
            UIBlock::BOARD => SelectableBlock::BOARD,
            UIBlock::TRIP => SelectableBlock::TRIP,
        }
    }

    /// The block after this one in the ring.
    pub fn next(&self) -> (r: UIBlock)
        ensures
            r.selectable().place() == (self.selectable().place() + 1) % 6,
    {
        match self {
            UIBlock::SEARCH => UIBlock::STATION,
            UIBlock::STATION => UIBlock::DATE,
            UIBlock::DATE => UIBlock::TIME,
            UIBlock::TIME => UIBlock::BOARD,
            UIBlock::BOARD => UIBlock::TRIP,
            UIBlock::TRIP => UIBlock::SEARCH,
        }
    }

    /// The block before this one in the ring.
    pub fn prev(&self) -> (r: UIBlock)
        ensures
            r.selectable().place() == (self.selectable().place() + 5) % 6,
    {
        match self {
            UIBlock::SEARCH => UIBlock::TRIP,
            UIBlock::STATION => UIBlock::SEARCH,
            UIBlock::DATE => UIBlock::STATION,
            UIBlock::TIME => UIBlock::DATE,
            UIBlock::BOARD => UIBlock::TIME,
            UIBlock::TRIP => UIBlock::BOARD,
        }
    }

    /// The block that heads the column to the right.
    pub fn right(&self) -> (r: UIBlock)
        ensures
            r.selectable() == SelectableBlock::head_of((self.selectable().column() + 1) % 3),
    {
        match self {
            UIBlock::BOARD => UIBlock::TRIP,
            UIBlock::TRIP => UIBlock::SEARCH,
            _ => UIBlock::BOARD,
        }
    }

    /// The block that heads the column to the left.
    pub fn left(&self) -> (r: UIBlock)
        ensures
            r.selectable() == SelectableBlock::head_of((self.selectable().column() + 2) % 3),
    {
        match self {
            UIBlock::TRIP => UIBlock::BOARD,
            UIBlock::BOARD => UIBlock::SEARCH,
            _ => UIBlock::TRIP,
        }
    }
}

} // verus!
