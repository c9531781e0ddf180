//! The console as mathematics: a screen of `CELLS` characters and
//! attributes, a cursor and an active attribute, and what each input byte
//! does to them.
use vstd::prelude::*;
use crate::surface::{COLS, ROWS, CELLS};

verus! {

/// The blank character.
pub const BLANK: u8 = 0x20;

/// The attribute of blanked cells: black on black.
pub const BLANK_ATTR: u8 = 0x00;

/// What the console holds, without the surface it is shown on.
pub struct Screen {
    /// One character per cell, row by row.
    pub text: Seq<u8>,
    /// One attribute per cell, aligned with `text`.
    pub color: Seq<u8>,
    pub row: int,
    pub col: int,
    /// The attribute given to the next printed character.
    pub active: u8,
}

impl Screen {
    /// Full mirrors and a cursor on a cell.
    pub open spec fn wf(self) -> bool {
        &&& self.text.len() == CELLS
        &&& self.color.len() == CELLS
        &&& 0 <= self.row < ROWS
        &&& 0 <= self.col < COLS
    }

    /// The index of the cursor's cell.
    pub open spec fn cursor(self) -> int {
        self.row * COLS + self.col
    }
}

/// The bytes that are printed as they are.
pub open spec fn printable(b: u8) -> bool {
    0x20 <= b <= 0x7e
}

/// `n` copies of `b`.
pub open spec fn repeat(b: u8, n: nat) -> Seq<u8> {
    Seq::new(n, |i: int| b)
}

/// Mirrors shifted up by `k` rows, the rows freed at the bottom filled with `fill`.
pub open spec fn shifted(t: Seq<u8>, k: nat, fill: u8) -> Seq<u8> {
    Seq::new(CELLS as nat, |i: int| if i + k * COLS < CELLS { t[i + k * COLS] } else { fill })
}

/// A blank screen, cursor home, with the given active attribute.
pub open spec fn cleared(active: u8) -> Screen {
    Screen {
        text: repeat(BLANK, CELLS as nat),
        color: repeat(BLANK_ATTR, CELLS as nat),
        row: 0,
        col: 0,
        active,
    }
}

/// Writes `b` in the active attribute at the cursor and moves one column on.
pub open spec fn put(s: Screen, b: u8) -> Screen {
    Screen {
        text: s.text.update(s.cursor(), b),
        color: s.color.update(s.cursor(), s.active),
        col: s.col + 1,
        ..s
    }
}

/// Drops the top row, blanks a new bottom row, cursor at its start.
pub open spec fn scrolled(s: Screen) -> Screen {
    Screen {
        text: s.text.subrange(COLS as int, CELLS as int) + repeat(BLANK, COLS as nat),
        color: s.color.subrange(COLS as int, CELLS as int) + repeat(BLANK_ATTR, COLS as nat),
        row: ROWS - 1,
        col: 0,
        ..s
    }
}

/// Start of the next row, scrolling from the last one.
pub open spec fn line_feed(s: Screen) -> Screen {
    if s.row < ROWS - 1 {
        Screen { row: s.row + 1, col: 0, ..s }
    } else {
        scrolled(s)
    }
}

/// A cursor past the last column goes on to the next row.
pub open spec fn wrapped(s: Screen) -> Screen {
    if s.col >= COLS {
        line_feed(s)
    } else {
        s
    }
}

/// Blanks the top row and puts the cursor home.
pub open spec fn homed(s: Screen) -> Screen {
    Screen {
        text: repeat(BLANK, COLS as nat) + s.text.subrange(COLS as int, CELLS as int),
        color: repeat(BLANK_ATTR, COLS as nat) + s.color.subrange(COLS as int, CELLS as int),
        row: 0,
        col: 0,
        ..s
    }
}

/// Four columns on, wrapping past the last one.
pub open spec fn tabbed(s: Screen) -> Screen {
    wrapped(Screen { col: s.col + 4, ..s })
}

/// What one input byte does to the screen.
pub open spec fn consume(s: Screen, b: u8) -> Screen {
    if b == 0x0a {
        line_feed(s)
    } else if b == 0x0d {
        homed(s)
    } else if b == 0x09 {
        tabbed(s)
    } else if printable(b) {
        wrapped(put(s, b))
    } else {
        s
    }
}

/// What a sequence of input bytes does to the screen, in order.
pub open spec fn consume_all(s: Screen, bytes: Seq<u8>) -> Screen
    decreases bytes.len(),
{
    if bytes.len() == 0 {
        s
    } else {
        consume(consume_all(s, bytes.drop_last()), bytes.last())
    }
}

/// Every byte takes a well-formed screen to a well-formed screen.
pub proof fn lemma_consume_wf(s: Screen, b: u8)
    requires
        s.wf(),
    ensures
        consume(s, b).wf(),
        consume(s, b).active == s.active,
{
}

/// Any sequence of bytes takes a well-formed screen to a well-formed screen.
pub proof fn lemma_consume_all_wf(s: Screen, bytes: Seq<u8>)
    requires
        s.wf(),
    ensures
        consume_all(s, bytes).wf(),
        consume_all(s, bytes).active == s.active,
    decreases bytes.len(),
{
    if bytes.len() > 0 {
        lemma_consume_all_wf(s, bytes.drop_last());
        lemma_consume_wf(consume_all(s, bytes.drop_last()), bytes.last());
    }
}

} // verus!
