//! The display surface: one (character, attribute) byte pair per cell, row
//! by row, as the text-mode hardware lays them out.
use vstd::prelude::*;

verus! {

/// Rows of the display.
pub const ROWS: usize = 25;

/// Columns of the display.
pub const COLS: usize = 80;

/// Cells of the display.
pub const CELLS: usize = ROWS * COLS;

/// The character byte of cell `i` of an interleaved surface.
pub open spec fn char_at(cells: Seq<u8>, i: int) -> u8 {
    cells[2 * i]
}

/// The attribute byte of cell `i` of an interleaved surface.
pub open spec fn attr_at(cells: Seq<u8>, i: int) -> u8 {
    cells[2 * i + 1]
}

/// `cells` shows exactly the characters `text` in the attributes `color`.
pub open spec fn shows(cells: Seq<u8>, text: Seq<u8>, color: Seq<u8>) -> bool {
    &&& cells.len() == 2 * CELLS
    &&& text.len() == CELLS
    &&& color.len() == CELLS
    &&& forall|i: int| 0 <= i < CELLS ==> #[trigger] char_at(cells, i) == text[i]
    &&& forall|i: int| 0 <= i < CELLS ==> #[trigger] attr_at(cells, i) == color[i]
}

/// A display surface of `CELLS` byte pairs, character first.
pub struct Surface {
    cells: Vec<u8>,
}

impl View for Surface {
    type V = Seq<u8>;

    closed spec fn view(&self) -> Seq<u8> {
        self.cells@
    }
}

impl Surface {
    /// Every byte of a new surface is zero.
    pub fn new() -> (r: Surface)
        ensures
            r@.len() == 2 * CELLS,
            forall|i: int| 0 <= i < 2 * CELLS ==> #[trigger] r@[i] == 0,
    {
        let mut cells: Vec<u8> = Vec::new();
        let mut i: usize = 0;
        while i < 2 * CELLS
            invariant
                i <= 2 * CELLS,
                cells@.len() == i,
                forall|j: int| 0 <= j < i ==> #[trigger] cells@[j] == 0,
            decreases 2 * CELLS - i,
        {
            cells.push(0u8);
            i = i + 1;
        }
        Surface { cells }
    }

    /// Writes one cell: the character byte, then its attribute.
    pub fn render_cell(&mut self, index: usize, ch: u8, attr: u8)
        requires
            old(self)@.len() == 2 * CELLS,
            index < CELLS,
        ensures
            final(self)@ == old(self)@.update(2 * index, ch).update(2 * index + 1, attr),
        no_unwind
    {
        self.cells[2 * index] = ch;
        self.cells[2 * index + 1] = attr;
    }

    /// Writes every cell from the two mirrors.
    pub fn render_all(&mut self, text: &Vec<u8>, color: &Vec<u8>)
        requires
            old(self)@.len() == 2 * CELLS,
            text@.len() == CELLS,
            color@.len() == CELLS,
        ensures
            shows(final(self)@, text@, color@),
        no_unwind
    {
        let mut idx: usize = 0;
        while idx < CELLS
            invariant
                idx <= CELLS,
                text@.len() == CELLS,
                color@.len() == CELLS,
                self@.len() == 2 * CELLS,
                forall|i: int| 0 <= i < idx ==> #[trigger] char_at(self@, i) == text@[i],
                forall|i: int| 0 <= i < idx ==> #[trigger] attr_at(self@, i) == color@[i],
            decreases CELLS - idx,
        {
            let ghost prev = self@;
            self.render_cell(idx, text[idx], color[idx]);
            assert forall|i: int| 0 <= i < idx + 1 implies #[trigger] char_at(self@, i)
                == text@[i] by {
                if i < idx {
                    assert(char_at(prev, i) == text@[i]);
                }
            }
            assert forall|i: int| 0 <= i < idx + 1 implies #[trigger] attr_at(self@, i)
                == color@[i] by {
                if i < idx {
                    assert(attr_at(prev, i) == color@[i]);
                }
            }
            idx = idx + 1;
        }
    }

    /// The (character, attribute) pair of one cell.
    pub fn read_cell(&self, index: usize) -> (r: (u8, u8))
        requires
            self@.len() == 2 * CELLS,
            index < CELLS,
        ensures
            r == (char_at(self@, index as int), attr_at(self@, index as int)),
    {
        (self.cells[2 * index], self.cells[2 * index + 1])
    }

    /// The bytes of the surface, in hardware order.
    pub fn as_bytes(&self) -> (r: &[u8])
        ensures
            r@ == self@,
    {
        self.cells.as_slice()
    }
}

} // verus!
