//! The console state: mirrors, cursor and active attribute, written through
//! to a display surface cell by cell, or all at once after a scroll or a clear.
use vstd::prelude::*;
use crate::color::Color;
use crate::model::{cleared, consume, consume_all, homed, line_feed, put, scrolled, wrapped, Screen, BLANK, BLANK_ATTR};
use crate::surface::{attr_at, char_at, shows, Surface, CELLS, COLS, ROWS};

verus! {

/// The console and the surface it is shown on.
pub struct VgaState {
    screen_text: Vec<u8>,
    screen_color: Vec<u8>,
    row: usize,
    col: usize,
    write_color: u8,
    screen: Surface,
}

impl View for VgaState {
    type V = Screen;

    closed spec fn view(&self) -> Screen {
        Screen {
            text: self.screen_text@,
            color: self.screen_color@,
            row: self.row as int,
            col: self.col as int,
            active: self.write_color,
        }
    }
}

impl VgaState {
    /// The bytes of the surface the console is shown on.
    pub closed spec fn hw(&self) -> Seq<u8> {
        self.screen@
    }

    /// Mirrors full, cursor on a row, and the surface showing the mirrors.
    pub open spec fn consistent(&self) -> bool {
        &&& self@.text.len() == CELLS
        &&& self@.color.len() == CELLS
        &&& 0 <= self@.row < ROWS
        &&& 0 <= self@.col
        &&& shows(self.hw(), self@.text, self@.color)
    }

    /// A consistent console whose cursor is on a cell.
    pub open spec fn wf(&self) -> bool {
        &&& self.consistent()
        &&& self@.wf()
    }

    /// A blank screen, cursor home, white on black.
    pub fn new() -> (r: VgaState)
        ensures
            r.wf(),
            r@ == cleared(Color::WHITE),
    {
        let mut st = VgaState {
            screen_text: Vec::new(),
            screen_color: Vec::new(),
            row: 0,
            col: 0,
            write_color: Color::WHITE,
            screen: Surface::new(),
        };
        let mut i: usize = 0;
        while i < CELLS
            invariant
                i <= CELLS,
                st.screen_text@.len() == i,
                st.screen_color@.len() == i,
                forall|j: int| 0 <= j < i ==> #[trigger] st.screen_text@[j] == BLANK,
                forall|j: int| 0 <= j < i ==> #[trigger] st.screen_color@[j] == BLANK_ATTR,
                st.screen@.len() == 2 * CELLS,
                st.row == 0,
                st.col == 0,
                st.write_color == Color::WHITE,
            decreases CELLS - i,
        {
            st.screen_text.push(BLANK);
            st.screen_color.push(BLANK_ATTR);
            i = i + 1;
        }
        st.full_render_buffer();
        assert(st@.text =~= cleared(Color::WHITE).text);
        assert(st@.color =~= cleared(Color::WHITE).color);
        st
    }

    /// Re-renders every cell of the surface from the mirrors.
    fn full_render_buffer(&mut self)
        requires
            old(self).screen_text@.len() == CELLS,
            old(self).screen_color@.len() == CELLS,
            old(self).screen@.len() == 2 * CELLS,
        ensures
            final(self)@ == old(self)@,
            shows(final(self).hw(), final(self)@.text, final(self)@.color),
        no_unwind
    {
        self.screen.render_all(&self.screen_text, &self.screen_color);
    }

    /// Writes `byte` in the active attribute at the cursor, to the mirrors and
    /// the surface, and advances the cursor one column.
    fn render_vga_char(&mut self, byte: u8)
        requires
            old(self).wf(),
        ensures
            final(self)@ == put(old(self)@, byte),
            final(self).consistent(),
        no_unwind
    {
        let idx: usize = self.row * COLS + self.col;
        let ghost hw0 = self.screen@;
        self.screen_text[idx] = byte;
        self.screen_color[idx] = self.write_color;
        self.screen.render_cell(idx, byte, self.write_color);
        self.col = self.col + 1;
        assert forall|i: int| 0 <= i < CELLS implies #[trigger] char_at(self.hw(), i)
            == self@.text[i] by {
            if i != idx {
                assert(char_at(hw0, i) == old(self)@.text[i]);
            }
        }
        assert forall|i: int| 0 <= i < CELLS implies #[trigger] attr_at(self.hw(), i)
            == self@.color[i] by {
            if i != idx {
                assert(attr_at(hw0, i) == old(self)@.color[i]);
            }
        }
        assert(self@ == put(old(self)@, byte));
    }

    /// Drops the top row, blanks the bottom one, re-renders the surface and
    /// puts the cursor at the start of the last row.
    fn scroll_up(&mut self)
        requires
            old(self).consistent(),
        ensures
            final(self)@ == scrolled(old(self)@),
            final(self).wf(),
        no_unwind
    {
        let ghost s0 = self@;
        let mut idx: usize = COLS;
        while idx < CELLS
            invariant
                COLS <= idx <= CELLS,
                s0.text.len() == CELLS,
                s0.color.len() == CELLS,
                self.screen_text@.len() == CELLS,
                self.screen_color@.len() == CELLS,
                self.screen@.len() == 2 * CELLS,
                forall|j: int| 0 <= j < idx - COLS ==> #[trigger] self.screen_text@[j] == s0.text[j + COLS],
                forall|j: int| idx - COLS <= j < CELLS ==> #[trigger] self.screen_text@[j] == s0.text[j],
                forall|j: int| 0 <= j < idx - COLS ==> #[trigger] self.screen_color@[j] == s0.color[j + COLS],
                forall|j: int| idx - COLS <= j < CELLS ==> #[trigger] self.screen_color@[j] == s0.color[j],
                self.write_color == s0.active,
            decreases CELLS - idx,
        {
            let t = self.screen_text[idx];
            let c = self.screen_color[idx];
            self.screen_text[idx - COLS] = t;
            self.screen_color[idx - COLS] = c;
            idx = idx + 1;
        }
        let mut i: usize = CELLS - COLS;
        while i < CELLS
            invariant
                CELLS - COLS <= i <= CELLS,
                s0.text.len() == CELLS,
                s0.color.len() == CELLS,
                self.screen_text@.len() == CELLS,
                self.screen_color@.len() == CELLS,
                self.screen@.len() == 2 * CELLS,
                forall|j: int| 0 <= j < CELLS - COLS ==> #[trigger] self.screen_text@[j] == s0.text[j + COLS],
                forall|j: int| 0 <= j < CELLS - COLS ==> #[trigger] self.screen_color@[j] == s0.color[j + COLS],
                forall|j: int| CELLS - COLS <= j < i ==> #[trigger] self.screen_text@[j] == BLANK,
                forall|j: int| CELLS - COLS <= j < i ==> #[trigger] self.screen_color@[j] == BLANK_ATTR,
                self.write_color == s0.active,
            decreases CELLS - i,
        {
            self.screen_text[i] = BLANK;
            self.screen_color[i] = BLANK_ATTR;
            i = i + 1;
        }
        self.full_render_buffer();
        self.row = ROWS - 1;
        self.col = 0;
        assert(self@.text =~= scrolled(s0).text);
        assert(self@.color =~= scrolled(s0).color);
    }

    /// Moves the cursor to the start of the next row, scrolling from the last.
    fn next_line(&mut self)
        requires
            old(self).consistent(),
        ensures
            final(self)@ == line_feed(old(self)@),
            final(self).wf(),
        no_unwind
    {
        if self.row < ROWS - 1 {
            self.row = self.row + 1;
            self.col = 0;
        } else {
            self.scroll_up();
        }
    }

    /// Wraps a cursor that has run past the last column.
    fn check_buffer(&mut self)
        requires
            old(self).consistent(),
            old(self)@.col < COLS + 4,
        ensures
            final(self)@ == wrapped(old(self)@),
            final(self).wf(),
        no_unwind
    {
        if self.col >= COLS {
            self.next_line();
        }
        if self.row == ROWS - 1 && self.col >= COLS {
            self.scroll_up();
        }
    }

    /// Prints one character at the cursor and wraps if the row is full.
    fn main_write_char(&mut self, byte: u8)
        requires
            old(self).wf(),
        ensures
            final(self)@ == wrapped(put(old(self)@, byte)),
            final(self).wf(),
        no_unwind
    {
        self.render_vga_char(byte);
        self.check_buffer();
    }

    /// Blanks the top row, re-renders the surface and puts the cursor home.
    fn first_line(&mut self)
        requires
            old(self).consistent(),
        ensures
            final(self)@ == homed(old(self)@),
            final(self).wf(),
        no_unwind
    {
        let ghost s0 = self@;
        let mut i: usize = 0;
        while i < COLS
            invariant
                i <= COLS,
                s0.text.len() == CELLS,
                s0.color.len() == CELLS,
                self.screen_text@.len() == CELLS,
                self.screen_color@.len() == CELLS,
                self.screen@.len() == 2 * CELLS,
                forall|j: int| 0 <= j < i ==> #[trigger] self.screen_text@[j] == BLANK,
                forall|j: int| 0 <= j < i ==> #[trigger] self.screen_color@[j] == BLANK_ATTR,
                forall|j: int| i <= j < CELLS ==> #[trigger] self.screen_text@[j] == s0.text[j],
                forall|j: int| i <= j < CELLS ==> #[trigger] self.screen_color@[j] == s0.color[j],
                self.write_color == s0.active,
            decreases COLS - i,
        {
            self.screen_text[i] = BLANK;
            self.screen_color[i] = BLANK_ATTR;
            i = i + 1;
        }
        self.row = 0;
        self.col = 0;
        self.full_render_buffer();
        assert(self@.text =~= homed(s0).text);
        assert(self@.color =~= homed(s0).color);
    }

    /// Moves the cursor four columns on, with no wrap of its own.
    fn tab(&mut self)
        requires
            old(self).wf(),
        ensures
            final(self)@ == (Screen { col: old(self)@.col + 4, ..old(self)@ }),
            final(self).consistent(),
            final(self)@.col < COLS + 4,
        no_unwind
    {
        self.col = self.col + 4;
    }

    /// Blanks both mirrors in black on black, puts the cursor home and
    /// re-renders the surface. The active attribute stays.
    pub fn clear_buffer(&mut self)
        requires
            old(self).wf(),
        ensures
            final(self)@ == cleared(old(self)@.active),
            final(self).wf(),
    {
        let mut i: usize = 0;
        while i < CELLS
            invariant
                i <= CELLS,
                self.screen_text@.len() == CELLS,
                self.screen_color@.len() == CELLS,
                self.screen@.len() == 2 * CELLS,
                forall|j: int| 0 <= j < i ==> #[trigger] self.screen_text@[j] == BLANK,
                forall|j: int| 0 <= j < i ==> #[trigger] self.screen_color@[j] == BLANK_ATTR,
                self.write_color == old(self)@.active,
            decreases CELLS - i,
        {
            self.screen_text[i] = BLANK;
            self.screen_color[i] = BLANK_ATTR;
            i = i + 1;
        }
        self.col = 0;
        self.row = 0;
        self.full_render_buffer();
        assert(self@.text =~= cleared(old(self)@.active).text);
        assert(self@.color =~= cleared(old(self)@.active).color);
    }

    /// Handles one input byte: line feed, carriage return (blank the top row
    /// and go home), tab, or a printable character; any other byte is ignored.
    pub fn consume(&mut self, byte: u8)
        requires
            old(self).wf(),
        ensures
            final(self)@ == consume(old(self)@, byte),
            final(self).wf(),
        no_unwind
    {
        if byte == 0x0a {
            self.next_line();
        } else if byte == 0x0d {
            self.first_line();
        } else if byte == 0x09 {
            self.tab();
            self.check_buffer();
        } else if 0x20 <= byte && byte <= 0x7e {
            self.main_write_char(byte);
        }
    }

    /// Handles each byte of `bytes`, in order.
    pub fn write_bytes(&mut self, bytes: &Vec<u8>)
        requires
            old(self).wf(),
        ensures
            final(self)@ == consume_all(old(self)@, bytes@),
            final(self).wf(),
        no_unwind
    {
        let ghost s0 = self@;
        let mut i: usize = 0;
        while i < bytes.len()
            invariant
                i <= bytes@.len(),
                self.wf(),
                self@ == consume_all(s0, bytes@.subrange(0, i as int)),
            decreases bytes@.len() - i,
        {
            assert(bytes@.subrange(0, i + 1).drop_last() =~= bytes@.subrange(0, i as int));
            self.consume(bytes[i]);
            i = i + 1;
        }
        assert(bytes@.subrange(0, bytes@.len() as int) =~= bytes@);
    }

    /// Sets the attribute of the characters printed from now on.
    pub fn set_color(&mut self, color: u8)
        requires
            old(self).wf(),
        ensures
            final(self)@ == (Screen { active: color, ..old(self)@ }),
            final(self).wf(),
        no_unwind
    {
        self.write_color = color;
    }

    /// The cursor's row.
    pub fn row(&self) -> (r: usize)
        ensures
            r == self@.row,
    {
        self.row
    }

    /// The cursor's column.
    pub fn col(&self) -> (r: usize)
        ensures
            r == self@.col,
    {
        self.col
    }

    /// The attribute given to the next printed character.
    pub fn active_color(&self) -> (r: u8)
        ensures
            r == self@.active,
    {
        self.write_color
    }

    /// The character mirrored at cell `index`.
    pub fn text_at(&self, index: usize) -> (r: u8)
        requires
            self.wf(),
            index < CELLS,
        ensures
            r == self@.text[index as int],
    {
        self.screen_text[index]
    }

    /// The attribute mirrored at cell `index`.
    pub fn color_at(&self, index: usize) -> (r: u8)
        requires
            self.wf(),
            index < CELLS,
        ensures
            r == self@.color[index as int],
    {
        self.screen_color[index]
    }

    /// The surface the console is shown on.
    pub fn surface(&self) -> (r: &Surface)
        ensures
            r@ == self.hw(),
    {
        &self.screen
    }
}

} // verus!
