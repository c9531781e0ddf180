//! Properties of the console that hold across calls.
use vstd::prelude::*;
use crate::model::{
    consume, consume_all, line_feed, put, repeat, scrolled, shifted, printable, Screen, BLANK,
    BLANK_ATTR,
};
use crate::surface::{attr_at, char_at, shows, CELLS, COLS, ROWS};

verus! {

/// Printable bytes fewer than a row, written from the start of a row, stand
/// in that row in order and in the active attribute; the cursor stays on the
/// row, just after them, and no other cell changes.
pub proof fn lemma_short_line(s: Screen, bytes: Seq<u8>)
    requires
        s.wf(),
        s.col == 0,
        bytes.len() < COLS,
        forall|i: int| 0 <= i < bytes.len() ==> printable(#[trigger] bytes[i]),
    ensures
        consume_all(s, bytes).wf(),
        consume_all(s, bytes).row == s.row,
        consume_all(s, bytes).col == bytes.len(),
        consume_all(s, bytes).active == s.active,
        forall|i: int|
            s.cursor() <= i < s.cursor() + bytes.len() ==> #[trigger] consume_all(s, bytes).text[i]
                == bytes[i - s.cursor()],
        forall|i: int|
            s.cursor() <= i < s.cursor() + bytes.len() ==> #[trigger] consume_all(s, bytes).color[i]
                == s.active,
        forall|i: int|
            0 <= i < CELLS && !(s.cursor() <= i < s.cursor() + bytes.len())
                ==> #[trigger] consume_all(s, bytes).text[i] == s.text[i],
        forall|i: int|
            0 <= i < CELLS && !(s.cursor() <= i < s.cursor() + bytes.len())
                ==> #[trigger] consume_all(s, bytes).color[i] == s.color[i],
    decreases bytes.len(),
{
    if bytes.len() > 0 {
        let p = bytes.drop_last();
        assert forall|i: int| 0 <= i < p.len() implies printable(#[trigger] p[i]) by {
            assert(printable(bytes[i]));
        }
        lemma_short_line(s, p);
        let m = consume_all(s, p);
        assert(printable(bytes[bytes.len() - 1]));
        assert(consume_all(s, bytes) == put(m, bytes.last()));
        assert forall|i: int|
            s.cursor() <= i < s.cursor() + bytes.len() implies #[trigger] consume_all(s, bytes).text[i]
                == bytes[i - s.cursor()] by {
            if i < s.cursor() + p.len() {
                assert(m.text[i] == p[i - s.cursor()]);
            }
        }
        assert forall|i: int|
            s.cursor() <= i < s.cursor() + bytes.len() implies #[trigger] consume_all(s, bytes).color[i]
                == s.active by {
            if i < s.cursor() + p.len() {
                assert(m.color[i] == s.active);
            }
        }
        assert forall|i: int|
            0 <= i < CELLS && !(s.cursor() <= i < s.cursor() + bytes.len())
                implies #[trigger] consume_all(s, bytes).text[i] == s.text[i] by {
            assert(m.text[i] == s.text[i]);
        }
        assert forall|i: int|
            0 <= i < CELLS && !(s.cursor() <= i < s.cursor() + bytes.len())
                implies #[trigger] consume_all(s, bytes).color[i] == s.color[i] by {
            assert(m.color[i] == s.color[i]);
        }
    }
}

/// A full row of printable bytes written from the start of a row wraps the
/// cursor to the start of the next row, or scrolls from the last row; either
/// way the bytes fill the row just above the cursor.
pub proof fn lemma_full_line(s: Screen, bytes: Seq<u8>)
    requires
        s.wf(),
        s.col == 0,
        bytes.len() == COLS,
        forall|i: int| 0 <= i < bytes.len() ==> printable(#[trigger] bytes[i]),
    ensures
        consume_all(s, bytes).wf(),
        consume_all(s, bytes).col == 0,
        s.row < ROWS - 1 ==> consume_all(s, bytes).row == s.row + 1,
        s.row == ROWS - 1 ==> consume_all(s, bytes).row == ROWS - 1,
        forall|j: int|
            0 <= j < COLS ==> #[trigger] consume_all(s, bytes).text[(consume_all(s, bytes).row - 1)
                * COLS + j] == bytes[j],
        s.row == ROWS - 1 ==> forall|i: int|
            CELLS - COLS <= i < CELLS ==> #[trigger] consume_all(s, bytes).text[i] == BLANK,
{
    let p = bytes.drop_last();
    assert forall|i: int| 0 <= i < p.len() implies printable(#[trigger] p[i]) by {
        assert(printable(bytes[i]));
    }
    lemma_short_line(s, p);
    let m = consume_all(s, p);
    assert(printable(bytes[bytes.len() - 1]));
    let q = put(m, bytes.last());
    assert(consume_all(s, bytes) == line_feed(q));
    let r = consume_all(s, bytes);
    if s.row < ROWS - 1 {
        assert forall|j: int| 0 <= j < COLS implies #[trigger] r.text[(r.row - 1) * COLS + j]
            == bytes[j] by {
            if j < COLS - 1 {
                assert(m.text[s.cursor() + j] == p[j]);
            }
        }
    } else {
        assert forall|j: int| 0 <= j < COLS implies #[trigger] r.text[(r.row - 1) * COLS + j]
            == bytes[j] by {
            assert(r.text[(r.row - 1) * COLS + j] == q.text[s.cursor() + j]);
            if j < COLS - 1 {
                assert(m.text[s.cursor() + j] == p[j]);
            }
        }
    }
}

/// How many times `n` line feeds from row `row` scroll.
pub open spec fn scrolls(row: int, n: nat) -> nat {
    if row + n < ROWS {
        0
    } else {
        (row + n - (ROWS - 1)) as nat
    }
}

/// `n` line feeds move the cursor down to the last row and then scroll once
/// for each further feed.
pub proof fn lemma_line_feeds(s: Screen, n: nat)
    requires
        s.wf(),
    ensures
        consume_all(s, repeat(0x0a, n)).wf(),
        n > 0 ==> consume_all(s, repeat(0x0a, n)).col == 0,
        consume_all(s, repeat(0x0a, n)).row == if s.row + n < ROWS {
            s.row + n
        } else {
            ROWS - 1
        },
        consume_all(s, repeat(0x0a, n)).text == shifted(s.text, scrolls(s.row, n), BLANK),
        consume_all(s, repeat(0x0a, n)).color == shifted(s.color, scrolls(s.row, n), BLANK_ATTR),
    decreases n,
{
    if n == 0 {
        assert(repeat(0x0a, 0) =~= Seq::<u8>::empty());
        assert(shifted(s.text, 0, BLANK) =~= s.text);
        assert(shifted(s.color, 0, BLANK_ATTR) =~= s.color);
    } else {
        let k = (n - 1) as nat;
        assert(repeat(0x0a, n).drop_last() =~= repeat(0x0a, k));
        lemma_line_feeds(s, k);
        let m = consume_all(s, repeat(0x0a, k));
        assert(consume_all(s, repeat(0x0a, n)) == consume(m, 0x0a));
        if m.row >= ROWS - 1 {
            let j = scrolls(s.row, k);
            assert(scrolls(s.row, n) == j + 1);
            assert(scrolled(m).text =~= shifted(s.text, j + 1, BLANK));
            assert(scrolled(m).color =~= shifted(s.color, j + 1, BLANK_ATTR));
        }
    }
}

/// After at least `ROWS` line feeds the cursor is at the start of the last
/// row, the last row is blank, and the rows above it are the rows that were
/// on screen before, shifted up by the number of scrolls.
pub proof fn lemma_scroll_structure(s: Screen, n: nat)
    requires
        s.wf(),
        n >= ROWS,
    ensures
        consume_all(s, repeat(0x0a, n)).row == ROWS - 1,
        consume_all(s, repeat(0x0a, n)).col == 0,
        scrolls(s.row, n) >= 1,
        consume_all(s, repeat(0x0a, n)).text == shifted(s.text, scrolls(s.row, n), BLANK),
        consume_all(s, repeat(0x0a, n)).color == shifted(s.color, scrolls(s.row, n), BLANK_ATTR),
        forall|i: int|
            CELLS - COLS <= i < CELLS ==> #[trigger] consume_all(s, repeat(0x0a, n)).text[i] == BLANK,
        forall|i: int|
            CELLS - COLS <= i < CELLS ==> #[trigger] consume_all(s, repeat(0x0a, n)).color[i]
                == BLANK_ATTR,
{
    lemma_line_feeds(s, n);
}

/// After a full render, reading any cell of the surface gives back that
/// cell's character and attribute in the mirrors.
pub proof fn lemma_render_round_trip(cells: Seq<u8>, text: Seq<u8>, color: Seq<u8>, index: int)
    requires
        shows(cells, text, color),
        0 <= index < CELLS,
    ensures
        (char_at(cells, index), attr_at(cells, index)) == (text[index], color[index]),
{
}

} // verus!
