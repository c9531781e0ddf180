//! A greeting written straight onto a display surface, in four colours.
use vstd::prelude::*;
use crate::color::Color;
use crate::surface::{attr_at, char_at, Surface, CELLS};

verus! {

/// The greeting: "Hello! Hello! Hello! Hello!".
pub open spec fn greeting() -> Seq<u8> {
    seq![0x48, 0x65, 0x6c, 0x6c, 0x6f, 0x21, 0x20, 0x48, 0x65, 0x6c, 0x6c, 0x6f, 0x21, 0x20, 0x48, 0x65, 0x6c, 0x6c, 0x6f, 0x21, 0x20, 0x48, 0x65, 0x6c, 0x6c, 0x6f, 0x21]
}

/// The attribute of the greeting's `i`th character: white from the first,
/// red on black from the eighth, yellow on black from the fourteenth, and
/// blue on green from the twenty-first.
pub open spec fn greeting_color(i: int) -> u8 {
    if i < 7 {
        0x0f
    } else if i < 13 {
        0x04
    } else if i < 20 {
        0x0e
    } else {
        0x21
    }
}

/// Writes the greeting into the first cells of `surface`.
pub fn text_write(surface: &mut Surface)
    requires
        old(surface)@.len() == 2 * CELLS,
    ensures
        final(surface)@.len() == 2 * CELLS,
        forall|i: int| 0 <= i < greeting().len() ==> #[trigger] char_at(final(surface)@, i) == greeting()[i],
        forall|i: int| 0 <= i < greeting().len() ==> #[trigger] attr_at(final(surface)@, i) == greeting_color(i),
        forall|i: int| 2 * greeting().len() <= i < 2 * CELLS ==> #[trigger] final(surface)@[i] == old(surface)@[i],
{
    let text: Vec<u8> = vec![0x48, 0x65, 0x6c, 0x6c, 0x6f, 0x21, 0x20, 0x48, 0x65, 0x6c, 0x6c, 0x6f, 0x21, 0x20, 0x48, 0x65, 0x6c, 0x6c, 0x6f, 0x21, 0x20, 0x48, 0x65, 0x6c, 0x6c, 0x6f, 0x21];
    assert(text@ =~= greeting());
    let mut color_set: u8 = Color::text_write();
    let mut i: usize = 0;
    while i < text.len()
        invariant
            i <= text@.len(),
            text@ == greeting(),
            surface@.len() == 2 * CELLS,
            i > 0 ==> color_set == greeting_color(i - 1),
            forall|j: int| 0 <= j < i ==> #[trigger] char_at(surface@, j) == greeting()[j],
            forall|j: int| 0 <= j < i ==> #[trigger] attr_at(surface@, j) == greeting_color(j),
            forall|j: int| 2 * i <= j < 2 * CELLS ==> #[trigger] surface@[j] == old(surface)@[j],
        decreases text@.len() - i,
    {
        if i == 0 {
            color_set = Color::text_write();
        } else if i == 7 {
            color_set = Color::error();
        } else if i == 13 {
            color_set = Color::warning();
        } else if i == 20 {
            color_set = Color::make_color(Color::BLUE, Color::GREEN);
        }
        let ghost prev = surface@;
        surface.render_cell(i, text[i], color_set);
        assert forall|j: int| 0 <= j < i + 1 implies #[trigger] char_at(surface@, j) == greeting()[j] by {
            if j < i {
                assert(char_at(prev, j) == greeting()[j]);
            }
        }
        assert forall|j: int| 0 <= j < i + 1 implies #[trigger] attr_at(surface@, j) == greeting_color(j) by {
            if j < i {
                assert(attr_at(prev, j) == greeting_color(j));
            }
        }
        i = i + 1;
    }
}

} // verus!
