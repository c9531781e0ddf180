//! Printing text in the three presets: ordinary text, warnings and errors.
use vstd::prelude::*;
use crate::color::Color;
use crate::console::VgaState;
use crate::model::{consume_all, Screen};

verus! {

/// Sets the active attribute to `color`, then handles each byte of `text`.
pub fn vga_print(console: &mut VgaState, text: &Vec<u8>, color: u8)
    requires
        old(console).wf(),
    ensures
        final(console)@ == consume_all(Screen { active: color, ..old(console)@ }, text@),
        final(console).wf(),
    no_unwind
{
    console.set_color(color);
    console.write_bytes(text);
}

/// Prints `text` white on black.
pub fn println(console: &mut VgaState, text: &Vec<u8>)
    requires
        old(console).wf(),
    ensures
        final(console)@ == consume_all(Screen { active: 0x0f, ..old(console)@ }, text@),
        final(console).wf(),
{
    vga_print(console, text, Color::WHITE);
}

/// Prints `text` yellow on black.
pub fn println_warn(console: &mut VgaState, text: &Vec<u8>)
    requires
        old(console).wf(),
    ensures
        final(console)@ == consume_all(Screen { active: 0x0e, ..old(console)@ }, text@),
        final(console).wf(),
{
    vga_print(console, text, Color::warning());
}

/// Prints `text` red on black.
pub fn println_error(console: &mut VgaState, text: &Vec<u8>)
    requires
        old(console).wf(),
    ensures
        final(console)@ == consume_all(Screen { active: 0x04, ..old(console)@ }, text@),
        final(console).wf(),
{
    vga_print(console, text, Color::error());
}

} // verus!
