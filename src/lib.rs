//! A text-mode console for a fixed 80 x 25 character display: an in-memory
//! mirror of the screen, a cursor, and write-through to an interleaved
//! (character, attribute) hardware surface.
pub mod color;
pub mod surface;
pub mod model;
pub mod console;
pub mod print;
pub mod laws;
pub mod writer;
pub mod text;
pub mod task;
