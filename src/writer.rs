//! The console shared between execution contexts: every print takes a spin
//! lock, sets the active attribute and handles its bytes, then lets go.
use vstd::prelude::*;
use crate::color::Color;
use crate::console::VgaState;
use crate::print::vga_print;

verus! {

/// spin's default relax strategy, which names the lock's type.
#[verifier::external_type_specification]
#[verifier::external_body]
pub struct ExSpin(spin::relax::Spin);

/// spin's mutex, held opaque: nothing is assumed of what it holds.
#[verifier::external_type_specification]
#[verifier::external_body]
#[verifier::reject_recursive_types(T)]
#[verifier::reject_recursive_types(R)]
pub struct ExMutex<T: ?Sized, R>(spin::mutex::Mutex<T, R>);

/// spin's lock guard, held opaque.
#[verifier::external_type_specification]
#[verifier::external_body]
#[verifier::reject_recursive_types(T)]
pub struct ExMutexGuard<'a, T: 'a + ?Sized>(spin::mutex::MutexGuard<'a, T>);

/// A console state that is always well formed, so that whatever the lock
/// hands out can be printed on.
struct Checked {
    state: VgaState,
}

impl Checked {
    #[verifier::type_invariant]
    spec fn inv(self) -> bool {
        self.state.wf()
    }

    fn print(&mut self, text: &Vec<u8>, color: u8) {
        proof {
            use_type_invariant(&*self);
        }
        vga_print(&mut self.state, text, color);
    }

    fn cursor(&self) -> (r: (usize, usize))
        ensures
            r == (self.state@.row as usize, self.state@.col as usize),
    {
        (self.state.row(), self.state.col())
    }
}

/// Relies on spin::Mutex::new: the value goes behind a new, unlocked lock.
#[verifier::external_body]
fn new_lock(value: Checked) -> spin::Mutex<Checked> {
    spin::Mutex::new(value)
}

/// Relies on spin::Mutex::lock: spins until the lock is free and holds it
/// until the guard is dropped.
#[verifier::external_body]
fn acquire(lock: &spin::Mutex<Checked>) -> spin::MutexGuard<'_, Checked> {
    lock.lock()
}

/// Relies on DerefMut for spin::MutexGuard: the value behind the held lock.
#[verifier::external_body]
fn locked<'a, 'b>(guard: &'a mut spin::MutexGuard<'b, Checked>) -> &'a mut Checked {
    &mut **guard
}

/// A console behind a spin lock. A print from within a print deadlocks.
pub struct Console {
    lock: spin::Mutex<Checked>,
}

impl Console {
    /// A blank console, white on black.
    pub fn new() -> Console {
        Console { lock: new_lock(Checked { state: VgaState::new() }) }
    }

    /// Under the lock, prints `text` in `color`.
    pub fn print(&self, text: &Vec<u8>, color: u8) {
        let mut guard = acquire(&self.lock);
        let value = locked(&mut guard);
        value.print(text, color);
    }

    /// Under the lock, the cursor's row and column.
    pub fn cursor(&self) -> (usize, usize) {
        let mut guard = acquire(&self.lock);
        let value = locked(&mut guard);
        value.cursor()
    }

    /// Under the lock, prints `text` white on black.
    pub fn println(&self, text: &Vec<u8>) {
        self.print(text, Color::WHITE);
    }

    /// Under the lock, prints `text` yellow on black.
    pub fn println_warn(&self, text: &Vec<u8>) {
        self.print(text, Color::warning());
    }

    /// Under the lock, prints `text` red on black.
    pub fn println_error(&self, text: &Vec<u8>) {
        self.print(text, Color::error());
    }
}

} // verus!
