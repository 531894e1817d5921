//! The NES controller: an eight-bit shift register behind `$4016`.
//!
//! Writing bit 0 high latches the live button states and holds the
//! register on button A; on the falling edge subsequent reads clock the
//! buttons out one per read, in the order A, B, Select, Start, Up, Down,
//! Left, Right, and return 1 once all eight are spent.

use vstd::prelude::*;

use crate::bitops::{bit8, modify_bit, test_bit, with_bit8};

verus! {

pub const BUTTON_A: u8 = 0;

pub const BUTTON_B: u8 = 1;

pub const BUTTON_SELECT: u8 = 2;

pub const BUTTON_START: u8 = 3;

pub const BUTTON_UP: u8 = 4;

pub const BUTTON_DOWN: u8 = 5;

pub const BUTTON_LEFT: u8 = 6;

pub const BUTTON_RIGHT: u8 = 7;

pub struct Joypad {
    /// One bit per button, bit 0 = A through bit 7 = Right.
    pub state: u8,
    /// The next button to clock out; saturates at 8 once all are read.
    pub button_index: u8,
    /// While high, reads keep returning button A.
    pub strobe: bool,
}

/// The byte a read returns: button A while strobed, else the button at
/// the cursor, else 1 once the cursor has passed Right.
pub open spec fn read_result(j: Joypad) -> u8 {
    if j.strobe {
        if bit8(j.state, 0) {
            1u8
        } else {
            0u8
        }
    } else if j.button_index > 7 {
        1u8
    } else if bit8(j.state, j.button_index) {
        1u8
    } else {
        0u8
    }
}

/// The register after a read: the cursor advances only when the strobe
/// is low and buttons remain to clock out.
pub open spec fn read_post(j: Joypad) -> Joypad {
    if !j.strobe && j.button_index <= 7 {
        Joypad { button_index: (j.button_index + 1) as u8, ..j }
    } else {
        j
    }
}

/// The register after `n` consecutive reads.
pub open spec fn read_n(j: Joypad, n: nat) -> Joypad
    decreases n,
{
    if n == 0 {
        j
    } else {
        read_post(read_n(j, (n - 1) as nat))
    }
}

/// What the `n`-th read (counting from 0) of a chain of reads returns.
pub open spec fn nth_read(j: Joypad, n: nat) -> u8 {
    read_result(read_n(j, n))
}

/// With the strobe low, `n` reads advance the cursor by `n`, saturating
/// at 8, and touch nothing else.
pub proof fn lemma_read_n_cursor(j: Joypad, n: nat)
    requires
        !j.strobe,
        j.button_index <= 8,
    ensures
        read_n(j, n).state == j.state,
        !read_n(j, n).strobe,
        read_n(j, n).button_index == if j.button_index + n <= 8 {
            j.button_index + n
        } else {
            8int
        },
    decreases n,
{
    if n > 0 {
        lemma_read_n_cursor(j, (n - 1) as nat);
    }
}

/// With the strobe low and the cursor freshly latched to 0, the first
/// eight reads return the eight button states in order A, B, Select,
/// Start, Up, Down, Left, Right, and every later read returns 1.
pub proof fn lemma_serial_reads(j: Joypad, k: nat)
    requires
        !j.strobe,
        j.button_index == 0,
    ensures
        k < 8 ==> nth_read(j, k) == (if bit8(j.state, k as u8) {
            1u8
        } else {
            0u8
        }),
        k >= 8 ==> nth_read(j, k) == 1u8,
{
    lemma_read_n_cursor(j, k);
}

impl Joypad {
    /// A controller with no buttons held, cursor at A, strobe low.
    pub fn new() -> (r: Joypad)
        ensures
            r.state == 0,
            r.button_index == 0,
            !r.strobe,
    {
        Joypad { state: 0, button_index: 0, strobe: false }
    }

    /// Returns the controller to its power-on state.
    pub fn reset(&mut self)
        ensures
            final(self).state == 0,
            final(self).button_index == 0,
            !final(self).strobe,
    {
        self.state = 0;
        self.button_index = 0;
        self.strobe = false;
    }

    /// Clocks one bit out of the shift register.
    pub fn read(&mut self) -> (r: u8)
        ensures
            r == read_result(*old(self)),
            *final(self) == read_post(*old(self)),
    {
        if self.strobe {
            return if test_bit(self.state, BUTTON_A) {
                1
            } else {
                0
            };
        }
        if self.button_index > BUTTON_RIGHT {
            1
        } else {
            let pressed = test_bit(self.state, self.button_index);
            self.button_index = self.button_index + 1;
            if pressed {
                1
            } else {
                0
            }
        }
    }

    /// Sets the strobe from bit 0 of the written byte; raising it
    /// latches the cursor back to button A.
    pub fn write(&mut self, data: u8)
        ensures
            final(self).strobe == (data & 1 == 1),
            final(self).state == old(self).state,
            final(self).button_index == if data & 1 == 1 {
                0u8
            } else {
                old(self).button_index
            },
    {
        self.strobe = data & 1 == 1;
        if self.strobe {
            self.button_index = 0;
        }
    }

    /// Marks `button` (one of the `BUTTON_` constants) as held.
    pub fn press(&mut self, button: u8)
        requires
            button < 8,
        ensures
            final(self).state == with_bit8(old(self).state, button, true),
            final(self).button_index == old(self).button_index,
            final(self).strobe == old(self).strobe,
    {
        self.state = modify_bit(self.state, button, true);
    }

    /// Marks `button` as released.
    pub fn release(&mut self, button: u8)
        requires
            button < 8,
        ensures
            final(self).state == with_bit8(old(self).state, button, false),
            final(self).button_index == old(self).button_index,
            final(self).strobe == old(self).strobe,
    {
        self.state = modify_bit(self.state, button, false);
    }
}

} // verus!
