//! What a key press asks of the display.

use vstd::prelude::*;

verus! {

/// The key code that ends the display.
pub const QUIT_KEY: i32 = 96;

/// The key code of the digit `0`.
pub const DIGIT_ZERO: i32 = 48;

/// What one polled key code asks for.
#[derive(Clone, Copy, Debug, PartialEq, Eq)]
pub enum Input {
    /// No key, or a key that means nothing: nothing is asked.
    Idle,
    /// A digit from 1 to 9: launch a firework at that tenth of the width.
    Launch(i32),
    /// The display is to end.
    Quit,
}

/// What the key code `code` asks for.
pub open spec fn spec_read_key(code: int) -> Input {
    if code == QUIT_KEY {
        Input::Quit
    } else if DIGIT_ZERO + 1 <= code <= DIGIT_ZERO + 9 {
        Input::Launch((code - DIGIT_ZERO) as i32)
    } else {
        Input::Idle
    }
}

/// Reads a polled key code. A code that is neither the quit key nor a digit
/// from 1 to 9 is ignored.
pub fn read_key(code: i32) -> (input: Input)
    ensures
        input == spec_read_key(code as int),
        input matches Input::Launch(digit) ==> 1 <= digit <= 9 && digit == code - DIGIT_ZERO,
{
    if code == QUIT_KEY {
        Input::Quit
    } else if code >= DIGIT_ZERO + 1 && code <= DIGIT_ZERO + 9 {
        Input::Launch(code - DIGIT_ZERO)
    } else {
        Input::Idle
    }
}

} // verus!
