//! Verified control logic of an interactive Julia-set explorer.
//!
//! The numeric side of the explorer (complex arithmetic, logarithms, colour
//! tables) is floating point and is left to the caller. What is decided on
//! integers and booleans lives here, each with a proved contract:
//!
//! * [`escape`]: when the escape-time recurrence of one pixel stops, and with
//!   which iteration index;
//! * [`grid`]: the order in which the pixels of a viewport are evaluated;
//! * [`interaction`]: what one frame of input does to the session state.

pub mod escape;
pub mod grid;
pub mod interaction;
