//! Small lessons on the basics of the language, with their logic verified:
//! a number-guessing session (reading a guess, judging it, the session's
//! course over many lines), and the computing parts of the lessons on structs,
//! slices, enums, ownership and control flow.

use vstd::prelude::*;

pub mod control_flow;
pub mod enums_pattern_matching;
pub mod guess_text;
pub mod guessing_game;
pub mod guessing_laws;
pub mod ownership_simple;
pub mod slice_type;
pub mod struct_methods;
pub mod structs;

verus! {

} // verus!
