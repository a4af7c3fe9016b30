use vstd::prelude::*;

verus! {

/// The ASCII bytes the explorer writes into names, permission strings and
/// content, named once so the code can stay free of bare numbers.
pub const NEWLINE: u8 = 10;
pub const DASH: u8 = 45;
pub const DOT: u8 = 46;
pub const SLASH: u8 = 47;
pub const LOWER_C: u8 = 99;
pub const LOWER_D: u8 = 100;
pub const LOWER_E: u8 = 101;
pub const LOWER_L: u8 = 108;
pub const LOWER_N: u8 = 110;
pub const LOWER_R: u8 = 114;
pub const LOWER_W: u8 = 119;
pub const LOWER_X: u8 = 120;

} // verus!
