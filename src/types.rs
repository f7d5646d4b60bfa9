use vstd::prelude::*;

verus! {

/// The foreign runtime's boolean: zero is false, anything else is true.
pub type Gboolean = i32;

pub const FALSE: Gboolean = 0;

pub const TRUE: Gboolean = 1;

/// Scheduling priorities, passed through unchanged from the foreign runtime's
/// numbering: a lower number is a higher priority.
pub const PRIORITY_HIGH: i32 = -100;

pub const PRIORITY_DEFAULT: i32 = 0;

pub const PRIORITY_HIGH_IDLE: i32 = 100;

pub const PRIORITY_DEFAULT_IDLE: i32 = 200;

pub const PRIORITY_LOW: i32 = 300;

} // verus!
