//! What holds of the library, proved once for every input.

pub mod names;
pub mod units;
pub mod workflows;
