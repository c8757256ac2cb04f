//! Small helpers shared by the data types.

pub mod nibble;
