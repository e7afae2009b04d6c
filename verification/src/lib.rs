//! Sizes of records laid out by the C rule, and the size of the PowerMate
//! input event record.

pub mod layout;
pub mod power_mate;

pub use power_mate::struct_size;
