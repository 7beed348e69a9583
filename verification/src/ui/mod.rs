//! The terminal interface: what it shows, and how it takes the principal's
//! input.

pub mod backchannel;
pub mod colors;
pub mod display;
