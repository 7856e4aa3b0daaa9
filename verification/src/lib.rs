//! Departure boards for Västtrafik stops: request building, stop selection,
//! time-of-day arithmetic and the fixed-width table that shows what leaves next.

pub mod text;
pub mod clock;
pub mod api;
pub mod board;
pub mod cli;
pub mod session;
