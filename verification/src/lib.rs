//! Calendar and clock-face arithmetic for sunrise and sunset times.
//!
//! The solar position formulas work on real-valued angles; what they need
//! from the calendar, and what they hand back to it, is integer arithmetic:
//! the ordinal of a date within its year, the split of a time of day into
//! hours, minutes and seconds, and the shift of an hour to another time
//! zone. Those parts live here, each with a proved contract.

pub mod calendar;
mod clock;
pub mod datetime;
pub mod text;
