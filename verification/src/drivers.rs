//! Hardware clock drivers.

pub mod ptp_clock;
