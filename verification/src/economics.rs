//! Market economics: shadow-price intake.

pub mod shadow_prices;
