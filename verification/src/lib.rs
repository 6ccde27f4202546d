//! Converts spreadsheet-authored interval workouts into the plain-text ERG
//! trainer-file format.
//!
//! All quantities are fixed-point integers: times are thousandths of a
//! minute, intensities are thousandths of the threshold-power fraction, and
//! threshold power is in thousandths of a watt. Derived interval metrics
//! carry their own fixed scales so that every computation is exact.

pub mod model;
pub mod numfmt;
pub mod parse;
pub mod writer;
