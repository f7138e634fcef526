//! Cable sizing for low-voltage installations: the installed cross-section
//! of a bundle of cables, its derated allowable current, and the conduit to
//! pull it through.
//!
//! Every figure is a whole number in a fixed unit, so that nothing is lost
//! before the one rounding at the end:
//!
//! - diameters in micrometres;
//! - cross-sections in circular units, the area of a disc one micrometre
//!   across (π/4 square micrometres), so that a disc `d` micrometres across
//!   measures `d * d` units;
//! - cross-sections given out, and conductor cross-sections, in hundredths
//!   of a square millimetre;
//! - tabulated currents in tenths of an ampere, derated ones in
//!   milliamperes, and the rounded result in tenths of an ampere again;
//! - grouping factors in hundredths;
//! - fill as an exact fraction, and rounded in tenths of a percent.
pub mod text;
pub mod rounding;
pub mod sizes;
pub mod methods;
pub mod ampacity;
pub mod diameter;
pub mod geometry;
pub mod conduit;
pub mod model;
pub mod derating;
pub mod engine;
pub mod catalogue;
