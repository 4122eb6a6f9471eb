//! The six harmony rules. Each one derives a full five-role palette from a
//! single seed color, working in HSV space around the seed's hue.

pub mod analogous;
pub mod complementary;
pub mod monochromatic;
pub mod split_complementary;
pub mod tetradic;
pub mod triadic;
