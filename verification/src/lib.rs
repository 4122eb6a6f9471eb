//! Core engine of an interactive terminal color picker: an RGB color value
//! with exact fixed-point conversions (hex codec, HSV round-trips, shading,
//! inversion, luminance and contrast), six harmony rules that derive a
//! five-role palette from one seed color, an undo/redo history over palette
//! snapshots, and the small cyclic selection state machines that move among
//! roles, shades and harmonies.
//!
//! All color arithmetic is carried out in exact integer fixed point: hue in
//! whole degrees, saturation and value in thousandths, luminance in
//! millionths. Rounding is half-up throughout, truncation is written out
//! where a conversion truncates, and every function states its result
//! exactly.

pub mod action;
pub mod colors;
pub mod generators;
pub mod hex;
pub mod history;
pub mod hsv;
pub mod luminance;
pub mod palettes;
pub mod parse;
pub mod selector;
