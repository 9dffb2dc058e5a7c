//! An interactive command-line drill for elementary addition.
//!
//! The heart of the library is the exercise generator: from a variant
//! selector and two small nonnegative seeds it produces an addition
//! equation with exactly one hidden slot, together with the value that
//! restores the hidden slot. Around it stand the presenter that renders
//! an equation, the statistics of a session, the answer parser, and the
//! localization helpers.

pub mod equation;
pub mod generate;
pub mod render;
pub mod locale;
pub mod messages;
pub mod parse;
pub mod random;
pub mod stats;
