//! The interaction core of a small viewer that spins a coloured cube and lets
//! the pointer drag it.
//!
//! The library decides and describes; it draws nothing and reads no clock.
//! Angles and cursor coordinates are carried through, never computed with, so
//! their scalar type is a parameter. Text is built as bytes.

pub mod interaction;
pub mod launch;
pub mod mesh;
pub mod numeral;
pub mod status;
pub mod text;
