//! Verified core of an on-screen piano keyboard.
//!
//! The heart of the library is a fixed table of per-note "sounding" flags,
//! fed by two producers: a decoder for raw MIDI channel-voice messages and
//! a pointer hit-tester over an 88-key geometry model, and read once per
//! frame by a renderer that turns the table into a list of draw commands.

pub mod geometry;
pub mod keystate;
pub mod midi;
pub mod hittest;
pub mod render;
pub mod layout;
