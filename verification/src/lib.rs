//! A verified core for a terminal "falling glyph" animation: droplets of
//! random glyphs fall down fixed columns, leaving a fading trail, and are
//! composited into a full-screen frame buffer once per tick.
//!
//! The platform glue (terminal modes, key polling, flushing the frame to the
//! display) lives outside this crate; everything here is plain data and
//! verified logic.

pub mod color;
pub mod droplet;
pub mod engine;
mod sampling;
pub mod screen;
