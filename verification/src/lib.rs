//! A terminal-emulator state engine.
//!
//! Raw bytes from a process running in a pseudo-terminal are parsed into
//! discrete events (text, control bytes, escape / CSI / OSC / DCS sequences),
//! the events are interpreted against authoritative terminal state (cursor,
//! pen attributes, scroll region, properties), and a concrete grid of cells
//! is maintained together with damage regions for efficient redraw.

pub mod geom;
pub mod parser;
pub mod pen;
pub mod state;
pub mod screen;
pub mod output;
pub mod term;
