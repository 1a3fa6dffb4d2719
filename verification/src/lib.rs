//! A status-line generator library: it turns live system readings —
//! the active media player's metadata, the mixer tool's textual output,
//! battery charge readings and the wall-clock time — into one short
//! display line, with every formatting and parsing rule verified.

pub mod battery;
pub mod compose;
pub mod cycle;
pub mod player;
pub mod text;
pub mod volume;
