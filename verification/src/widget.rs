//! What the display shows, as far as it can be computed without a terminal.

pub mod message;
pub mod status_bar;
