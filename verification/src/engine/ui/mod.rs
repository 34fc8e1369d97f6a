//! What the text interface decides: its modes, its settings and its colours.

pub mod app;
pub mod palette;
