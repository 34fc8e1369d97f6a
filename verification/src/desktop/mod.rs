//! What the desktop program decides before it starts the engine.

pub mod cli;
pub mod config;
pub mod gui;
