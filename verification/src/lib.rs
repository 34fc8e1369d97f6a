//! ZenTerm: terminal session management, its event system and the engine
//! state that surrounds them.

pub mod desktop;
pub mod engine;
pub mod event;
pub mod terminal;
pub mod text;
