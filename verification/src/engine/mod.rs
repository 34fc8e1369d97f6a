//! The engine: the application state that the front ends share.

use vstd::prelude::*;

pub mod command_registry;
pub mod config;
pub mod event_bus;
pub mod gpu;
pub mod shared_state;
pub mod theme;
pub mod ui;
pub mod voice_mock;
pub mod wizard;

pub use command_registry::CommandRegistry;
pub use config::Config;
pub use event_bus::AppEvent;
pub use shared_state::SharedAppState;
pub use theme::{Theme, ThemePalette};
pub use voice_mock::VoiceMock;
pub use wizard::Wizard;

verus! {

/// The text that [`hello`] returns.
pub open spec fn hello_text() -> Seq<char> {
    "engine ok"@
}

/// Liveness probe of the engine.
pub fn hello() -> (greeting: &'static str)
    ensures
        greeting@ == hello_text(),
{
    "engine ok"
}

} // verus!
