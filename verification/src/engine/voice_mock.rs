//! The stand-in for voice recognition: a switch, a heartbeat and canned
//! answers to a few spoken commands.
//!
//! The thread that beats belongs to the caller; what it says is decided here.

use vstd::prelude::*;
use crate::text::{decimal, decimal_text, same_text};

verus! {

/// The lower-case form of a text, as `str::to_lowercase` of the standard
/// library computes it.
pub uninterp spec fn lowercase_of(text: Seq<char>) -> Seq<char>;

/// Turns `text` into lower case.
///
/// Trusted: calls `str::to_lowercase`, whose result follows the Unicode
/// tables and depends on nothing but the text. The contract only gives that
/// result its name.
#[verifier::external_body]
fn to_lowercase(text: &str) -> (lowered: String)
    ensures
        lowered@ == lowercase_of(text@),
{
    text.to_lowercase()
}

/// What the engine shows as its status.
pub open spec fn status_text(enabled: bool) -> Seq<char> {
    if enabled {
        "ON"@
    } else {
        "OFF"@
    }
}

/// The answer to a command that was already turned into lower case.
pub open spec fn response_to(lowered: Seq<char>) -> Seq<char> {
    if lowered == "help"@ {
        "Available commands: help, status, quit, gpu limit, theme toggle, voice toggle"@
    } else if lowered == "status"@ {
        "Voice engine is running normally"@
    } else if lowered == "quit"@ {
        "Goodbye!"@
    } else {
        "Command not recognized. Say 'help' for available commands."@
    }
}

/// What the engine logs at its heartbeat number `count`.
pub open spec fn heartbeat_text(count: u64) -> Seq<char> {
    "Voice engine heartbeat #"@ + decimal_text(count as nat) + " - listening for commands"@
}

/// The switch of the voice engine.
#[derive(Clone, Copy, Debug, PartialEq, Eq, Structural)]
pub struct VoiceMock {
    pub enabled: bool,
}

impl VoiceMock {
    /// An engine that is switched on or off.
    pub fn new(enabled: bool) -> (engine: Self)
        ensures
            engine.enabled == enabled,
    {
        VoiceMock { enabled }
    }

    /// Whether the engine is switched on.
    pub fn is_enabled(&self) -> (enabled: bool)
        ensures
            enabled == self.enabled,
    {
        self.enabled
    }

    /// Switches the engine on or off.
    pub fn set_enabled(&mut self, enabled: bool)
        ensures
            final(self).enabled == enabled,
    {
        self.enabled = enabled;
    }

    /// The status of the engine: `ON` or `OFF`.
    pub fn status_string(&self) -> (status: &'static str)
        ensures
            status@ == status_text(self.enabled),
    {
        if self.enabled {
            "ON"
        } else {
            "OFF"
        }
    }

    /// The answer to a spoken command, whatever its case. An engine that is
    /// switched off refuses.
    pub fn simulate_command(&self, command: &str) -> (result: Result<String, String>)
        ensures
            match result {
                Ok(response) => self.enabled && response@ == response_to(lowercase_of(command@)),
                Err(refusal) => !self.enabled && refusal@ == "Voice engine is disabled"@,
            },
    {
        if !self.enabled {
            return Err("Voice engine is disabled".to_string());
        }
        let lowered = to_lowercase(command);
        Ok(VoiceMock::respond(lowered.as_str()).to_string())
    }

    /// The answer to a command that was already turned into lower case.
    pub fn respond(lowered: &str) -> (response: &'static str)
        ensures
            response@ == response_to(lowered@),
    {
        if same_text(lowered, "help") {
            "Available commands: help, status, quit, gpu limit, theme toggle, voice toggle"
        } else if same_text(lowered, "status") {
            "Voice engine is running normally"
        } else if same_text(lowered, "quit") {
            "Goodbye!"
        } else {
            "Command not recognized. Say 'help' for available commands."
        }
    }

    /// What the engine logs at its heartbeat number `count`.
    pub fn heartbeat_message(count: u64) -> (message: String)
        ensures
            message@ == heartbeat_text(count),
    {
        "Voice engine heartbeat #".to_string().concat(decimal(count).as_str()).concat(
            " - listening for commands",
        )
    }
}

} // verus!
