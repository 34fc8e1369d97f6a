//! What can go wrong in a terminal operation.

use vstd::prelude::*;

verus! {

/// Failure of a terminal operation. None of them leaves a manager unusable.
#[derive(Debug)]
pub enum TerminalError {
    /// The operating system could not allocate a pseudo-terminal or spawn the
    /// shell. Carries the system's message.
    PtySpawnError(String),
    /// The identifier that was generated for a new session is already
    /// registered, so the session was not created.
    DuplicateSession,
    /// The operation named a session that is not registered.
    SessionNotFound,
    /// Writing to the pseudo-terminal failed. Carries the system's message.
    WriteError(String),
    /// The operating system rejected the new geometry. Carries its message.
    ResizeError(String),
}

/// Mathematical value of a [`TerminalError`].
pub enum TerminalErrorView {
    PtySpawnError(Seq<char>),
    DuplicateSession,
    SessionNotFound,
    WriteError(Seq<char>),
    ResizeError(Seq<char>),
}

impl View for TerminalError {
    type V = TerminalErrorView;

    open spec fn view(&self) -> TerminalErrorView {
        match self {
            TerminalError::PtySpawnError(cause) => TerminalErrorView::PtySpawnError(cause@),
            TerminalError::DuplicateSession => TerminalErrorView::DuplicateSession,
            TerminalError::SessionNotFound => TerminalErrorView::SessionNotFound,
            TerminalError::WriteError(cause) => TerminalErrorView::WriteError(cause@),
            TerminalError::ResizeError(cause) => TerminalErrorView::ResizeError(cause@),
        }
    }
}

/// The text of an error, as [`TerminalError::message`] returns it.
pub open spec fn error_text(error: TerminalErrorView) -> Seq<char> {
    match error {
        TerminalErrorView::PtySpawnError(cause) => cause,
        TerminalErrorView::DuplicateSession => "Session already exists"@,
        TerminalErrorView::SessionNotFound => "Session not found"@,
        TerminalErrorView::WriteError(cause) => cause,
        TerminalErrorView::ResizeError(cause) => cause,
    }
}

impl TerminalError {
    /// The error as text, for callers that pass errors on as strings. A
    /// failure of the operating system is passed on in its own words.
    pub fn message(&self) -> (text: String)
        ensures
            text@ == error_text(self@),
    {
        match self {
            TerminalError::PtySpawnError(cause) => cause.clone(),
            TerminalError::DuplicateSession => "Session already exists".to_string(),
            TerminalError::SessionNotFound => "Session not found".to_string(),
            TerminalError::WriteError(cause) => cause.clone(),
            TerminalError::ResizeError(cause) => cause.clone(),
        }
    }
}

} // verus!
