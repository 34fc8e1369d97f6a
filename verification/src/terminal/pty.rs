//! The registry of live pseudo-terminals.
//!
//! [`PtyManager`] keeps one record for each pseudo-terminal and decides what
//! each operation does to the registry and what has to be done to the device.
//! The device work itself is the caller's: it opens the pseudo-terminal that
//! [`PtyManager::spawn_request`] describes, writes the payload of a
//! [`PendingWrite`], applies a [`PtySize`], and reports how that went.

use vstd::prelude::*;
use tokio::sync::broadcast::{Receiver, Sender};
use crate::terminal::error::{TerminalError, TerminalErrorView};
use crate::terminal::ident::{is_uuid_v4_text, none_can_be_drawn, random_id};
use crate::terminal::model::{started_block, CommandBlock, CommandBlockView, TerminalOutput};
use crate::terminal::stream::{
    open_output_stream,
    receiver_capacity,
    sender_capacity,
    subscribe_to,
    OutputPublisher,
    OUTPUT_CAPACITY,
};

verus! {

/// Geometry of a pseudo-terminal, in character cells and in pixels.
#[derive(Clone, Copy, Debug, PartialEq, Eq, Structural)]
pub struct PtySize {
    pub rows: u16,
    pub cols: u16,
    pub pixel_width: u16,
    pub pixel_height: u16,
}

/// The geometry of `rows` by `cols` cells, with the pixel size left open.
pub open spec fn cell_geometry(rows: u16, cols: u16) -> PtySize {
    PtySize { rows, cols, pixel_width: 0, pixel_height: 0 }
}

/// What the caller has to start for a new session: a shell on a
/// pseudo-terminal of the given size, with `TERM` set to `term`.
#[derive(Debug)]
pub struct SpawnRequest {
    pub size: PtySize,
    pub program: String,
    pub term: String,
}

/// What the caller has to write to the pseudo-terminal of `session_id` for the
/// command that `command_id` tracks.
#[derive(Debug)]
pub struct PendingWrite {
    pub session_id: String,
    pub command_id: String,
    pub payload: String,
}

/// Mathematical value of a [`PendingWrite`].
pub struct PendingWriteView {
    pub session_id: Seq<char>,
    pub command_id: Seq<char>,
    pub payload: Seq<char>,
}

impl View for PendingWrite {
    type V = PendingWriteView;

    open spec fn view(&self) -> PendingWriteView {
        PendingWriteView {
            session_id: self.session_id@,
            command_id: self.command_id@,
            payload: self.payload@,
        }
    }
}

/// The write that submits `command`: its text, then a line feed.
pub open spec fn command_write(
    session_id: Seq<char>,
    command_id: Seq<char>,
    command: Seq<char>,
) -> PendingWriteView {
    PendingWriteView { session_id, command_id, payload: command.push('\n') }
}

/// The record of one live pseudo-terminal. The device handles stay with the
/// caller, filed under the same identifier.
#[derive(Debug)]
pub struct PtySession {
    pub id: String,
    pub current_command: Option<CommandBlock>,
}

/// Mathematical value of a [`PtySession`].
pub struct PtySessionView {
    pub id: Seq<char>,
    pub current_command: Option<CommandBlockView>,
}

impl View for PtySession {
    type V = PtySessionView;

    open spec fn view(&self) -> PtySessionView {
        PtySessionView {
            id: self.id@,
            current_command: match self.current_command {
                Some(block) => Some(block@),
                None => None,
            },
        }
    }
}

/// The identifiers of a registry, in its order.
pub open spec fn pty_ids(sessions: Seq<PtySessionView>) -> Seq<Seq<char>> {
    Seq::new(sessions.len(), |i: int| sessions[i].id)
}

/// The record of a pseudo-terminal that has run no command yet.
pub open spec fn idle_pty(id: Seq<char>) -> PtySessionView {
    PtySessionView { id, current_command: None }
}

/// The registry after `block` became the command in flight of the session
/// `id`. Whatever was in flight there before is overwritten.
pub open spec fn with_command(
    sessions: Seq<PtySessionView>,
    id: Seq<char>,
    block: CommandBlockView,
) -> Seq<PtySessionView> {
    Seq::new(
        sessions.len(),
        |i: int|
            if sessions[i].id == id {
                PtySessionView { id, current_command: Some(block) }
            } else {
                sessions[i]
            },
    )
}

/// The command in flight on the session `id`; none where the session is not
/// registered.
pub open spec fn command_in_flight(sessions: Seq<PtySessionView>, id: Seq<char>) -> Option<
    CommandBlockView,
> {
    if pty_ids(sessions).contains(id) {
        sessions[pty_ids(sessions).index_of(id)].current_command
    } else {
        None
    }
}

/// The registry without the session `id`; the registry itself where there is
/// no such session.
pub open spec fn without_pty(sessions: Seq<PtySessionView>, id: Seq<char>) -> Seq<PtySessionView> {
    if pty_ids(sessions).contains(id) {
        sessions.remove(pty_ids(sessions).index_of(id))
    } else {
        sessions
    }
}

/// Owns the records of the live pseudo-terminals and the output stream.
pub struct PtyManager {
    sessions: Vec<PtySession>,
    output_sender: Sender<TerminalOutput>,
}

impl View for PtyManager {
    type V = Seq<PtySessionView>;

    closed spec fn view(&self) -> Seq<PtySessionView> {
        Seq::new(self.sessions@.len(), |i: int| self.sessions@[i]@)
    }
}

impl PtyManager {
    /// How many records the output stream of this manager was made to
    /// retain for a slow subscriber.
    pub closed spec fn output_capacity(&self) -> nat {
        sender_capacity(self.output_sender)
    }

    /// No identifier is registered twice, and the output stream is the
    /// bounded one that the manager was created with.
    pub open spec fn wf(&self) -> bool {
        &&& pty_ids(self@).no_duplicates()
        &&& self.output_capacity() == OUTPUT_CAPACITY
    }

    /// A manager without sessions, with an output stream of its own that
    /// retains [`OUTPUT_CAPACITY`] records and has no subscriber yet.
    pub fn new() -> (manager: Self)
        ensures
            manager.wf(),
            manager@ == Seq::<PtySessionView>::empty(),
            manager.output_capacity() == OUTPUT_CAPACITY,
    {
        let manager = PtyManager { sessions: Vec::new(), output_sender: open_output_stream() };
        assert(manager@ =~= Seq::<PtySessionView>::empty());
        manager
    }

    /// What has to be started for every new session: `/bin/bash` on a
    /// pseudo-terminal of 24 rows by 80 columns, in an environment that names
    /// a terminal with 256 colours.
    pub fn spawn_request() -> (request: SpawnRequest)
        ensures
            request.size == cell_geometry(24, 80),
            request.program@ == "/bin/bash"@,
            request.term@ == "xterm-256color"@,
    {
        SpawnRequest {
            size: PtySize { rows: 24, cols: 80, pixel_width: 0, pixel_height: 0 },
            program: "/bin/bash".to_string(),
            term: "xterm-256color".to_string(),
        }
    }

    /// Where the session `session_id` stands in the registry.
    fn find(&self, session_id: &String) -> (found: Option<usize>)
        ensures
            match found {
                Some(i) => i < self.sessions@.len() && pty_ids(self@)[i as int] == session_id@
                    && pty_ids(self@).contains(session_id@),
                None => !pty_ids(self@).contains(session_id@),
            },
    {
        let mut i: usize = 0;
        while i < self.sessions.len()
            invariant
                i <= self.sessions@.len(),
                forall|k: int| 0 <= k < i ==> pty_ids(self@)[k] != session_id@,
            decreases self.sessions@.len() - i,
        {
            if self.sessions[i].id == *session_id {
                assert(pty_ids(self@)[i as int] == session_id@);
                return Some(i);
            }
            i += 1;
        }
        None
    }

    /// Whether a pseudo-terminal is registered under `session_id`.
    pub fn contains(&self, session_id: &str) -> (found: bool)
        ensures
            found == pty_ids(self@).contains(session_id@),
    {
        let key = session_id.to_owned();
        self.find(&key).is_some()
    }

    /// How many pseudo-terminals are registered.
    pub fn session_count(&self) -> (count: usize)
        ensures
            count == self@.len(),
    {
        self.sessions.len()
    }

    /// The command in flight on `session_id`, if the session is registered
    /// and has one.
    pub fn current_command(&self, session_id: &str) -> (block: Option<CommandBlock>)
        requires
            self.wf(),
        ensures
            match block {
                Some(b) => Some(b@) == command_in_flight(self@, session_id@),
                None => command_in_flight(self@, session_id@) is None,
            },
    {
        let key = session_id.to_owned();
        match self.find(&key) {
            Some(i) => {
                assert(pty_ids(self@).index_of(session_id@) == i as int);
                match &self.sessions[i].current_command {
                    Some(b) => Some(b.clone()),
                    None => None,
                }
            },
            None => None,
        }
    }

    /// Registers the pseudo-terminal of a new session under `id`, given how
    /// opening it went. On a failed spawn nothing is registered and the
    /// system's message is passed on; an identifier that is already registered
    /// is refused.
    pub fn create_session_with_id(&mut self, id: String, spawned: Result<(), String>) -> (result:
        Result<String, TerminalError>)
        requires
            old(self).wf(),
        ensures
            final(self).wf(),
            match spawned {
                Err(cause) => result matches Err(e) && e@ == TerminalErrorView::PtySpawnError(
                    cause@,
                ) && final(self)@ == old(self)@,
                Ok(_) => if pty_ids(old(self)@).contains(id@) {
                    result matches Err(e) && e@ == TerminalErrorView::DuplicateSession
                        && final(self)@ == old(self)@
                } else {
                    result matches Ok(registered) && registered@ == id@
                        && final(self)@ == old(self)@.push(idle_pty(id@))
                },
            },
    {
        match spawned {
            Err(cause) => Err(TerminalError::PtySpawnError(cause)),
            Ok(_) => {
                if self.find(&id).is_some() {
                    Err(TerminalError::DuplicateSession)
                } else {
                    let registered = id.clone();
                    self.sessions.push(PtySession { id, current_command: None });
                    assert(self@ =~= old(self)@.push(idle_pty(registered@)));
                    assert(pty_ids(self@) =~= pty_ids(old(self)@).push(registered@));
                    Ok(registered)
                }
            },
        }
    }

    /// Registers the pseudo-terminal of a new session under a freshly drawn
    /// identifier, given how opening it went, and returns the identifier.
    ///
    /// After a good spawn the call fails only where the drawn identifier is
    /// already registered. So it succeeds on a manager without sessions, and
    /// on every manager none of whose identifiers has the shape of a drawn
    /// one. Beyond that the draw decides, and the contract states what holds
    /// whichever identifier came back;
    /// [`PtyManager::create_session_with_id`] says what happens for each
    /// identifier.
    pub fn create_session(&mut self, spawned: Result<(), String>) -> (result: Result<
        String,
        TerminalError,
    >)
        requires
            old(self).wf(),
        ensures
            final(self).wf(),
            (spawned is Ok && old(self)@.len() == 0) ==> result is Ok,
            (spawned is Ok && none_can_be_drawn(pty_ids(old(self)@))) ==> result is Ok,
            match spawned {
                Err(cause) => result matches Err(e) && e@ == TerminalErrorView::PtySpawnError(
                    cause@,
                ) && final(self)@ == old(self)@,
                Ok(_) => match result {
                    Ok(id) => is_uuid_v4_text(id@) && !pty_ids(old(self)@).contains(id@)
                        && final(self)@ == old(self)@.push(idle_pty(id@)),
                    Err(e) => e@ == TerminalErrorView::DuplicateSession && final(self)@ == old(self)@,
                },
            },
    {
        let id = random_id();
        proof {
            let ids = pty_ids(self@);
            if none_can_be_drawn(ids) && ids.contains(id@) {
                assert(ids[ids.index_of(id@)] == id@);
            }
        }
        self.create_session_with_id(id, spawned)
    }

    /// Opens the record of `command` under `command_id`, started at `now`,
    /// makes it the command in flight of `session_id`, and returns what has to
    /// be written to the pseudo-terminal. A command that was in flight is
    /// overwritten, not reconciled.
    pub fn write_command_with_id(
        &mut self,
        session_id: &str,
        command: &str,
        command_id: String,
        now: u64,
    ) -> (result: Result<PendingWrite, TerminalError>)
        requires
            old(self).wf(),
        ensures
            final(self).wf(),
            if pty_ids(old(self)@).contains(session_id@) {
                result matches Ok(pending) && pending@ == command_write(
                    session_id@,
                    command_id@,
                    command@,
                ) && final(self)@ == with_command(
                    old(self)@,
                    session_id@,
                    started_block(command_id@, session_id@, command@, now),
                )
            } else {
                result matches Err(e) && e@ == TerminalErrorView::SessionNotFound && final(self)@
                    == old(self)@
            },
    {
        let key = session_id.to_owned();
        match self.find(&key) {
            None => Err(TerminalError::SessionNotFound),
            Some(i) => {
                let block = CommandBlock::started(command_id.clone(), session_id, command, now);
                let ghost block_view = block@;
                self.sessions[i].current_command = Some(block);
                let payload = command.to_owned().concat("\n");
                proof {
                    reveal_strlit("\n");
                    assert(payload@ =~= command@.push('\n'));
                    let ids = pty_ids(old(self)@);
                    let expected = with_command(old(self)@, session_id@, block_view);
                    assert(self.sessions@.len() == old(self).sessions@.len());
                    assert forall|k: int| 0 <= k < self@.len() implies self@[k] == expected[k] by {
                        if k != i as int {
                            assert(ids[k] != ids[i as int]);
                            assert(self.sessions@[k] == old(self).sessions@[k]);
                        }
                    }
                    assert(self@ =~= expected);
                    assert(pty_ids(self@) =~= ids);
                }
                Ok(PendingWrite { session_id: key, command_id, payload })
            },
        }
    }

    /// Submits `command` to `session_id` at `now` under a freshly drawn
    /// command identifier, and returns what has to be written to the
    /// pseudo-terminal.
    ///
    /// The identifier is drawn at random, so the contract speaks of the one
    /// that the result carries; [`PtyManager::write_command_with_id`] says
    /// what happens for each identifier.
    pub fn write_command(&mut self, session_id: &str, command: &str, now: u64) -> (result: Result<
        PendingWrite,
        TerminalError,
    >)
        requires
            old(self).wf(),
        ensures
            final(self).wf(),
            if pty_ids(old(self)@).contains(session_id@) {
                result matches Ok(pending) && is_uuid_v4_text(pending@.command_id) && pending@
                    == command_write(session_id@, pending@.command_id, command@) && final(self)@
                    == with_command(
                    old(self)@,
                    session_id@,
                    started_block(pending@.command_id, session_id@, command@, now),
                )
            } else {
                result matches Err(e) && e@ == TerminalErrorView::SessionNotFound && final(self)@
                    == old(self)@
            },
    {
        let command_id = random_id();
        self.write_command_with_id(session_id, command, command_id, now)
    }

    /// Closes a write: the command's identifier where the caller wrote the
    /// payload, the system's message as a write error where it could not.
    /// Either way the session stays registered.
    pub fn complete_write(pending: PendingWrite, written: Result<(), String>) -> (result: Result<
        String,
        TerminalError,
    >)
        ensures
            match written {
                Ok(_) => result matches Ok(command_id) && command_id@ == pending@.command_id,
                Err(cause) => result matches Err(e) && e@ == TerminalErrorView::WriteError(cause@),
            },
    {
        match written {
            Ok(_) => Ok(pending.command_id),
            Err(cause) => Err(TerminalError::WriteError(cause)),
        }
    }

    /// A publisher for the background reader of `session_id`, on this
    /// manager's output stream.
    pub fn output_publisher(&self, session_id: &str) -> (publisher: OutputPublisher)
        ensures
            publisher.session_id() == session_id@,
            publisher.capacity() == self.output_capacity(),
    {
        OutputPublisher::new(session_id, &self.output_sender)
    }

    /// A new, independent subscriber to the output stream of this manager:
    /// a receiver on the channel that every publisher of the manager writes
    /// to, which retains for it what the stream was made to retain. It sees
    /// every record published after this call, unless it falls behind by
    /// more than that.
    pub fn get_output_receiver(&self) -> (receiver: Receiver<TerminalOutput>)
        ensures
            receiver_capacity(receiver) == self.output_capacity(),
    {
        subscribe_to(&self.output_sender)
    }

    /// The geometry that the caller has to apply to the pseudo-terminal of
    /// `session_id`. The registry is never changed.
    pub fn resize_session(&self, session_id: &str, rows: u16, cols: u16) -> (result: Result<
        PtySize,
        TerminalError,
    >)
        ensures
            if pty_ids(self@).contains(session_id@) {
                result == Ok::<PtySize, TerminalError>(cell_geometry(rows, cols))
            } else {
                result matches Err(e) && e@ == TerminalErrorView::SessionNotFound
            },
    {
        let key = session_id.to_owned();
        match self.find(&key) {
            Some(_) => Ok(PtySize { rows, cols, pixel_width: 0, pixel_height: 0 }),
            None => Err(TerminalError::SessionNotFound),
        }
    }

    /// Closes a resize: the system's message as a resize error where the
    /// device rejected the geometry.
    pub fn complete_resize(applied: Result<(), String>) -> (result: Result<(), TerminalError>)
        ensures
            match applied {
                Ok(_) => result is Ok,
                Err(cause) => result matches Err(e) && e@ == TerminalErrorView::ResizeError(cause@),
            },
    {
        match applied {
            Ok(_) => Ok(()),
            Err(cause) => Err(TerminalError::ResizeError(cause)),
        }
    }

    /// Removes the record of `session_id`, after which the caller releases
    /// the device. Closing an unknown session changes nothing and is no error.
    pub fn close_session(&mut self, session_id: &str) -> (result: Result<(), TerminalError>)
        requires
            old(self).wf(),
        ensures
            final(self).wf(),
            result is Ok,
            final(self)@ == without_pty(old(self)@, session_id@),
    {
        let key = session_id.to_owned();
        match self.find(&key) {
            None => {},
            Some(i) => {
                let ghost ids = pty_ids(old(self)@);
                assert(ids.index_of(session_id@) == i as int);
                let _ = self.sessions.remove(i);
                proof {
                    assert(self@ =~= old(self)@.remove(i as int));
                    assert(pty_ids(self@) =~= ids.remove(i as int));
                    ids.remove_ensures(i as int);
                }
            },
        }
        Ok(())
    }
}

} // verus!
