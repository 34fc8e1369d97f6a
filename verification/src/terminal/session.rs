//! The registry of logical sessions and the pointer to the active one.
//!
//! [`SessionManager`] keeps the session records, delegates everything that
//! concerns a pseudo-terminal to its [`PtyManager`], and sees to it that at
//! most one session is active: exactly one while any session exists.

use vstd::prelude::*;
use tokio::sync::broadcast::Receiver;
use crate::terminal::error::{TerminalError, TerminalErrorView};
use crate::terminal::ident::{is_uuid_v4_text, none_can_be_drawn, random_id};
use crate::terminal::model::{
    started_block,
    CommandBlock,
    CommandBlockView,
    TerminalOutput,
    TerminalSession,
    TerminalSessionView,
};
use crate::terminal::pty::{
    cell_geometry,
    command_in_flight,
    command_write,
    idle_pty,
    pty_ids,
    with_command,
    without_pty,
    PendingWrite,
    PtyManager,
    PtySessionView,
    PtySize,
};
use crate::terminal::stream::{receiver_capacity, OutputPublisher, OUTPUT_CAPACITY};

verus! {

/// The value of an optional text.
pub open spec fn text_of(text: Option<String>) -> Option<Seq<char>> {
    match text {
        Some(t) => Some(t@),
        None => None,
    }
}

/// The values of a sequence of sessions.
pub open spec fn session_views(sessions: Seq<TerminalSession>) -> Seq<TerminalSessionView> {
    Seq::new(sessions.len(), |i: int| sessions[i]@)
}

/// The identifiers of a sequence of sessions, in its order.
pub open spec fn session_ids(sessions: Seq<TerminalSessionView>) -> Seq<Seq<char>> {
    Seq::new(sessions.len(), |i: int| sessions[i].id)
}

/// The sessions with their flags set so that `active`, and no other, is
/// active.
pub open spec fn with_active(sessions: Seq<TerminalSessionView>, active: Option<Seq<char>>) -> Seq<
    TerminalSessionView,
> {
    Seq::new(
        sessions.len(),
        |i: int|
            TerminalSessionView {
                id: sessions[i].id,
                name: sessions[i].name,
                active: active == Some(sessions[i].id),
                current_directory: sessions[i].current_directory,
                commands: sessions[i].commands,
            },
    )
}

/// Whether the session `id`, and no other, is flagged active among
/// `sessions`.
pub open spec fn only_active(sessions: Seq<TerminalSessionView>, id: Seq<char>) -> bool {
    forall|i: int|
        0 <= i < sessions.len() ==> (#[trigger] sessions[i]).active == (sessions[i].id == id)
}

/// The directory that a session starts in: the user's home directory where
/// the environment names one, the root directory otherwise.
pub open spec fn initial_directory(home: Option<Seq<char>>) -> Seq<char> {
    match home {
        Some(directory) => directory,
        None => "/"@,
    }
}

/// The record of a session that was just created.
pub open spec fn new_session(id: Seq<char>, name: Seq<char>, directory: Seq<char>) -> TerminalSessionView {
    TerminalSessionView {
        id,
        name,
        active: true,
        current_directory: directory,
        commands: Seq::empty(),
    }
}

/// Mathematical value of a [`SessionManager`]: the sessions in the order of
/// their creation, the records of their pseudo-terminals, and the identifier
/// of the active session.
pub struct SessionManagerView {
    pub sessions: Seq<TerminalSessionView>,
    pub ptys: Seq<PtySessionView>,
    pub active: Option<Seq<char>>,
}

/// What holds of every manager: no identifier occurs twice; sessions and
/// pseudo-terminals correspond one to one under the same identifiers; the
/// active session exists; a session is flagged active exactly if it is the
/// active one; and some session is active whenever there is any.
pub open spec fn manager_wf(v: SessionManagerView) -> bool {
    &&& session_ids(v.sessions).no_duplicates()
    &&& pty_ids(v.ptys) == session_ids(v.sessions)
    &&& v.active matches Some(id) ==> session_ids(v.sessions).contains(id)
    &&& v.sessions.len() > 0 ==> v.active is Some
    &&& v.sessions == with_active(v.sessions, v.active)
}

/// The manager without sessions.
pub open spec fn empty_manager() -> SessionManagerView {
    SessionManagerView { sessions: Seq::empty(), ptys: Seq::empty(), active: None }
}

/// The manager after a session was created under a new identifier: the new
/// session comes last and is the active one.
pub open spec fn after_create(
    v: SessionManagerView,
    id: Seq<char>,
    name: Seq<char>,
    directory: Seq<char>,
) -> SessionManagerView {
    SessionManagerView {
        sessions: with_active(v.sessions.push(new_session(id, name, directory)), Some(id)),
        ptys: v.ptys.push(idle_pty(id)),
        active: Some(id),
    }
}

/// The manager after `id` was made the active session.
pub open spec fn after_activate(v: SessionManagerView, id: Seq<char>) -> SessionManagerView {
    SessionManagerView { sessions: with_active(v.sessions, Some(id)), ptys: v.ptys, active: Some(id) }
}

/// The manager after `block` became the command in flight of the session
/// `id`. The session records are not touched.
pub open spec fn after_execute(
    v: SessionManagerView,
    id: Seq<char>,
    block: CommandBlockView,
) -> SessionManagerView {
    SessionManagerView {
        sessions: v.sessions,
        ptys: with_command(v.ptys, id, block),
        active: v.active,
    }
}

/// The session that takes over when the active one is closed: the first of
/// those that remain, none where none remains.
pub open spec fn successor(remaining: Seq<TerminalSessionView>) -> Option<Seq<char>> {
    if remaining.len() > 0 {
        Some(remaining[0].id)
    } else {
        None
    }
}

/// The manager after the session `id` was closed; the manager itself where
/// there is no such session. Where the closed session was the active one, its
/// successor becomes active.
pub open spec fn after_close(v: SessionManagerView, id: Seq<char>) -> SessionManagerView {
    if session_ids(v.sessions).contains(id) {
        let remaining = v.sessions.remove(session_ids(v.sessions).index_of(id));
        let active = if v.active == Some(id) {
            successor(remaining)
        } else {
            v.active
        };
        SessionManagerView {
            sessions: with_active(remaining, active),
            ptys: without_pty(v.ptys, id),
            active,
        }
    } else {
        v
    }
}

/// Sets the flags of `sessions` so that `active`, and no other, is active.
fn mark_active(sessions: &mut Vec<TerminalSession>, active: &Option<String>)
    ensures
        session_views(final(sessions)@) == with_active(
            session_views(old(sessions)@),
            text_of(*active),
        ),
{
    let ghost before = session_views(sessions@);
    let mut i: usize = 0;
    while i < sessions.len()
        invariant
            i <= sessions@.len(),
            sessions@.len() == before.len(),
            forall|k: int| 0 <= k < i ==> sessions@[k]@ == with_active(before, text_of(*active))[k],
            forall|k: int| i <= k < sessions@.len() ==> sessions@[k]@ == before[k],
        decreases sessions@.len() - i,
    {
        let flag = match active {
            Some(id) => sessions[i].id == *id,
            None => false,
        };
        let ghost snapshot = sessions@;
        sessions[i].active = flag;
        assert forall|k: int| i < k < sessions@.len() implies sessions@[k]@ == before[k] by {
            assert(sessions@[k] == snapshot[k]);
        }
        assert forall|k: int| 0 <= k < i implies sessions@[k]@ == with_active(
            before,
            text_of(*active),
        )[k] by {
            assert(sessions@[k] == snapshot[k]);
        }
        i += 1;
    }
    assert(session_views(sessions@) =~= with_active(before, text_of(*active)));
}

/// Owns the logical sessions, their pseudo-terminal records and the pointer
/// to the active session.
pub struct SessionManager {
    sessions: Vec<TerminalSession>,
    pty_manager: PtyManager,
    active_session: Option<String>,
}

impl View for SessionManager {
    type V = SessionManagerView;

    closed spec fn view(&self) -> SessionManagerView {
        SessionManagerView {
            sessions: session_views(self.sessions@),
            ptys: self.pty_manager@,
            active: text_of(self.active_session),
        }
    }
}

impl SessionManager {
    /// How many records the output stream of this manager was made to
    /// retain for a slow subscriber.
    pub closed spec fn output_capacity(&self) -> nat {
        self.pty_manager.output_capacity()
    }

    /// The manager is in a state that [`manager_wf`] accepts, and its output
    /// stream is the bounded one that it was created with.
    pub open spec fn wf(&self) -> bool {
        &&& manager_wf(self@)
        &&& self.output_capacity() == OUTPUT_CAPACITY
    }

    /// A manager without sessions, with an output stream of its own that
    /// retains [`OUTPUT_CAPACITY`] records.
    pub fn new() -> (manager: Self)
        ensures
            manager.wf(),
            manager@ == empty_manager(),
            manager.output_capacity() == OUTPUT_CAPACITY,
    {
        let manager = SessionManager {
            sessions: Vec::new(),
            pty_manager: PtyManager::new(),
            active_session: None,
        };
        assert(manager@.sessions =~= Seq::empty());
        assert(session_ids(manager@.sessions) =~= pty_ids(manager@.ptys));
        assert(manager@.sessions =~= with_active(manager@.sessions, manager@.active));
        manager
    }

    /// Where the session `session_id` stands in the registry.
    fn find(&self, session_id: &String) -> (found: Option<usize>)
        ensures
            match found {
                Some(i) => i < self.sessions@.len() && session_ids(self@.sessions)[i as int]
                    == session_id@ && session_ids(self@.sessions).contains(session_id@),
                None => !session_ids(self@.sessions).contains(session_id@),
            },
    {
        let mut i: usize = 0;
        while i < self.sessions.len()
            invariant
                i <= self.sessions@.len(),
                forall|k: int| 0 <= k < i ==> session_ids(self@.sessions)[k] != session_id@,
            decreases self.sessions@.len() - i,
        {
            if self.sessions[i].id == *session_id {
                assert(session_ids(self@.sessions)[i as int] == session_id@);
                return Some(i);
            }
            i += 1;
        }
        None
    }

    /// Creates the session `id`, named `name`, given the user's home directory
    /// as the environment names it and how opening the pseudo-terminal went.
    /// The new session becomes the active one and every other session is
    /// deactivated. On a failed spawn, or where `id` is already registered,
    /// nothing changes and the error of the pseudo-terminal registry is passed
    /// on unchanged.
    pub fn create_session_with_id(
        &mut self,
        id: String,
        name: String,
        home: Option<String>,
        spawned: Result<(), String>,
    ) -> (result: Result<String, TerminalError>)
        requires
            old(self).wf(),
        ensures
            final(self).wf(),
            result matches Ok(created) ==> only_active(final(self)@.sessions, created@),
            result matches Ok(created) ==> session_ids(final(self)@.sessions) == session_ids(
                old(self)@.sessions,
            ).push(created@),
            match spawned {
                Err(cause) => result matches Err(e) && e@ == TerminalErrorView::PtySpawnError(
                    cause@,
                ) && final(self)@ == old(self)@,
                Ok(_) => if session_ids(old(self)@.sessions).contains(id@) {
                    result matches Err(e) && e@ == TerminalErrorView::DuplicateSession
                        && final(self)@ == old(self)@
                } else {
                    result matches Ok(created) && created@ == id@ && final(self)@ == after_create(
                        old(self)@,
                        id@,
                        name@,
                        initial_directory(text_of(home)),
                    )
                },
            },
    {
        let registered = self.pty_manager.create_session_with_id(id, spawned)?;
        let current_directory = match home {
            Some(directory) => directory,
            None => "/".to_string(),
        };
        let session = TerminalSession {
            id: registered.clone(),
            name,
            active: true,
            current_directory,
            commands: Vec::new(),
        };
        assert(session@ =~= new_session(id@, name@, initial_directory(text_of(home)))) by {
            assert(session@.commands =~= Seq::empty());
        }
        self.sessions.push(session);
        assert(session_views(self.sessions@) =~= old(self)@.sessions.push(session@));
        self.active_session = Some(registered.clone());
        mark_active(&mut self.sessions, &self.active_session);
        proof {
            let expected = after_create(
                old(self)@,
                id@,
                name@,
                initial_directory(text_of(home)),
            );
            assert(self@.sessions =~= expected.sessions);
            assert(self@ == expected);
            assert(session_ids(expected.sessions) =~= session_ids(old(self)@.sessions).push(id@));
            lemma_create_keeps_wf(old(self)@, id@, name@, initial_directory(text_of(home)));
        }
        Ok(registered)
    }

    /// Creates a session named `name` under a freshly drawn identifier, given
    /// the user's home directory as the environment names it and how opening
    /// the pseudo-terminal went, and returns the identifier. The new session
    /// becomes the active one, and the only active one.
    ///
    /// After a good spawn the call fails only where the drawn identifier is
    /// already registered. So it succeeds on a manager without sessions, and
    /// on every manager none of whose identifiers has the shape of a drawn
    /// one. Beyond that the draw decides, and the contract states what holds
    /// whichever identifier came back;
    /// [`SessionManager::create_session_with_id`] says what happens for each
    /// identifier.
    pub fn create_session(
        &mut self,
        name: String,
        home: Option<String>,
        spawned: Result<(), String>,
    ) -> (result: Result<String, TerminalError>)
        requires
            old(self).wf(),
        ensures
            final(self).wf(),
            (spawned is Ok && old(self)@.sessions.len() == 0) ==> result is Ok,
            (spawned is Ok && none_can_be_drawn(session_ids(old(self)@.sessions))) ==> result
                is Ok,
            result matches Ok(id) ==> only_active(final(self)@.sessions, id@),
            result matches Ok(id) ==> session_ids(final(self)@.sessions) == session_ids(
                old(self)@.sessions,
            ).push(id@),
            match spawned {
                Err(cause) => result matches Err(e) && e@ == TerminalErrorView::PtySpawnError(
                    cause@,
                ) && final(self)@ == old(self)@,
                Ok(_) => match result {
                    Ok(id) => is_uuid_v4_text(id@) && !session_ids(old(self)@.sessions).contains(
                        id@,
                    ) && final(self)@ == after_create(
                        old(self)@,
                        id@,
                        name@,
                        initial_directory(text_of(home)),
                    ),
                    Err(e) => e@ == TerminalErrorView::DuplicateSession && final(self)@ == old(self)@,
                },
            },
    {
        let id = random_id();
        proof {
            let ids = session_ids(self@.sessions);
            if none_can_be_drawn(ids) && ids.contains(id@) {
                assert(ids[ids.index_of(id@)] == id@);
            }
        }
        self.create_session_with_id(id, name, home, spawned)
    }

    /// A copy of the session `session_id`, if it is registered.
    pub fn get_session(&self, session_id: &str) -> (session: Option<TerminalSession>)
        requires
            self.wf(),
        ensures
            match session {
                Some(s) => session_ids(self@.sessions).contains(session_id@) && s@
                    == self@.sessions[session_ids(self@.sessions).index_of(session_id@)],
                None => !session_ids(self@.sessions).contains(session_id@),
            },
    {
        let key = session_id.to_owned();
        match self.find(&key) {
            Some(i) => {
                assert(session_ids(self@.sessions).index_of(session_id@) == i as int);
                Some(self.sessions[i].clone())
            },
            None => None,
        }
    }

    /// A copy of every session, in the order of their creation.
    pub fn list_sessions(&self) -> (sessions: Vec<TerminalSession>)
        ensures
            session_views(sessions@) == self@.sessions,
    {
        let mut sessions: Vec<TerminalSession> = Vec::new();
        let mut i: usize = 0;
        while i < self.sessions.len()
            invariant
                i <= self.sessions@.len(),
                sessions@.len() == i,
                forall|k: int| 0 <= k < i ==> sessions@[k]@ == self.sessions@[k]@,
            decreases self.sessions@.len() - i,
        {
            sessions.push(self.sessions[i].clone());
            i += 1;
        }
        assert(session_views(sessions@) =~= self@.sessions);
        sessions
    }

    /// Makes `session_id` the active session and deactivates every other one.
    /// An unknown identifier is refused and changes nothing.
    pub fn set_active_session(&mut self, session_id: String) -> (result: Result<(), TerminalError>)
        requires
            old(self).wf(),
        ensures
            final(self).wf(),
            result is Ok ==> only_active(final(self)@.sessions, session_id@),
            if session_ids(old(self)@.sessions).contains(session_id@) {
                result is Ok && final(self)@ == after_activate(old(self)@, session_id@)
            } else {
                result matches Err(e) && e@ == TerminalErrorView::SessionNotFound && final(self)@
                    == old(self)@
            },
    {
        if self.find(&session_id).is_some() {
            self.active_session = Some(session_id);
            mark_active(&mut self.sessions, &self.active_session);
            proof {
                lemma_activate_keeps_wf(old(self)@, session_id@);
            }
            Ok(())
        } else {
            Err(TerminalError::SessionNotFound)
        }
    }

    /// The identifier of the active session, if there is one.
    pub fn get_active_session(&self) -> (active: Option<String>)
        ensures
            text_of(active) == self@.active,
    {
        self.active_session.clone()
    }

    /// Submits `command` to `session_id` at `now` under `command_id`, and
    /// returns what has to be written to the pseudo-terminal. The block
    /// becomes the command in flight of the pseudo-terminal; the session's own
    /// history is not appended to.
    pub fn execute_command_with_id(
        &mut self,
        session_id: &str,
        command: &str,
        command_id: String,
        now: u64,
    ) -> (result: Result<PendingWrite, TerminalError>)
        requires
            old(self).wf(),
        ensures
            final(self).wf(),
            if session_ids(old(self)@.sessions).contains(session_id@) {
                result matches Ok(pending) && pending@ == command_write(
                    session_id@,
                    command_id@,
                    command@,
                ) && final(self)@ == after_execute(
                    old(self)@,
                    session_id@,
                    started_block(command_id@, session_id@, command@, now),
                )
            } else {
                result matches Err(e) && e@ == TerminalErrorView::SessionNotFound && final(self)@
                    == old(self)@
            },
    {
        let result = self.pty_manager.write_command_with_id(session_id, command, command_id, now);
        proof {
            assert(pty_ids(self@.ptys) =~= pty_ids(old(self)@.ptys));
        }
        result
    }

    /// Submits `command` to `session_id` at `now` under a freshly drawn
    /// command identifier, and returns what has to be written to the
    /// pseudo-terminal.
    ///
    /// The identifier is drawn at random, so the contract speaks of the one
    /// that the result carries; [`SessionManager::execute_command_with_id`]
    /// says what happens for each identifier.
    pub fn execute_command(&mut self, session_id: &str, command: &str, now: u64) -> (result: Result<
        PendingWrite,
        TerminalError,
    >)
        requires
            old(self).wf(),
        ensures
            final(self).wf(),
            if session_ids(old(self)@.sessions).contains(session_id@) {
                result matches Ok(pending) && is_uuid_v4_text(pending@.command_id) && pending@
                    == command_write(session_id@, pending@.command_id, command@) && final(self)@
                    == after_execute(
                    old(self)@,
                    session_id@,
                    started_block(pending@.command_id, session_id@, command@, now),
                )
            } else {
                result matches Err(e) && e@ == TerminalErrorView::SessionNotFound && final(self)@
                    == old(self)@
            },
    {
        let command_id = random_id();
        self.execute_command_with_id(session_id, command, command_id, now)
    }

    /// The command in flight on the pseudo-terminal of `session_id`, if the
    /// session is registered and has one.
    pub fn current_command(&self, session_id: &str) -> (block: Option<CommandBlock>)
        requires
            self.wf(),
        ensures
            match block {
                Some(b) => Some(b@) == command_in_flight(self@.ptys, session_id@),
                None => command_in_flight(self@.ptys, session_id@) is None,
            },
    {
        self.pty_manager.current_command(session_id)
    }

    /// A new, independent subscriber to the output of every session: a
    /// receiver on the output stream of this manager, which retains for it
    /// what the stream was made to retain.
    pub fn get_output_receiver(&self) -> (receiver: Receiver<TerminalOutput>)
        ensures
            receiver_capacity(receiver) == self.output_capacity(),
    {
        self.pty_manager.get_output_receiver()
    }

    /// A publisher for the background reader of `session_id`, on the output
    /// stream of this manager.
    pub fn output_publisher(&self, session_id: &str) -> (publisher: OutputPublisher)
        ensures
            publisher.session_id() == session_id@,
            publisher.capacity() == self.output_capacity(),
    {
        self.pty_manager.output_publisher(session_id)
    }

    /// The geometry that the caller has to apply to the pseudo-terminal of
    /// `session_id`. The manager is never changed.
    pub fn resize_session(&self, session_id: &str, rows: u16, cols: u16) -> (result: Result<
        PtySize,
        TerminalError,
    >)
        requires
            self.wf(),
        ensures
            if session_ids(self@.sessions).contains(session_id@) {
                result == Ok::<PtySize, TerminalError>(cell_geometry(rows, cols))
            } else {
                result matches Err(e) && e@ == TerminalErrorView::SessionNotFound
            },
    {
        self.pty_manager.resize_session(session_id, rows, cols)
    }

    /// Closes the session `session_id`: removes it and the record of its
    /// pseudo-terminal together, after which the caller releases the device.
    /// Where it was the active session, the first remaining session becomes
    /// active. Closing an unknown session changes nothing and is no error.
    pub fn close_session(&mut self, session_id: &str) -> (result: Result<(), TerminalError>)
        requires
            old(self).wf(),
        ensures
            final(self).wf(),
            result is Ok,
            final(self)@ == after_close(old(self)@, session_id@),
    {
        let key = session_id.to_owned();
        match self.find(&key) {
            None => {
                let closed = self.pty_manager.close_session(session_id);
                closed
            },
            Some(i) => {
                let ghost ids = session_ids(old(self)@.sessions);
                assert(ids.index_of(session_id@) == i as int);
                let closed = self.pty_manager.close_session(session_id);
                let _ = self.sessions.remove(i);
                let ghost remaining = old(self)@.sessions.remove(i as int);
                assert(session_views(self.sessions@) =~= remaining);
                let was_active = match &self.active_session {
                    Some(active) => *active == key,
                    None => false,
                };
                if was_active {
                    self.active_session = if self.sessions.len() > 0 {
                        Some(self.sessions[0].id.clone())
                    } else {
                        None
                    };
                }
                mark_active(&mut self.sessions, &self.active_session);
                proof {
                    assert(self@ == after_close(old(self)@, session_id@));
                    lemma_close_keeps_wf(old(self)@, session_id@);
                }
                closed
            },
        }
    }
}

/// Creating a session under a new identifier leads from a valid manager to a
/// valid manager.
pub proof fn lemma_create_keeps_wf(
    v: SessionManagerView,
    id: Seq<char>,
    name: Seq<char>,
    directory: Seq<char>,
)
    requires
        manager_wf(v),
        !session_ids(v.sessions).contains(id),
    ensures
        manager_wf(after_create(v, id, name, directory)),
{
    let w = after_create(v, id, name, directory);
    assert(session_ids(w.sessions) =~= session_ids(v.sessions).push(id));
    assert(pty_ids(w.ptys) =~= pty_ids(v.ptys).push(id));
    assert(session_ids(w.sessions)[v.sessions.len() as int] == id);
    assert(w.sessions =~= with_active(w.sessions, w.active));
}

/// Activating a registered session leads from a valid manager to a valid
/// manager.
pub proof fn lemma_activate_keeps_wf(v: SessionManagerView, id: Seq<char>)
    requires
        manager_wf(v),
        session_ids(v.sessions).contains(id),
    ensures
        manager_wf(after_activate(v, id)),
{
    let w = after_activate(v, id);
    assert(session_ids(w.sessions) =~= session_ids(v.sessions));
    assert(w.sessions =~= with_active(w.sessions, w.active));
}

/// Closing a session leads from a valid manager to a valid manager.
pub proof fn lemma_close_keeps_wf(v: SessionManagerView, id: Seq<char>)
    requires
        manager_wf(v),
    ensures
        manager_wf(after_close(v, id)),
{
    let ids = session_ids(v.sessions);
    if ids.contains(id) {
        let at = ids.index_of(id);
        let w = after_close(v, id);
        let remaining = v.sessions.remove(at);
        assert(pty_ids(v.ptys).index_of(id) == at);
        assert(session_ids(w.sessions) =~= ids.remove(at));
        assert(pty_ids(w.ptys) =~= ids.remove(at));
        ids.remove_ensures(at);
        assert(w.sessions =~= with_active(w.sessions, w.active));
        if w.active is Some {
            let a = w.active->0;
            if v.active == Some(id) {
                assert(session_ids(w.sessions)[0] == a);
            } else {
                let j = ids.index_of(a);
                assert(ids[j] == a);
                if j < at {
                    assert(ids.remove(at)[j] == a);
                } else {
                    assert(ids.remove(at)[j - 1] == a);
                }
            }
        }
    }
}

} // verus!
