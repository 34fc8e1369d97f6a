//! What holds of the session manager across calls.
//!
//! The laws are stated over the values of the manager and over the spec
//! functions that the contracts of [`SessionManager`] use, so that each of them
//! applies to every run of the executable code.
//!
//! [`SessionManager`]: crate::terminal::session::SessionManager

use vstd::prelude::*;
use crate::terminal::model::{CommandBlockView, TerminalSessionView};
use crate::terminal::pty::pty_ids;
use crate::terminal::session::{
    after_activate,
    after_close,
    after_create,
    after_execute,
    empty_manager,
    initial_directory,
    lemma_close_keeps_wf,
    lemma_create_keeps_wf,
    manager_wf,
    new_session,
    session_ids,
    with_active,
    SessionManagerView,
};

verus! {

/// The session `session` with its flag set to `active`.
pub open spec fn flagged(session: TerminalSessionView, active: bool) -> TerminalSessionView {
    TerminalSessionView { active, ..session }
}

/// One call of `create_session`: the identifier that was drawn for it, its
/// arguments, and the system's message where opening the pseudo-terminal
/// failed.
pub struct CreateCall {
    pub id: Seq<char>,
    pub name: Seq<char>,
    pub home: Option<Seq<char>>,
    pub spawn_failure: Option<Seq<char>>,
}

/// Whether `call` returns an identifier when made on the manager `v`.
pub open spec fn create_succeeds(v: SessionManagerView, call: CreateCall) -> bool {
    call.spawn_failure is None && !session_ids(v.sessions).contains(call.id)
}

/// The manager after `call` was made on `v`.
pub open spec fn create_outcome(v: SessionManagerView, call: CreateCall) -> SessionManagerView {
    if create_succeeds(v, call) {
        after_create(v, call.id, call.name, initial_directory(call.home))
    } else {
        v
    }
}

/// The manager after `calls` were made, in their order, on `v`.
pub open spec fn after_calls(v: SessionManagerView, calls: Seq<CreateCall>) -> SessionManagerView
    decreases calls.len(),
{
    if calls.len() == 0 {
        v
    } else {
        create_outcome(after_calls(v, calls.drop_last()), calls.last())
    }
}

/// The calls among `calls`, made in their order on `v`, that returned an
/// identifier.
pub open spec fn returned_calls(v: SessionManagerView, calls: Seq<CreateCall>) -> Seq<CreateCall>
    decreases calls.len(),
{
    if calls.len() == 0 {
        Seq::empty()
    } else if create_succeeds(after_calls(v, calls.drop_last()), calls.last()) {
        returned_calls(v, calls.drop_last()).push(calls.last())
    } else {
        returned_calls(v, calls.drop_last())
    }
}

/// Whatever sequence of `create_session` calls is made on a new manager: the
/// identifiers that were returned are pairwise different; the manager lists
/// exactly the sessions of the calls that returned one, in the order of the
/// calls, each with the name and directory it was created with and with no
/// command; and exactly the session that was created last is active.
pub proof fn law_creations(calls: Seq<CreateCall>)
    ensures
        ({
            let v = after_calls(empty_manager(), calls);
            let made = returned_calls(empty_manager(), calls);
            &&& manager_wf(v)
            &&& v.sessions.len() == made.len()
            &&& forall|i: int, j: int|
                0 <= i < j < made.len() ==> made[i].id != made[j].id
            &&& forall|i: int|
                0 <= i < made.len() ==> #[trigger] v.sessions[i] == flagged(
                    new_session(made[i].id, made[i].name, initial_directory(made[i].home)),
                    i == made.len() - 1,
                )
            &&& v.active == if made.len() > 0 {
                Some(made.last().id)
            } else {
                None
            }
        }),
    decreases calls.len(),
{
    let start = empty_manager();
    if calls.len() == 0 {
        assert(session_ids(start.sessions) =~= pty_ids(start.ptys));
        assert(start.sessions =~= with_active(start.sessions, start.active));
    } else {
        law_creations(calls.drop_last());
        let before = after_calls(start, calls.drop_last());
        let made_before = returned_calls(start, calls.drop_last());
        let call = calls.last();
        if create_succeeds(before, call) {
            lemma_create_keeps_wf(before, call.id, call.name, initial_directory(call.home));
            let made = returned_calls(start, calls);
            assert forall|i: int, j: int| 0 <= i < j < made.len() implies made[i].id
                != made[j].id by {
                if j == made.len() - 1 {
                    assert(before.sessions[i].id == made_before[i].id);
                    assert(session_ids(before.sessions)[i] == made[i].id);
                }
            }
        }
    }
}

/// At most one session is flagged active, and exactly one while any exists.
pub proof fn law_one_active(v: SessionManagerView)
    requires
        manager_wf(v),
    ensures
        forall|i: int, j: int|
            0 <= i < v.sessions.len() && 0 <= j < v.sessions.len() && v.sessions[i].active
                && v.sessions[j].active ==> i == j,
        v.sessions.len() > 0 ==> exists|i: int| 0 <= i < v.sessions.len() && v.sessions[i].active,
        v.sessions.len() == 0 ==> v.active is None,
{
    let ids = session_ids(v.sessions);
    assert forall|i: int, j: int|
        0 <= i < v.sessions.len() && 0 <= j < v.sessions.len() && v.sessions[i].active
            && v.sessions[j].active implies i == j by {
        assert(with_active(v.sessions, v.active)[i].active);
        assert(with_active(v.sessions, v.active)[j].active);
        assert(ids[i] == ids[j]);
    }
    if v.sessions.len() > 0 {
        let id = v.active->0;
        let at = ids.index_of(id);
        assert(ids[at] == id);
        assert(with_active(v.sessions, v.active)[at].active);
    } else {
        if v.active is Some {
            let at = ids.index_of(v.active->0);
            assert(0 <= at < ids.len());
        }
    }
}

/// Sessions and pseudo-terminals stand in the same order under the same
/// identifiers: neither exists without the other.
pub proof fn law_sessions_match_ptys(v: SessionManagerView)
    requires
        manager_wf(v),
    ensures
        v.ptys.len() == v.sessions.len(),
        forall|i: int| 0 <= i < v.sessions.len() ==> #[trigger] v.ptys[i].id == v.sessions[i].id,
{
    assert(pty_ids(v.ptys).len() == session_ids(v.sessions).len());
    assert forall|i: int| 0 <= i < v.sessions.len() implies #[trigger] v.ptys[i].id
        == v.sessions[i].id by {
        assert(pty_ids(v.ptys)[i] == session_ids(v.sessions)[i]);
    }
}

/// Activating a registered session flags that session, and no other, active,
/// and changes nothing else of any session.
pub proof fn law_activate(v: SessionManagerView, id: Seq<char>)
    requires
        manager_wf(v),
        session_ids(v.sessions).contains(id),
    ensures
        ({
            let w = after_activate(v, id);
            &&& w.active == Some(id)
            &&& w.sessions.len() == v.sessions.len()
            &&& forall|i: int|
                0 <= i < v.sessions.len() ==> #[trigger] w.sessions[i] == flagged(
                    v.sessions[i],
                    v.sessions[i].id == id,
                )
        }),
{
}

/// Closing a session removes it from the list and leaves every other session
/// listed, in the old order, with its name, directory and commands. Closing
/// it a second time changes nothing.
pub proof fn law_close(v: SessionManagerView, id: Seq<char>)
    requires
        manager_wf(v),
    ensures
        ({
            let w = after_close(v, id);
            &&& manager_wf(w)
            &&& !session_ids(w.sessions).contains(id)
            &&& after_close(w, id) == w
            &&& forall|i: int|
                0 <= i < v.sessions.len() && v.sessions[i].id != id ==> exists|j: int|
                    0 <= j < w.sessions.len() && #[trigger] w.sessions[j] == flagged(
                        v.sessions[i],
                        w.active == Some(v.sessions[i].id),
                    )
            &&& forall|j: int|
                0 <= j < w.sessions.len() ==> session_ids(v.sessions).contains(
                    #[trigger] w.sessions[j].id,
                )
        }),
{
    let ids = session_ids(v.sessions);
    let w = after_close(v, id);
    lemma_close_keeps_wf(v, id);
    if ids.contains(id) {
        let at = ids.index_of(id);
        let remaining = v.sessions.remove(at);
        assert(session_ids(w.sessions) =~= ids.remove(at));
        ids.remove_ensures(at);
        assert(!session_ids(w.sessions).contains(id)) by {
            if session_ids(w.sessions).contains(id) {
                let k = session_ids(w.sessions).index_of(id);
                assert(ids.remove(at)[k] == id);
                if k < at {
                    assert(ids[k] == ids[at]);
                } else {
                    assert(ids[k + 1] == ids[at]);
                }
            }
        }
        assert forall|i: int| 0 <= i < v.sessions.len() && v.sessions[i].id != id implies exists|
            j: int,
        |
            0 <= j < w.sessions.len() && #[trigger] w.sessions[j] == flagged(
                v.sessions[i],
                w.active == Some(v.sessions[i].id),
            ) by {
            assert(ids[i] != ids[at]);
            let j = if i < at {
                i
            } else {
                i - 1
            };
            assert(remaining[j] == v.sessions[i]);
            assert(w.sessions[j] == flagged(v.sessions[i], w.active == Some(v.sessions[i].id)));
        }
        assert forall|j: int| 0 <= j < w.sessions.len() implies ids.contains(
            #[trigger] w.sessions[j].id,
        ) by {
            let i = if j < at {
                j
            } else {
                j + 1
            };
            assert(remaining[j] == v.sessions[i]);
            assert(ids[i] == w.sessions[j].id);
        }
    } else {
        assert forall|i: int| 0 <= i < v.sessions.len() && v.sessions[i].id != id implies exists|
            j: int,
        |
            0 <= j < w.sessions.len() && #[trigger] w.sessions[j] == flagged(
                v.sessions[i],
                w.active == Some(v.sessions[i].id),
            ) by {
            assert(with_active(v.sessions, v.active)[i] == v.sessions[i]);
            assert(w.sessions[i] == flagged(v.sessions[i], w.active == Some(v.sessions[i].id)));
        }
        assert forall|j: int| 0 <= j < w.sessions.len() implies ids.contains(
            #[trigger] w.sessions[j].id,
        ) by {
            assert(ids[j] == w.sessions[j].id);
        }
    }
}

/// Whether every session of `v` that `w` still lists stands there with the
/// identifier, name, directory and commands it had: only its flag may differ.
pub open spec fn keeps_records(v: SessionManagerView, w: SessionManagerView) -> bool {
    forall|i: int, j: int|
        0 <= i < v.sessions.len() && 0 <= j < w.sessions.len() && v.sessions[i].id
            == w.sessions[j].id ==> #[trigger] w.sessions[j] == flagged(
            #[trigger] v.sessions[i],
            w.sessions[j].active,
        )
}

/// No operation rewrites a session: whatever is created, activated, executed
/// or closed, every session that stays listed keeps its name, its directory
/// and its commands in their order.
pub proof fn law_records_are_kept(
    v: SessionManagerView,
    id: Seq<char>,
    name: Seq<char>,
    directory: Seq<char>,
    block: CommandBlockView,
)
    requires
        manager_wf(v),
    ensures
        !session_ids(v.sessions).contains(id) ==> keeps_records(
            v,
            after_create(v, id, name, directory),
        ),
        keeps_records(v, after_activate(v, id)),
        keeps_records(v, after_execute(v, id, block)),
        keeps_records(v, after_close(v, id)),
{
    let ids = session_ids(v.sessions);
    assert forall|i: int, j: int|
        0 <= i < v.sessions.len() && 0 <= j < v.sessions.len() && v.sessions[i].id
            == v.sessions[j].id implies i == j by {
        assert(ids[i] == ids[j]);
    }
    if !ids.contains(id) {
        let w = after_create(v, id, name, directory);
        assert forall|i: int, j: int|
            0 <= i < v.sessions.len() && 0 <= j < w.sessions.len() && v.sessions[i].id
                == w.sessions[j].id implies #[trigger] w.sessions[j] == flagged(
            #[trigger] v.sessions[i],
            w.sessions[j].active,
        ) by {
            if j == v.sessions.len() {
                assert(ids[i] == id);
            } else {
                assert(ids[i] == ids[j]);
            }
        }
    }
    if ids.contains(id) {
        let at = ids.index_of(id);
        let w = after_close(v, id);
        assert forall|i: int, j: int|
            0 <= i < v.sessions.len() && 0 <= j < w.sessions.len() && v.sessions[i].id
                == w.sessions[j].id implies #[trigger] w.sessions[j] == flagged(
            #[trigger] v.sessions[i],
            w.sessions[j].active,
        ) by {
            let before = if j < at {
                j
            } else {
                j + 1
            };
            assert(v.sessions.remove(at)[j] == v.sessions[before]);
            assert(ids[before] == ids[i]);
        }
    }
}

} // verus!
