//! The live sessions of the server. Each session holds a scope directly below
//! the root; each suspending call of a session holds a scope below the
//! session's.
use vstd::prelude::*;
use crate::clock::MAX_TIMESTAMP;
use crate::error::{cancelled_error, text_result_view, ToolError};
use crate::scope::{
    cancel_post, lemma_all_below_root, lemma_below_one_root_child, lemma_cancel_reaches_below,
    lemma_cancel_spares_others, ScopeTree, ROOT_SCOPE,
};
use crate::wait::{finish_wait, wait_outcome_spec, PendingWait, WaitEvent};

verus! {

/// A live session: its identifier and its cancellation scope.
#[derive(Clone, Copy, Debug, PartialEq, Eq, Structural)]
pub struct Session {
    pub id: u64,
    pub scope: usize,
}

pub struct SessionManager {
    scopes: ScopeTree,
    live: Vec<Session>,
    next_id: u64,
}

/// Whether `id` is the identifier of one of `live`.
pub open spec fn holds_id(live: Seq<Session>, id: u64) -> bool {
    exists|i: int| 0 <= i < live.len() && #[trigger] live[i].id == id
}

/// How a suspended call ends once its timer or its scope has fired: cancelled
/// exactly when its scope is.
pub open spec fn event_of(scopes: ScopeTree, scope: int) -> WaitEvent {
    if scopes.is_cancelled_spec(scope) {
        WaitEvent::Cancelled
    } else {
        WaitEvent::Elapsed
    }
}

/// A wait suspended under a scope below a cancelled scope resolves as
/// `OperationCancelled` instead of running to completion.
pub proof fn lemma_cancelled_scope_cancels_wait(
    before: ScopeTree,
    after: ScopeTree,
    cancelled_scope: int,
    call_scope: int,
    w: PendingWait,
    now: i64,
)
    requires
        before.wf(),
        0 <= call_scope < before.len(),
        before.descends(call_scope, cancelled_scope),
        cancel_post(before, after, cancelled_scope),
    ensures
        wait_outcome_spec(w, event_of(after, call_scope), now) == Err::<Seq<char>, _>(cancelled_error()),
{
    lemma_cancel_reaches_below(before, after, cancelled_scope, call_scope);
}

/// Closing one session leaves every scope below another live session as it
/// was: a wait of that other session is not cancelled by it.
pub proof fn lemma_close_spares_other_sessions(
    m: SessionManager,
    after: ScopeTree,
    closed: int,
    kept: int,
    call: int,
)
    requires
        m.wf(),
        0 <= closed < m.sessions().len(),
        0 <= kept < m.sessions().len(),
        closed != kept,
        0 <= call < m.scope_tree().len(),
        m.scope_tree().descends(call, m.sessions()[kept].scope as int),
        cancel_post(m.scope_tree(), after, m.sessions()[closed].scope as int),
    ensures
        after.is_cancelled_spec(call) == m.scope_tree().is_cancelled_spec(call),
{
    m.lemma_sessions_distinct(closed, kept);
    m.lemma_session_parent(kept);
    m.lemma_session_parent(closed);
    lemma_below_one_root_child(
        m.scope_tree(),
        call,
        m.sessions()[kept].scope as int,
        m.sessions()[closed].scope as int,
    );
    lemma_cancel_spares_others(m.scope_tree(), after, m.sessions()[closed].scope as int, call);
}

impl SessionManager {
    /// The sessions that are live, in the order they were opened.
    pub closed spec fn sessions(&self) -> Seq<Session> {
        self.live@
    }

    /// The tree of cancellation scopes.
    pub closed spec fn scope_tree(&self) -> ScopeTree {
        self.scopes
    }

    /// Whether every session identifier has been handed out.
    pub closed spec fn ids_used_up(&self) -> bool {
        self.next_id == u64::MAX
    }

    /// The scope of every live session lies strictly below the root.
    pub proof fn lemma_session_below_root(&self, s: Session)
        requires
            self.wf(),
            self.sessions().contains(s),
        ensures
            s.scope != ROOT_SCOPE,
            (s.scope as int) < self.scope_tree().len(),
            self.scope_tree().descends(s.scope as int, ROOT_SCOPE as int),
    {
        let k = choose|k: int| 0 <= k < self.live@.len() && self.live@[k] == s;
        assert(0 < self.live@[k].scope < self.scopes.len());
        assert(self.scopes.descends(ROOT_SCOPE as int, ROOT_SCOPE as int));
    }

    /// The scope of a live session is a child of the root.
    pub proof fn lemma_session_parent(&self, i: int)
        requires
            self.wf(),
            0 <= i < self.sessions().len(),
        ensures
            0 < self.sessions()[i].scope < self.scope_tree().len(),
            self.scope_tree().parent(self.sessions()[i].scope as int) == ROOT_SCOPE,
    {
        assert(0 < self.live@[i].scope < self.scopes.len());
    }

    /// Two live sessions never share an identifier or a scope.
    pub proof fn lemma_sessions_distinct(&self, i: int, j: int)
        requires
            self.wf(),
            0 <= i < self.sessions().len(),
            0 <= j < self.sessions().len(),
            i != j,
        ensures
            self.sessions()[i].id != self.sessions()[j].id,
            self.sessions()[i].scope != self.sessions()[j].scope,
    {
        if i < j {
            assert(self.live@[i].id != self.live@[j].id);
        } else {
            assert(self.live@[j].id != self.live@[i].id);
        }
    }

    pub closed spec fn wf(&self) -> bool {
        &&& self.scopes.wf()
        &&& forall|i: int|
            0 <= i < self.live@.len() ==> {
                &&& 0 < #[trigger] self.live@[i].scope < self.scopes.len()
                &&& self.scopes.parent(self.live@[i].scope as int) == ROOT_SCOPE
                &&& self.live@[i].id < self.next_id
            }
        &&& forall|i: int, j: int|
            0 <= i < j < self.live@.len() ==> #[trigger] self.live@[i].id != #[trigger] self.live@[j].id
                && self.live@[i].scope != self.live@[j].scope
    }

    /// No sessions, and a root scope that has not been cancelled.
    pub fn new() -> (r: SessionManager)
        ensures
            r.wf(),
            r.sessions().len() == 0,
            !r.ids_used_up(),
            r.scope_tree().len() == 1,
            !r.scope_tree().is_cancelled_spec(ROOT_SCOPE as int),
    {
        SessionManager { scopes: ScopeTree::new(), live: Vec::new(), next_id: 1 }
    }

    /// Opens a session with a fresh scope below the root. `None` once the
    /// identifiers or the scopes are used up.
    pub fn open_session(&mut self) -> (r: Option<Session>)
        requires
            old(self).wf(),
        ensures
            final(self).wf(),
            r is None <==> (old(self).ids_used_up() || old(self).scope_tree().len() == usize::MAX),
            match r {
                Some(s) => {
                    &&& !holds_id(old(self).sessions(), s.id)
                    &&& final(self).sessions() == old(self).sessions().push(s)
                    &&& s.scope == old(self).scope_tree().len()
                    &&& final(self).scope_tree().len() == old(self).scope_tree().len() + 1
                    &&& final(self).scope_tree().parent(s.scope as int) == ROOT_SCOPE
                    &&& final(self).scope_tree().is_cancelled_spec(s.scope as int)
                        == old(self).scope_tree().is_cancelled_spec(ROOT_SCOPE as int)
                },
                None => final(self).sessions() == old(self).sessions(),
            },
            forall|x: int|
                0 <= x < old(self).scope_tree().len() ==> final(self).scope_tree().is_cancelled_spec(x)
                    == old(self).scope_tree().is_cancelled_spec(x) && final(self).scope_tree().parent(x)
                    == old(self).scope_tree().parent(x),
    {
        proof {
            self.scopes.lemma_has_root();
        }
        if self.next_id == u64::MAX || self.scopes.count() == usize::MAX {
            return None;
        }
        let ghost before = self.live@;
        let ghost old_scopes = self.scopes;
        let scope = self.scopes.child(ROOT_SCOPE);
        let s = Session { id: self.next_id, scope };
        self.next_id = self.next_id + 1;
        self.live.push(s);
        proof {
            assert(self.live@ == before.push(s));
            assert forall|i: int| 0 <= i < before.len() implies #[trigger] before[i].id != s.id by {
                assert(0 < before[i].scope < old_scopes.len());
            }
            assert forall|i: int| 0 <= i < self.live@.len() implies {
                &&& 0 < #[trigger] self.live@[i].scope < self.scopes.len()
                &&& self.scopes.parent(self.live@[i].scope as int) == ROOT_SCOPE
                &&& self.live@[i].id < self.next_id
            } by {
                if i < before.len() {
                    assert(self.live@[i] == before[i]);
                    assert(0 < before[i].scope < old_scopes.len());
                }
            }
            assert forall|i: int, j: int|
                0 <= i < j < self.live@.len() implies #[trigger] self.live@[i].id != #[trigger] self.live@[j].id
                    && self.live@[i].scope != self.live@[j].scope by {
                if j == before.len() {
                    assert(before[i].id != s.id);
                } else {
                    assert(self.live@[i] == before[i] && self.live@[j] == before[j]);
                }
            }
        }
        Some(s)
    }

    /// The live session `id`, if any.
    pub fn get(&self, id: u64) -> (r: Option<Session>)
        requires
            self.wf(),
        ensures
            match r {
                Some(s) => s.id == id && self.sessions().contains(s),
                None => !holds_id(self.sessions(), id),
            },
    {
        let mut i: usize = 0;
        while i < self.live.len()
            invariant
                i <= self.live@.len(),
                forall|j: int| 0 <= j < i ==> self.live@[j].id != id,
            decreases self.live@.len() - i,
        {
            if self.live[i].id == id {
                return Some(self.live[i]);
            }
            i = i + 1;
        }
        None
    }

    /// Closes the session `id`: cancels its scope and everything below it, and
    /// drops it from the live set. Returns whether it was live.
    pub fn close_session(&mut self, id: u64) -> (r: bool)
        requires
            old(self).wf(),
        ensures
            final(self).wf(),
            r == holds_id(old(self).sessions(), id),
            !holds_id(final(self).sessions(), id),
            forall|s: Session| #[trigger]
                final(self).sessions().contains(s) <==> (old(self).sessions().contains(s) && s.id
                    != id),
            forall|i: int|
                0 <= i < old(self).sessions().len() && old(self).sessions()[i].id == id ==> cancel_post(
                    old(self).scope_tree(),
                    final(self).scope_tree(),
                    #[trigger] old(self).sessions()[i].scope as int,
                ),
            !r ==> final(self).scope_tree() == old(self).scope_tree(),
    {
        let mut i: usize = 0;
        while i < self.live.len() && self.live[i].id != id
            invariant
                i <= self.live@.len(),
                forall|j: int| 0 <= j < i ==> self.live@[j].id != id,
            decreases self.live@.len() - i,
        {
            i = i + 1;
        }
        if i == self.live.len() {
            return false;
        }
        let ghost before = self.live@;
        let s = self.live.remove(i);
        self.scopes.cancel(s.scope);
        proof {
            assert forall|x: Session| #[trigger]
                self.live@.contains(x) <==> (before.contains(x) && x.id != id) by {
                if before.contains(x) && x.id != id {
                    let k = choose|k: int| 0 <= k < before.len() && before[k] == x;
                    if k < i {
                        assert(self.live@[k] == x);
                    } else {
                        assert(k != i);
                        assert(self.live@[k - 1] == x);
                    }
                }
                if self.live@.contains(x) {
                    let k = choose|k: int| 0 <= k < self.live@.len() && self.live@[k] == x;
                    if k < i {
                        assert(before[k] == x);
                    } else {
                        assert(before[k + 1] == x);
                        assert(before[i as int].id != before[k + 1].id);
                    }
                }
            }
            if holds_id(self.live@, id) {
                let k = choose|k: int| 0 <= k < self.live@.len() && #[trigger] self.live@[k].id == id;
                assert(self.live@.contains(self.live@[k]));
            }
        }
        true
    }

    /// Opens a scope below the scope of session `id` for one suspending call.
    /// `None` where the session is not live or the scopes are used up.
    pub fn begin_call(&mut self, id: u64) -> (r: Option<usize>)
        requires
            old(self).wf(),
        ensures
            final(self).wf(),
            final(self).sessions() == old(self).sessions(),
            r is None <==> (!holds_id(old(self).sessions(), id) || old(self).scope_tree().len()
                == usize::MAX),
            match r {
                Some(c) => exists|i: int|
                    0 <= i < old(self).sessions().len() && old(self).sessions()[i].id == id && c
                        == old(self).scope_tree().len() && final(self).scope_tree().len() == c + 1
                        && final(self).scope_tree().parent(c as int) == old(self).sessions()[i].scope
                        && final(self).scope_tree().is_cancelled_spec(c as int)
                        == old(self).scope_tree().is_cancelled_spec(old(self).sessions()[i].scope as int),
                None => final(self).scope_tree() == old(self).scope_tree(),
            },
            forall|x: int|
                0 <= x < old(self).scope_tree().len() ==> final(self).scope_tree().is_cancelled_spec(x)
                    == old(self).scope_tree().is_cancelled_spec(x) && final(self).scope_tree().parent(x)
                    == old(self).scope_tree().parent(x),
    {
        match self.get(id) {
            None => None,
            Some(s) => {
                if self.scopes.count() == usize::MAX {
                    return None;
                }
                let ghost k = choose|k: int| 0 <= k < self.live@.len() && self.live@[k] == s;
                assert(0 < self.live@[k].scope < self.scopes.len());
                let c = self.scopes.child(s.scope);
                proof {
                    assert forall|i: int| 0 <= i < self.live@.len() implies {
                        &&& 0 < #[trigger] self.live@[i].scope < self.scopes.len()
                        &&& self.scopes.parent(self.live@[i].scope as int) == ROOT_SCOPE
                        &&& self.live@[i].id < self.next_id
                    } by {}
                }
                Some(c)
            },
        }
    }

    /// The number of scopes created so far.
    pub fn scope_count(&self) -> (r: usize)
        requires
            self.wf(),
        ensures
            r == self.scope_tree().len(),
    {
        self.scopes.count()
    }

    /// Whether `scope` has been cancelled.
    pub fn is_cancelled(&self, scope: usize) -> (r: bool)
        requires
            self.wf(),
            scope < self.scope_tree().len(),
        ensures
            r == self.scope_tree().is_cancelled_spec(scope as int),
    {
        self.scopes.is_cancelled(scope)
    }

    /// Ends a wait held under `scope` once its timer or its scope has fired:
    /// cancelled exactly when the scope is.
    pub fn settle_wait(&self, scope: usize, w: &PendingWait, now: i64) -> (r: Result<String, ToolError>)
        requires
            self.wf(),
            scope < self.scope_tree().len(),
            w.wf(),
            0 <= now <= MAX_TIMESTAMP,
        ensures
            text_result_view(r) == wait_outcome_spec(*w, event_of(self.scope_tree(), scope as int), now),
    {
        if self.scopes.is_cancelled(scope) {
            finish_wait(w, WaitEvent::Cancelled, now)
        } else {
            finish_wait(w, WaitEvent::Elapsed, now)
        }
    }

    /// Cancels the root scope, and with it every session and every call.
    pub fn shutdown(&mut self)
        requires
            old(self).wf(),
        ensures
            final(self).wf(),
            final(self).sessions() == old(self).sessions(),
            final(self).scope_tree().len() == old(self).scope_tree().len(),
            forall|x: int| 0 <= x < final(self).scope_tree().len() ==> #[trigger] final(self).scope_tree().is_cancelled_spec(x),
    {
        let ghost before = self.scopes;
        proof {
            self.scopes.lemma_has_root();
        }
        self.scopes.cancel(ROOT_SCOPE);
        proof {
            assert forall|x: int| 0 <= x < self.scopes.len() implies #[trigger] self.scopes.is_cancelled_spec(x) by {
                lemma_all_below_root(before, x);
                lemma_cancel_reaches_below(before, self.scopes, ROOT_SCOPE as int, x);
            }
        }
    }
}

} // verus!
