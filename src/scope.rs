//! A tree of cancellation scopes. Scope 0 is the root; every other scope has a
//! parent created before it. Cancelling a scope cancels it and everything below
//! it, and nothing else.
use vstd::prelude::*;

verus! {

/// The identifier of the root scope.
pub const ROOT_SCOPE: usize = 0;

pub struct ScopeTree {
    parents: Vec<usize>,
    cancelled: Vec<bool>,
}

impl ScopeTree {
    /// The number of scopes created so far.
    pub closed spec fn len(&self) -> nat {
        self.cancelled@.len()
    }

    /// The parent of scope `s`; the root is its own parent.
    pub closed spec fn parent(&self, s: int) -> int {
        self.parents@[s] as int
    }

    /// Whether scope `s` has been cancelled.
    pub closed spec fn is_cancelled_spec(&self, s: int) -> bool {
        self.cancelled@[s]
    }

    /// Scope `s` is `a` or lies below it.
    pub open spec fn descends(&self, s: int, a: int) -> bool
        decreases s,
    {
        if s == a {
            true
        } else if 0 < s < self.len() && 0 <= self.parent(s) < s {
            self.descends(self.parent(s), a)
        } else {
            false
        }
    }

    pub closed spec fn wf(&self) -> bool {
        &&& self.parents@.len() == self.cancelled@.len()
        &&& self.cancelled@.len() >= 1
        &&& self.parents@[0] == 0
        &&& forall|s: int| 0 < s < self.len() ==> #[trigger] self.parents@[s] < s
        &&& forall|s: int|
            0 < s < self.len() && #[trigger] self.cancelled@[self.parents@[s] as int]
                ==> self.cancelled@[s]
    }

    /// A well-formed tree holds at least the root.
    pub proof fn lemma_has_root(&self)
        requires
            self.wf(),
        ensures
            self.len() >= 1,
    {
    }

    /// A tree that holds the root alone, not cancelled.
    pub fn new() -> (r: ScopeTree)
        ensures
            r.wf(),
            r.len() == 1,
            !r.is_cancelled_spec(ROOT_SCOPE as int),
    {
        ScopeTree { parents: vec![ROOT_SCOPE], cancelled: vec![false] }
    }

    /// The number of scopes created so far.
    pub fn count(&self) -> (r: usize)
        requires
            self.wf(),
        ensures
            r == self.len(),
    {
        self.cancelled.len()
    }

    /// Whether scope `s` has been cancelled.
    pub fn is_cancelled(&self, s: usize) -> (r: bool)
        requires
            self.wf(),
            s < self.len(),
        ensures
            r == self.is_cancelled_spec(s as int),
    {
        self.cancelled[s]
    }

    /// Adds a scope below `p`. It starts cancelled exactly when `p` is.
    pub fn child(&mut self, p: usize) -> (r: usize)
        requires
            old(self).wf(),
            p < old(self).len(),
            old(self).len() < usize::MAX,
        ensures
            final(self).wf(),
            r == old(self).len(),
            final(self).len() == old(self).len() + 1,
            final(self).parent(r as int) == p,
            final(self).is_cancelled_spec(r as int) == old(self).is_cancelled_spec(p as int),
            forall|s: int|
                0 <= s < old(self).len() ==> final(self).is_cancelled_spec(s)
                    == old(self).is_cancelled_spec(s) && final(self).parent(s) == old(self).parent(s),
    {
        let r = self.cancelled.len();
        let c = self.cancelled[p];
        self.parents.push(p);
        self.cancelled.push(c);
        r
    }

    /// Cancels `a` and every scope below it. Cancelling twice changes nothing.
    pub fn cancel(&mut self, a: usize)
        requires
            old(self).wf(),
            a < old(self).len(),
        ensures
            final(self).wf(),
            cancel_post(*old(self), *final(self), a as int),
    {
        let ghost before = *self;
        proof {
            assert forall|s: int| 0 <= s < a implies !before.descends(s, a as int) by {
                lemma_descends_not_below(before, s, a as int);
            }
        }
        let n = self.cancelled.len();
        self.cancelled.set(a, true);
        let mut i: usize = a + 1;
        while i < n
            invariant
                before.wf(),
                a < i <= n,
                n == before.len(),
                self.parents == before.parents,
                self.cancelled@.len() == n,
                forall|s: int|
                    0 <= s < i ==> #[trigger] self.cancelled@[s] == (before.cancelled@[s]
                        || before.descends(s, a as int)),
                forall|s: int| i <= s < n ==> self.cancelled@[s] == before.cancelled@[s],
            decreases n - i,
        {
            let p = self.parents[i];
            proof {
                assert(before.parents@[i as int] < i);
                assert(before.descends(i as int, a as int) == before.descends(p as int, a as int));
                assert(before.cancelled@[before.parents@[i as int] as int] ==> before.cancelled@[i as int]);
            }
            let ghost prev = self.cancelled@;
            if self.cancelled[p] {
                self.cancelled.set(i, true);
            }
            assert forall|s: int| 0 <= s < i implies self.cancelled@[s] == prev[s] by {}
            i = i + 1;
        }
        proof {
            assert forall|s: int|
                0 < s < self.len() && #[trigger] self.cancelled@[self.parents@[s] as int]
                    implies self.cancelled@[s] by {
                let q = before.parents@[s] as int;
                assert(q < s);
                assert(before.cancelled@[q] ==> before.cancelled@[s]);
                if s != a {
                    assert(before.descends(s, a as int) == before.descends(q, a as int));
                }
            }
        }
    }
}

/// `after` is `before` with `a` and every scope below it cancelled.
pub open spec fn cancel_post(before: ScopeTree, after: ScopeTree, a: int) -> bool {
    &&& after.len() == before.len()
    &&& forall|s: int| 0 <= s < before.len() ==> after.parent(s) == before.parent(s)
    &&& forall|s: int|
        0 <= s < before.len() ==> #[trigger] after.is_cancelled_spec(s) == (before.is_cancelled_spec(s)
            || before.descends(s, a))
}

/// Every scope lies below the root.
pub proof fn lemma_all_below_root(t: ScopeTree, s: int)
    requires
        t.wf(),
        0 <= s < t.len(),
    ensures
        t.descends(s, ROOT_SCOPE as int),
    decreases s,
{
    if s > 0 {
        assert(t.parents@[s] < s);
        lemma_all_below_root(t, t.parent(s));
    }
}

/// Cancelling a scope reaches every scope below it.
pub proof fn lemma_cancel_reaches_below(before: ScopeTree, after: ScopeTree, a: int, s: int)
    requires
        before.wf(),
        0 <= s < before.len(),
        cancel_post(before, after, a),
        before.descends(s, a),
    ensures
        after.is_cancelled_spec(s),
{
}

/// Cancelling a scope leaves every scope that is not below it as it was: its
/// ancestors and siblings among them.
pub proof fn lemma_cancel_spares_others(before: ScopeTree, after: ScopeTree, a: int, s: int)
    requires
        before.wf(),
        0 <= s < before.len(),
        cancel_post(before, after, a),
        !before.descends(s, a),
    ensures
        after.is_cancelled_spec(s) == before.is_cancelled_spec(s),
{
}

/// A scope below one child of the root lies below no other child of the root.
pub proof fn lemma_below_one_root_child(t: ScopeTree, c: int, a: int, b: int)
    requires
        t.wf(),
        a != b,
        0 < a < t.len(),
        0 < b < t.len(),
        t.parent(a) == ROOT_SCOPE,
        t.parent(b) == ROOT_SCOPE,
        t.descends(c, a),
    ensures
        !t.descends(c, b),
    decreases c,
{
    assert(!t.descends(ROOT_SCOPE as int, a));
    assert(!t.descends(ROOT_SCOPE as int, b));
    if c != a && c != b {
        lemma_below_one_root_child(t, t.parent(c), a, b);
    }
}

/// Cancelling twice is cancelling once.
pub proof fn lemma_cancel_idempotent(t0: ScopeTree, t1: ScopeTree, t2: ScopeTree, a: int)
    requires
        t0.wf(),
        0 <= a < t0.len(),
        cancel_post(t0, t1, a),
        cancel_post(t1, t2, a),
    ensures
        forall|s: int| 0 <= s < t0.len() ==> t2.is_cancelled_spec(s) == t1.is_cancelled_spec(s),
{
    assert forall|s: int| 0 <= s < t0.len() implies t2.is_cancelled_spec(s) == t1.is_cancelled_spec(s) by {
        lemma_descends_same_parents(t0, t1, s, a);
    }
}

/// Whether a scope lies below another depends on the parents alone.
proof fn lemma_descends_same_parents(t0: ScopeTree, t1: ScopeTree, s: int, a: int)
    requires
        t1.len() == t0.len(),
        forall|x: int| 0 <= x < t0.len() ==> t1.parent(x) == t0.parent(x),
    ensures
        t1.descends(s, a) == t0.descends(s, a),
    decreases s,
{
    if s != a && 0 < s < t0.len() && 0 <= t0.parent(s) < s {
        lemma_descends_same_parents(t0, t1, t0.parent(s), a);
    }
}

/// A scope never lies below a scope created after it.
proof fn lemma_descends_not_below(t: ScopeTree, s: int, a: int)
    requires
        t.wf(),
        0 <= s < a,
    ensures
        !t.descends(s, a),
    decreases s,
{
    if 0 < s < t.len() {
        assert(t.parents@[s] < s);
        lemma_descends_not_below(t, t.parent(s), a);
    }
}

} // verus!
