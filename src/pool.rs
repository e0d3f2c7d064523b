use vstd::prelude::*;

verus! {

/// One pooled session, keyed by the connection id it was opened for.
pub struct PoolEntry<S> {
    pub id: String,
    pub session: S,
}

/// True when `s` holds a session for `id`.
pub open spec fn holds<S>(s: Seq<PoolEntry<S>>, id: Seq<char>) -> bool {
    exists|i: int| 0 <= i < s.len() && (#[trigger] s[i]).id@ == id
}

/// No connection id has more than one session in `s`.
pub open spec fn one_session_per_id<S>(s: Seq<PoolEntry<S>>) -> bool {
    forall|i: int, j: int|
        0 <= i < s.len() && 0 <= j < s.len() && (#[trigger] s[i]).id@ == (#[trigger] s[j]).id@
            ==> i == j
}

/// The position of the session for `id` (meaningful when `holds`).
pub open spec fn slot_of<S>(s: Seq<PoolEntry<S>>, id: Seq<char>) -> int {
    choose|i: int| 0 <= i < s.len() && (#[trigger] s[i]).id@ == id
}

/// The session held for `id` (meaningful when `holds`).
pub open spec fn session_of<S>(s: Seq<PoolEntry<S>>, id: Seq<char>) -> S {
    s[slot_of(s, id)].session
}

/// `s` without any session for `id`.
pub open spec fn drop_session<S>(s: Seq<PoolEntry<S>>, id: Seq<char>) -> Seq<PoolEntry<S>> {
    if holds(s, id) {
        s.remove(slot_of(s, id))
    } else {
        s
    }
}

/// `s` with `e` as the session for its id, replacing any earlier one.
pub open spec fn put_session<S>(s: Seq<PoolEntry<S>>, e: PoolEntry<S>) -> Seq<PoolEntry<S>> {
    if holds(s, e.id@) {
        s.update(slot_of(s, e.id@), e)
    } else {
        s.push(e)
    }
}

/// What a request for a session does once the liveness probe has answered.
pub enum SessionPlan {
    /// The pooled session answered: hand it out unchanged.
    Reuse,
    /// There was no session, or it is dead and has been dropped: open a new one.
    Establish,
}

/// The plan for `id`, given whether the probe of a pooled session succeeded.
pub open spec fn plan_for<S>(s: Seq<PoolEntry<S>>, id: Seq<char>, alive: bool) -> SessionPlan {
    if holds(s, id) && alive {
        SessionPlan::Reuse
    } else {
        SessionPlan::Establish
    }
}

/// Dropping the session of an id keeps one session per id and leaves none for that id.
pub proof fn lemma_drop_session<S>(s: Seq<PoolEntry<S>>, id: Seq<char>)
    requires
        one_session_per_id(s),
    ensures
        one_session_per_id(drop_session(s, id)),
        !holds(drop_session(s, id), id),
{
    if holds(s, id) {
        let p = slot_of(s, id);
        let t = drop_session(s, id);
        assert forall|a: int, b: int|
            0 <= a < t.len() && 0 <= b < t.len() && (#[trigger] t[a]).id@ == (#[trigger] t[b]).id@
                implies a == b by {
            let a2 = if a < p { a } else { a + 1 };
            let b2 = if b < p { b } else { b + 1 };
            assert(t[a] == s[a2]);
            assert(t[b] == s[b2]);
        }
        assert forall|k: int| 0 <= k < t.len() implies (#[trigger] t[k]).id@ != id by {
            let k2 = if k < p { k } else { k + 1 };
            assert(t[k] == s[k2]);
            assert(s[p].id@ == id);
        }
    }
}

/// The pool never holds two sessions for one connection id: in a pool that
/// any sequence of its operations produced, two entries for the same id are
/// one entry, and replacing a session (drop, then install) leaves exactly one,
/// the new one.
pub proof fn lemma_single_session_per_id<S>(pool: PoolManager<S>, id: String, session: S)
    requires
        pool.wf(),
    ensures
        forall|i: int, j: int|
            0 <= i < pool@.len() && 0 <= j < pool@.len() && (#[trigger] pool@[i]).id@ == id@
                && (#[trigger] pool@[j]).id@ == id@ ==> i == j,
        one_session_per_id(put_session(drop_session(pool@, id@), PoolEntry { id: id, session: session })),
        session_of(put_session(drop_session(pool@, id@), PoolEntry { id: id, session: session }), id@)
            == session,
{
    lemma_drop_session(pool@, id@);
    lemma_put_session(drop_session(pool@, id@), PoolEntry { id: id, session: session });
}

/// Installing a session keeps one session per id, and the installed session is
/// the one held for its id.
pub proof fn lemma_put_session<S>(s: Seq<PoolEntry<S>>, e: PoolEntry<S>)
    requires
        one_session_per_id(s),
    ensures
        one_session_per_id(put_session(s, e)),
        holds(put_session(s, e), e.id@),
        session_of(put_session(s, e), e.id@) == e.session,
{
    let t = put_session(s, e);
    if holds(s, e.id@) {
        let p = slot_of(s, e.id@);
        assert(t[p] == e);
        assert forall|a: int, b: int|
            0 <= a < t.len() && 0 <= b < t.len() && (#[trigger] t[a]).id@ == (#[trigger] t[b]).id@
                implies a == b by {
            if a != p {
                assert(t[a] == s[a]);
            }
            if b != p {
                assert(t[b] == s[b]);
            }
        }
    } else {
        let p = s.len() as int;
        assert(t[p] == e);
        assert forall|a: int, b: int|
            0 <= a < t.len() && 0 <= b < t.len() && (#[trigger] t[a]).id@ == (#[trigger] t[b]).id@
                implies a == b by {
            if a != p {
                assert(t[a] == s[a]);
            }
            if b != p {
                assert(t[b] == s[b]);
            }
        }
    }
    assert(holds(t, e.id@));
    let q = slot_of(t, e.id@);
    let p2 = if holds(s, e.id@) { slot_of(s, e.id@) } else { s.len() as int };
    assert(t[p2] == e);
    assert(t[q].id@ == t[p2].id@);
}

/// Two requests for one connection id in a row, the pool held exclusively by
/// each: the first finds no live session, establishes one and installs it; the
/// second, whose probe of that session succeeds, reuses it. So only one session
/// is established, and both callers get the same one.
pub proof fn lemma_second_request_reuses<S>(pool: PoolManager<S>, id: String, session: S, first_alive: bool)
    requires
        pool.wf(),
        plan_for(pool@, id@, first_alive) is Establish,
    ensures
        plan_for(put_session(drop_session(pool@, id@), PoolEntry { id: id, session: session }), id@, true)
            is Reuse,
        session_of(put_session(drop_session(pool@, id@), PoolEntry { id: id, session: session }), id@)
            == session,
{
    lemma_drop_session(pool@, id@);
    lemma_put_session(drop_session(pool@, id@), PoolEntry { id: id, session: session });
}

/// The live sessions, at most one per connection id. Sessions are checked
/// lazily: a caller probes the pooled session before reuse and reports the
/// answer through `settle_probe`; a dead one is dropped and replaced through
/// `install`. Callers hold the pool exclusively across probe and replacement.
pub struct PoolManager<S> {
    entries: Vec<PoolEntry<S>>,
}

impl<S> View for PoolManager<S> {
    type V = Seq<PoolEntry<S>>;

    closed spec fn view(&self) -> Seq<PoolEntry<S>> {
        self.entries@
    }
}

impl<S> PoolManager<S> {
    pub open spec fn wf(&self) -> bool {
        one_session_per_id(self@)
    }

    pub fn new() -> (r: PoolManager<S>)
        ensures
            r.wf(),
            r@ == Seq::<PoolEntry<S>>::empty(),
    {
        PoolManager { entries: Vec::new() }
    }

    fn slot(&self, id: &String) -> (r: Option<usize>)
        requires
            self.wf(),
        ensures
            r is None <==> !holds(self@, id@),
            r matches Some(i) ==> i < self@.len() && self@[i as int].id@ == id@
                && i == slot_of(self@, id@),
    {
        let mut i: usize = 0;
        while i < self.entries.len()
            invariant
                self.wf(),
                i <= self.entries@.len(),
                forall|k: int| 0 <= k < i ==> (#[trigger] self.entries@[k]).id@ != id@,
            decreases self.entries@.len() - i,
        {
            if self.entries[i].id.eq(id) {
                proof {
                    assert(self@[i as int].id@ == id@);
                    assert(holds(self@, id@));
                    let p = slot_of(self@, id@);
                    assert(self@[p].id@ == self@[i as int].id@);
                }
                return Some(i);
            }
            i = i + 1;
        }
        None
    }

    /// The pooled session for `id`, if there is one.
    pub fn session(&self, id: &String) -> (r: Option<&S>)
        requires
            self.wf(),
        ensures
            r is None <==> !holds(self@, id@),
            r matches Some(s) ==> *s == session_of(self@, id@),
    {
        match self.slot(id) {
            Some(i) => Some(&self.entries[i].session),
            None => None,
        }
    }

    /// Records the answer of the liveness probe for `id` (`alive` is ignored
    /// when no session is pooled). A live session stays and is reused; a dead
    /// one is dropped, and the caller then opens and installs a new one.
    pub fn settle_probe(&mut self, id: &String, alive: bool) -> (r: SessionPlan)
        requires
            old(self).wf(),
        ensures
            final(self).wf(),
            r == plan_for(old(self)@, id@, alive),
            r is Reuse ==> final(self)@ == old(self)@,
            r is Establish ==> final(self)@ == drop_session(old(self)@, id@),
    {
        if alive && self.slot(id).is_some() {
            SessionPlan::Reuse
        } else {
            self.remove_connection(id);
            SessionPlan::Establish
        }
    }

    /// Pools `session` as the one session for `id`, replacing any earlier one.
    pub fn install(&mut self, id: String, session: S)
        requires
            old(self).wf(),
        ensures
            final(self).wf(),
            final(self)@ == put_session(old(self)@, PoolEntry { id: id, session: session }),
    {
        match self.slot(&id) {
            Some(i) => {
                self.entries.set(i, PoolEntry { id, session });
            },
            None => {
                self.entries.push(PoolEntry { id, session });
            },
        }
    }

    /// Drops the session for `id`, if any. Never fails; a second call changes nothing.
    pub fn remove_connection(&mut self, id: &String)
        requires
            old(self).wf(),
        ensures
            final(self).wf(),
            final(self)@ == drop_session(old(self)@, id@),
            !holds(final(self)@, id@),
    {
        match self.slot(id) {
            Some(i) => {
                proof {
                    lemma_drop_session(self@, id@);
                }
                self.entries.remove(i);
            },
            None => {},
        }
    }
}

impl<S> Default for PoolManager<S> {
    fn default() -> (r: PoolManager<S>)
        ensures
            r.wf(),
            r@ == Seq::<PoolEntry<S>>::empty(),
    {
        PoolManager::new()
    }
}

} // verus!
