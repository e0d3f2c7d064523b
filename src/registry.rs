use vstd::prelude::*;
use crate::models::ConnectionConfig;

verus! {

/// True when some configuration in `s` carries the id `id`.
pub open spec fn has_id(s: Seq<ConnectionConfig>, id: Seq<char>) -> bool {
    exists|i: int| 0 <= i < s.len() && (#[trigger] s[i]).id@ == id
}

/// No two configurations in `s` share an id.
pub open spec fn ids_unique(s: Seq<ConnectionConfig>) -> bool {
    forall|i: int, j: int|
        0 <= i < s.len() && 0 <= j < s.len() && (#[trigger] s[i]).id@ == (#[trigger] s[j]).id@
            ==> i == j
}

/// The position of the configuration with id `id` (meaningful when `has_id`).
pub open spec fn position_of(s: Seq<ConnectionConfig>, id: Seq<char>) -> int {
    choose|i: int| 0 <= i < s.len() && (#[trigger] s[i]).id@ == id
}

/// `s` with the configuration `c` stored: it replaces the entry of the same id
/// in place, or is appended when the id is new.
pub open spec fn upsert(s: Seq<ConnectionConfig>, c: ConnectionConfig) -> Seq<ConnectionConfig> {
    if has_id(s, c.id@) {
        s.update(position_of(s, c.id@), c)
    } else {
        s.push(c)
    }
}

/// `s` without the configuration of id `id`.
pub open spec fn remove_id(s: Seq<ConnectionConfig>, id: Seq<char>) -> Seq<ConnectionConfig> {
    if has_id(s, id) {
        s.remove(position_of(s, id))
    } else {
        s
    }
}

/// Removing an id from a list with unique ids keeps the ids unique and leaves
/// no configuration with that id.
pub proof fn lemma_remove_id(s: Seq<ConnectionConfig>, id: Seq<char>)
    requires
        ids_unique(s),
    ensures
        ids_unique(remove_id(s, id)),
        !has_id(remove_id(s, id), id),
{
    if has_id(s, id) {
        let p = position_of(s, id);
        let t = remove_id(s, id);
        assert forall|a: int, b: int|
            0 <= a < t.len() && 0 <= b < t.len() && (#[trigger] t[a]).id@ == (#[trigger] t[b]).id@
                implies a == b by {
            let a2 = if a < p { a } else { a + 1 };
            let b2 = if b < p { b } else { b + 1 };
            assert(t[a] == s[a2]);
            assert(t[b] == s[b2]);
        }
        assert forall|k: int| 0 <= k < t.len() implies (#[trigger] t[k]).id@ != id by {
            let k2 = if k < p { k } else { k + 1 };
            assert(t[k] == s[k2]);
            assert(s[p].id@ == id);
        }
    }
}

/// The ordered list of stored connection configurations.
pub struct ConnectionRegistry {
    connections: Vec<ConnectionConfig>,
}

impl View for ConnectionRegistry {
    type V = Seq<ConnectionConfig>;

    closed spec fn view(&self) -> Seq<ConnectionConfig> {
        self.connections@
    }
}

impl ConnectionRegistry {
    /// Ids are unique across the registry.
    pub open spec fn wf(&self) -> bool {
        ids_unique(self@)
    }

    pub fn new() -> (r: ConnectionRegistry)
        ensures
            r.wf(),
            r@ == Seq::<ConnectionConfig>::empty(),
    {
        ConnectionRegistry { connections: Vec::new() }
    }

    /// Index of the configuration with id `id`, if any.
    fn index_of(&self, id: &String) -> (r: Option<usize>)
        requires
            self.wf(),
        ensures
            r is None <==> !has_id(self@, id@),
            r matches Some(i) ==> i < self@.len() && self@[i as int].id@ == id@
                && i == position_of(self@, id@),
    {
        let mut i: usize = 0;
        while i < self.connections.len()
            invariant
                self.wf(),
                i <= self.connections@.len(),
                forall|k: int| 0 <= k < i ==> (#[trigger] self.connections@[k]).id@ != id@,
            decreases self.connections@.len() - i,
        {
            let same = self.connections[i].id.eq(id);
            if same {
                proof {
                    assert(self@[i as int].id@ == id@);
                    assert(has_id(self@, id@));
                    let p = position_of(self@, id@);
                    assert(self@[p].id@ == self@[i as int].id@);
                }
                return Some(i);
            }
            i = i + 1;
        }
        None
    }

    /// A copy of every stored configuration, in insertion order.
    pub fn list(&self) -> (r: Vec<ConnectionConfig>)
        ensures
            r@ == self@,
    {
        let mut out: Vec<ConnectionConfig> = Vec::new();
        let mut i: usize = 0;
        while i < self.connections.len()
            invariant
                i <= self.connections@.len(),
                out@ == self.connections@.subrange(0, i as int),
            decreases self.connections@.len() - i,
        {
            out.push(self.connections[i].snapshot());
            i = i + 1;
            proof {
                assert(out@ =~= self.connections@.subrange(0, i as int));
            }
        }
        proof {
            assert(out@ =~= self.connections@);
        }
        out
    }

    /// The configuration stored under `id`, if any.
    pub fn find(&self, id: &String) -> (r: Option<ConnectionConfig>)
        requires
            self.wf(),
        ensures
            r is None <==> !has_id(self@, id@),
            r matches Some(c) ==> c == self@[position_of(self@, id@)] && c.id@ == id@,
    {
        match self.index_of(id) {
            Some(i) => Some(self.connections[i].snapshot()),
            None => None,
        }
    }

    /// Stores `config`: it replaces the entry with the same id in place, or is
    /// appended after all others when its id is new.
    pub fn store(&mut self, config: ConnectionConfig)
        requires
            old(self).wf(),
        ensures
            final(self).wf(),
            final(self)@ == upsert(old(self)@, config),
    {
        match self.index_of(&config.id) {
            Some(i) => {
                self.connections.set(i, config);
            },
            None => {
                self.connections.push(config);
            },
        }
    }

    /// Removes the configuration with id `id`; nothing changes when there is none.
    pub fn remove(&mut self, id: &String)
        requires
            old(self).wf(),
        ensures
            final(self).wf(),
            final(self)@ == remove_id(old(self)@, id@),
            !has_id(final(self)@, id@),
    {
        match self.index_of(id) {
            Some(i) => {
                proof {
                    lemma_remove_id(self@, id@);
                }
                self.connections.remove(i);
            },
            None => {},
        }
    }
}

} // verus!
