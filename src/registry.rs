use vstd::prelude::*;

use crate::address::SocketAddress;

verus! {

/// What a session relays, and through which agent.
#[derive(Clone, Copy, Debug, PartialEq, Eq, Structural)]
pub enum SessionKind {
    /// The agent listens on `to`; each connection it accepts is relayed to
    /// the local `from`.
    Forward { from: SocketAddress, to: SocketAddress, agent: SocketAddress },
    /// A local SOCKS5 listener on `listen` whose clients go out through the agent.
    Socks5 { listen: SocketAddress, agent: SocketAddress },
}

/// A live session: its id, its kind, and the handle that cancels it.
pub struct Entry<H> {
    pub id: u64,
    pub kind: SessionKind,
    pub cancel: H,
}

/// What the operator sees of a session.
#[derive(Clone, Copy, Debug, PartialEq, Eq, Structural)]
pub struct SessionSummary {
    pub id: u64,
    pub kind: SessionKind,
}

/// The ids of `s` are pairwise distinct.
pub open spec fn ids_distinct<H>(s: Seq<Entry<H>>) -> bool {
    forall|i: int, j: int| 0 <= i < s.len() && 0 <= j < s.len() && i != j ==> s[i].id != s[j].id
}

/// Some entry of `s` has id `id`.
pub open spec fn holds_id<H>(s: Seq<Entry<H>>, id: u64) -> bool {
    exists|i: int| 0 <= i < s.len() && s[i].id == id
}

/// `s` without the entry whose id is `id`, if there is one.
pub open spec fn without<H>(s: Seq<Entry<H>>, id: u64) -> Seq<Entry<H>> {
    if holds_id(s, id) {
        s.remove(choose|i: int| 0 <= i < s.len() && s[i].id == id)
    } else {
        s
    }
}

pub open spec fn summary_of<H>(e: Entry<H>) -> SessionSummary {
    SessionSummary { id: e.id, kind: e.kind }
}

/// What the operator sees of the sessions `s`, in the same order.
pub open spec fn summaries<H>(s: Seq<Entry<H>>) -> Seq<SessionSummary> {
    s.map_values(|e: Entry<H>| summary_of(e))
}

/// The table of live sessions. Each insertion takes a fresh id, larger than
/// every id handed out before, so an id is never reused.
pub struct SessionRegistry<H> {
    entries: Vec<Entry<H>>,
    next_id: u64,
}

impl<H> SessionRegistry<H> {
    /// The live sessions, in the order they were inserted.
    pub closed spec fn sessions(&self) -> Seq<Entry<H>> {
        self.entries@
    }

    /// The id the next insertion takes.
    pub closed spec fn next_id(&self) -> u64 {
        self.next_id
    }

    pub closed spec fn wf(&self) -> bool {
        &&& ids_distinct(self.entries@)
        &&& forall|i: int| 0 <= i < self.entries@.len() ==> self.entries@[i].id < self.next_id
    }

    pub fn new() -> (r: SessionRegistry<H>)
        ensures
            r.wf(),
            r.sessions() == Seq::<Entry<H>>::empty(),
            r.next_id() == 0,
    {
        SessionRegistry { entries: Vec::new(), next_id: 0 }
    }

    /// Stores a session under a fresh id and returns the id; `None` once
    /// every id has been handed out.
    pub fn insert(&mut self, kind: SessionKind, cancel: H) -> (r: Option<u64>)
        requires
            old(self).wf(),
        ensures
            final(self).wf(),
            old(self).next_id() == u64::MAX ==> {
                &&& r is None
                &&& final(self).sessions() == old(self).sessions()
                &&& final(self).next_id() == old(self).next_id()
            },
            old(self).next_id() < u64::MAX ==> {
                &&& r == Some(old(self).next_id())
                &&& !holds_id(old(self).sessions(), old(self).next_id())
                &&& final(self).sessions() == old(self).sessions().push(
                    Entry { id: old(self).next_id(), kind, cancel },
                )
                &&& final(self).next_id() == old(self).next_id() + 1
            },
    {
        if self.next_id == u64::MAX {
            return None;
        }
        let id = self.next_id;
        self.entries.push(Entry { id, kind, cancel });
        self.next_id = id + 1;
        assert(!holds_id(old(self).entries@, id));
        Some(id)
    }

    /// Removes the session `id` and hands back its cancel handle; does
    /// nothing, and returns `None`, when no live session has that id.
    pub fn remove(&mut self, id: u64) -> (r: Option<H>)
        requires
            old(self).wf(),
        ensures
            final(self).wf(),
            final(self).next_id() == old(self).next_id(),
            final(self).sessions() == without(old(self).sessions(), id),
            !holds_id(final(self).sessions(), id),
            forall|i: int|
                0 <= i < old(self).sessions().len() && old(self).sessions()[i].id == id ==> r
                    == Some(old(self).sessions()[i].cancel),
            !holds_id(old(self).sessions(), id) ==> {
                &&& r is None
                &&& final(self).sessions() == old(self).sessions()
            },
    {
        let mut i: usize = 0;
        while i < self.entries.len()
            invariant
                self.wf(),
                self.entries@ == old(self).entries@,
                self.next_id == old(self).next_id,
                i <= self.entries@.len(),
                forall|j: int| 0 <= j < i ==> self.entries@[j].id != id,
            decreases self.entries@.len() - i,
        {
            if self.entries[i].id == id {
                let ghost s = self.entries@;
                proof {
                    let k = choose|k: int| 0 <= k < s.len() && s[k].id == id;
                    assert(k == i as int);
                }
                let e = self.entries.remove(i);
                proof {
                    assert forall|a: int, b: int|
                        0 <= a < self.entries@.len() && 0 <= b < self.entries@.len() && a
                            != b implies self.entries@[a].id != self.entries@[b].id by {
                        let a2 = if a < i { a } else { a + 1 };
                        let b2 = if b < i { b } else { b + 1 };
                        assert(self.entries@[a] == s[a2]);
                        assert(self.entries@[b] == s[b2]);
                    }
                    assert forall|a: int| 0 <= a < self.entries@.len() implies self.entries@[a].id
                        != id by {
                        let a2 = if a < i { a } else { a + 1 };
                        assert(self.entries@[a] == s[a2]);
                    }
                    assert forall|a: int| 0 <= a < self.entries@.len() implies self.entries@[a].id
                        < self.next_id by {
                        let a2 = if a < i { a } else { a + 1 };
                        assert(self.entries@[a] == s[a2]);
                    }
                }
                return Some(e.cancel);
            }
            i = i + 1;
        }
        None
    }

    /// A copy of what the operator sees of every live session.
    pub fn list(&self) -> (r: Vec<SessionSummary>)
        requires
            self.wf(),
        ensures
            r@ == summaries(self.sessions()),
    {
        let mut r: Vec<SessionSummary> = Vec::new();
        let mut i: usize = 0;
        while i < self.entries.len()
            invariant
                i <= self.entries@.len(),
                r@ == self.entries@.subrange(0, i as int).map_values(|e: Entry<H>| summary_of(e)),
            decreases self.entries@.len() - i,
        {
            r.push(SessionSummary { id: self.entries[i].id, kind: self.entries[i].kind });
            i = i + 1;
            assert(r@ =~= self.entries@.subrange(0, i as int).map_values(
                |e: Entry<H>| summary_of(e),
            ));
        }
        assert(self.entries@.subrange(0, i as int) =~= self.entries@);
        r
    }

    /// The number of live sessions.
    pub fn len(&self) -> (r: usize)
        ensures
            r == self.sessions().len(),
    {
        self.entries.len()
    }

    /// Whether a live session has id `id`.
    pub fn contains(&self, id: u64) -> (r: bool)
        ensures
            r == holds_id(self.sessions(), id),
    {
        let mut i: usize = 0;
        while i < self.entries.len()
            invariant
                i <= self.entries@.len(),
                forall|j: int| 0 <= j < i ==> self.entries@[j].id != id,
            decreases self.entries@.len() - i,
        {
            if self.entries[i].id == id {
                return true;
            }
            i = i + 1;
        }
        false
    }
}

/// Whatever inserts and removals a registry has gone through, the ids of
/// its live sessions are pairwise distinct, and each is below the id that
/// the next insertion takes, so no live id is ever handed out again.
pub proof fn lemma_live_ids_distinct<H>(r: &SessionRegistry<H>)
    requires
        r.wf(),
    ensures
        ids_distinct(r.sessions()),
        forall|i: int| 0 <= i < r.sessions().len() ==> r.sessions()[i].id < r.next_id(),
{
}

/// Once a session's id has left the registry, no summary that `list`
/// gives carries it.
pub proof fn lemma_absent_from_list<H>(s: Seq<Entry<H>>, id: u64)
    requires
        !holds_id(s, id),
    ensures
        forall|i: int| 0 <= i < s.len() ==> #[trigger] summaries(s)[i].id != id,
{
    assert forall|i: int| 0 <= i < s.len() implies #[trigger] summaries(s)[i].id != id by {
        assert(s[i].id != id);
    }
}

/// Closing a session twice is the same as closing it once: the second
/// close finds no session with that id and changes nothing.
pub proof fn lemma_close_idempotent<H>(s: Seq<Entry<H>>, id: u64)
    requires
        ids_distinct(s),
    ensures
        !holds_id(without(s, id), id),
        without(without(s, id), id) == without(s, id),
{
    if holds_id(s, id) {
        let k = choose|i: int| 0 <= i < s.len() && s[i].id == id;
        let t = s.remove(k);
        assert forall|a: int| 0 <= a < t.len() implies t[a].id != id by {
            let a2 = if a < k { a } else { a + 1 };
            assert(t[a] == s[a2]);
        }
    }
}

} // verus!
