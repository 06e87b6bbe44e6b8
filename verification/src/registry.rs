//! The registry itself: the table of tracked processes, keyed by identifier.
//!
//! The registry owns one handle per identifier and never looks inside it, so
//! the host decides what a handle is. Its value is the sequence of
//! `(identifier, handle)` pairs in the order in which they were registered;
//! no identifier occurs twice.

use vstd::prelude::*;

verus! {

/// The value of a registry: its entries in order of registration.
pub type Entries<H> = Seq<(Seq<char>, H)>;

/// The identifiers of the entries, in order.
pub open spec fn ids<H>(entries: Entries<H>) -> Seq<Seq<char>> {
    entries.map_values(|entry: (Seq<char>, H)| entry.0)
}

/// Whether some entry carries the identifier.
pub open spec fn is_tracked<H>(entries: Entries<H>, server_id: Seq<char>) -> bool {
    exists|i: int| 0 <= i < entries.len() && (#[trigger] entries[i]).0 == server_id
}

/// The place of the entry that carries the identifier, if there is one.
pub open spec fn position<H>(entries: Entries<H>, server_id: Seq<char>) -> int {
    choose|i: int| 0 <= i < entries.len() && (#[trigger] entries[i]).0 == server_id
}

/// No identifier occurs in two entries.
pub open spec fn distinct_ids<H>(entries: Entries<H>) -> bool {
    forall|i: int, j: int|
        0 <= i < j < entries.len() ==> (#[trigger] entries[i]).0 != (#[trigger] entries[j]).0
}

/// The entries without the one that carries the identifier.
pub open spec fn without<H>(entries: Entries<H>, server_id: Seq<char>) -> Entries<H> {
    if is_tracked(entries, server_id) {
        entries.remove(position(entries, server_id))
    } else {
        entries
    }
}

/// The views of a list of strings, in order.
pub open spec fn texts(strings: Seq<String>) -> Seq<Seq<char>> {
    strings.map_values(|s: String| s@)
}

/// One tracked process: its identifier and the handle that the host holds it by.
pub struct ProcessEntry<H> {
    pub server_id: String,
    pub handle: H,
}

impl<H> View for ProcessEntry<H> {
    type V = (Seq<char>, H);

    open spec fn view(&self) -> (Seq<char>, H) {
        (self.server_id@, self.handle)
    }
}

/// The values of a list of entries, in order.
pub open spec fn entry_views<H>(entries: Seq<ProcessEntry<H>>) -> Entries<H> {
    entries.map_values(|entry: ProcessEntry<H>| entry@)
}

/// The table of tracked processes.
pub struct McpServerState<H> {
    processes: Vec<ProcessEntry<H>>,
}

impl<H> View for McpServerState<H> {
    type V = Entries<H>;

    closed spec fn view(&self) -> Entries<H> {
        entry_views(self.processes@)
    }
}

impl<H> McpServerState<H> {
    /// At most one entry per identifier.
    #[verifier::type_invariant]
    spec fn unique_ids(&self) -> bool {
        distinct_ids(self@)
    }

    /// An empty registry.
    pub fn new() -> (state: Self)
        ensures
            state@ == Seq::<(Seq<char>, H)>::empty(),
    {
        let state = McpServerState { processes: Vec::new() };
        assert(state@ =~= Seq::<(Seq<char>, H)>::empty());
        state
    }

    /// The number of tracked processes.
    pub fn len(&self) -> (count: usize)
        ensures
            count == self@.len(),
    {
        self.processes.len()
    }

    /// Whether nothing is tracked.
    pub fn is_empty(&self) -> (empty: bool)
        ensures
            empty == (self@.len() == 0),
    {
        self.processes.len() == 0
    }

    /// The place of the entry with this identifier.
    fn find(&self, server_id: &str) -> (found: Option<usize>)
        ensures
            match found {
                Some(index) => index < self@.len() && self@[index as int].0 == server_id@
                    && index == position(self@, server_id@),
                None => !is_tracked(self@, server_id@),
            },
    {
        proof {
            use_type_invariant(self);
        }
        let wanted = String::from_str(server_id);
        let mut i: usize = 0;
        while i < self.processes.len()
            invariant
                i <= self.processes.len(),
                wanted@ == server_id@,
                self@.len() == self.processes.len(),
                distinct_ids(self@),
                forall|j: int| 0 <= j < i ==> (#[trigger] self@[j]).0 != server_id@,
            decreases self.processes.len() - i,
        {
            if self.processes[i].server_id == wanted {
                assert(self@[i as int].0 == server_id@);
                assert(is_tracked(self@, server_id@));
                return Some(i);
            }
            i = i + 1;
        }
        None
    }

    /// Whether a process is tracked under the identifier.
    pub fn is_running(&self, server_id: &str) -> (running: bool)
        ensures
            running == is_tracked(self@, server_id@),
    {
        self.find(server_id).is_some()
    }

    /// The handle tracked under the identifier.
    pub fn handle(&self, server_id: &str) -> (handle: Option<&H>)
        ensures
            match handle {
                Some(h) => is_tracked(self@, server_id@) && *h == self@[position(
                    self@,
                    server_id@,
                )].1,
                None => !is_tracked(self@, server_id@),
            },
    {
        match self.find(server_id) {
            Some(index) => Some(&self.processes[index].handle),
            None => None,
        }
    }

    /// The identifiers of all tracked processes, in order of registration.
    pub fn list(&self) -> (server_ids: Vec<String>)
        ensures
            texts(server_ids@) == ids(self@),
            distinct_ids(self@),
    {
        proof {
            use_type_invariant(self);
        }
        let mut server_ids: Vec<String> = Vec::new();
        let mut i: usize = 0;
        while i < self.processes.len()
            invariant
                i <= self.processes.len(),
                self@.len() == self.processes.len(),
                texts(server_ids@) == ids(self@).take(i as int),
            decreases self.processes.len() - i,
        {
            let ghost listed = texts(server_ids@);
            let server_id = self.processes[i].server_id.clone();
            assert(server_id@ == self@[i as int].0);
            server_ids.push(server_id);
            assert(texts(server_ids@) =~= listed.push(server_id@));
            assert(texts(server_ids@) =~= ids(self@).take(i + 1));
            i = i + 1;
        }
        assert(ids(self@).take(self@.len() as int) =~= ids(self@));
        server_ids
    }

    /// Tracks `handle` under `server_id` unless the identifier is taken.
    ///
    /// An identifier is never overwritten: when it is tracked already the
    /// registry stays as it is and the handle comes back to the caller.
    pub fn register(&mut self, server_id: String, handle: H) -> (rejected: Option<H>)
        ensures
            is_tracked(old(self)@, server_id@) ==> final(self)@ == old(self)@ && rejected == Some(
                handle,
            ),
            !is_tracked(old(self)@, server_id@) ==> final(self)@ == old(self)@.push(
                (server_id@, handle),
            ) && rejected is None,
    {
        proof {
            use_type_invariant(&*self);
        }
        match self.find(&server_id) {
            Some(_) => Some(handle),
            None => {
                let ghost before = self@;
                let mut entries = self.drain();
                entries.push(ProcessEntry { server_id, handle });
                assert(entry_views(entries@) =~= before.push((server_id@, handle)));
                self.processes = entries;
                None
            },
        }
    }

    /// Stops tracking `server_id` and hands out its handle.
    pub fn take(&mut self, server_id: &str) -> (handle: Option<H>)
        ensures
            final(self)@ == without(old(self)@, server_id@),
            !is_tracked(final(self)@, server_id@),
            match handle {
                Some(h) => is_tracked(old(self)@, server_id@) && h == old(self)@[position(
                    old(self)@,
                    server_id@,
                )].1,
                None => !is_tracked(old(self)@, server_id@),
            },
    {
        proof {
            use_type_invariant(&*self);
        }
        match self.find(server_id) {
            Some(index) => {
                let ghost before = self@;
                let mut entries = self.drain();
                let entry = entries.remove(index);
                assert(entry_views(entries@) =~= before.remove(index as int));
                self.processes = entries;
                Some(entry.handle)
            },
            None => None,
        }
    }

    /// Empties the registry and hands out every entry, in order.
    pub fn drain(&mut self) -> (entries: Vec<ProcessEntry<H>>)
        ensures
            entry_views(entries@) == old(self)@,
            final(self)@.len() == 0,
    {
        let mut entries: Vec<ProcessEntry<H>> = Vec::new();
        core::mem::swap(&mut self.processes, &mut entries);
        entries
    }
}

} // verus!
