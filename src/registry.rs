use vstd::prelude::*;

verus! {

/// One persisted membership: the connection `connection_id` belongs to `channel`.
pub struct ConnectionRecord {
    pub channel: String,
    pub connection_id: String,
}

/// A membership as a pair of (channel, connection id).
pub type Pair = (Seq<char>, Seq<char>);

impl ConnectionRecord {
    pub open spec fn key(&self) -> Pair {
        (self.channel@, self.connection_id@)
    }

    pub fn new(channel: &String, connection_id: &String) -> (r: ConnectionRecord)
        ensures
            r.key() == (channel@, connection_id@),
    {
        ConnectionRecord { channel: channel.clone(), connection_id: connection_id.clone() }
    }
}

/// Identifiers registered under `channel` in the set of memberships `s`.
pub open spec fn members_of(s: Set<Pair>, channel: Seq<char>) -> Set<Seq<char>> {
    Set::new(|id: Seq<char>| s.contains((channel, id)))
}

/// The identifiers held by a vector of strings.
pub open spec fn ids_of(v: Seq<String>) -> Set<Seq<char>> {
    Set::new(|id: Seq<char>| exists|j: int| 0 <= j < v.len() && v[j]@ == id)
}

/// No identifier occurs twice.
pub open spec fn distinct_ids(v: Seq<String>) -> bool {
    forall|a: int, b: int| 0 <= a < b < v.len() ==> v[a]@ != v[b]@
}

/// One round trip to the store: an upsert or a delete of one record.
pub enum StoreRequest {
    Put(ConnectionRecord),
    Delete(ConnectionRecord),
}

/// The memberships after `req` has been carried out on `s`.
pub open spec fn applied(s: Set<Pair>, req: StoreRequest) -> Set<Pair> {
    match req {
        StoreRequest::Put(rec) => s.insert(rec.key()),
        StoreRequest::Delete(rec) => s.remove(rec.key()),
    }
}

/// The connection registry: the set of (channel, connection id) memberships,
/// each stored once.
pub struct Registry {
    records: Vec<ConnectionRecord>,
}

impl View for Registry {
    type V = Set<Pair>;

    closed spec fn view(&self) -> Set<Pair> {
        Set::new(|p: Pair| exists|i: int| 0 <= i < self.records@.len() && self.records@[i].key() == p)
    }
}

impl Registry {
    /// No membership is stored twice.
    pub closed spec fn wf(&self) -> bool {
        forall|i: int, j: int|
            0 <= i < j < self.records@.len() ==> self.records@[i].key() != self.records@[j].key()
    }

    pub fn new() -> (r: Registry)
        ensures
            r.wf(),
            r@ == Set::<Pair>::empty(),
    {
        let r = Registry { records: Vec::new() };
        assert(r@ =~= Set::<Pair>::empty());
        r
    }

    /// Position of the record with the given key, if one is stored.
    fn find(&self, channel: &String, connection_id: &String) -> (r: Option<usize>)
        ensures
            match r {
                Some(i) => i < self.records@.len() && self.records@[i as int].key() == (
                channel@,
                connection_id@,
                ),
                None => forall|i: int|
                    0 <= i < self.records@.len() ==> self.records@[i].key() != (
                    channel@,
                    connection_id@,
                    ),
            },
    {
        let mut i: usize = 0;
        while i < self.records.len()
            invariant
                i <= self.records@.len(),
                forall|k: int|
                    0 <= k < i ==> self.records@[k].key() != (channel@, connection_id@),
            decreases self.records@.len() - i,
        {
            let rec = &self.records[i];
            if rec.channel == *channel && rec.connection_id == *connection_id {
                return Some(i);
            }
            i = i + 1;
        }
        None
    }

    /// Inserts the membership, or leaves the registry as it is when the pair
    /// is already stored.
    pub fn register(&mut self, channel: &String, connection_id: &String)
        requires
            old(self).wf(),
        ensures
            final(self).wf(),
            final(self)@ == old(self)@.insert((channel@, connection_id@)),
    {
        match self.find(channel, connection_id) {
            Some(_) => {
                assert(self@ =~= old(self)@.insert((channel@, connection_id@)));
            },
            None => {
                let rec = ConnectionRecord::new(channel, connection_id);
                self.records.push(rec);
                assert forall|p: Pair| #[trigger] self@.contains(p) == old(self)@.insert(
                    (channel@, connection_id@),
                ).contains(p) by {
                    if old(self)@.contains(p) {
                        let i = choose|i: int|
                            0 <= i < old(self).records@.len() && old(self).records@[i].key() == p;
                        assert(self.records@[i].key() == p);
                    }
                    if p == (channel@, connection_id@) {
                        assert(self.records@[self.records@.len() - 1].key() == p);
                    }
                    if self@.contains(p) {
                        let i = choose|i: int|
                            0 <= i < self.records@.len() && self.records@[i].key() == p;
                        if i < old(self).records@.len() {
                            assert(old(self).records@[i].key() == p);
                        }
                    }
                }
                assert(self@ =~= old(self)@.insert((channel@, connection_id@)));
            },
        }
    }

    /// Removes the membership; absence is no error and changes nothing.
    pub fn deregister(&mut self, channel: &String, connection_id: &String)
        requires
            old(self).wf(),
        ensures
            final(self).wf(),
            final(self)@ == old(self)@.remove((channel@, connection_id@)),
    {
        match self.find(channel, connection_id) {
            None => {
                assert(self@ =~= old(self)@.remove((channel@, connection_id@)));
            },
            Some(idx) => {
                let ghost key = (channel@, connection_id@);
                let ghost before = self.records@;
                self.records.remove(idx);
                assert(self.records@ =~= before.remove(idx as int));
                assert forall|p: Pair| #[trigger] self@.contains(p) == old(self)@.remove(
                    key,
                ).contains(p) by {
                    if self@.contains(p) {
                        let i = choose|i: int|
                            0 <= i < self.records@.len() && self.records@[i].key() == p;
                        if i < idx {
                            assert(before[i].key() == p);
                        } else {
                            assert(before[i + 1].key() == p);
                        }
                    }
                    if old(self)@.contains(p) && p != key {
                        let i = choose|i: int| 0 <= i < before.len() && before[i].key() == p;
                        if i < idx {
                            assert(self.records@[i].key() == p);
                        } else {
                            assert(i != idx);
                            assert(self.records@[i - 1].key() == p);
                        }
                    }
                }
                assert(self@ =~= old(self)@.remove(key));
            },
        }
    }
    /// All connection identifiers registered under `channel`, each once; an
    /// empty channel gives an empty vector.
    pub fn query(&self, channel: &String) -> (r: Vec<String>)
        requires
            self.wf(),
        ensures
            distinct_ids(r@),
            ids_of(r@) == members_of(self@, channel@),
    {
        let mut out: Vec<String> = Vec::new();
        let mut i: usize = 0;
        while i < self.records.len()
            invariant
                self.wf(),
                i <= self.records@.len(),
                distinct_ids(out@),
                forall|id: Seq<char>|
                    ids_of(out@).contains(id) <==> exists|k: int|
                        0 <= k < i && #[trigger] self.records@[k].key() == (channel@, id),
                forall|k: int, m: int|
                    #![trigger out@[k], self.records@[m]]
                    0 <= k < out@.len() && i <= m < self.records@.len() ==> (
                    channel@,
                    out@[k]@,
                    ) != self.records@[m].key(),
            decreases self.records@.len() - i,
        {
            let rec = &self.records[i];
            if rec.channel == *channel {
                let ghost prev = out@;
                out.push(rec.connection_id.clone());
                assert forall|id: Seq<char>|
                    ids_of(out@).contains(id) <==> exists|k: int|
                        0 <= k < i + 1 && #[trigger] self.records@[k].key() == (channel@, id) by {
                    if ids_of(out@).contains(id) {
                        let j = choose|j: int| 0 <= j < out@.len() && out@[j]@ == id;
                        if j < prev.len() {
                            assert(ids_of(prev).contains(id));
                        } else {
                            assert(self.records@[i as int].key() == (channel@, id));
                        }
                    }
                    if exists|k: int| 0 <= k < i + 1 && #[trigger] self.records@[k].key() == (channel@, id) {
                        let k = choose|k: int| 0 <= k < i + 1 && #[trigger] self.records@[k].key() == (channel@, id);
                        if k < i {
                            assert(ids_of(prev).contains(id));
                            let j = choose|j: int| 0 <= j < prev.len() && prev[j]@ == id;
                            assert(out@[j]@ == id);
                        } else {
                            assert(out@[prev.len() as int]@ == id);
                        }
                    }
                }
            }
            i = i + 1;
        }
        assert(ids_of(out@) =~= members_of(self@, channel@));
        out
    }

    /// The channel that holds `connection_id`, if any does.
    pub fn channel_of(&self, connection_id: &String) -> (r: Option<String>)
        requires
            self.wf(),
        ensures
            match r {
                Some(c) => self@.contains((c@, connection_id@)),
                None => forall|c: Seq<char>| !self@.contains((c, connection_id@)),
            },
    {
        let mut i: usize = 0;
        while i < self.records.len()
            invariant
                i <= self.records@.len(),
                forall|k: int|
                    0 <= k < i ==> self.records@[k].connection_id@ != connection_id@,
            decreases self.records@.len() - i,
        {
            if self.records[i].connection_id == *connection_id {
                let c = self.records[i].channel.clone();
                assert(self.records@[i as int].key() == (c@, connection_id@));
                return Some(c);
            }
            i = i + 1;
        }
        assert forall|c: Seq<char>| !self@.contains((c, connection_id@)) by {
            if self@.contains((c, connection_id@)) {
                let k = choose|k: int| 0 <= k < self.records@.len() && self.records@[k].key() == (c, connection_id@);
                assert(self.records@[k].connection_id@ == connection_id@);
            }
        }
        None
    }
    /// Carries out one store request.
    pub fn apply(&mut self, req: &StoreRequest)
        requires
            old(self).wf(),
        ensures
            final(self).wf(),
            final(self)@ == applied(old(self)@, *req),
    {
        match req {
            StoreRequest::Put(rec) => self.register(&rec.channel, &rec.connection_id),
            StoreRequest::Delete(rec) => self.deregister(&rec.channel, &rec.connection_id),
        }
    }
}

} // verus!
