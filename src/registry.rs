use vstd::prelude::*;

verus! {

/// The topic of dashboard connections: every inbound text is forwarded to them.
pub const OBSERVER_TOPIC: &'static str = "/ui";

/// The topic that joins every detection broadcast group.
pub const WILDCARD_TOPIC: &'static str = "all";

/// A live connection: its identifier, the peer's address and the topic taken
/// from the handshake.
#[derive(Debug)]
pub struct Connection {
    pub id: u64,
    pub address: String,
    pub topic: String,
}

/// What a connection is, for contracts.
pub ghost struct Peer {
    pub id: u64,
    pub address: Seq<char>,
    pub topic: Seq<char>,
}

impl View for Connection {
    type V = Peer;

    open spec fn view(&self) -> Peer {
        Peer { id: self.id, address: self.address@, topic: self.topic@ }
    }
}

impl Connection {
    /// A copy of this connection record.
    pub fn duplicate(&self) -> (r: Connection)
        ensures
            r == *self,
    {
        Connection { id: self.id, address: self.address.clone(), topic: self.topic.clone() }
    }
}

/// Which connections a snapshot selects, by topic.
#[derive(Debug)]
pub enum TopicFilter {
    /// Every connection.
    Everyone,
    /// The connections whose topic is the given one.
    Topic(String),
    /// The connections whose topic is the given one or the wildcard topic.
    TopicOrWildcard(String),
}

impl TopicFilter {
    pub open spec fn admits(&self, topic: Seq<char>) -> bool {
        match self {
            TopicFilter::Everyone => true,
            TopicFilter::Topic(t) => topic == t@,
            TopicFilter::TopicOrWildcard(t) => topic == t@ || topic == WILDCARD_TOPIC@,
        }
    }

    /// Whether a connection with this topic is selected.
    pub fn test(&self, topic: &String) -> (r: bool)
        ensures
            r == self.admits(topic@),
    {
        match self {
            TopicFilter::Everyone => true,
            TopicFilter::Topic(t) => *topic == *t,
            TopicFilter::TopicOrWildcard(t) => {
                let wildcard = String::from_str(WILDCARD_TOPIC);
                *topic == *t || *topic == wildcard
            },
        }
    }
}

/// The peers of `peers` that `filter` selects, in registry order.
pub open spec fn selected(peers: Seq<Peer>, filter: TopicFilter) -> Seq<Peer> {
    peers.filter(|p: Peer| filter.admits(p.topic))
}

/// Whether some peer of `peers` has identifier `id`.
pub open spec fn has_id(peers: Seq<Peer>, id: u64) -> bool {
    exists|i: int| 0 <= i < peers.len() && #[trigger] peers[i].id == id
}

/// No two peers of `peers` share an identifier.
pub open spec fn ids_unique(peers: Seq<Peer>) -> bool {
    forall|i: int, j: int|
        0 <= i < peers.len() && 0 <= j < peers.len() && i != j ==> #[trigger] peers[i].id
            != #[trigger] peers[j].id
}

/// A snapshot is read at one instant: each connection it holds is registered
/// and selected by the filter, and each registered connection that the filter
/// selects is in it.
pub proof fn lemma_snapshot_exact(peers: Seq<Peer>, filter: TopicFilter)
    ensures
        forall|p: Peer| #[trigger]
            selected(peers, filter).contains(p) ==> peers.contains(p) && filter.admits(p.topic),
        forall|i: int|
            0 <= i < peers.len() && filter.admits(peers[i].topic) ==> #[trigger] selected(
                peers,
                filter,
            ).contains(peers[i]),
{
    broadcast use vstd::seq_lib::group_filter_ensures;

    let pred = |p: Peer| filter.admits(p.topic);
    assert forall|p: Peer| #[trigger] selected(peers, filter).contains(p) implies peers.contains(p)
        && filter.admits(p.topic) by {
        peers.lemma_filter_contains_rev(pred, p);
        let k = choose|k: int| 0 <= k < selected(peers, filter).len() && selected(peers, filter)[k]
            == p;
        peers.lemma_filter_pred(pred, k);
    }
    assert forall|i: int| 0 <= i < peers.len() && filter.admits(peers[i].topic) implies #[trigger] selected(
        peers,
        filter,
    ).contains(peers[i]) by {
        peers.lemma_filter_contains(pred, i);
    }
}

/// Why an insertion was refused.
#[derive(Debug, PartialEq, Eq, Structural)]
pub enum RegistryError {
    /// A connection with this identifier is already registered.
    DuplicateConnection,
}

struct Entry<C> {
    connection: Connection,
    channel: C,
}

/// The set of live connections, each with the outbound channel of type `C`
/// that feeds it, kept in order of registration.
pub struct ConnectionRegistry<C> {
    entries: Vec<Entry<C>>,
}

impl<C> View for ConnectionRegistry<C> {
    type V = Seq<Peer>;

    closed spec fn view(&self) -> Seq<Peer> {
        self.entries@.map_values(|e: Entry<C>| e.connection@)
    }
}

impl<C> ConnectionRegistry<C> {
    /// At most one entry per connection identifier.
    pub open spec fn wf(&self) -> bool {
        ids_unique(self@)
    }

    /// An empty registry.
    pub fn new() -> (r: Self)
        ensures
            r@ == Seq::<Peer>::empty(),
            r.wf(),
    {
        let r = ConnectionRegistry { entries: Vec::new() };
        assert(r@ =~= Seq::<Peer>::empty());
        r
    }

    /// The number of live connections.
    pub fn len(&self) -> (r: usize)
        ensures
            r == self@.len(),
    {
        self.entries.len()
    }

    fn position(&self, id: u64) -> (r: Option<usize>)
        ensures
            match r {
                Some(i) => i < self@.len() && self@[i as int].id == id,
                None => !has_id(self@, id),
            },
    {
        let mut i: usize = 0;
        while i < self.entries.len()
            invariant
                i <= self@.len(),
                self@.len() == self.entries@.len(),
                forall|k: int| 0 <= k < i ==> self@[k].id != id,
            decreases self.entries.len() - i,
        {
            if self.entries[i].connection.id == id {
                return Some(i);
            }
            i = i + 1;
        }
        None
    }

    /// Whether a connection with identifier `id` is registered.
    pub fn contains(&self, id: u64) -> (r: bool)
        ensures
            r == has_id(self@, id),
    {
        self.position(id).is_some()
    }

    /// Registers `connection` with its outbound channel. Refused, with the
    /// registry unchanged, when its identifier is already registered.
    pub fn insert(&mut self, connection: Connection, channel: C) -> (r: Result<(), RegistryError>)
        requires
            old(self).wf(),
        ensures
            final(self).wf(),
            has_id(old(self)@, connection.id) ==> r == Err::<(), RegistryError>(
                RegistryError::DuplicateConnection,
            ) && final(self)@ == old(self)@,
            !has_id(old(self)@, connection.id) ==> r is Ok && final(self)@ == old(self)@.push(
                connection@,
            ) && final(self).channel_at(old(self)@.len() as int) == channel,
    {
        if self.contains(connection.id) {
            return Err(RegistryError::DuplicateConnection);
        }
        let ghost id = connection.id;
        let ghost peer = connection@;
        self.entries.push(Entry { connection, channel });
        assert(self@ =~= old(self)@.push(peer));

        assert forall|i: int, j: int|
            0 <= i < self@.len() && 0 <= j < self@.len() && i != j implies #[trigger] self@[i].id
            != #[trigger] self@[j].id by {
            if i == self@.len() - 1 {
                assert(old(self)@[j].id == self@[j].id);
            } else if j == self@.len() - 1 {
                assert(old(self)@[i].id == self@[i].id);
            }
        }
        Ok(())
    }

    /// Deregisters the connection with identifier `id`, if there is one; tells
    /// whether there was.
    pub fn remove(&mut self, id: u64) -> (r: bool)
        requires
            old(self).wf(),
        ensures
            final(self).wf(),
            r == has_id(old(self)@, id),
            !r ==> final(self)@ == old(self)@,
            r ==> exists|i: int|
                0 <= i < old(self)@.len() && old(self)@[i].id == id && final(self)@ == old(
                    self,
                )@.remove(i),
            !has_id(final(self)@, id),
    {
        match self.position(id) {
            None => false,
            Some(i) => {
                self.entries.remove(i);
                assert(self@ =~= old(self)@.remove(i as int));
                assert forall|k: int| 0 <= k < self@.len() implies #[trigger] self@[k].id != id by {
                    if k < i {
                        assert(old(self)@[k] == self@[k]);
                    } else {
                        assert(old(self)@[k + 1] == self@[k]);
                    }
                }
                assert forall|a: int, b: int|
                    0 <= a < self@.len() && 0 <= b < self@.len() && a != b implies #[trigger] self@[a].id
                    != #[trigger] self@[b].id by {
                    let oa = if a < i { a } else { a + 1 };
                    let ob = if b < i { b } else { b + 1 };
                    assert(old(self)@[oa] == self@[a]);
                    assert(old(self)@[ob] == self@[b]);
                }
                true
            },
        }
    }

    /// A copy of the connections that `filter` selects, in registry order,
    /// taken in one step: exactly the entries that match at this instant.
    pub fn snapshot_matching(&self, filter: &TopicFilter) -> (r: Vec<Connection>)
        ensures
            r@.map_values(|c: Connection| c@) == selected(self@, *filter),
    {
        let mut out: Vec<Connection> = Vec::new();
        let mut i: usize = 0;
        while i < self.entries.len()
            invariant
                i <= self@.len(),
                self@.len() == self.entries@.len(),
                out@.map_values(|c: Connection| c@) == selected(self@.take(i as int), *filter),
            decreases self.entries.len() - i,
        {
            let c = &self.entries[i].connection;
            let ghost before = out@;
            assert(self@.take(i + 1).drop_last() =~= self@.take(i as int));
            assert(self@.take(i + 1).last() == c@);
            reveal(Seq::filter);
            if filter.test(&c.topic) {
                out.push(c.duplicate());
                assert(out@.map_values(|c: Connection| c@) =~= before.map_values(
                    |c: Connection| c@,
                ).push(c@));
            }
            i = i + 1;
        }
        assert(self@.take(self@.len() as int) =~= self@);
        out
    }

    /// The outbound channel of the `i`-th connection, in registry order.
    pub closed spec fn channel_at(&self, i: int) -> C {
        self.entries@[i].channel
    }

    /// The outbound channel of the connection with identifier `id`, if it is
    /// registered.
    pub fn channel_of(&self, id: u64) -> (r: Option<&C>)
        ensures
            r is Some <==> has_id(self@, id),
            r is Some ==> exists|i: int|
                0 <= i < self@.len() && self@[i].id == id && *r->Some_0 == self.channel_at(i),
    {
        match self.position(id) {
            Some(i) => {
                let r = &self.entries[i].channel;
                assert(*r == self.channel_at(i as int));
                Some(r)
            },
            None => None,
        }
    }
}

} // verus!
