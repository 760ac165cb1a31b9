//! Discovery reactor and the transport's connection table.
//!
//! The reactor consumes the transport's discovery announcements.  Its policy
//! follows the overlay's design: every announced peer is dialed, once per
//! announcement; the reactor performs no deduplication of its own and relies
//! on the transport's connection table to deduplicate dials to peers that
//! are already connected.  A dial failure is terminal only until the peer is
//! announced again.

use vstd::prelude::*;

verus! {

/// Where one announced peer stands with this node.  An announcement moves
/// a peer to dialing at once, so "seen but not acted on" never outlives the
/// event that brought it.
#[derive(Clone, Copy, PartialEq, Eq, Structural, Debug)]
pub enum PeerStatus {
    /// A dial attempt is in flight.
    Dialing,
    /// The transport reported the dial successful.
    Connected,
    /// The last dial attempt failed; the next announcement retries.
    DialFailed,
}

/// The reactor's record of every peer the transport has announced.
pub struct DiscoveryReactor {
    pub peers: Vec<(u128, PeerStatus)>,
}

/// The status recorded for one peer, if it was ever announced.
pub open spec fn spec_status(peers: Seq<(u128, PeerStatus)>, id: u128) -> Option<PeerStatus>
    decreases peers.len(),
{
    if peers.len() == 0 {
        None
    } else if peers[0].0 == id {
        Some(peers[0].1)
    } else {
        spec_status(peers.subrange(1, peers.len() as int), id)
    }
}

/// How one discovery announcement for `id` moves the reactor's record: an
/// unseen peer is recorded as dialing, a connected peer stays as it is, and
/// any other peer (dialing, or failed earlier) is set to dialing again.
pub open spec fn discovered_transition(
    pre: Seq<(u128, PeerStatus)>,
    post: Seq<(u128, PeerStatus)>,
    id: u128,
) -> bool {
    &&& (spec_status(pre, id) is None ==> post == pre.push((id, PeerStatus::Dialing)))
    &&& (spec_status(pre, id) == Some(PeerStatus::Connected) ==> post == pre)
    &&& ((spec_status(pre, id) matches Some(st) && st != PeerStatus::Connected) ==> exists|
        idx: int,
    |
        0 <= idx < pre.len() && pre[idx].0 == id && post == pre.update(
            idx,
            (id, PeerStatus::Dialing),
        ))
}

/// How one reported dial outcome for `id` moves the reactor's record: a
/// peer never announced is ignored; otherwise its status becomes connected
/// or failed.
pub open spec fn dial_result_transition(
    pre: Seq<(u128, PeerStatus)>,
    post: Seq<(u128, PeerStatus)>,
    id: u128,
    success: bool,
) -> bool {
    &&& (spec_status(pre, id) is None ==> post == pre)
    &&& (spec_status(pre, id) is Some ==> exists|idx: int|
        0 <= idx < pre.len() && pre[idx].0 == id && post == pre.update(
            idx,
            (id, if success {
                PeerStatus::Connected
            } else {
                PeerStatus::DialFailed
            }),
        ))
}

impl View for DiscoveryReactor {
    type V = Seq<(u128, PeerStatus)>;

    open spec fn view(&self) -> Seq<(u128, PeerStatus)> {
        self.peers@
    }
}

impl DiscoveryReactor {
    /// A reactor that has seen no peer yet.
    pub fn new() -> (r: DiscoveryReactor)
        ensures
            r@ == Seq::<(u128, PeerStatus)>::empty(),
    {
        DiscoveryReactor { peers: Vec::new() }
    }

    /// Where the record for this peer stands, if it was ever announced.
    fn find_peer(&self, id: u128) -> (r: Option<usize>)
        ensures
            match r {
                Some(idx) => idx < self@.len() && self@[idx as int].0 == id && spec_status(
                    self@,
                    id,
                ) == Some(self@[idx as int].1),
                None => spec_status(self@, id) is None,
            },
    {
        let n = self.peers.len();
        proof {
            assert(self@.subrange(0, n as int) =~= self@);
        }
        let mut i: usize = 0;
        while i < n
            invariant
                i <= n,
                n == self@.len(),
                spec_status(self@, id) == spec_status(self@.subrange(i as int, n as int), id),
            decreases n - i,
        {
            proof {
                assert(self@.subrange(i as int, n as int)[0] == self@[i as int]);
            }
            if self.peers[i].0 == id {
                return Some(i);
            }
            proof {
                assert(self@.subrange(i as int, n as int).subrange(
                    1,
                    (n - i) as int,
                ) =~= self@.subrange(i as int + 1, n as int));
            }
            i = i + 1;
        }
        proof {
            assert(self@.subrange(n as int, n as int) =~= Seq::<(u128, PeerStatus)>::empty());
        }
        None
    }

    /// React to one discovery announcement.  The reactor unconditionally
    /// asks for one dial attempt — exactly one per announcement — and
    /// records the peer as dialing; a peer already connected stays
    /// connected and the transport deduplicates the dial.
    pub fn on_discovered(&mut self, id: u128) -> (dial: bool)
        ensures
            dial,
            discovered_transition(old(self)@, final(self)@, id),
    {
        match self.find_peer(id) {
            Some(idx) => {
                let current = self.peers[idx].1;
                if !(current == PeerStatus::Connected) {
                    self.peers.set(idx, (id, PeerStatus::Dialing));
                    proof {
                        assert(self@ == old(self)@.update(idx as int, (id, PeerStatus::Dialing)));
                    }
                }
                true
            },
            None => {
                self.peers.push((id, PeerStatus::Dialing));
                true
            },
        }
    }

    /// Record the outcome the transport reported for one dial attempt.
    pub fn on_dial_result(&mut self, id: u128, success: bool)
        ensures
            dial_result_transition(old(self)@, final(self)@, id, success),
    {
        match self.find_peer(id) {
            Some(idx) => {
                let st = if success {
                    PeerStatus::Connected
                } else {
                    PeerStatus::DialFailed
                };
                self.peers.set(idx, (id, st));
            },
            None => {},
        }
    }
}

/// Model of the transport's connection table.  The transport owns it; the
/// overlay relies on exactly one property of it: dialing a peer that is
/// already connected changes nothing, so no duplicate connection is ever
/// opened.
pub struct ConnectionTable {
    pub connected: Vec<u128>,
}

impl ConnectionTable {
    /// Each connected peer is recorded exactly once.
    pub open spec fn wf(&self) -> bool {
        forall|i: int, j: int|
            0 <= i < j < self.connected@.len() ==> self.connected@[i] != self.connected@[j]
    }

    /// The set of connected peers.
    pub open spec fn peer_set(&self) -> Set<u128> {
        Set::new(
            |id: u128|
                exists|i: int| 0 <= i < self.connected@.len() && self.connected@[i] == id,
        )
    }

    /// An empty table.
    pub fn new() -> (t: ConnectionTable)
        ensures
            t.wf(),
            t.peer_set() == Set::<u128>::empty(),
            t.connected@.len() == 0,
    {
        let t = ConnectionTable { connected: Vec::new() };
        proof {
            assert(t.peer_set() =~= Set::<u128>::empty());
        }
        t
    }

    /// Whether this peer is connected.
    pub fn is_connected(&self, id: u128) -> (r: bool)
        ensures
            r == self.peer_set().contains(id),
    {
        let n = self.connected.len();
        let mut i: usize = 0;
        while i < n
            invariant
                i <= n,
                n == self.connected@.len(),
                forall|j: int| 0 <= j < i ==> self.connected@[j] != id,
            decreases n - i,
        {
            if self.connected[i] == id {
                return true;
            }
            i = i + 1;
        }
        false
    }

    /// Complete one dial attempt, as the transport does: a dial to an
    /// already connected peer is deduplicated and changes nothing; a
    /// successful dial connects the peer; a failed one leaves the table as
    /// it was.
    pub fn dial_attempt(&mut self, id: u128, success: bool)
        requires
            old(self).wf(),
        ensures
            final(self).wf(),
            old(self).peer_set().contains(id) ==> final(self).connected@ == old(
                self,
            ).connected@,
            !old(self).peer_set().contains(id) && success ==> final(self).peer_set() == old(
                self,
            ).peer_set().insert(id) && final(self).connected@ == old(self).connected@.push(id),
            !old(self).peer_set().contains(id) && !success ==> final(self).connected@ == old(
                self,
            ).connected@,
    {
        if self.is_connected(id) {
            return;
        }
        if success {
            self.connected.push(id);
            proof {
                let olds = old(self).connected@;
                let news = self.connected@;
                assert forall|x: u128| self.peer_set().contains(x) implies old(
                    self,
                ).peer_set().insert(id).contains(x) by {
                    let i = choose|i: int| 0 <= i < news.len() && news[i] == x;
                    if i < olds.len() {
                        assert(olds[i] == x);
                    }
                };
                assert forall|x: u128|
                    old(self).peer_set().insert(id).contains(x) implies self.peer_set().contains(
                    x,
                ) by {
                    if x == id {
                        assert(news[olds.len() as int] == x);
                    } else {
                        let i = choose|i: int| 0 <= i < olds.len() && olds[i] == x;
                        assert(news[i] == x);
                    }
                };
                assert(self.peer_set() =~= old(self).peer_set().insert(id));
            }
        }
    }
}

/// Law: no duplicate connection is ever open — a well-formed connection
/// table records a connected peer in exactly one place, so two records of
/// the same peer are the same record.
pub proof fn lemma_connected_recorded_once(t: ConnectionTable, id: u128, i: int, j: int)
    requires
        t.wf(),
        0 <= i < t.connected@.len(),
        0 <= j < t.connected@.len(),
        t.connected@[i] == id,
        t.connected@[j] == id,
    ensures
        i == j,
{
}

} // verus!
