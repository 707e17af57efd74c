//! Progress tracking for gossip peer discovery.
//!
//! The gossip membership protocol itself is an external collaborator: it
//! maintains the peer table, and each poll hands this module a read-only
//! snapshot of it as plain counts and records. This module decides what
//! each poll means — the progress line to log, whether this is an
//! iteration that logs peer details, and whether enough peers are known to
//! declare readiness and move on to ingestion.

use vstd::prelude::*;

verus! {

/// Peer count that must be strictly exceeded before readiness, unless the
/// caller configures another.
pub const DEFAULT_READINESS_THRESHOLD: u64 = 100;

/// Milliseconds between two peer-table polls.
pub const POLL_INTERVAL_MILLIS: u64 = 1_000;

/// Every how many polls a detailed peer dump is logged.
pub const DETAIL_LOG_PERIOD: u64 = 10;

/// At most this many peers appear in a detailed dump.
pub const PEER_DUMP_LIMIT: usize = 5;

/// A read-only snapshot of one peer table entry, as the gossip collaborator
/// advertises it.
#[derive(Clone, Debug)]
pub struct PeerRecord {
    /// The peer's identity key bytes.
    pub identity: Vec<u8>,
    /// Where the peer gossips, as `address:port` text.
    pub gossip_addr: String,
    /// Where the peer relays shreds, if it advertises that.
    pub relay_addr: Option<String>,
    /// The network epoch the peer is on.
    pub shred_version: u16,
    /// When the collaborator last heard from the peer, in milliseconds.
    pub last_seen_millis: u64,
}

/// What one discovery poll concluded.
#[derive(Clone, Copy, Debug, PartialEq, Eq, Structural)]
pub struct DiscoveryReport {
    /// The poll's number, starting at one.
    pub iteration: u64,
    /// Peers in the snapshot.
    pub total_peers: u64,
    /// Peers advertising a relay address.
    pub relay_peers: u64,
    /// Whether this poll logs the detailed peer dump.
    pub log_detail: bool,
    /// Whether discovery is complete.
    pub ready: bool,
}

/// Readiness: strictly more peers than the threshold.
pub open spec fn spec_ready(total_peers: u64, threshold: u64) -> bool {
    total_peers > threshold
}

/// Tracks discovery progress across polls. Readiness is terminal: once a
/// poll declares it, the loop is over and no further poll is taken.
#[derive(Clone, Copy, Debug, PartialEq, Eq, Structural)]
pub struct DiscoveryLoop {
    /// Peer count that must be strictly exceeded.
    pub threshold: u64,
    /// Polls taken so far.
    pub iteration: u64,
    /// Whether a poll has declared readiness.
    pub ready: bool,
}

impl DiscoveryLoop {
    /// A fresh loop that will declare readiness only strictly beyond
    /// `threshold` peers.
    pub fn new(threshold: u64) -> (d: Self)
        ensures
            d.threshold == threshold,
            d.iteration == 0,
            !d.ready,
    {
        DiscoveryLoop { threshold, iteration: 0, ready: false }
    }

    /// Takes one poll of the peer table, given the snapshot's counts.
    ///
    /// The report carries the counts back for the progress line; its
    /// `log_detail` is set on every `DETAIL_LOG_PERIOD`-th poll; its
    /// `ready` is set exactly when the peer count strictly exceeds the
    /// threshold — at the boundary the loop keeps waiting. An empty peer
    /// table is not an error: the poll simply reports zero and goes on.
    pub fn poll(&mut self, total_peers: u64, relay_peers: u64) -> (r: DiscoveryReport)
        requires
            !old(self).ready,
            old(self).iteration < u64::MAX,
        ensures
            final(self).threshold == old(self).threshold,
            final(self).iteration == old(self).iteration + 1,
            r.iteration == final(self).iteration,
            r.total_peers == total_peers,
            r.relay_peers == relay_peers,
            r.log_detail == (final(self).iteration % DETAIL_LOG_PERIOD == 0),
            r.ready == spec_ready(total_peers, old(self).threshold),
            final(self).ready == r.ready,
    {
        self.iteration = self.iteration + 1;
        let ready = total_peers > self.threshold;
        self.ready = ready;
        DiscoveryReport {
            iteration: self.iteration,
            total_peers,
            relay_peers,
            log_detail: self.iteration % DETAIL_LOG_PERIOD == 0,
            ready,
        }
    }
}

/// How many peers a detailed dump shows: the whole table when it is small,
/// and the first `PEER_DUMP_LIMIT` entries otherwise, so log volume stays
/// bounded.
pub fn peer_dump_count(total: usize) -> (n: usize)
    ensures
        n == if total < PEER_DUMP_LIMIT {
            total as int
        } else {
            PEER_DUMP_LIMIT as int
        },
        n <= PEER_DUMP_LIMIT,
        n <= total,
{
    if total < PEER_DUMP_LIMIT {
        total
    } else {
        PEER_DUMP_LIMIT
    }
}

/// How many records of a snapshot advertise a relay address.
pub open spec fn spec_relay_count(s: Seq<PeerRecord>) -> nat
    decreases s.len(),
{
    if s.len() == 0 {
        0
    } else {
        spec_relay_count(s.drop_last()) + if s.last().relay_addr is Some {
            1nat
        } else {
            0nat
        }
    }
}

/// Counts the peers of a snapshot that advertise a relay address — the
/// ones shred traffic can be ingested from.
pub fn relay_peer_count(peers: &Vec<PeerRecord>) -> (n: usize)
    ensures
        n == spec_relay_count(peers@),
{
    let mut n: usize = 0;
    let mut i: usize = 0;
    while i < peers.len()
        invariant
            i <= peers@.len(),
            n <= i,
            n == spec_relay_count(peers@.subrange(0, i as int)),
        decreases peers@.len() - i,
    {
        if peers[i].relay_addr.is_some() {
            n = n + 1;
        }
        assert(peers@.subrange(0, i as int + 1).drop_last() =~= peers@.subrange(0, i as int));
        assert(peers@.subrange(0, i as int + 1).last() == peers@[i as int]);
        i += 1;
    }
    assert(peers@.subrange(0, peers@.len() as int) =~= peers@);
    n
}

/// Readiness needs strictly more peers than the threshold: exactly the
/// threshold is not yet ready, one more is.
pub proof fn lemma_readiness_boundary(threshold: u64)
    ensures
        !spec_ready(threshold, threshold),
        threshold < u64::MAX ==> spec_ready((threshold + 1) as u64, threshold),
        forall|n: u64| spec_ready(n, threshold) <==> n > threshold,
{
}

} // verus!
