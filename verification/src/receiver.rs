//! The receive-loop state machine and the queue between the receiver and
//! the plugin pipeline.
//!
//! The embedding application owns the socket and the clock; this module
//! owns every decision the loop makes. The application reads a datagram (or
//! hits an error, or sees the shutdown flag), feeds the outcome to
//! [`ShredReceiver::step`] as an event, and performs the returned action:
//! publish a decoded shred, ignore non-shred traffic, back off briefly
//! after a socket error, or stop. Socket errors are never fatal by
//! themselves; only shutdown or losing the consumer ends the loop, and a
//! stopped receiver never runs again.

use vstd::prelude::*;
use crate::shred::{decode, spec_decode, DecodedShred};
use crate::stats::{spec_after_receive, spec_report, ReceiveStats, StatsReport};

verus! {

/// Milliseconds to wait after a transient socket error before retrying.
pub const READ_ERROR_BACKOFF_MILLIS: u64 = 100;

/// Lifecycle of the receive loop. It moves forward only: `Idle` to
/// `Running` to `Stopped`, never back.
#[derive(Clone, Copy, Debug, PartialEq, Eq, Structural)]
pub enum ReceiverStatus {
    Idle,
    Running,
    Stopped,
}

/// What the receive loop just observed.
#[derive(Debug)]
pub enum ReceiverEvent {
    /// A datagram arrived with these bytes.
    Packet(Vec<u8>),
    /// The socket read failed transiently.
    ReadError,
    /// The output queue refused a shred: no consumer remains.
    PublishFailed,
    /// The shared shutdown flag was set.
    Shutdown,
}

/// What the loop must do next.
#[derive(Debug)]
pub enum ReceiverAction {
    /// Hand this decoded shred to the output queue.
    Publish(DecodedShred),
    /// The packet was not a shred: expected traffic, nothing to do.
    Ignore,
    /// Sleep `READ_ERROR_BACKOFF_MILLIS` and retry the read.
    Backoff,
    /// Leave the loop; the receiver is stopped for good.
    Stop,
}

/// The receive loop's state: its lifecycle stage and its throughput
/// counters.
#[derive(Clone, Copy, Debug, PartialEq, Eq, Structural)]
pub struct ShredReceiver {
    pub status: ReceiverStatus,
    pub stats: ReceiveStats,
}

/// The receiver state after a step: a packet counts toward the throughput
/// window and leaves the loop running, a read error changes nothing, and
/// shutdown or a failed publish stops the receiver for good.
pub open spec fn spec_step_state(s: ShredReceiver, event: ReceiverEvent, now: u64) -> ShredReceiver {
    match event {
        ReceiverEvent::Packet(_) => ShredReceiver {
            status: s.status,
            stats: spec_after_receive(s.stats, now),
        },
        ReceiverEvent::ReadError => s,
        ReceiverEvent::PublishFailed => ShredReceiver {
            status: ReceiverStatus::Stopped,
            stats: s.stats,
        },
        ReceiverEvent::Shutdown => ShredReceiver { status: ReceiverStatus::Stopped, stats: s.stats },
    }
}

impl ShredReceiver {
    /// Counters consistent, and the lifecycle stages are the only states.
    pub open spec fn wf(self) -> bool {
        self.stats.wf()
    }

    /// A fresh receiver, not yet running, with its report window starting
    /// at `now_millis`.
    pub fn new(now_millis: u64) -> (s: Self)
        ensures
            s.status == ReceiverStatus::Idle,
            s.stats.count == 0,
            s.stats.last_count == 0,
            s.stats.last_log == now_millis,
            s.wf(),
    {
        ShredReceiver { status: ReceiverStatus::Idle, stats: ReceiveStats::new(now_millis) }
    }

    /// Moves the receiver from `Idle` to `Running`.
    pub fn start(&mut self)
        requires
            old(self).status == ReceiverStatus::Idle,
        ensures
            final(self).status == ReceiverStatus::Running,
            final(self).stats == old(self).stats,
    {
        self.status = ReceiverStatus::Running;
    }

    /// Takes one step of the receive loop.
    ///
    /// A packet is always counted, decodable or not; it yields `Publish`
    /// with exactly the decoded shred when it is a well-formed shred, and
    /// `Ignore` otherwise — rejected packets are expected traffic, not
    /// errors. A read error yields `Backoff` and changes nothing. Shutdown
    /// and a failed publish stop the receiver and yield `Stop`. The second
    /// component is the periodic throughput report, due only on packets.
    pub fn step(&mut self, event: ReceiverEvent, now_millis: u64) -> (r: (
        ReceiverAction,
        Option<StatsReport>,
    ))
        requires
            old(self).wf(),
            old(self).status == ReceiverStatus::Running,
            event is Packet ==> old(self).stats.count < u64::MAX,
        ensures
            final(self).wf(),
            *final(self) == spec_step_state(*old(self), event, now_millis),
            match event {
                ReceiverEvent::Packet(bytes) => {
                    &&& match spec_decode(bytes@) {
                        Ok(m) => r.0 matches ReceiverAction::Publish(d) && d@ == m,
                        Err(_) => r.0 is Ignore,
                    }
                    &&& r.1 == spec_report(
                        (ReceiveStats {
                            count: (old(self).stats.count + 1) as u64,
                            ..old(self).stats
                        }),
                        now_millis,
                    )
                },
                ReceiverEvent::ReadError => r.0 is Backoff && r.1 is None,
                ReceiverEvent::PublishFailed => r.0 is Stop && r.1 is None,
                ReceiverEvent::Shutdown => r.0 is Stop && r.1 is None,
            },
    {
        match event {
            ReceiverEvent::Packet(bytes) => {
                self.stats.increment();
                let report = self.stats.maybe_log(now_millis);
                match process_packet(bytes.as_slice()) {
                    Some(d) => (ReceiverAction::Publish(d), report),
                    None => (ReceiverAction::Ignore, report),
                }
            },
            ReceiverEvent::ReadError => (ReceiverAction::Backoff, None),
            ReceiverEvent::PublishFailed => {
                self.status = ReceiverStatus::Stopped;
                (ReceiverAction::Stop, None)
            },
            ReceiverEvent::Shutdown => {
                self.status = ReceiverStatus::Stopped;
                (ReceiverAction::Stop, None)
            },
        }
    }
}

/// Classifies one datagram: a decodable shred is handed on; anything else
/// is non-shred traffic and dropped.
pub fn process_packet(data: &[u8]) -> (r: Option<DecodedShred>)
    ensures
        match r {
            Some(d) => spec_decode(data@) matches Ok(m) && d@ == m,
            None => spec_decode(data@) is Err,
        },
{
    match decode(data) {
        Ok(d) => Some(d),
        Err(_) => None,
    }
}

/// A stopped receiver stays stopped: no event moves the lifecycle
/// backwards.
pub proof fn lemma_stopped_is_terminal(s: ShredReceiver, event: ReceiverEvent, now: u64)
    requires
        s.status == ReceiverStatus::Stopped,
    ensures
        spec_step_state(s, event, now).status == ReceiverStatus::Stopped,
{
}

/// A transient read error never stops the loop, and a packet — well-formed
/// or not — never stops it either; only shutdown or a failed publish does.
pub proof fn lemma_only_shutdown_stops(s: ShredReceiver, event: ReceiverEvent, now: u64)
    requires
        s.status == ReceiverStatus::Running,
    ensures
        spec_step_state(s, event, now).status == ReceiverStatus::Stopped <==> (
        event is PublishFailed || event is Shutdown),
{
}

/// The queue between the receiver and the plugin pipeline: first in, first
/// out, so shreds reach the consumer in arrival order. `send` fails exactly
/// when the queue has been closed, which is the receiver's terminal signal.
#[derive(Debug)]
pub struct ShredQueue {
    pub items: Vec<DecodedShred>,
    pub closed: bool,
}

impl ShredQueue {
    /// An empty, open queue.
    pub fn new() -> (q: Self)
        ensures
            q.items@ =~= Seq::<DecodedShred>::empty(),
            !q.closed,
    {
        ShredQueue { items: Vec::new(), closed: false }
    }

    /// How many shreds are waiting.
    pub fn len(&self) -> (n: usize)
        ensures
            n == self.items@.len(),
    {
        self.items.len()
    }

    /// Appends a shred at the back, unless the queue is closed; reports
    /// whether the shred was taken.
    pub fn send(&mut self, d: DecodedShred) -> (ok: bool)
        ensures
            ok == !old(self).closed,
            final(self).closed == old(self).closed,
            if old(self).closed {
                final(self).items@ == old(self).items@
            } else {
                final(self).items@ == old(self).items@.push(d)
            },
    {
        if self.closed {
            false
        } else {
            self.items.push(d);
            true
        }
    }

    /// Takes the oldest waiting shred, if any.
    pub fn recv(&mut self) -> (r: Option<DecodedShred>)
        ensures
            final(self).closed == old(self).closed,
            match r {
                Some(d) => old(self).items@.len() > 0 && d == old(self).items@[0]
                    && final(self).items@ == old(self).items@.skip(1),
                None => old(self).items@.len() == 0 && final(self).items@ == old(self).items@,
            },
    {
        if self.items.len() == 0 {
            None
        } else {
            let d = self.items.remove(0);
            assert(self.items@ =~= old(self).items@.skip(1));
            Some(d)
        }
    }

    /// Closes the queue: the consumer is gone, later sends must fail.
    pub fn close(&mut self)
        ensures
            final(self).closed,
            final(self).items@ == old(self).items@,
    {
        self.closed = true;
    }
}

} // verus!
