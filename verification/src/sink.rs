//! The transmission side of the probe sweep.
//!
//! A `ProbeSink` is the socket collaborator: it accepts finished packet
//! bytes and paces the sweep. Its contract speaks of the sequence of events
//! it has witnessed, so the sweep's behaviour — which packets were handed
//! over, in what order, with what pauses between them — is pinned down
//! whatever the sink does with the bytes. `RecordingSink` is an in-memory,
//! verified sink that keeps every event and can simulate send failures.

use vstd::prelude::*;

verus! {

/// A send failure reported by a sink for one probe; the sweep treats it as
/// recoverable and goes on to the next TTL.
#[derive(Clone, Copy, Debug, PartialEq, Eq, Structural)]
pub struct SendError;

/// One event witnessed by a sink: a packet handed over (with whether the
/// sink accepted it), or a pause of so many milliseconds.
pub enum SinkEvent {
    Send { packet: Seq<u8>, accepted: bool },
    Pause { millis: u64 },
}

/// Whether an event is the handing over of exactly the packet `p`,
/// accepted or not.
pub open spec fn is_send_of(e: SinkEvent, p: Seq<u8>) -> bool {
    e matches SinkEvent::Send { packet, .. } && packet == p
}

/// Whether an event is a send that the sink accepted.
pub open spec fn send_accepted(e: SinkEvent) -> bool {
    e matches SinkEvent::Send { accepted, .. } && accepted
}

/// Whether an event is a pause of exactly `millis` milliseconds.
pub open spec fn is_pause_of(e: SinkEvent, millis: u64) -> bool {
    e matches SinkEvent::Pause { millis: m } && m == millis
}

/// The send capability the sweep drives: hand a finished packet over, and
/// pause between probes. Each call appends exactly one event to the sink's
/// history, so a caller's contract can speak of everything the sink was
/// asked to do.
pub trait ProbeSink: Sized {
    /// The events this sink has witnessed, oldest first. The default is an
    /// empty history, so a sink outside the verified world need only supply
    /// the two executable methods; a verified sink overrides it with its
    /// real history.
    open spec fn events(&self) -> Seq<SinkEvent> {
        Seq::empty()
    }

    /// Hands one finished packet to the sink. `Ok` carries the number of
    /// bytes written; `Err` is a per-probe, recoverable failure.
    fn send(&mut self, packet: &Vec<u8>) -> (r: Result<usize, SendError>)
        ensures
            final(self).events() == old(self).events().push(
                SinkEvent::Send { packet: packet@, accepted: r is Ok },
            ),
    ;

    /// Pauses the sweep for `millis` milliseconds.
    fn pause(&mut self, millis: u64)
        ensures
            final(self).events() == old(self).events().push(SinkEvent::Pause { millis }),
    ;
}

/// One record kept by `RecordingSink`: the concrete counterpart of
/// `SinkEvent`.
#[derive(Clone, Debug)]
pub enum ProbeRecord {
    Sent { packet: Vec<u8>, accepted: bool },
    Paused { millis: u64 },
}

impl View for ProbeRecord {
    type V = SinkEvent;

    open spec fn view(&self) -> SinkEvent {
        match self {
            ProbeRecord::Sent { packet, accepted } => SinkEvent::Send {
                packet: packet@,
                accepted: *accepted,
            },
            ProbeRecord::Paused { millis } => SinkEvent::Pause { millis: *millis },
        }
    }
}

/// An in-memory sink: keeps every packet and pause it is handed, and can be
/// told to refuse one send (by its position among the sends) to simulate a
/// transient failure.
pub struct RecordingSink {
    /// Every event witnessed so far, oldest first.
    pub log: Vec<ProbeRecord>,
    /// The position (0-based, among sends only) of the one send to refuse.
    pub fail_on: Option<usize>,
    /// How many sends have been attempted so far.
    pub sends: usize,
}

impl RecordingSink {
    /// A sink that accepts every send.
    pub fn new() -> (s: RecordingSink)
        ensures
            s.events() == Seq::<SinkEvent>::empty(),
            s.fail_on is None,
            s.sends == 0,
    {
        let s = RecordingSink { log: Vec::new(), fail_on: None, sends: 0 };
        proof {
            assert(s.events() =~= Seq::<SinkEvent>::empty());
        }
        s
    }

    /// A sink that refuses exactly its `index`-th send (0-based) and
    /// accepts every other.
    pub fn failing_at(index: usize) -> (s: RecordingSink)
        ensures
            s.events() == Seq::<SinkEvent>::empty(),
            s.fail_on == Some(index),
            s.sends == 0,
    {
        let s = RecordingSink { log: Vec::new(), fail_on: Some(index), sends: 0 };
        proof {
            assert(s.events() =~= Seq::<SinkEvent>::empty());
        }
        s
    }

    /// Copies packet bytes into an owned buffer for the log.
    fn copy_bytes(packet: &Vec<u8>) -> (r: Vec<u8>)
        ensures
            r@ == packet@,
    {
        let mut out: Vec<u8> = Vec::new();
        let mut i: usize = 0;
        while i < packet.len()
            invariant
                0 <= i <= packet@.len(),
                out@ == packet@.subrange(0, i as int),
            decreases packet@.len() - i,
        {
            out.push(packet[i]);
            proof {
                assert(out@ =~= packet@.subrange(0, i + 1));
            }
            i = i + 1;
        }
        proof {
            assert(out@ =~= packet@);
        }
        out
    }
}

impl ProbeSink for RecordingSink {
    open spec fn events(&self) -> Seq<SinkEvent> {
        self.log@.map_values(|r: ProbeRecord| r@)
    }

    fn send(&mut self, packet: &Vec<u8>) -> (r: Result<usize, SendError>) {
        let accepted = match self.fail_on {
            Some(index) => index != self.sends,
            None => true,
        };
        let copied = Self::copy_bytes(packet);
        self.log.push(ProbeRecord::Sent { packet: copied, accepted });
        self.sends = if self.sends < usize::MAX {
            self.sends + 1
        } else {
            self.sends
        };
        proof {
            assert(self.events() =~= old(self).events().push(
                SinkEvent::Send { packet: packet@, accepted },
            ));
        }
        if accepted {
            Ok(packet.len())
        } else {
            Err(SendError)
        }
    }

    fn pause(&mut self, millis: u64) {
        self.log.push(ProbeRecord::Paused { millis });
        proof {
            assert(self.events() =~= old(self).events().push(SinkEvent::Pause { millis }));
        }
    }
}

} // verus!
