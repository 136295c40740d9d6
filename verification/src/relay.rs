//! The duplex relay state machine.
//!
//! One `RelayEngine` drives one relayed connection. The surrounding service
//! owns the two byte streams and the async runtime; it races a read on each
//! stream, reports the outcome of the race to the engine, and carries out the
//! action the engine decides on (forward-and-flush a chunk, or tear the
//! connection down). The engine owns every decision of the copy loop: EOF on
//! either side ends the whole relay, any read, write or flush error ends it
//! with that error recorded, and the teardown directive — decrement the
//! active-connection gauge, then log the end line — is issued exactly once,
//! whichever of the four exit paths is taken.

use vstd::prelude::*;
use crate::connection::{ConnectionInfo, ConnectionStats};

verus! {

/// Which of the two racing reads completed first, and how many bytes it
/// produced. Zero bytes means that side reached EOF.
pub enum DuplexEvent {
    DownstreamRead(usize),
    UpstreamRead(usize),
}

/// Where the engine stands between calls.
pub enum RelayPhase {
    /// Built, start line not yet emitted.
    Created,
    /// Racing the two reads; the next report is a read outcome.
    Relaying,
    /// A chunk is being written and flushed; the next report is its outcome.
    Forwarding { to_upstream: bool, len: usize },
    /// Torn down; no further step is permitted.
    Finished,
}

/// What the surrounding service must do next after reporting a read.
pub enum RelayStep {
    /// Write the first `len` bytes just read to the other stream and flush,
    /// then report the outcome.
    Forward { to_upstream: bool, len: usize },
    /// The relay is over: decrement the active-connection gauge once, then
    /// log the end line.
    Stop,
}

/// The relay state machine for one connection.
pub struct RelayEngine {
    pub info: ConnectionInfo,
    pub stats: ConnectionStats,
    pub phase: RelayPhase,
    /// The error that ended the relay, if it ended on one.
    pub end_error: Option<String>,
    /// How many start lines have been handed out (0 or 1).
    pub start_lines: Ghost<nat>,
    /// How many teardown directives (gauge decrement + end line) have been
    /// issued (0 or 1).
    pub teardowns: Ghost<nat>,
}

impl RelayEngine {
    /// The invariant every method preserves: the start line is handed out
    /// exactly on leaving `Created`, the teardown directive exactly on
    /// entering `Finished`, an error is only recorded by a teardown, and no
    /// bytes are counted before the start.
    pub open spec fn wf(&self) -> bool {
        &&& self.start_lines@ == (if self.phase is Created {
            0nat
        } else {
            1nat
        })
        &&& self.teardowns@ == (if self.phase is Finished {
            1nat
        } else {
            0nat
        })
        &&& (self.end_error is Some ==> self.phase is Finished)
        &&& (self.phase is Created ==> self.stats.bytes_sent == 0 && self.stats.bytes_received
            == 0)
    }

    /// The error view for the end log line.
    pub open spec fn end_error_view(&self) -> Option<Seq<char>> {
        match self.end_error {
            Some(m) => Some(m@),
            None => None,
        }
    }

    pub fn new(info: ConnectionInfo) -> (e: Self)
        ensures
            e.wf(),
            e.phase is Created,
            e.info == info,
            e.stats.bytes_sent == 0,
            e.stats.bytes_received == 0,
            e.end_error is None,
            e.start_lines@ == 0,
            e.teardowns@ == 0,
    {
        RelayEngine {
            info,
            stats: ConnectionStats::new(),
            phase: RelayPhase::Created,
            end_error: None,
            start_lines: Ghost(0nat),
            teardowns: Ghost(0nat),
        }
    }

    /// Hand out the establishment line. Called once, before any I/O.
    pub fn start(&mut self) -> (line: String)
        requires
            old(self).wf(),
            old(self).phase is Created,
        ensures
            final(self).wf(),
            final(self).phase is Relaying,
            final(self).info == old(self).info,
            final(self).stats == old(self).stats,
            final(self).end_error is None,
            final(self).start_lines@ == old(self).start_lines@ + 1,
            final(self).teardowns@ == old(self).teardowns@,
            line@ == old(self).info.spec_log_start(),
    {
        self.phase = RelayPhase::Relaying;
        self.start_lines = Ghost(self.start_lines@ + 1);
        self.info.log_start()
    }

    /// Report which read won the race and with how many bytes. A zero-byte
    /// read is EOF and ends the whole relay gracefully; a positive read is
    /// counted and must be forwarded to the other stream.
    pub fn on_read(&mut self, ev: DuplexEvent) -> (step: RelayStep)
        requires
            old(self).wf(),
            old(self).phase is Relaying,
        ensures
            final(self).wf(),
            final(self).info == old(self).info,
            final(self).start_lines@ == old(self).start_lines@,
            final(self).teardowns@ == old(self).teardowns@ + (if final(self).phase is Finished {
                1int
            } else {
                0int
            }),
            match ev {
                DuplexEvent::DownstreamRead(n) => if n == 0 {
                    &&& final(self).phase is Finished
                    &&& final(self).end_error is None
                    &&& final(self).stats == old(self).stats
                    &&& step == RelayStep::Stop
                } else {
                    &&& final(self).phase == (RelayPhase::Forwarding {
                        to_upstream: true,
                        len: n,
                    })
                    &&& final(self).end_error is None
                    &&& final(self).stats.bytes_received == old(
                        self,
                    ).stats.bytes_received.saturating_add(n as u64)
                    &&& final(self).stats.bytes_sent == old(self).stats.bytes_sent
                    &&& step == (RelayStep::Forward { to_upstream: true, len: n })
                },
                DuplexEvent::UpstreamRead(n) => if n == 0 {
                    &&& final(self).phase is Finished
                    &&& final(self).end_error is None
                    &&& final(self).stats == old(self).stats
                    &&& step == RelayStep::Stop
                } else {
                    &&& final(self).phase == (RelayPhase::Forwarding {
                        to_upstream: false,
                        len: n,
                    })
                    &&& final(self).end_error is None
                    &&& final(self).stats.bytes_sent == old(
                        self,
                    ).stats.bytes_sent.saturating_add(n as u64)
                    &&& final(self).stats.bytes_received == old(self).stats.bytes_received
                    &&& step == (RelayStep::Forward { to_upstream: false, len: n })
                },
            },
    {
        match ev {
            DuplexEvent::DownstreamRead(n) => {
                if n == 0 {
                    self.phase = RelayPhase::Finished;
                    self.teardowns = Ghost(self.teardowns@ + 1);
                    RelayStep::Stop
                } else {
                    self.stats.add_received(n);
                    self.phase = RelayPhase::Forwarding { to_upstream: true, len: n };
                    RelayStep::Forward { to_upstream: true, len: n }
                }
            },
            DuplexEvent::UpstreamRead(n) => {
                if n == 0 {
                    self.phase = RelayPhase::Finished;
                    self.teardowns = Ghost(self.teardowns@ + 1);
                    RelayStep::Stop
                } else {
                    self.stats.add_sent(n);
                    self.phase = RelayPhase::Forwarding { to_upstream: false, len: n };
                    RelayStep::Forward { to_upstream: false, len: n }
                }
            },
        }
    }

    /// Report that the read race itself failed. Ends the relay with the
    /// error recorded; the teardown directive is issued with this call.
    pub fn on_read_error(&mut self, message: String)
        requires
            old(self).wf(),
            old(self).phase is Relaying,
        ensures
            final(self).wf(),
            final(self).phase is Finished,
            final(self).info == old(self).info,
            final(self).stats == old(self).stats,
            final(self).end_error == Some(message),
            final(self).start_lines@ == old(self).start_lines@,
            final(self).teardowns@ == old(self).teardowns@ + 1,
    {
        self.phase = RelayPhase::Finished;
        self.end_error = Some(message);
        self.teardowns = Ghost(self.teardowns@ + 1);
    }

    /// Report that the forwarded chunk was written and flushed; the race
    /// resumes.
    pub fn on_forward_ok(&mut self)
        requires
            old(self).wf(),
            old(self).phase is Forwarding,
        ensures
            final(self).wf(),
            final(self).phase is Relaying,
            final(self).info == old(self).info,
            final(self).stats == old(self).stats,
            final(self).end_error is None,
            final(self).start_lines@ == old(self).start_lines@,
            final(self).teardowns@ == old(self).teardowns@,
    {
        self.phase = RelayPhase::Relaying;
    }

    /// Report that writing or flushing the forwarded chunk failed. Ends the
    /// relay with the error recorded; the teardown directive is issued with
    /// this call.
    pub fn on_forward_error(&mut self, message: String)
        requires
            old(self).wf(),
            old(self).phase is Forwarding,
        ensures
            final(self).wf(),
            final(self).phase is Finished,
            final(self).info == old(self).info,
            final(self).stats == old(self).stats,
            final(self).end_error == Some(message),
            final(self).start_lines@ == old(self).start_lines@,
            final(self).teardowns@ == old(self).teardowns@ + 1,
    {
        self.phase = RelayPhase::Finished;
        self.end_error = Some(message);
        self.teardowns = Ghost(self.teardowns@ + 1);
    }

    /// Build the end-of-connection line from the accumulated state.
    /// `remaining` is the active-connection gauge after the decrement that
    /// the teardown directive ordered.
    pub fn end_line(&self, remaining: u64, now_millis: u64) -> (line: String)
        requires
            self.phase is Finished,
        ensures
            line@ == self.info.spec_log_end(
                self.stats.bytes_sent,
                self.stats.bytes_received,
                self.end_error_view(),
                remaining,
                now_millis,
            ),
    {
        match &self.end_error {
            Some(m) => self.info.log_end(
                self.stats.bytes_sent,
                self.stats.bytes_received,
                Some(m.as_str()),
                remaining,
                now_millis,
            ),
            None => self.info.log_end(
                self.stats.bytes_sent,
                self.stats.bytes_received,
                None,
                remaining,
                now_millis,
            ),
        }
    }
}

/// Law: teardown accounting is exactly once. However a well-formed relay
/// instance got where it is, it has issued at most one teardown directive
/// (gauge decrement plus end line) and at most one start line, it never
/// issues a teardown before the start line, a finished relay has issued
/// exactly one of each, and an unfinished one has decremented nothing.
pub proof fn lemma_teardown_exactly_once(e: RelayEngine)
    requires
        e.wf(),
    ensures
        e.teardowns@ <= 1,
        e.start_lines@ <= 1,
        e.teardowns@ <= e.start_lines@,
        e.phase is Finished ==> e.teardowns@ == 1 && e.start_lines@ == 1,
        !(e.phase is Finished) ==> e.teardowns@ == 0,
        e.start_lines@ == 0 ==> e.teardowns@ == 0,
{
}

} // verus!
