//! The diagnostics channel: a registration that ties a callback to one
//! instance and routes matching driver messages to a log sink.
//!
//! The driver may run the callback on a thread of its own at any time after
//! the channel is attached, and the message buffer it hands over is a
//! nul-terminated byte string valid only for the duration of the call.  The
//! callback therefore copies the bytes into an owned line exactly once, its
//! only side effect is appending that line to the sink, and it always answers
//! that the triggering command must not be aborted.

use vstd::prelude::*;

use crate::instance::GraphicsInstance;

verus! {

/// Diagnostic events about outright errors.
pub const SEVERITY_ERROR: u32 = 1;

/// Diagnostic events about suspicious but legal use.
pub const SEVERITY_WARNING: u32 = 2;

/// Diagnostic events about legal use that is likely to be slow.
pub const SEVERITY_PERFORMANCE_WARNING: u32 = 4;

/// The destination of diagnostic lines.  Printing the lines is the
/// embedding program's business; the library only appends owned copies.
#[derive(Debug)]
pub struct DiagnosticSink {
    pub lines: Vec<Vec<u8>>,
}

/// A diagnostics registration on one instance.  Its lifetime is nested
/// inside the instance's: it is attached right after the instance is built
/// and released before the instance goes away.  `emitted` counts the events
/// that matched `severity` and were routed to a sink.
#[derive(Debug)]
pub struct DebugChannel {
    pub instance_stamp: u64,
    pub severity: u32,
    pub emitted: u64,
}

/// `line` is `msg` cut at its first nul byte (or all of `msg` if none).
pub open spec fn truncated_at_nul(line: Seq<u8>, msg: Seq<u8>) -> bool {
    &&& line.len() <= msg.len()
    &&& forall|i: int| 0 <= i < line.len() ==> line[i] == msg[i] && msg[i] != 0
    &&& line.len() < msg.len() ==> msg[line.len() as int] == 0
}

impl DiagnosticSink {
    /// An empty sink.
    pub fn new() -> (s: DiagnosticSink)
        ensures
            s.lines@ =~= Seq::<Vec<u8>>::empty(),
    {
        DiagnosticSink { lines: Vec::new() }
    }
}

/// The owned copy of a borrowed message buffer: its bytes up to, and not
/// including, the first nul terminator.
pub fn owned_message(msg: &Vec<u8>) -> (line: Vec<u8>)
    ensures
        truncated_at_nul(line@, msg@),
{
    let mut line: Vec<u8> = Vec::new();
    let mut i: usize = 0;
    while i < msg.len()
        invariant
            i <= msg.len(),
            line@.len() == i,
            forall|k: int| 0 <= k < i ==> line@[k] == msg@[k] && msg@[k] != 0,
        decreases msg.len() - i,
    {
        if msg[i] == 0 {
            return line;
        }
        line.push(msg[i]);
        i += 1;
    }
    line
}

/// Ties a fresh diagnostics registration to `instance` for the events named
/// by `severity`.
pub fn attach(instance: &GraphicsInstance, severity: u32) -> (c: DebugChannel)
    ensures
        c.instance_stamp == instance.stamp,
        c.severity == severity,
        c.emitted == 0,
{
    DebugChannel { instance_stamp: instance.stamp, severity, emitted: 0 }
}

impl DebugChannel {
    /// The callback body: given one diagnostic event, append an owned copy
    /// of its message to the sink when the severity matches, and always
    /// answer `false`, never asking the driver to abort the triggering
    /// command.
    pub fn dispatch(&mut self, sink: &mut DiagnosticSink, severity: u32, msg: &Vec<u8>) -> (abort:
        bool)
        requires
            old(self).emitted < u64::MAX,
        ensures
            !abort,
            final(self).instance_stamp == old(self).instance_stamp,
            final(self).severity == old(self).severity,
            old(self).severity & severity != 0 ==> {
                &&& final(self).emitted == old(self).emitted + 1
                &&& final(sink).lines@.len() == old(sink).lines@.len() + 1
                &&& final(sink).lines@.subrange(0, old(sink).lines@.len() as int) == old(
                    sink,
                ).lines@
                &&& truncated_at_nul(final(sink).lines@.last()@, msg@)
            },
            old(self).severity & severity == 0 ==> {
                &&& final(self).emitted == old(self).emitted
                &&& final(sink).lines@ == old(sink).lines@
            },
    {
        if self.severity & severity != 0 {
            let line = owned_message(msg);
            sink.lines.push(line);
            self.emitted += 1;
            proof {
                assert(sink.lines@.subrange(0, old(sink).lines@.len() as int) =~= old(
                    sink,
                ).lines@);
            }
        }
        false
    }
}

} // verus!
