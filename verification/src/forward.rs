//! The line forwarder: turns what a process writes to one of its streams
//! into events for the host, one per line.
//!
//! The forwarder never reads or emits anything itself. The host hands it the
//! text as it arrives, in pieces of any size, and emits the events it gets
//! back; when the stream ends it asks for what is left.

use crate::text::{strip_line_end, stripped};
use vstd::prelude::*;

verus! {

/// The stream of a process that a forwarder listens to.
#[derive(Debug, Clone, Copy, PartialEq, Eq)]
pub enum StreamKind {
    Stdout,
    Stderr,
}

/// One line to emit: the name of the event and the line, without its terminator.
#[derive(Debug, Clone, PartialEq, Eq)]
pub struct LineEvent {
    pub event: String,
    pub payload: String,
}

/// What every event name of a stream kind begins with.
pub open spec fn event_prefix(kind: StreamKind) -> Seq<char> {
    match kind {
        StreamKind::Stdout => "mcp-stdout-"@,
        StreamKind::Stderr => "mcp-stderr-"@,
    }
}

/// The name of the events of one stream of one process.
pub open spec fn event_name_of(kind: StreamKind, server_id: Seq<char>) -> Seq<char> {
    event_prefix(kind) + server_id
}

/// Reading `chunk` after `pending`, the unfinished line so far: the lines
/// that a line feed completes, each freed of its terminators, in order, and
/// the unfinished line that is left.
pub open spec fn scan(pending: Seq<char>, chunk: Seq<char>) -> (Seq<Seq<char>>, Seq<char>)
    decreases chunk.len(),
{
    if chunk.len() == 0 {
        (Seq::empty(), pending)
    } else {
        let earlier = scan(pending, chunk.drop_last());
        if chunk.last() == '\n' {
            (earlier.0.push(stripped(earlier.1)), Seq::empty())
        } else {
            (earlier.0, earlier.1.push(chunk.last()))
        }
    }
}

/// The payloads of a list of events, in order.
pub open spec fn payloads(events: Seq<LineEvent>) -> Seq<Seq<char>> {
    events.map_values(|event: LineEvent| event.payload@)
}

/// The name of the events of one stream of one process.
pub fn event_name(kind: StreamKind, server_id: &str) -> (name: String)
    ensures
        name@ == event_name_of(kind, server_id@),
{
    let mut name = match kind {
        StreamKind::Stdout => String::from_str("mcp-stdout-"),
        StreamKind::Stderr => String::from_str("mcp-stderr-"),
    };
    name.append(server_id);
    name
}

/// The forwarder of one stream of one process.
pub struct LineForwarder {
    /// The name under which every line is emitted.
    pub event: String,
    /// What has arrived of the line that no line feed has ended yet.
    pub pending: String,
}

impl LineForwarder {
    /// A forwarder for the given stream of the process `server_id`, with
    /// nothing read yet.
    pub fn new(kind: StreamKind, server_id: &str) -> (forwarder: Self)
        ensures
            forwarder.event@ == event_name_of(kind, server_id@),
            forwarder.pending@.len() == 0,
    {
        LineForwarder { event: event_name(kind, server_id), pending: String::new() }
    }

    /// Takes in the next piece of text and hands out one event for each
    /// line that it completes, in the order of the text.
    pub fn feed(&mut self, chunk: &str) -> (events: Vec<LineEvent>)
        ensures
            final(self).event@ == old(self).event@,
            payloads(events@) == scan(old(self).pending@, chunk@).0,
            final(self).pending@ == scan(old(self).pending@, chunk@).1,
            forall|i: int|
                0 <= i < events.len() ==> (#[trigger] events[i]).event@ == old(self).event@,
    {
        let mut events: Vec<LineEvent> = Vec::new();
        let ghost start = self.pending@;
        assert(chunk@.take(0) =~= Seq::empty());
        assert(payloads(events@) =~= Seq::empty());
        for c in it: chunk.chars()
            invariant
                it.seq() == chunk@,
                self.event@ == old(self).event@,
                start == old(self).pending@,
                payloads(events@) == scan(start, chunk@.take(it.index() as int)).0,
                self.pending@ == scan(start, chunk@.take(it.index() as int)).1,
                forall|i: int|
                    0 <= i < events.len() ==> (#[trigger] events[i]).event@ == self.event@,
        {
            let ghost read = chunk@.take(it.index() + 1);
            let ghost told = payloads(events@);
            assert(read.drop_last() =~= chunk@.take(it.index() as int));
            assert(read.last() == c);
            if c == '\n' {
                let mut line = String::new();
                core::mem::swap(&mut self.pending, &mut line);
                let payload = strip_line_end(line);
                let event = LineEvent { event: self.event.clone(), payload };
                events.push(event);
                assert(payloads(events@) =~= told.push(event.payload@));
                assert(self.pending@ =~= Seq::empty());
            } else {
                self.pending.push(c);
            }
        }
        assert(chunk@.take(chunk@.len() as int) =~= chunk@);
        events
    }

    /// Ends the stream: hands out the unfinished line, if there is one, as
    /// a last event, and leaves nothing pending.
    pub fn finish(&mut self) -> (last: Option<LineEvent>)
        ensures
            final(self).event@ == old(self).event@,
            final(self).pending@.len() == 0,
            old(self).pending@.len() == 0 ==> last is None,
            old(self).pending@.len() > 0 ==> last is Some && last->0.event@ == old(self).event@
                && last->0.payload@ == stripped(old(self).pending@),
    {
        let mut line = String::new();
        core::mem::swap(&mut self.pending, &mut line);
        if line.as_str().unicode_len() == 0 {
            None
        } else {
            Some(LineEvent { event: self.event.clone(), payload: strip_line_end(line) })
        }
    }
}

} // verus!
