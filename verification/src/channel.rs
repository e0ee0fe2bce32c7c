//! The transport boundary: an authenticated duplex byte channel with a
//! bounded-wait read, and a scripted in-memory channel that simulates a
//! device for tests.

use vstd::prelude::*;

verus! {

/// One outcome of a bounded-wait read on the transport channel.
pub enum ReadOutcome {
    /// Bytes arrived.
    Data(Vec<u8>),
    /// The peer closed the stream.
    Eof,
    /// No data arrived within the timeout.
    TimedOut,
    /// The transport failed; the message describes how.
    Fault(String),
}

/// The mathematical face of a read outcome.
pub enum ReadEvent {
    Data(Seq<u8>),
    Eof,
    TimedOut,
    Fault(Seq<char>),
}

impl View for ReadOutcome {
    type V = ReadEvent;

    open spec fn view(&self) -> ReadEvent {
        match self {
            ReadOutcome::Data(v) => ReadEvent::Data(v@),
            ReadOutcome::Eof => ReadEvent::Eof,
            ReadOutcome::TimedOut => ReadEvent::TimedOut,
            ReadOutcome::Fault(m) => ReadEvent::Fault(m@),
        }
    }
}

/// An authenticated duplex byte channel with a bounded-wait read: the
/// transport a device session runs over. A channel is modelled by the read
/// events it will deliver (`incoming`) and the byte groups written to it so
/// far (`outgoing`); a `reliable` channel is one whose writes are known to
/// succeed, such as the scripted one below.
pub trait Connection: Sized {
    /// The read events this channel will deliver, in order.
    spec fn incoming(&self) -> Seq<ReadEvent>;

    /// The byte groups written to this channel so far.
    spec fn outgoing(&self) -> Seq<Seq<u8>>;

    /// Whether writes on this channel are known to succeed.
    spec fn reliable(&self) -> bool;

    /// One bounded-wait read: delivers the next event, end-of-stream once
    /// the events are exhausted.
    fn read_chunk(&mut self) -> (r: ReadOutcome)
        ensures
            final(self).outgoing() == old(self).outgoing(),
            final(self).reliable() == old(self).reliable(),
            old(self).incoming().len() == 0 ==> r@ == ReadEvent::Eof && final(self).incoming()
                == old(self).incoming(),
            old(self).incoming().len() > 0 ==> r@ == old(self).incoming()[0]
                && final(self).incoming() == old(self).incoming().drop_first(),
    ;

    /// Writes all of `data`; on failure reports a message.
    fn write_all(&mut self, data: &[u8]) -> (r: Result<(), String>)
        ensures
            final(self).incoming() == old(self).incoming(),
            final(self).reliable() == old(self).reliable(),
            old(self).reliable() ==> r is Ok,
            r is Ok ==> final(self).outgoing() == old(self).outgoing().push(data@),
            r is Err ==> final(self).outgoing() == old(self).outgoing(),
    ;

    /// Flushes buffered writes; on failure reports a message.
    fn flush(&mut self) -> (r: Result<(), String>)
        ensures
            final(self).incoming() == old(self).incoming(),
            final(self).outgoing() == old(self).outgoing(),
            final(self).reliable() == old(self).reliable(),
            old(self).reliable() ==> r is Ok,
    ;
}

/// A channel that replays a fixed script of read events and records every
/// write: a simulated device.
pub struct ScriptedChannel {
    script: Vec<ReadOutcome>,
    sent: Vec<Vec<u8>>,
}

impl ScriptedChannel {
    pub fn new(script: Vec<ReadOutcome>) -> (r: ScriptedChannel)
        ensures
            r.incoming() == script@.map_values(|o: ReadOutcome| o@),
            r.outgoing() == Seq::<Seq<u8>>::empty(),
            r.reliable(),
    {
        let r = ScriptedChannel { script, sent: Vec::new() };
        proof {
            assert(r.sent@.map_values(|v: Vec<u8>| v@) =~= Seq::<Seq<u8>>::empty());
        }
        r
    }

    /// The byte groups written so far, for a test to inspect.
    pub fn sent(&self) -> (r: &Vec<Vec<u8>>)
        ensures
            r@.map_values(|v: Vec<u8>| v@) == self.outgoing(),
    {
        &self.sent
    }
}

impl Connection for ScriptedChannel {
    closed spec fn incoming(&self) -> Seq<ReadEvent> {
        self.script@.map_values(|o: ReadOutcome| o@)
    }

    closed spec fn outgoing(&self) -> Seq<Seq<u8>> {
        self.sent@.map_values(|v: Vec<u8>| v@)
    }

    closed spec fn reliable(&self) -> bool {
        true
    }

    fn read_chunk(&mut self) -> (r: ReadOutcome)
        ensures
            final(self).outgoing() == old(self).outgoing(),
            final(self).reliable() == old(self).reliable(),
            old(self).incoming().len() == 0 ==> r@ == ReadEvent::Eof && final(self).incoming()
                == old(self).incoming(),
            old(self).incoming().len() > 0 ==> r@ == old(self).incoming()[0]
                && final(self).incoming() == old(self).incoming().drop_first(),
    {
        if self.script.len() == 0 {
            ReadOutcome::Eof
        } else {
            let r = self.script.remove(0);
            proof {
                assert(self.script@.map_values(|o: ReadOutcome| o@) =~= old(
                    self,
                ).script@.map_values(|o: ReadOutcome| o@).drop_first());
            }
            r
        }
    }

    fn write_all(&mut self, data: &[u8]) -> (r: Result<(), String>)
        ensures
            final(self).incoming() == old(self).incoming(),
            final(self).reliable() == old(self).reliable(),
            old(self).reliable() ==> r is Ok,
            r is Ok ==> final(self).outgoing() == old(self).outgoing().push(data@),
            r is Err ==> final(self).outgoing() == old(self).outgoing(),
    {
        let copy = vstd::slice::slice_to_vec(data);
        self.sent.push(copy);
        proof {
            assert(self.sent@.map_values(|v: Vec<u8>| v@) =~= old(self).sent@.map_values(
                |v: Vec<u8>| v@,
            ).push(data@));
        }
        Ok(())
    }

    fn flush(&mut self) -> (r: Result<(), String>)
        ensures
            final(self).incoming() == old(self).incoming(),
            final(self).outgoing() == old(self).outgoing(),
            final(self).reliable() == old(self).reliable(),
            old(self).reliable() ==> r is Ok,
    {
        Ok(())
    }
}

} // verus!
