//! The SSH-backed transport channel: an interactive SSH shell as the
//! session's `Connection`. The secure-shell handshake and authentication are
//! outside this library; an already-authenticated shell channel is handed in
//! through `from_parts`.
//!
//! What the channel will deliver cannot be known ahead of time, so its model
//! is a ghost sequence of read events about which nothing is promised: each
//! trusted read reports its real outcome as the model's next event, and the
//! session logic above is verified for every value of the sequence. The
//! model is finite, so the read loop's termination is relative to it: a
//! device that streams non-matching data without end is answered, as ever,
//! only by closing the channel.

use vstd::prelude::*;

use crate::channel::{Connection, ReadEvent, ReadOutcome};

verus! {

#[verifier::external_type_specification]
#[verifier::external_body]
pub struct ExSession(ssh2::Session);

#[verifier::external_type_specification]
#[verifier::external_body]
pub struct ExChannel(ssh2::Channel);

/// An interactive SSH shell channel: bounded-wait reads against the SSH
/// session's timeout, writes forwarded to the channel.
pub struct SSHConnection {
    // Keeps the SSH session alive for as long as the channel is used.
    sess: ssh2::Session,
    channel: ssh2::Channel,
    /// The read events this channel will deliver; unknowable ahead of time.
    model: Ghost<Seq<ReadEvent>>,
    /// The byte groups written so far.
    written: Ghost<Seq<Seq<u8>>>,
}

impl SSHConnection {
    /// Wraps an authenticated SSH session and an open shell channel on it.
    /// The model starts at an unspecified value: nothing is promised of what
    /// the channel will deliver.
    pub fn from_parts(sess: ssh2::Session, channel: ssh2::Channel) -> (r: SSHConnection)
        ensures
            r.outgoing() == Seq::<Seq<u8>>::empty(),
            !r.reliable(),
    {
        let ghost model: Seq<ReadEvent> = vstd::pervasive::arbitrary();
        SSHConnection { sess, channel, model: Ghost(model), written: Ghost(Seq::empty()) }
    }

    /// Relies on `ssh2::Channel`'s `std::io::Read` impl: one bounded-wait
    /// read returns bytes, zero at end-of-stream, or an error, of which a
    /// timeout means only that the device sent nothing yet. Whatever comes
    /// back is, by the model's construction, the model's next event.
    #[verifier::external_body]
    fn read_raw(&mut self) -> (r: ReadOutcome)
        ensures
            final(self).outgoing() == old(self).outgoing(),
            final(self).reliable() == old(self).reliable(),
            old(self).incoming().len() == 0 ==> r@ == ReadEvent::Eof && final(self).incoming()
                == old(self).incoming(),
            old(self).incoming().len() > 0 ==> r@ == old(self).incoming()[0]
                && final(self).incoming() == old(self).incoming().drop_first(),
    {
        let mut buf = [0u8; 1024];
        match std::io::Read::read(&mut self.channel, &mut buf) {
            Ok(0) => ReadOutcome::Eof,
            Ok(n) => ReadOutcome::Data(buf[..n].to_vec()),
            Err(ref e) if e.kind() == std::io::ErrorKind::TimedOut => ReadOutcome::TimedOut,
            Err(e) => ReadOutcome::Fault(e.to_string()),
        }
    }

    /// Relies on `ssh2::Channel`'s `std::io::Write::write_all`: on success
    /// all of `data` was handed to the channel.
    #[verifier::external_body]
    fn write_raw(&mut self, data: &[u8]) -> (r: Result<(), String>)
        ensures
            final(self).incoming() == old(self).incoming(),
            final(self).reliable() == old(self).reliable(),
            old(self).reliable() ==> r is Ok,
            r is Ok ==> final(self).outgoing() == old(self).outgoing().push(data@),
            r is Err ==> final(self).outgoing() == old(self).outgoing(),
    {
        match std::io::Write::write_all(&mut self.channel, data) {
            Ok(()) => Ok(()),
            Err(e) => Err(e.to_string()),
        }
    }

    /// Relies on `ssh2::Channel`'s `std::io::Write::flush`.
    #[verifier::external_body]
    fn flush_raw(&mut self) -> (r: Result<(), String>)
        ensures
            final(self).incoming() == old(self).incoming(),
            final(self).outgoing() == old(self).outgoing(),
            final(self).reliable() == old(self).reliable(),
            old(self).reliable() ==> r is Ok,
    {
        match std::io::Write::flush(&mut self.channel) {
            Ok(()) => Ok(()),
            Err(e) => Err(e.to_string()),
        }
    }
}

impl Connection for SSHConnection {
    closed spec fn incoming(&self) -> Seq<ReadEvent> {
        self.model@
    }

    closed spec fn outgoing(&self) -> Seq<Seq<u8>> {
        self.written@
    }

    /// An SSH write can fail, so nothing promises that it will not.
    closed spec fn reliable(&self) -> bool {
        false
    }

    fn read_chunk(&mut self) -> (r: ReadOutcome) {
        self.read_raw()
    }

    fn write_all(&mut self, data: &[u8]) -> (r: Result<(), String>) {
        self.write_raw(data)
    }

    fn flush(&mut self) -> (r: Result<(), String>) {
        self.flush_raw()
    }
}

} // verus!
