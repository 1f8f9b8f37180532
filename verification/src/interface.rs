//! Transport abstraction for the controller's command/data protocol.
//!
//! The controller distinguishes command bytes from data bytes with a
//! single select line. A transport therefore offers two channels, one
//! for command bytes and one for data bytes. What a transport has
//! transmitted is modelled as a sequence of [`Tx`] events, and every
//! driver operation's contract states exactly which events it appends.

use vstd::prelude::*;

verus! {

/// One transmission on the transport: either a single byte sent on the
/// command channel or a run of bytes sent on the data channel.
#[verifier::ext_equal]
pub enum Tx {
    /// A byte sent with the select line in command state.
    Cmd(u8),
    /// Bytes sent with the select line in data state.
    Dat(Seq<u8>),
}

/// A write-only channel pair to the display controller.
///
/// Implementations drive a concrete bus (SPI, parallel, a recording
/// stub). The ghost [`Self::log`] is the sequence of everything the
/// transport has transmitted; a successful send appends exactly one
/// event to it. A failed send surfaces as `Err(())` and promises
/// nothing about the log: a bus error at this layer is unrecoverable
/// and the caller aborts the current operation.
pub trait DisplayInterface: Sized {
    /// Everything transmitted so far, oldest first. The default, an
    /// empty log, is for transports outside the verified library; a
    /// verified transport gives its own.
    open spec fn log(&self) -> Seq<Tx> {
        Seq::empty()
    }

    /// Send one byte on the command channel.
    fn send_command(&mut self, cmd: u8) -> (r: Result<(), ()>)
        ensures
            r is Ok ==> final(self).log() == old(self).log().push(Tx::Cmd(cmd)),
    ;

    /// Send a run of bytes on the data channel.
    fn send_data(&mut self, buf: &[u8]) -> (r: Result<(), ()>)
        ensures
            r is Ok ==> final(self).log() == old(self).log().push(Tx::Dat(buf@)),
    ;
}

/// One event captured by a [`RecordingInterface`].
#[derive(Debug, PartialEq, Eq)]
pub enum Recorded {
    /// A byte that was sent on the command channel.
    Command(u8),
    /// Bytes that were sent on the data channel.
    Data(Vec<u8>),
}

impl View for Recorded {
    type V = Tx;

    open spec fn view(&self) -> Tx {
        match self {
            Recorded::Command(c) => Tx::Cmd(*c),
            Recorded::Data(v) => Tx::Dat(v@),
        }
    }
}

/// A transport that transmits nothing and records every event.
///
/// It never fails, so a driver run against it exercises exactly the
/// success path of every contract, and the recorded events are the
/// byte-for-byte trace a real bus would have carried.
pub struct RecordingInterface {
    /// The captured events, oldest first.
    pub events: Vec<Recorded>,
}

impl RecordingInterface {
    /// Create a recording transport with an empty log.
    pub fn new() -> (r: Self)
        ensures
            r.log() == Seq::<Tx>::empty(),
            r.events@ == Seq::<Recorded>::empty(),
    {
        let r = RecordingInterface { events: Vec::new() };
        proof {
            assert(r.log() =~= Seq::<Tx>::empty());
        }
        r
    }
}

/// Copy a byte slice into an owned vector.
fn copy_bytes(buf: &[u8]) -> (r: Vec<u8>)
    ensures
        r@ == buf@,
{
    let mut r: Vec<u8> = Vec::new();
    let mut i: usize = 0;
    while i < buf.len()
        invariant
            i <= buf@.len(),
            r@ == buf@.subrange(0, i as int),
        decreases buf@.len() - i,
    {
        r.push(buf[i]);
        proof {
            assert(r@ =~= buf@.subrange(0, i + 1));
        }
        i = i + 1;
    }
    proof {
        assert(r@ =~= buf@);
    }
    r
}

impl DisplayInterface for RecordingInterface {
    open spec fn log(&self) -> Seq<Tx> {
        self.events@.map_values(|e: Recorded| e@)
    }

    fn send_command(&mut self, cmd: u8) -> (r: Result<(), ()>) {
        self.events.push(Recorded::Command(cmd));
        proof {
            assert(self.log() =~= old(self).log().push(Tx::Cmd(cmd)));
        }
        Ok(())
    }

    fn send_data(&mut self, buf: &[u8]) -> (r: Result<(), ()>) {
        let copied: Vec<u8> = copy_bytes(buf);
        self.events.push(Recorded::Data(copied));
        proof {
            assert(self.log() =~= old(self).log().push(Tx::Dat(buf@)));
        }
        Ok(())
    }
}

} // verus!
