//! What the library asks of the transport, and what the transport answers.
//!
//! The library performs no transfer itself. An operation is a script, a
//! fixed sequence of transfers; whoever drives the library performs them one
//! by one and records what came of each as an event. `progress` walks a
//! script and the events side by side and says what is to be done next.

use vstd::prelude::*;

verus! {

/// The bytes of every frame written to the card.
pub const WRITE_FRAME_LEN: usize = 512;

/// The bytes of the buffer of every read from the card.
pub const READ_FRAME_LEN: usize = 8;

/// Why a transfer failed.
#[derive(Debug, PartialEq, Eq, Clone, Copy)]
pub enum TransportError {
    /// Input or output error.
    Io,
    /// Invalid parameter.
    InvalidParam,
    /// Access denied.
    Access,
    /// No such device; it may have been disconnected.
    NoDevice,
    /// Entity not found.
    NotFound,
    /// Resource busy.
    Busy,
    /// The transfer timed out.
    Timeout,
    /// Overflow.
    Overflow,
    /// The endpoint stalled.
    Pipe,
    /// A system call was interrupted.
    Interrupted,
    /// Insufficient memory.
    NoMem,
    /// Not supported on this platform.
    NotSupported,
    /// The device returned a malformed descriptor.
    BadDescriptor,
    /// Any other error.
    Other,
}

/// The three channels of the card.
#[derive(Debug, PartialEq, Eq, Clone, Copy)]
pub enum Endpoint {
    /// Takes the number of a pipe or of a register.
    CommandOut,
    /// Takes the 16 bits written to the selected pipe.
    DataOut,
    /// Gives the register that was asked for.
    StatusIn,
}

impl Endpoint {
    /// The endpoint's address on the bus.
    pub open spec fn spec_address(&self) -> u8 {
        match self {
            Endpoint::CommandOut => 0x02,
            Endpoint::DataOut => 0x04,
            Endpoint::StatusIn => 0x88,
        }
    }

    /// The endpoint's address on the bus.
    pub fn address(&self) -> (r: u8)
        ensures
            r == self.spec_address(),
    {
        match self {
            Endpoint::CommandOut => 0x02,
            Endpoint::DataOut => 0x04,
            Endpoint::StatusIn => 0x88,
        }
    }
}

/// One blocking transfer.
#[derive(Debug, PartialEq, Eq, Clone, Copy)]
pub enum Transfer {
    /// Write the whole frame to the endpoint.
    Write { endpoint: Endpoint, frame: [u8; 512] },
    /// Read from the endpoint into a buffer of eight bytes.
    Read { endpoint: Endpoint },
}

/// What came of one transfer.
#[derive(Debug, PartialEq, Eq, Clone, Copy)]
pub enum Event {
    /// The write went through.
    Written,
    /// The read went through and left this in its buffer.
    Received([u8; 8]),
    /// The transfer failed.
    Failed(TransportError),
}

impl Event {
    /// The read buffer that the event brings: all zero, as a buffer is before
    /// its read, for an event that brings none.
    pub open spec fn spec_buffer(&self) -> Seq<u8> {
        match self {
            Event::Received(buffer) => buffer@,
            _ => Seq::new(8, |i: int| 0u8),
        }
    }

    /// The read buffer that the event brings.
    pub fn buffer(&self) -> (r: [u8; 8])
        ensures
            r@ == self.spec_buffer(),
    {
        match self {
            Event::Received(buffer) => *buffer,
            _ => {
                let zero = [0u8; 8];
                assert(zero@ =~= Seq::new(8, |i: int| 0u8));
                zero
            },
        }
    }
}

/// How far an operation has come.
#[derive(Debug, PartialEq, Eq, Clone, Copy)]
pub enum Progress {
    /// This transfer is to be performed next.
    Transfer(Transfer),
    /// A transfer failed; the operation is over.
    Failed(TransportError),
    /// Every transfer of the script went through.
    Complete,
}

/// How far the events bring the script, looked at from transfer `at` on:
/// `events[i]` is what came of `script[i]`.
pub open spec fn spec_progress_from(script: Seq<Transfer>, events: Seq<Event>, at: int) -> Progress
    decreases script.len() - at,
{
    if at < 0 || at >= script.len() {
        Progress::Complete
    } else if at >= events.len() {
        Progress::Transfer(script[at])
    } else {
        match events[at] {
            Event::Failed(error) => Progress::Failed(error),
            _ => spec_progress_from(script, events, at + 1),
        }
    }
}

/// How far the events bring the script. The first failure ends the
/// operation; events beyond the script are not looked at.
pub open spec fn spec_progress(script: Seq<Transfer>, events: Seq<Event>) -> Progress {
    spec_progress_from(script, events, 0)
}

/// No event before `end` is a failure.
pub open spec fn spec_all_went_through(events: Seq<Event>, end: int) -> bool {
    forall|i: int| 0 <= i < end && i < events.len() ==> !(#[trigger] events[i] is Failed)
}

/// What `spec_progress_from` comes to, said without recursion.
pub proof fn progress_from_cases(script: Seq<Transfer>, events: Seq<Event>, at: int)
    requires
        0 <= at <= script.len(),
        at <= events.len(),
        spec_all_went_through(events, at),
    ensures
        spec_progress_from(script, events, at) is Complete <==> (events.len() >= script.len()
            && spec_all_went_through(events, script.len() as int)),
        spec_progress_from(script, events, at) matches Progress::Transfer(t) ==> (events.len()
            < script.len() && spec_all_went_through(events, events.len() as int) && t
            == script[events.len() as int]),
        spec_progress_from(script, events, at) matches Progress::Failed(e) ==> exists|i: int|
            at <= i < script.len() && i < events.len() && spec_all_went_through(events, i)
                && #[trigger] events[i] == Event::Failed(e),
    decreases script.len() - at,
{
    if at >= script.len() {
    } else if at >= events.len() {
    } else {
        match events[at] {
            Event::Failed(error) => {
                assert(events[at] == Event::Failed(error));
            },
            _ => {
                progress_from_cases(script, events, at + 1);
            },
        }
    }
}

/// An operation is complete exactly when every transfer of its script has an
/// event and none of these is a failure; it asks for the transfer that comes
/// after the last event exactly when the events so far are fewer than the
/// script and none is a failure; otherwise it has failed with the error of
/// the first failure.
pub proof fn progress_cases(script: Seq<Transfer>, events: Seq<Event>)
    ensures
        spec_progress(script, events) is Complete <==> (events.len() >= script.len()
            && spec_all_went_through(events, script.len() as int)),
        spec_progress(script, events) is Transfer <==> (events.len() < script.len()
            && spec_all_went_through(events, events.len() as int)),
        spec_progress(script, events) matches Progress::Transfer(t) ==> t
            == script[events.len() as int],
        spec_progress(script, events) matches Progress::Failed(e) ==> exists|i: int|
            0 <= i < script.len() && i < events.len() && spec_all_went_through(events, i)
                && #[trigger] events[i] == Event::Failed(e),
{
    progress_from_cases(script, events, 0);
    if events.len() < script.len() && spec_all_went_through(events, events.len() as int) {
        if let Progress::Failed(e) = spec_progress(script, events) {
            let i = choose|i: int|
                0 <= i < script.len() && i < events.len() && spec_all_went_through(events, i)
                    && #[trigger] events[i] == Event::Failed(e);
            assert(events[i] is Failed);
        }
    }
}

/// Says what is to be done next.
pub fn progress(script: &Vec<Transfer>, events: &[Event]) -> (r: Progress)
    ensures
        r == spec_progress(script@, events@),
{
    let mut at: usize = 0;
    while at < script.len()
        invariant
            at <= script.len(),
            spec_progress(script@, events@) == spec_progress_from(script@, events@, at as int),
        decreases script.len() - at,
    {
        if at >= events.len() {
            return Progress::Transfer(script[at]);
        }
        match events[at] {
            Event::Failed(error) => {
                return Progress::Failed(error);
            },
            _ => {},
        }
        at += 1;
    }
    Progress::Complete
}

} // verus!
