//! What a receiving worker does with each read, and how a message type is
//! read from a datagram.

use vstd::prelude::*;

use crate::error::{SSDPError, SSDPErrorView};

verus! {

/// A type that can be read from the bytes of an SSDP datagram.
pub trait FromRawSSDP: Sized + View {
    /// The value, or the error, that the bytes make.
    spec fn spec_from_raw(b: Seq<u8>) -> Result<Self::V, SSDPErrorView>;

    fn raw_ssdp(bytes: &[u8]) -> (r: Result<Self, SSDPError>)
        ensures
            match r {
                Ok(m) => Self::spec_from_raw(bytes@) == Ok::<Self::V, SSDPErrorView>(m@),
                Err(e) => Self::spec_from_raw(bytes@) == Err::<Self::V, SSDPErrorView>(e@),
            },
    ;
}

/// What a read on a receiving socket gave.
#[derive(Copy, Clone, PartialEq, Eq, Debug)]
pub enum ReadOutcome {
    /// A datagram arrived; `parsed` tells whether it read as a message.
    Datagram { parsed: bool },
    /// The read timeout passed without a datagram.
    TimedOut,
    /// The read failed otherwise.
    Failed,
}

/// What a receiving worker does next.
#[derive(Copy, Clone, PartialEq, Eq, Debug)]
pub enum WorkerStep {
    /// Hand the message on, then read again.
    Deliver,
    /// Drop what was read, then read again.
    Skip,
    /// End the worker.
    Stop,
}

/// A worker hands on each message it reads, drops datagrams that do not parse
/// and reads that fail, and ends when its read timeout passes.
pub open spec fn spec_worker_step(read: ReadOutcome) -> WorkerStep {
    match read {
        ReadOutcome::Datagram { parsed } => if parsed {
            WorkerStep::Deliver
        } else {
            WorkerStep::Skip
        },
        ReadOutcome::TimedOut => WorkerStep::Stop,
        ReadOutcome::Failed => WorkerStep::Skip,
    }
}

/// A worker ends only when its read timeout passes: neither a datagram that
/// does not parse nor a failed read ends it, and every parsed message is
/// handed on.
pub proof fn lemma_worker_stops_only_on_timeout(read: ReadOutcome)
    ensures
        spec_worker_step(read) == WorkerStep::Stop <==> read == ReadOutcome::TimedOut,
        spec_worker_step(read) == WorkerStep::Deliver <==> read == (ReadOutcome::Datagram { parsed: true }),
{
}

/// What a worker does after a read.
pub fn worker_step(read: ReadOutcome) -> (r: WorkerStep)
    ensures
        r == spec_worker_step(read),
{
    match read {
        ReadOutcome::Datagram { parsed } => if parsed {
            WorkerStep::Deliver
        } else {
            WorkerStep::Skip
        },
        ReadOutcome::TimedOut => WorkerStep::Stop,
        ReadOutcome::Failed => WorkerStep::Skip,
    }
}

} // verus!
