//! Decisions of purging a peer's receive queue.
//!
//! A purge switches the transport to non-blocking mode, receives and discards
//! datagrams until none is ready, and then restores blocking mode. The
//! transport calls are made by the caller; these functions decide what
//! follows each of them.
use vstd::prelude::*;

verus! {

/// Outcome of one non-blocking receive.
pub enum PurgeEvent<E> {
    /// A datagram was received and discarded.
    Received,
    /// No datagram was ready.
    WouldBlock,
    /// The receive failed.
    Failed(E),
}

/// What a purge does after a receive.
pub enum PurgeStep<E> {
    /// Receive again.
    ReceiveAgain,
    /// Stop reading, restore blocking mode, and keep this as the result of
    /// the read loop.
    StopReading(Result<(), E>),
}

/// Decide what follows a non-blocking receive while purging.
///
/// Reading goes on while datagrams arrive, stops with success when none is
/// ready, and stops with the error when a receive fails.
pub fn purge_step<E>(event: PurgeEvent<E>) -> (r: PurgeStep<E>)
    ensures
        match event {
            PurgeEvent::Received => r is ReceiveAgain,
            PurgeEvent::WouldBlock => r == PurgeStep::<E>::StopReading(Ok(())),
            PurgeEvent::Failed(e) => r == PurgeStep::<E>::StopReading(Err(e)),
        },
{
    match event {
        PurgeEvent::Received => PurgeStep::ReceiveAgain,
        PurgeEvent::WouldBlock => PurgeStep::StopReading(Ok(())),
        PurgeEvent::Failed(e) => PurgeStep::StopReading(Err(e)),
    }
}

/// The result of a purge from the result of its read loop and the result of
/// restoring blocking mode.
///
/// An error of the read loop is reported in preference to an error of the
/// restore.
pub fn purge_outcome<E>(read_loop: Result<(), E>, restore: Result<(), E>) -> (r: Result<(), E>)
    ensures
        read_loop is Err ==> r == read_loop,
        read_loop is Ok ==> r == restore,
{
    match read_loop {
        Err(e) => Err(e),
        Ok(()) => restore,
    }
}

} // verus!
