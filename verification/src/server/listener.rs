use vstd::prelude::*;
use crate::socket::errors::{ErrorKind, OsError};

verus! {

/// The poll token of the listening socket.
pub const SERVER_TOKEN: usize = 0;

/// How draining the listener's queue of waiting connections goes on.
#[derive(Debug, Clone, Copy, PartialEq, Eq, Structural)]
pub enum AcceptProgress {
    /// A client was taken; more may be waiting.
    More,
    /// No client is waiting any more.
    Drained,
    /// Accepting failed with this error (which the server reports); no more
    /// clients are taken this time.
    Failed(OsError),
}

/// How draining goes on after an accept came to `outcome`, and the clients
/// taken so far afterwards.
pub open spec fn accept_step<C>(accepted: Seq<C>, outcome: Result<C, OsError>) -> (
    AcceptProgress,
    Seq<C>,
) {
    match outcome {
        Ok(client) => (AcceptProgress::More, accepted.push(client)),
        Err(e) => if e.kind == ErrorKind::WouldBlock {
            (AcceptProgress::Drained, accepted)
        } else {
            (AcceptProgress::Failed(e), accepted)
        },
    }
}

/// One accept while draining the listener's queue: an accepted client joins
/// `accepted` and draining goes on; an accept that would have had to wait
/// ends the draining; any other failure ends it too and is to be reported.
pub fn accept_clients<C>(accepted: &mut Vec<C>, outcome: Result<C, OsError>) -> (progress:
    AcceptProgress)
    ensures
        match outcome {
            Ok(client) => progress is More && final(accepted)@ == old(accepted)@.push(client),
            Err(e) => final(accepted)@ == old(accepted)@ && if e.kind == ErrorKind::WouldBlock {
                progress is Drained
            } else {
                progress == AcceptProgress::Failed(e)
            },
        },
        (progress, final(accepted)@) == accept_step(old(accepted)@, outcome),
{
    match outcome {
        Ok(client) => {
            accepted.push(client);
            AcceptProgress::More
        },
        Err(e) => {
            if e.is_would_block() {
                AcceptProgress::Drained
            } else {
                AcceptProgress::Failed(e)
            }
        },
    }
}

/// Whether a polled client is kept, given what handling its read and its
/// write gave.
pub open spec fn keeps(read: Option<bool>, write: Option<bool>) -> bool {
    read != Some(false) && write != Some(false)
}

/// Whether a polled client is kept after one of its events: `read` is what
/// handling a read gave, when the event was readable, and `write` what
/// handling a write gave, when it was writable. The client is dropped as soon
/// as either says so.
pub fn keep_client(read: Option<bool>, write: Option<bool>) -> (keep: bool)
    ensures
        keep == (read != Some(false) && write != Some(false)),
        keep == keeps(read, write),
{
    let read_keeps = match read {
        Some(k) => k,
        None => true,
    };
    let write_keeps = match write {
        Some(k) => k,
        None => true,
    };
    read_keeps && write_keeps
}

/// Draining takes each accepted client once, at the end, in the order the
/// accepts gave them, and goes on only after taking one; it stops without
/// taking anything when no client is waiting (quietly) or when accepting
/// fails otherwise (with that error to report).
pub proof fn lemma_accept_step<C>(accepted: Seq<C>, outcome: Result<C, OsError>)
    ensures
        ({
            let (progress, after) = accept_step(accepted, outcome);
            &&& progress is More <==> outcome is Ok
            &&& outcome matches Ok(c) ==> after.len() == accepted.len() + 1 && after.last() == c
                && after.drop_last() == accepted
            &&& outcome is Err ==> after == accepted
            &&& outcome matches Err(e) ==> (progress is Drained <==> e.kind
                == ErrorKind::WouldBlock)
            &&& progress matches AcceptProgress::Failed(e) ==> outcome == Err::<C, OsError>(e)
        }),
{
    let (progress, after) = accept_step(accepted, outcome);
    if let Ok(c) = outcome {
        assert(after.drop_last() =~= accepted);
    }
}

/// A polled client is dropped exactly when handling its read or its write
/// said so; an event that brings neither keeps it.
pub proof fn lemma_keeps(read: Option<bool>, write: Option<bool>)
    ensures
        !keeps(read, write) <==> (read == Some(false) || write == Some(false)),
        keeps(None, None),
{
}

} // verus!
