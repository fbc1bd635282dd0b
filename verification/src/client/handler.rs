use vstd::prelude::*;
use std::collections::HashMap;
use crate::socket::errors::OsError;

verus! {

broadcast use vstd::std_specs::hash::group_hash_axioms;

/// The table of the clients registered with the poll: each client's token,
/// its stream and the bytes waiting to be sent to it.
pub type ClientTable<S> = HashMap<usize, (S, Vec<u8>)>;

/// `"Server Response: Hello!\n"`, the answer queued for each message a
/// polled client sends.
pub open spec fn hello_response() -> Seq<u8> {
    seq![
        83u8, 101, 114, 118, 101, 114, 32, 82, 101, 115, 112, 111, 110, 115, 101, 58, 32, 72, 101,
        108, 108, 111, 33, 10,
    ]
}

/// Every token in the table is below `next_token`, so the tokens handed out
/// from `next_token` on are free.
pub open spec fn tokens_below<S>(clients: Map<usize, (S, Vec<u8>)>, next_token: usize) -> bool {
    forall|k: usize| #[trigger] clients.contains_key(k) ==> k < next_token
}

/// `after` is `before` with the client `stream` added under `token`, with
/// nothing waiting to be sent to it.
pub open spec fn client_added<S>(
    before: Map<usize, (S, Vec<u8>)>,
    after: Map<usize, (S, Vec<u8>)>,
    token: usize,
    stream: S,
) -> bool {
    &&& after.dom() == before.dom().insert(token)
    &&& after[token].0 == stream
    &&& after[token].1@ == Seq::<u8>::empty()
    &&& forall|k: usize| #[trigger] before.contains_key(k) && k != token ==> after[k] == before[k]
}

/// Registers a client: it takes the token `*next_client_token` (which the
/// caller has used to register `stream` with the poll, with the outcome
/// `registration`) and moves the counter on, whatever the outcome. When the
/// registration succeeded, the client is added to the table under its token
/// with nothing waiting to be sent; when it failed, the table is unchanged
/// and the failure is returned.
pub fn register_client<S>(
    clients: &mut ClientTable<S>,
    stream: S,
    next_client_token: &mut usize,
    registration: Result<(), OsError>,
) -> (r: Result<(), OsError>)
    requires
        *old(next_client_token) < usize::MAX,
    ensures
        *final(next_client_token) == *old(next_client_token) + 1,
        r == registration,
        registration is Ok ==> client_added(old(clients)@, final(clients)@, *old(next_client_token), stream),
        registration is Err ==> final(clients)@ == old(clients)@,
{
    let client_token = *next_client_token;
    *next_client_token += 1;
    if registration.is_ok() {
        clients.insert(client_token, (stream, Vec::new()));
    }
    registration
}

/// Whether a polled client is kept after a read, and its outgoing bytes
/// afterwards.
pub open spec fn read_outcome(read: Result<usize, OsError>, buffer: Seq<u8>) -> (bool, Seq<u8>) {
    match read {
        Ok(n) => if n > 0 {
            (true, buffer + hello_response())
        } else {
            (false, buffer)
        },
        Err(_) => (false, buffer),
    }
}

/// Whether a polled client is kept after a write (or none, with `None`),
/// and its outgoing bytes afterwards.
pub open spec fn write_outcome(buffer: Seq<u8>, written: Option<Result<usize, OsError>>) -> (
    bool,
    Seq<u8>,
) {
    match written {
        Some(Ok(n)) => (true, buffer.subrange(n as int, buffer.len() as int)),
        Some(Err(_)) => (false, buffer),
        None => (true, buffer),
    }
}

/// Handles what reading from a polled client gave: for a message (a read of
/// at least one byte) the answer `"Server Response: Hello!\n"` is queued and
/// the client is kept; for a read of nothing (the client disconnected) or a
/// failed read, nothing is queued and the client is to be dropped.
pub fn handle_read(read: Result<usize, OsError>, buffer: &mut Vec<u8>) -> (keep: bool)
    ensures
        keep == (read matches Ok(n) && n > 0),
        keep ==> final(buffer)@ == old(buffer)@ + hello_response(),
        !keep ==> final(buffer)@ == old(buffer)@,
        (keep, final(buffer)@) == read_outcome(read, old(buffer)@),
{
    match read {
        Ok(0) => false,
        Ok(_) => {
            let hello: Vec<u8> = vec![
                83u8, 101, 114, 118, 101, 114, 32, 82, 101, 115, 112, 111, 110, 115, 101, 58, 32, 72,
                101, 108, 108, 111, 33, 10,
            ];
            crate::text::push_bytes(buffer, hello.as_slice());
            true
        },
        Err(_) => false,
    }
}

/// Whether bytes are waiting to be sent, so that a write is due.
pub fn has_pending_output(buffer: &Vec<u8>) -> (due: bool)
    ensures
        due == (buffer@.len() > 0),
{
    !buffer.is_empty()
}

/// Handles what writing to a polled client gave: `written` is the outcome of
/// writing the waiting bytes, or `None` when nothing was waiting and no write
/// was made. The bytes written leave the front of the buffer and the client
/// is kept; a failed write leaves the buffer as it was and the client is to
/// be dropped; with nothing waiting the client is kept.
pub fn handle_write(buffer: &mut Vec<u8>, written: Option<Result<usize, OsError>>) -> (keep: bool)
    requires
        written is None <==> old(buffer)@.len() == 0,
        written matches Some(Ok(n)) ==> n <= old(buffer)@.len(),
    ensures
        keep == !(written matches Some(Err(_))),
        written matches Some(Ok(n)) ==> final(buffer)@ == old(buffer)@.subrange(
            n as int,
            old(buffer)@.len() as int,
        ),
        !(written matches Some(Ok(_))) ==> final(buffer)@ == old(buffer)@,
        (keep, final(buffer)@) == write_outcome(old(buffer)@, written),
{
    match written {
        None => true,
        Some(Ok(n)) => {
            let rest = buffer.split_off(n);
            *buffer = rest;
            true
        },
        Some(Err(_)) => false,
    }
}

/// Registering clients under tokens taken from the counter never replaces a
/// client already in the table, keeps every token in the table below the
/// counter, and a registered client is found under its token with its stream
/// and nothing waiting to be sent; the table gains no other client.
pub proof fn lemma_register_keeps_clients<S>(
    before: Map<usize, (S, Vec<u8>)>,
    after: Map<usize, (S, Vec<u8>)>,
    next_token: usize,
    stream: S,
    registered: bool,
)
    requires
        tokens_below(before, next_token),
        next_token < usize::MAX,
        registered ==> client_added(before, after, next_token, stream),
        !registered ==> after == before,
    ensures
        !before.contains_key(next_token),
        forall|k: usize| #[trigger] before.contains_key(k) ==> after.contains_key(k) && after[k]
            == before[k],
        tokens_below(after, (next_token + 1) as usize),
        registered ==> after.contains_key(next_token) && after[next_token].0 == stream
            && after[next_token].1@.len() == 0,
        forall|k: usize| #[trigger] after.contains_key(k) && !before.contains_key(k) ==> k
            == next_token,
{
    assert forall|k: usize| #[trigger] after.contains_key(k) implies k < next_token + 1 by {
        if after != before {
            assert(after.dom().contains(k));
        }
    }
}

/// The answer queued for each message is the text
/// `Server Response: Hello!` followed by a newline.
pub proof fn lemma_hello_text()
    ensures
        hello_response() == crate::text::ascii("Server Response: Hello!\n"@),
{
    reveal_strlit("Server Response: Hello!\n");
    assert(crate::text::ascii("Server Response: Hello!\n"@) =~= hello_response());
}

/// A read never takes bytes away from what waits to be sent: a read of at
/// least one byte keeps the client and appends exactly the 24 bytes of
/// `Server Response: Hello!` and a newline; a read of nothing or a failed read
/// drops the client and leaves the bytes as they were.
pub proof fn lemma_read_appends_hello(read: Result<usize, OsError>, before: Seq<u8>)
    ensures
        ({
            let (keep, after) = read_outcome(read, before);
            &&& keep <==> (read is Ok && read->Ok_0 >= 1)
            &&& after.len() == before.len() + if keep { 24int } else { 0int }
            &&& after.subrange(0, before.len() as int) == before
            &&& keep ==> after.subrange(before.len() as int, after.len() as int) == crate::text::ascii(
                "Server Response: Hello!\n"@,
            )
        }),
{
    lemma_hello_text();
    let (keep, after) = read_outcome(read, before);
    assert(after.subrange(0, before.len() as int) =~= before);
    if keep {
        assert(after.subrange(before.len() as int, after.len() as int) =~= hello_response());
    }
}

/// A write takes the bytes it wrote from the front of what waits, in order,
/// and nothing else: what was written followed by what is left is what was
/// waiting. A failed write drops the client and leaves the bytes; with
/// nothing to write the client is kept and nothing changes.
pub proof fn lemma_write_takes_front(before: Seq<u8>, written: Option<Result<usize, OsError>>)
    requires
        written is None <==> before.len() == 0,
        written matches Some(Ok(n)) ==> n <= before.len(),
    ensures
        ({
            let (keep, after) = write_outcome(before, written);
            &&& keep <==> !(written is Some && written->Some_0 is Err)
            &&& written matches Some(Ok(n)) ==> before == before.subrange(0, n as int) + after
                && after.len() == before.len() - n
            &&& !(written matches Some(Ok(_))) ==> after == before
        }),
{
    let (keep, after) = write_outcome(before, written);
    if let Some(Ok(n)) = written {
        assert(before =~= before.subrange(0, n as int) + after);
    }
}

/// What a successful write sends and what it leaves make up exactly what was
/// waiting: the bytes leave the buffer from the front, in order.
pub proof fn lemma_write_keeps_order(before: Seq<u8>, after: Seq<u8>, n: int)
    requires
        0 <= n <= before.len(),
        after == before.subrange(n, before.len() as int),
    ensures
        before == before.subrange(0, n) + after,
{
    assert(before =~= before.subrange(0, n) + after);
}

} // verus!
