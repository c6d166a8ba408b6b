use vstd::prelude::*;
use std::sync::mpsc::{Receiver, SyncSender};
use crate::channel::{bounded_channel, recv, try_send, SendRefused};
use crate::store::{TicketId, TicketStore};
use crate::ticket::{fresh_ticket, DraftView, Ticket, TicketDraft};

verus! {

/// The store refused a request because its command queue had no free slot
/// at enqueue time. Recoverable: the caller may retry or back off.
#[derive(Debug, Clone, Copy, PartialEq, Eq, Structural)]
pub struct OverloadedError;

impl OverloadedError {
    /// A human-readable account of the failure.
    pub fn message(&self) -> (r: String)
        ensures
            r@ == "The store is overloaded"@,
    {
        "The store is overloaded".to_owned()
    }
}

/// Why a client call returned no answer.
#[derive(Debug, Clone, Copy, PartialEq, Eq, Structural)]
pub enum ClientError {
    /// the command queue was full at enqueue time; nothing was recorded
    Overloaded(OverloadedError),
    /// the server stopped before the call was answered
    ServerGone,
}

/// What a client asks the server to do. Each request carries a one-shot
/// reply channel that the server uses exactly once, best-effort.
pub enum Command {
    /// record the draft and reply with the assigned identifier
    Insert { draft: TicketDraft, response_channel: SyncSender<TicketId> },
    /// reply with the ticket under the identifier, or `None`
    Get { id: TicketId, response_channel: SyncSender<Option<Ticket>> },
}

/// A cloneable, thread-shareable handle on the sending end of the server's
/// command queue.
#[derive(Clone)]
pub struct TicketStoreClient {
    sender: SyncSender<Command>,
}

/// Decides the client's result once a reply was awaited: a delivered value
/// answers the call; a closed reply channel means the server stopped after
/// accepting the command.
pub fn settle_reply<T>(reply: Option<T>) -> (r: Result<T, ClientError>)
    ensures
        reply matches Some(v) ==> r == Ok::<T, ClientError>(v),
        reply is None ==> r == Err::<T, ClientError>(ClientError::ServerGone),
{
    match reply {
        Some(value) => Ok(value),
        None => Err(ClientError::ServerGone),
    }
}

/// Decides the client's error from a refused enqueue: a full queue is
/// overload; a closed queue means the server stopped.
pub fn settle_refusal<T>(refusal: SendRefused<T>) -> (r: ClientError)
    ensures
        refusal matches SendRefused::Full(_) ==> r == ClientError::Overloaded(OverloadedError),
        refusal matches SendRefused::Closed(_) ==> r == ClientError::ServerGone,
{
    match refusal {
        SendRefused::Full(_) => ClientError::Overloaded(OverloadedError),
        SendRefused::Closed(_) => ClientError::ServerGone,
    }
}

impl TicketStoreClient {
    /// A handle that enqueues on the given sending end.
    pub fn new(sender: SyncSender<Command>) -> (c: TicketStoreClient) {
        TicketStoreClient { sender }
    }

    /// Asks the server to record the draft. The enqueue never blocks: with
    /// no free slot the call fails fast with `Overloaded` and nothing is
    /// recorded. Once enqueued, the call blocks until the server replies
    /// with the assigned identifier, or returns `ServerGone` if the server
    /// stopped first. Which of these happens turns on what the server
    /// thread does meanwhile, so no more can be promised here; the decision
    /// logic itself is `settle_reply` and `settle_refusal`.
    pub fn insert(&self, draft: TicketDraft) -> (r: Result<TicketId, ClientError>) {
        let (response_sender, response_receiver) = bounded_channel::<TicketId>(1);
        match try_send(
            &self.sender,
            Command::Insert { draft, response_channel: response_sender },
        ) {
            Ok(()) => settle_reply(recv(&response_receiver)),
            Err(refusal) => Err(settle_refusal(refusal)),
        }
    }

    /// Asks the server for the ticket under the identifier: `Ok(None)` when
    /// the store holds none. The enqueue never blocks: with no free slot
    /// the call fails fast with `Overloaded`. Once enqueued, the call
    /// blocks until the server replies, or returns `ServerGone` if the
    /// server stopped first.
    pub fn get(&self, id: TicketId) -> (r: Result<Option<Ticket>, ClientError>) {
        let (response_sender, response_receiver) = bounded_channel::<Option<Ticket>>(1);
        match try_send(
            &self.sender,
            Command::Get { id, response_channel: response_sender },
        ) {
            Ok(()) => settle_reply(recv(&response_receiver)),
            Err(refusal) => Err(settle_refusal(refusal)),
        }
    }
}

/// The command queue of a fresh store: a client handle on the sending end,
/// and the receiving end to hand to `server`. The capacity is the sole
/// admission-control knob: once that many commands wait unprocessed,
/// further calls fail fast with `Overloaded`.
pub fn connect(capacity: usize) -> (TicketStoreClient, Receiver<Command>) {
    let (sender, receiver) = bounded_channel(capacity);
    (TicketStoreClient { sender }, receiver)
}

/// Executes one command against the store and replies best-effort: a
/// recorded draft is never rolled back because the requester stopped
/// listening, so a refused reply delivery is discarded.
pub fn handle_command(store: &mut TicketStore, command: Command)
    ensures
        command matches Command::Insert { draft, .. } ==> final(store)@ == old(store)@.push(
            fresh_ticket(draft@),
        ),
        command matches Command::Get { .. } ==> final(store)@ == old(store)@,
{
    match command {
        Command::Insert { draft, response_channel } => {
            let id = store.add_ticket(draft);
            let _ = try_send(&response_channel, id);
        },
        Command::Get { id, response_channel } => {
            let ticket = match store.get(id) {
                Some(t) => Some(t.clone()),
                None => None,
            };
            let _ = try_send(&response_channel, ticket);
        },
    }
}

/// One turn of the server loop: blocks for the next command in FIFO order
/// and executes it against the store. Returns whether the loop goes on —
/// `false` exactly when every sending end is dropped and the queue is
/// drained, the loop's sole termination condition. Whatever arrives, the
/// store either stays as it is or grows by one fresh ticket; on shutdown it
/// stays as it is.
///
/// The loop shell itself cannot stand here: how many turns it makes before
/// the last client handle is dropped is a liveness fact of the channel, not
/// a bound any loop measure covers. A caller runs
/// `while server_step(&mut store, &receiver) {}`.
pub fn server_step(store: &mut TicketStore, receiver: &Receiver<Command>) -> (running: bool)
    ensures
        !running ==> final(store)@ == old(store)@,
        final(store)@ == old(store)@ || (exists|draft: DraftView|
            final(store)@ == old(store)@.push(fresh_ticket(draft))),
{
    match recv(receiver) {
        Some(command) => {
            handle_command(store, command);
            true
        },
        None => false,
    }
}

} // verus!
