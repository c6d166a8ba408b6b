use vstd::prelude::*;
use crate::ticket::{fresh_ticket, DraftView, Ticket, TicketDraft, TicketView};

verus! {

/// The identifier the store assigns to a recorded ticket. Identifiers are
/// handed out in order, starting at 1.
#[derive(Debug, Clone, Copy, PartialEq, Eq, Hash, Structural)]
pub struct TicketId {
    pub value: u64,
}

/// The single-threaded map from identifier to ticket that the server owns.
///
/// The ticket with identifier `i` lives at position `i - 1`; a fresh
/// identifier is one past the number of tickets recorded so far.
#[derive(Debug)]
pub struct TicketStore {
    tickets: Vec<Ticket>,
}

/// The identifier the store assigns to the next recorded ticket.
pub open spec fn next_id(tickets: Seq<TicketView>) -> int {
    tickets.len() as int + 1
}

/// The ticket a store with the given contents holds under an identifier:
/// `None` unless the identifier was assigned already, that is lies in
/// `1 ..= tickets.len()`.
pub open spec fn stored_ticket(tickets: Seq<TicketView>, id: TicketId) -> Option<TicketView> {
    if 1 <= id.value < next_id(tickets) {
        Some(tickets[id.value - 1])
    } else {
        None
    }
}

impl View for TicketStore {
    type V = Seq<TicketView>;

    closed spec fn view(&self) -> Seq<TicketView> {
        Seq::new(self.tickets@.len(), |i: int| self.tickets@[i]@)
    }
}

impl TicketStore {
    /// An empty store.
    pub fn new() -> (s: TicketStore)
        ensures
            s@ =~= Seq::<TicketView>::empty(),
    {
        TicketStore { tickets: Vec::new() }
    }

    /// How many tickets the store holds.
    pub fn len(&self) -> (n: usize)
        ensures
            n == self@.len(),
    {
        self.tickets.len()
    }

    /// Records the draft as a fresh ticket in the initial status and returns
    /// its identifier, one past the identifiers assigned before. Every
    /// earlier ticket stays where it was.
    pub fn add_ticket(&mut self, draft: TicketDraft) -> (id: TicketId)
        ensures
            id.value == next_id(old(self)@),
            final(self)@ =~= old(self)@.push(fresh_ticket(draft@)),
    {
        let ticket = Ticket::new(draft.title, draft.description);
        self.tickets.push(ticket);
        TicketId { value: self.tickets.len() as u64 }
    }

    /// Looks an identifier up: the ticket recorded under it, or `None` for
    /// an identifier the store never assigned. Absence is a value, never an
    /// error, and nothing changes.
    pub fn get(&self, id: TicketId) -> (r: Option<&Ticket>)
        ensures
            r matches Some(t) ==> stored_ticket(self@, id) == Some(t@),
            r is None ==> stored_ticket(self@, id) is None,
    {
        if 1 <= id.value && id.value <= self.tickets.len() as u64 {
            let index = (id.value - 1) as usize;
            Some(&self.tickets[index])
        } else {
            None
        }
    }
}

/// Recording a draft and looking the returned identifier up yields exactly
/// the draft's fields under the initial status.
pub proof fn lemma_insert_then_get(tickets: Seq<TicketView>, draft: DraftView)
    requires
        tickets.len() < u64::MAX,
    ensures
        stored_ticket(
            tickets.push(fresh_ticket(draft)),
            TicketId { value: (tickets.len() + 1) as u64 },
        ) == Some(fresh_ticket(draft)),
{
}

/// An identifier the store never assigned — zero, or one at or past the
/// next fresh identifier — looks up to `None`.
pub proof fn lemma_get_unassigned(tickets: Seq<TicketView>, id: TicketId)
    requires
        id.value == 0 || id.value >= next_id(tickets),
    ensures
        stored_ticket(tickets, id) is None,
{
}

/// Identifiers are assigned in the order the store records drafts: each
/// recording moves the fresh identifier up by one, so a draft recorded
/// earlier bears the smaller identifier.
pub proof fn lemma_fifo_ids(tickets: Seq<TicketView>, first: DraftView, second: DraftView)
    ensures
        next_id(tickets.push(fresh_ticket(first))) == next_id(tickets) + 1,
        next_id(tickets.push(fresh_ticket(first)).push(fresh_ticket(second))) == next_id(tickets)
            + 2,
        next_id(tickets) < next_id(tickets.push(fresh_ticket(first))),
{
}

/// Recording another ticket loses and corrupts nothing: every identifier
/// assigned before looks up to the very ticket it did before.
pub proof fn lemma_add_preserves_entries(
    tickets: Seq<TicketView>,
    ticket: TicketView,
    id: TicketId,
)
    requires
        1 <= id.value < next_id(tickets),
    ensures
        stored_ticket(tickets.push(ticket), id) == stored_ticket(tickets, id),
{
}

/// Every identifier the store assigned stays retrievable: it looks up to
/// the ticket at its position.
pub proof fn lemma_assigned_ids_retrievable(tickets: Seq<TicketView>, id: TicketId)
    requires
        1 <= id.value < next_id(tickets),
    ensures
        stored_ticket(tickets, id) == Some(tickets[id.value - 1]),
{
}

} // verus!
