//! An in-memory ticket store served over a bounded command channel.
//!
//! A single worker thread owns all mutable state (the [`TicketStore`]) and
//! drains a fixed-capacity queue of [`Command`] values in FIFO order. Any
//! number of callers hold cloneable [`TicketStoreClient`] handles whose
//! `insert` and `get` calls enqueue a command without blocking and fail fast
//! with an overload error when the queue is full. Each command carries a
//! one-shot reply channel on which the server answers best-effort.
//!
//! The crate also carries two small value utilities: [`SaturatingU16`], a
//! `u16` whose addition saturates instead of overflowing, and [`squared`],
//! which squares every element of a slice in place.

mod channel;
mod saturating;
mod squares;
mod server;
mod store;
mod ticket;

pub use channel::SendRefused;
pub use saturating::SaturatingU16;
pub use squares::squared;
pub use server::{
    connect, handle_command, server_step, settle_refusal, settle_reply, ClientError, Command,
    OverloadedError, TicketStoreClient,
};
pub use store::{
    lemma_add_preserves_entries, lemma_assigned_ids_retrievable, lemma_fifo_ids,
    lemma_get_unassigned, lemma_insert_then_get, next_id, stored_ticket, TicketId, TicketStore,
};
pub use ticket::{
    DescriptionError, DraftView, Status, Ticket, TicketDescription, TicketDraft, TicketTitle,
    TicketView, TitleError, fresh_ticket, MAX_DESCRIPTION_LEN, MAX_TITLE_LEN,
};
