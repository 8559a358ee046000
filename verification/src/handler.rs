//! What a request handler decides between its waits for a lock.
//!
//! A handler first judges its input, holding no lock. It then resolves the
//! ticket's cell under the store's lock, lets that lock go, and only then
//! takes the ticket's own lock. The waiting is the caller's; the verdicts are
//! here.

use crate::data::{Ticket, TicketDraft, TicketPatch};
use crate::store::{TicketId, TicketStore};
use std::sync::Arc;
use tokio::sync::RwLock;
use vstd::prelude::*;

verus! {

/// Why a request ends without touching a ticket.
#[derive(Clone, Copy, Debug, PartialEq, Eq, Structural)]
pub enum Refusal {
    /// The input did not pass validation.
    BadRequest,
    /// No ticket has the id that was asked for.
    NotFound,
}

/// Judges a draft before the store is touched: one that fails validation,
/// for whatever reason, is a bad request.
pub fn admit_draft(draft: &TicketDraft) -> (verdict: Result<(), Refusal>)
    ensures
        draft.validation() is Ok ==> verdict == Ok::<(), Refusal>(()),
        draft.validation() is Err ==> verdict == Err::<(), _>(Refusal::BadRequest),
{
    match draft.validate() {
        Ok(()) => Ok(()),
        Err(_) => Err(Refusal::BadRequest),
    }
}

/// Judges a patch before the store is touched: one that fails validation,
/// for whatever reason, is a bad request. A patch that is admitted holds at
/// least one field, so it can be applied.
pub fn admit_patch(patch: &TicketPatch) -> (verdict: Result<(), Refusal>)
    ensures
        patch.validation() is Ok ==> verdict == Ok::<(), Refusal>(()),
        patch.validation() is Err ==> verdict == Err::<(), _>(Refusal::BadRequest),
        verdict is Ok ==> !patch.is_empty(),
{
    match patch.validate() {
        Ok(()) => Ok(()),
        Err(_) => Err(Refusal::BadRequest),
    }
}

/// Resolves an id to the ticket's cell, for a caller that holds the store's
/// lock for reading: an id without a ticket is not found.
pub fn resolve(store: &TicketStore, id: u64) -> (found: Result<Arc<RwLock<Ticket>>, Refusal>)
    ensures
        match store.lookup(TicketId(id)) {
            Some(handle) => found == Ok::<_, Refusal>(handle),
            None => found == Err::<Arc<RwLock<Ticket>>, _>(Refusal::NotFound),
        },
{
    match store.get(TicketId::from(id)) {
        Some(handle) => Ok(handle),
        None => Err(Refusal::NotFound),
    }
}

} // verus!
