//! The store: which ticket stands under which id, and the next id to give out.
//!
//! Every ticket lives in a lock of its own, shared between the store and
//! whoever asked for it. The store hands such a cell out and is then out of
//! the way: reading and patching a ticket take the ticket's lock, never the
//! store.

use crate::data::{Status, Ticket, TicketDraft, TicketPatch};
use std::collections::BTreeMap;
use std::sync::Arc;
use tokio::sync::RwLock;
use vstd::prelude::*;
use vstd::std_specs::convert::FromSpecImpl;

verus! {

broadcast use vstd::std_specs::btree::group_btree_axioms;

#[derive(Clone, Copy, Debug, PartialEq, Eq, PartialOrd, Ord, Structural)]
pub struct TicketId(pub u64);

impl From<u64> for TicketId {
    fn from(value: u64) -> (id: Self) {
        TicketId(value)
    }
}

impl FromSpecImpl<u64> for TicketId {
    open spec fn obeys_from_spec() -> bool {
        true
    }

    open spec fn from_spec(value: u64) -> Self {
        TicketId(value)
    }
}

impl From<TicketId> for u64 {
    fn from(value: TicketId) -> (number: Self) {
        value.0
    }
}

impl FromSpecImpl<TicketId> for u64 {
    open spec fn obeys_from_spec() -> bool {
        true
    }

    open spec fn from_spec(value: TicketId) -> Self {
        value.0
    }
}

/// tokio's asynchronous reader-writer lock. Nothing inside it is visible to
/// the proofs: a value of it is only carried.
#[verifier::external_type_specification]
#[verifier::external_body]
#[verifier::reject_recursive_types(T)]
pub struct ExRwLock<T: ?Sized>(RwLock<T>);

/// The ticket that a cell held when it was made. What the cell holds later is
/// up to those who take its lock, and no contract here speaks of it.
pub uninterp spec fn initial_ticket(cell: RwLock<Ticket>) -> Ticket;

/// `tokio::sync::RwLock::new`: a fresh, unlocked lock around `ticket`. The
/// contract records the ticket that the lock starts with.
#[verifier::external_body]
fn new_cell(ticket: Ticket) -> (cell: RwLock<Ticket>)
    ensures
        initial_ticket(cell) == ticket,
{
    RwLock::new(ticket)
}

/// `Arc::clone`: one more pointer to the same cell.
#[verifier::external_body]
fn share(handle: &Arc<RwLock<Ticket>>) -> (shared: Arc<RwLock<Ticket>>)
    ensures
        shared == *handle,
{
    Arc::clone(handle)
}

/// The ticket that `add_ticket` makes of a draft under a given id.
pub open spec fn new_ticket(id: TicketId, draft: TicketDraft) -> Ticket {
    Ticket { id, title: draft.title, description: draft.description, status: Status::ToDo }
}

/// A ticket after a patch: each field that the patch holds replaces the
/// ticket's, the others stay, and so does the id.
pub open spec fn patched(ticket: Ticket, patch: TicketPatch) -> Ticket {
    Ticket {
        id: ticket.id,
        title: match patch.title {
            Some(title) => title,
            None => ticket.title,
        },
        description: match patch.description {
            Some(description) => description,
            None => ticket.description,
        },
        status: match patch.status {
            Some(status) => status,
            None => ticket.status,
        },
    }
}

/// Overwrites the fields of `ticket` that `patch` holds. The caller has the
/// ticket's lock for writing and passes what the guard gives. A patch without
/// any field is an error that `validate` reports, not an update, and is not
/// taken here.
pub fn apply_patch(ticket: &mut Ticket, patch: TicketPatch)
    requires
        !patch.is_empty(),
    ensures
        *final(ticket) == patched(*old(ticket), patch),
{
    if let Some(title) = patch.title {
        ticket.title = title;
    }
    if let Some(description) = patch.description {
        ticket.description = description;
    }
    if let Some(status) = patch.status {
        ticket.status = status;
    }
}

pub struct TicketStore {
    tickets: BTreeMap<u64, Arc<RwLock<Ticket>>>,
    counter: u64,
}

impl Clone for TicketStore {
    /// A second store over the same cells: the tickets are shared, not
    /// copied, and from here on each store gives out ids on its own.
    fn clone(&self) -> (copy: Self)
        ensures
            copy.handles() == self.handles(),
            copy.next_id() == self.next_id(),
            self.wf() ==> copy.wf(),
    {
        TicketStore { tickets: self.tickets.clone(), counter: self.counter }
    }
}

impl TicketStore {
    /// The cell of each ticket, by the number of its id.
    pub closed spec fn handles(&self) -> Map<u64, Arc<RwLock<Ticket>>> {
        self.tickets@
    }

    /// The number that the next ticket gets.
    pub closed spec fn next_id(&self) -> u64 {
        self.counter
    }

    /// The ids given out are exactly those below the next one, and the cell
    /// under an id was made with a ticket of that id.
    pub open spec fn wf(&self) -> bool {
        &&& forall|number: u64|
            self.handles().contains_key(number) <==> number < self.next_id()
        &&& forall|number: u64| #![trigger self.handles()[number]]
            self.handles().contains_key(number) ==> initial_ticket(
                *self.handles()[number],
            ).id == TicketId(number)
    }

    /// What `get` finds under an id.
    pub open spec fn lookup(&self, id: TicketId) -> Option<Arc<RwLock<Ticket>>> {
        if self.handles().contains_key(id.0) {
            Some(self.handles()[id.0])
        } else {
            None
        }
    }

    /// `next` is this store after one ticket was made of `draft` and put
    /// under `id`: the id is the number that was next, the number after it is
    /// next now, one cell came in under the id, made with the new ticket, and
    /// every other cell is where it was.
    pub open spec fn adds(&self, next: TicketStore, draft: TicketDraft, id: TicketId) -> bool {
        &&& id.0 == self.next_id()
        &&& next.next_id() == self.next_id() + 1
        &&& next.handles() == self.handles().insert(id.0, next.handles()[id.0])
        &&& initial_ticket(*next.handles()[id.0]) == new_ticket(id, draft)
    }

    /// An empty store, whose first ticket will get the id 0.
    pub fn new() -> (store: Self)
        ensures
            store.wf(),
            store.next_id() == 0,
            store.handles() == Map::<u64, Arc<RwLock<Ticket>>>::empty(),
    {
        Self { tickets: BTreeMap::new(), counter: 0 }
    }

    /// How many tickets were added so far, which is the number of the next id.
    pub fn issued(&self) -> (count: u64)
        ensures
            count == self.next_id(),
    {
        self.counter
    }

    /// Makes a ticket of the draft, with the next id and the status `ToDo`,
    /// puts it in a cell of its own and returns the id.
    pub fn add_ticket(&mut self, ticket: TicketDraft) -> (id: TicketId)
        requires
            old(self).wf(),
            old(self).next_id() < u64::MAX,
        ensures
            final(self).wf(),
            old(self).adds(*final(self), ticket, id),
    {
        let id = TicketId(self.counter);
        self.counter += 1;
        let ticket = Ticket {
            id,
            title: ticket.title,
            description: ticket.description,
            status: Status::ToDo,
        };
        let handle = Arc::new(new_cell(ticket));
        self.tickets.insert(id.0, handle);
        id
    }

    /// The cell of the ticket under `id`, shared with the store, or `None`
    /// where no ticket has that id.
    pub fn get(&self, id: TicketId) -> (handle: Option<Arc<RwLock<Ticket>>>)
        ensures
            handle == self.lookup(id),
    {
        match self.tickets.get(&id.0) {
            Some(handle) => Some(share(handle)),
            None => None,
        }
    }
}

impl Default for TicketStore {
    fn default() -> (store: Self)
        ensures
            store.wf(),
            store.next_id() == 0,
            store.handles() == Map::<u64, Arc<RwLock<Ticket>>>::empty(),
    {
        Self::new()
    }
}

/// Ids count up by one: of two tickets added one after the other, the second
/// gets the number after the first's. In a store whose next id is 0, as in a
/// new one, the first ticket gets the id 0.
pub proof fn lemma_ids_count_up(
    first: TicketStore,
    second: TicketStore,
    third: TicketStore,
    draft_a: TicketDraft,
    draft_b: TicketDraft,
    id_a: TicketId,
    id_b: TicketId,
)
    requires
        first.adds(second, draft_a, id_a),
        second.adds(third, draft_b, id_b),
    ensures
        id_b.0 == id_a.0 + 1,
        first.next_id() == 0 ==> id_a == TicketId(0),
{
}

/// Whatever the draft holds, the ticket made of it starts as `ToDo`, with the
/// draft's title and description and the id that was returned, and it is
/// found under that id.
pub proof fn lemma_added_ticket_starts_to_do(
    before: TicketStore,
    after: TicketStore,
    draft: TicketDraft,
    id: TicketId,
)
    requires
        before.adds(after, draft, id),
    ensures
        after.lookup(id) matches Some(handle) && {
            &&& initial_ticket(*handle).status == Status::ToDo
            &&& initial_ticket(*handle).id == id
            &&& initial_ticket(*handle).title == draft.title
            &&& initial_ticket(*handle).description == draft.description
        },
{
}

/// Adding a ticket moves no other: what was found under an id before is
/// found under it after, and the new id was free.
pub proof fn lemma_add_keeps_the_others(
    before: TicketStore,
    after: TicketStore,
    draft: TicketDraft,
    id: TicketId,
    other: TicketId,
)
    requires
        before.wf(),
        before.adds(after, draft, id),
    ensures
        before.lookup(id) is None,
        other != id ==> after.lookup(other) == before.lookup(other),
{
}

/// A patch that holds a status and nothing else sets the status and leaves
/// the id, the title and the description as they were.
pub proof fn lemma_status_only_patch(ticket: Ticket, status: Status)
    ensures
        patched(ticket, TicketPatch { title: None, description: None, status: Some(status) })
            == (Ticket { status, ..ticket }),
{
}

/// Two patches applied one after the other: in each field the second wins
/// where it holds one, else the first where it holds one, else the ticket
/// keeps what it had.
pub proof fn lemma_patches_in_turn(ticket: Ticket, first: TicketPatch, second: TicketPatch)
    ensures
        patched(patched(ticket, first), second).id == ticket.id,
        patched(patched(ticket, first), second).title == match (second.title, first.title) {
            (Some(title), _) => title,
            (None, Some(title)) => title,
            (None, None) => ticket.title,
        },
        patched(patched(ticket, first), second).description == match (
            second.description,
            first.description,
        ) {
            (Some(description), _) => description,
            (None, Some(description)) => description,
            (None, None) => ticket.description,
        },
        patched(patched(ticket, first), second).status == match (second.status, first.status) {
            (Some(status), _) => status,
            (None, Some(status)) => status,
            (None, None) => ticket.status,
        },
{
}

} // verus!
