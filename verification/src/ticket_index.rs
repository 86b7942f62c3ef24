use std::ops::Index;
use vstd::prelude::*;

verus! {

/// The number that a store gives a ticket when the ticket is added.
#[derive(Clone, Copy, Debug, PartialEq, Eq, Structural)]
pub struct TicketId(u64);

impl TicketId {
    /// The number.
    pub closed spec fn value(&self) -> u64 {
        self.0
    }
}

/// A stored ticket.
#[derive(Clone, Debug, PartialEq)]
pub struct Ticket {
    pub id: TicketId,
    pub title: String,
    pub description: String,
    pub status: Status,
}

/// A ticket to be added: what is to be done.
#[derive(Clone, Debug, PartialEq)]
pub struct TicketDraft {
    pub title: String,
    pub description: String,
}

/// How far a ticket has got.
#[derive(Clone, Debug, Copy, PartialEq, Eq, Structural)]
pub enum Status {
    ToDo,
    InProgress,
    Done,
}

/// The tickets, in the order in which they were added, each numbered by its
/// position.
#[derive(Clone)]
pub struct TicketStore {
    tickets: Vec<Ticket>,
    counter: u64,
}

/// The first of `tickets` whose number is `id`, if any.
pub open spec fn find_id(tickets: Seq<Ticket>, id: TicketId) -> Option<Ticket>
    decreases tickets.len(),
{
    if tickets.len() == 0 {
        None
    } else if tickets[0].id == id {
        Some(tickets[0])
    } else {
        find_id(tickets.drop_first(), id)
    }
}

/// Whether the tickets from position `base` on are numbered by their positions.
pub open spec fn numbered_from(tickets: Seq<Ticket>, base: int) -> bool {
    forall|i: int| 0 <= i < tickets.len() ==> #[trigger] tickets[i].id.value() == base + i
}

impl View for TicketStore {
    type V = Seq<Ticket>;

    /// The tickets, oldest first.
    closed spec fn view(&self) -> Seq<Ticket> {
        self.tickets@
    }
}

impl TicketStore {
    /// Every ticket is numbered by its position, and the next number to give
    /// is the number of tickets.
    pub closed spec fn wf(&self) -> bool {
        &&& self.counter == self.tickets@.len()
        &&& numbered_from(self.tickets@, 0)
    }

    /// A store with no ticket.
    pub fn new() -> (store: Self)
        ensures
            store.wf(),
            store@ == Seq::<Ticket>::empty(),
    {
        Self { tickets: Vec::new(), counter: 0 }
    }

    /// Adds the draft as a new ticket to do, numbered by the number of tickets
    /// already stored, and returns that number.
    pub fn add_ticket(&mut self, ticket: TicketDraft) -> (id: TicketId)
        requires
            old(self).wf(),
            old(self)@.len() < u64::MAX,
        ensures
            final(self).wf(),
            id.value() == old(self)@.len(),
            final(self)@ == old(self)@.push(ticket_from(id, ticket)),
    {
        let id = TicketId(self.counter);
        self.counter += 1;
        let ticket = Ticket {
            id,
            title: ticket.title,
            description: ticket.description,
            status: Status::ToDo,
        };
        let ghost before = self.tickets@;
        self.tickets.push(ticket);
        proof {
            assert forall|i: int| 0 <= i < self.tickets@.len() implies #[trigger] self.tickets@[i].id.value() == i by {
                if i < before.len() {
                    assert(self.tickets@[i] == before[i]);
                }
            }
        }
        id
    }

    /// The first ticket numbered `id`, if any.
    pub fn get(&self, id: TicketId) -> (t: Option<&Ticket>)
        ensures
            match t {
                Some(t) => find_id(self@, id) == Some(*t),
                None => find_id(self@, id) is None,
            },
    {
        let mut i: usize = 0;
        assert(self.tickets@.skip(0) =~= self.tickets@);
        while i < self.tickets.len()
            invariant
                0 <= i <= self.tickets@.len(),
                find_id(self.tickets@, id) == find_id(self.tickets@.skip(i as int), id),
            decreases self.tickets@.len() - i,
        {
            assert(self.tickets@.skip(i as int).drop_first() =~= self.tickets@.skip(i + 1));
            if self.tickets[i].id == id {
                return Some(&self.tickets[i]);
            }
            i = i + 1;
        }
        None
    }
}

/// In a store whose tickets are numbered by their positions from `base` on,
/// the ticket numbered `id` is the one at position `id - base`.
pub proof fn lemma_find_numbered(tickets: Seq<Ticket>, base: int, id: TicketId)
    requires
        numbered_from(tickets, base),
    ensures
        find_id(tickets, id) == if base <= id.value() < base + tickets.len() {
            Some(tickets[id.value() - base])
        } else {
            None::<Ticket>
        },
    decreases tickets.len(),
{
    if tickets.len() > 0 {
        assert(numbered_from(tickets.drop_first(), base + 1)) by {
            assert forall|i: int| 0 <= i < tickets.drop_first().len() implies #[trigger] tickets.drop_first()[i].id.value() == base + 1 + i by {
                assert(tickets[i + 1].id.value() == base + i + 1);
            }
        }
        lemma_find_numbered(tickets.drop_first(), base + 1, id);
        assert(tickets[0].id.value() == base);
        if tickets[0].id != id {
            assert(tickets[0].id.value() != id.value());
        }
    }
}

/// In a well-formed store, looking a number up finds the ticket at that
/// position, and nothing for a number not yet given.
pub proof fn law_get_finds_position(store: &TicketStore, id: TicketId)
    requires
        store.wf(),
    ensures
        find_id(store@, id) == if (id.value() as int) < store@.len() {
            Some(store@[id.value() as int])
        } else {
            None::<Ticket>
        },
{
    lemma_find_numbered(store@, 0, id);
}

/// Every ticket of a well-formed store is numbered by its position.
pub proof fn lemma_ids_are_positions(store: &TicketStore)
    requires
        store.wf(),
    ensures
        numbered_from(store@, 0),
        forall|i: int| 0 <= i < store@.len() ==> #[trigger] store@[i].id.value() == i,
{
}

/// No two tickets of a well-formed store share a number.
pub proof fn law_ids_distinct(store: &TicketStore)
    requires
        store.wf(),
    ensures
        forall|i: int, j: int|
            0 <= i < j < store@.len() ==> #[trigger] store@[i].id != #[trigger] store@[j].id,
{
    assert forall|i: int, j: int| 0 <= i < j < store@.len() implies #[trigger] store@[i].id != #[trigger] store@[j].id by {
        assert(store@[i].id.value() == i);
        assert(store@[j].id.value() == j);
    }
}

/// A ticket added to a store is found under the number that adding it gave,
/// and every ticket found before is still found under its own number.
pub proof fn law_added_ticket_is_found(before: Seq<Ticket>, added: Ticket, other: TicketId)
    requires
        numbered_from(before, 0),
        added.id.value() == before.len(),
        other != added.id,
    ensures
        find_id(before.push(added), added.id) == Some(added),
        find_id(before.push(added), other) == find_id(before, other),
{
    let after = before.push(added);
    assert(numbered_from(after, 0)) by {
        assert forall|i: int| 0 <= i < after.len() implies #[trigger] after[i].id.value() == i by {
            if i < before.len() {
                assert(after[i] == before[i]);
            } else {
                assert(after[i] == added);
            }
        }
    }
    lemma_find_numbered(after, 0, added.id);
    lemma_find_numbered(after, 0, other);
    lemma_find_numbered(before, 0, other);
    if (other.value() as int) < before.len() {
        assert(after[other.value() as int] == before[other.value() as int]);
    }
    if other.value() == added.id.value() {
        assert(other == added.id);
    }
}

/// The ticket that adding `draft` makes, numbered `id`: still to do.
pub open spec fn ticket_from(id: TicketId, draft: TicketDraft) -> Ticket {
    Ticket { id, title: draft.title, description: draft.description, status: Status::ToDo }
}

/// In a store whose tickets began, at some point, with `before` and then the
/// ticket made from `draft` under the number `id` that adding it returned
/// (whatever was added after it), indexing the store by `id` or by `&id` is
/// allowed and gives that ticket: numbered `id`, with the draft's title and
/// description, still to do. Indexing by any number is allowed exactly when
/// the number is below the count of tickets stored.
pub proof fn law_index_after_add(
    store: &TicketStore,
    before: Seq<Ticket>,
    draft: TicketDraft,
    id: TicketId,
)
    requires
        store.wf(),
        id.value() == before.len(),
        before.len() < store@.len(),
        store@.subrange(0, before.len() + 1int) == before.push(ticket_from(id, draft)),
    ensures
        <TicketStore as vstd::std_specs::core::IndexSpec<TicketId>>::index_req(store, &id),
        <TicketStore as vstd::std_specs::core::IndexSpec<&TicketId>>::index_req(store, &&id),
        store@[id.value() as int] == ticket_from(id, draft),
        store@[id.value() as int].id == id,
        store@[id.value() as int].title == draft.title,
        store@[id.value() as int].description == draft.description,
        store@[id.value() as int].status == Status::ToDo,
        forall|other: TicketId|
            #[trigger] <TicketStore as vstd::std_specs::core::IndexSpec<TicketId>>::index_req(
                store,
                &other,
            ) <==> (other.value() as int) < store@.len(),
        forall|other: TicketId|
            #[trigger] <TicketStore as vstd::std_specs::core::IndexSpec<&TicketId>>::index_req(
                store,
                &&other,
            ) <==> (other.value() as int) < store@.len(),
{
    let added = before.push(ticket_from(id, draft));
    assert(store@[id.value() as int] == added[id.value() as int]);
}

impl Index<TicketId> for TicketStore {
    type Output = Ticket;

    /// The ticket at the position `index`.
    fn index(&self, index: TicketId) -> (t: &Self::Output)
        ensures
            *t == self@[index.value() as int],
    {
        let _len = self.tickets.len();
        &self.tickets[index.0 as usize]
    }
}

impl vstd::std_specs::core::IndexSpecImpl<TicketId> for TicketStore {
    open spec fn index_req(&self, index: &TicketId) -> bool {
        (index.value() as int) < self@.len()
    }
}

impl Index<&TicketId> for TicketStore {
    type Output = Ticket;

    /// The ticket at the position `index`.
    fn index(&self, index: &TicketId) -> (t: &Self::Output)
        ensures
            *t == self@[index.value() as int],
    {
        let _len = self.tickets.len();
        &self.tickets[index.0 as usize]
    }
}

impl vstd::std_specs::core::IndexSpecImpl<&TicketId> for TicketStore {
    open spec fn index_req(&self, index: &&TicketId) -> bool {
        (index.value() as int) < self@.len()
    }
}

} // verus!
