use vstd::prelude::*;

verus! {

/// A ticket: what is to be done, and how far it has got.
#[derive(Clone, Debug, PartialEq)]
pub struct Ticket {
    pub title: String,
    pub description: String,
    pub status: Status,
}

/// How far a ticket has got.
#[derive(Clone, Debug, Copy, PartialEq, Eq, Structural)]
pub enum Status {
    ToDo,
    InProgress,
    Done,
}

/// The tickets, in the order in which they were added.
#[derive(Clone)]
pub struct TicketStore {
    tickets: Vec<Ticket>,
}

impl View for TicketStore {
    type V = Seq<Ticket>;

    /// The tickets, oldest first.
    closed spec fn view(&self) -> Seq<Ticket> {
        self.tickets@
    }
}

impl TicketStore {
    /// A store with no ticket.
    pub fn new() -> (store: Self)
        ensures
            store@ == Seq::<Ticket>::empty(),
    {
        Self { tickets: Vec::new() }
    }

    /// Adds `ticket` after the tickets already stored.
    pub fn add_ticket(&mut self, ticket: Ticket)
        ensures
            final(self)@ == old(self)@.push(ticket),
    {
        self.tickets.push(ticket);
    }

    /// The tickets, oldest first, as an iterator that owns them.
    pub fn into_iter(self) -> (it: std::vec::IntoIter<Ticket>)
        ensures
            vstd::std_specs::vec::into_iter_elts(it) == self@,
    {
        self.tickets.into_iter()
    }
}

impl IntoIterator for TicketStore {
    type Item = Ticket;

    type IntoIter = std::vec::IntoIter<Ticket>;

    /// The tickets, oldest first.
    fn into_iter(self) -> (it: Self::IntoIter)
        ensures
            vstd::std_specs::vec::into_iter_elts(it) == self@,
    {
        self.tickets.into_iter()
    }
}

} // verus!
