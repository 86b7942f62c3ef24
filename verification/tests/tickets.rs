use scop::ticket_index::{self, TicketDraft};
use scop::ticket_store::{Status, Ticket, TicketStore};

fn ticket_title() -> String {
    "A title".to_string()
}

fn ticket_description() -> String {
    "A description".to_string()
}

#[test]
fn add_ticket() {
    let mut store = TicketStore::new();
    let mut added = Vec::new();

    let ticket = Ticket {
        title: ticket_title(),
        description: ticket_description(),
        status: Status::ToDo,
    };
    added.push(ticket.clone());
    store.add_ticket(ticket);

    let ticket = Ticket {
        title: ticket_title(),
        description: ticket_description(),
        status: Status::InProgress,
    };
    added.push(ticket.clone());
    store.add_ticket(ticket);

    let tickets: Vec<_> = store.clone().into_iter().collect();
    assert_eq!(tickets, added);
}

#[test]
fn store_iterates_in_insertion_order() {
    let mut store = TicketStore::new();
    for (i, status) in [Status::Done, Status::ToDo, Status::InProgress].into_iter().enumerate() {
        store.add_ticket(Ticket {
            title: format!("title {}", i),
            description: ticket_description(),
            status,
        });
    }
    let mut titles = Vec::new();
    for t in store {
        titles.push(t.title);
    }
    assert_eq!(titles, vec!["title 0", "title 1", "title 2"]);
    assert!(TicketStore::new().into_iter().next().is_none());
}

#[test]
fn works() {
    let mut store = ticket_index::TicketStore::new();

    let draft1 = TicketDraft {
        title: ticket_title(),
        description: ticket_description(),
    };
    let id1 = store.add_ticket(draft1.clone());
    let ticket1 = &store[id1];
    assert_eq!(draft1.title, ticket1.title);
    assert_eq!(draft1.description, ticket1.description);
    assert_eq!(ticket1.status, ticket_index::Status::ToDo);

    let draft2 = TicketDraft {
        title: ticket_title(),
        description: ticket_description(),
    };
    let id2 = store.add_ticket(draft2);
    let ticket2 = &store[&id2];
    assert_eq!(ticket2.id, id2);

    assert_ne!(id1, id2);
}

#[test]
fn get_finds_added_tickets_only() {
    let mut store = ticket_index::TicketStore::new();
    let id_a = store.add_ticket(TicketDraft { title: "a".to_string(), description: "first".to_string() });
    let id_b = store.add_ticket(TicketDraft { title: "b".to_string(), description: "second".to_string() });
    assert_eq!(store.get(id_a).map(|t| t.title.as_str()), Some("a"));
    assert_eq!(store.get(id_b).map(|t| t.description.as_str()), Some("second"));
    assert_eq!(store.get(id_b).map(|t| t.id), Some(id_b));

    let mut other = ticket_index::TicketStore::new();
    let _ = other.add_ticket(TicketDraft { title: "x".to_string(), description: "y".to_string() });
    let _ = other.add_ticket(TicketDraft { title: "x".to_string(), description: "y".to_string() });
    let id_c = other.add_ticket(TicketDraft { title: "x".to_string(), description: "y".to_string() });
    assert!(store.get(id_c).is_none());
    assert_eq!(store[id_b].title, "b");
}

#[test]
fn index_finds_a_ticket_after_later_additions() {
    let mut store = ticket_index::TicketStore::new();
    let _ = store.add_ticket(TicketDraft { title: "zero".to_string(), description: "0".to_string() });
    let id = store.add_ticket(TicketDraft { title: "one".to_string(), description: "1".to_string() });
    for k in 2..6 {
        let _ = store.add_ticket(TicketDraft { title: format!("t{}", k), description: k.to_string() });
    }
    let by_value = store[id].clone();
    let by_ref = store[&id].clone();
    assert_eq!(by_value, by_ref);
    assert_eq!(by_value.id, id);
    assert_eq!(by_value.title, "one");
    assert_eq!(by_value.description, "1");
    assert_eq!(by_value.status, ticket_index::Status::ToDo);
}
